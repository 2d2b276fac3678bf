//! Accounts, attestations and the two layers of signed records.

use vstd::prelude::*;

use vstd::slice::{slice_subrange, slice_to_vec};

use crate::codec::Canonical;
use crate::signature::{
    fresh_secret_key, public_key_for, public_key_of, sign_message, signature_of,
    signature_valid, verify_message,
};

verus! {

/// Why an operation on a signed record failed.
#[derive(Clone, Copy, Debug, PartialEq, Eq, Structural)]
pub enum Error {
    /// An attesting or verifying account is not the guarantor that the
    /// payload declares.
    GuarantorMismatch,
    /// A signature does not verify over the canonical bytes it should cover.
    SignatureInvalid,
    /// Bytes do not have the shape of the record they should hold.
    LayoutInvalid,
}

/// A public identity handle: an Ed25519 public key.
#[derive(Clone, Copy, Debug, Eq, PartialOrd, Ord, Hash)]
pub struct AccountRef {
    pub public_key: [u8; 32],
}

impl View for AccountRef {
    type V = Seq<u8>;

    open spec fn view(&self) -> Seq<u8> {
        self.public_key@
    }
}

impl PartialEq for AccountRef {
    fn eq(&self, other: &AccountRef) -> (r: bool) {
        let mut i: usize = 0;
        while i < 32
            invariant
                i <= 32,
                self.public_key@.len() == 32,
                other.public_key@.len() == 32,
                self.public_key@.subrange(0, i as int) == other.public_key@.subrange(0, i as int),
            decreases 32 - i,
        {
            if self.public_key[i] != other.public_key[i] {
                proof {
                    assert(self.public_key@[i as int] != other.public_key@[i as int]);
                }
                return false;
            }
            proof {
                assert(self.public_key@.subrange(0, i + 1) =~= self.public_key@.subrange(0, i as int).push(self.public_key@[i as int]));
                assert(other.public_key@.subrange(0, i + 1) =~= other.public_key@.subrange(0, i as int).push(other.public_key@[i as int]));
            }
            i += 1;
        }
        proof {
            assert(self.public_key@ =~= self.public_key@.subrange(0, 32));
            assert(other.public_key@ =~= other.public_key@.subrange(0, 32));
        }
        true
    }
}

impl vstd::std_specs::cmp::PartialEqSpecImpl for AccountRef {
    open spec fn obeys_eq_spec() -> bool {
        true
    }

    open spec fn eq_spec(&self, other: &AccountRef) -> bool {
        self@ == other@
    }
}


/// What checking `signature` over `message` under `public_key` gives.
pub open spec fn signature_check(public_key: Seq<u8>, message: Seq<u8>, signature: Seq<u8>) -> Result<(), Error> {
    if signature_valid(public_key, message, signature) {
        Ok(())
    } else {
        Err(Error::SignatureInvalid)
    }
}

/// Copies `N` bytes of `bytes`, from `start` on, into an array.
fn read_array<const N: usize>(bytes: &[u8], start: usize) -> (r: [u8; N])
    requires
        start + N <= bytes@.len(),
    ensures
        r@ == bytes@.subrange(start as int, start + N),
{
    let mut out: [u8; N] = [0u8; N];
    let len = bytes.len();
    let mut i: usize = 0;
    while i < N
        invariant
            i <= N,
            len == bytes@.len(),
            start + N <= bytes@.len(),
            out@.len() == N,
            forall|j: int| 0 <= j < i ==> out@[j] == bytes@[start + j],
        decreases N - i,
    {
        out[i] = bytes[start + i];
        i += 1;
    }
    proof {
        assert(out@ =~= bytes@.subrange(start as int, start + N));
    }
    out
}

/// One attestation: an account and its signature over some canonical bytes.
#[derive(Clone, Copy, Debug, PartialEq, Eq, PartialOrd, Ord, Hash)]
pub struct Identity {
    pub account: AccountRef,
    pub signature: [u8; 64],
}

impl Identity {
    /// The signature verifies over `message` under the attesting account's key.
    pub open spec fn signs(self, message: Seq<u8>) -> bool {
        signature_valid(self.account@, message, self.signature@)
    }

    /// This attestation is the one that `account` makes over `message`.
    pub open spec fn made_by(self, account: Account, message: Seq<u8>) -> bool {
        &&& self.account == account.public_ref()
        &&& self.signature@ == signature_of(account.secret_key(), message)
        &&& self.signs(message)
    }

    /// What checking this attestation against `message` gives.
    pub open spec fn check(self, message: Seq<u8>) -> Result<(), Error> {
        signature_check(self.account@, message, self.signature@)
    }

    /// Checks the signature against the canonical bytes of `data`.
    pub fn verify<T: Canonical>(&self, data: &T) -> (r: Result<(), Error>)
        ensures
            r == self.check(data.canonical()),
    {
        let bytes = data.canonical_bytes();
        self.verify_archived(bytes.as_slice())
    }

    /// Reads an attestation back from its canonical bytes; input of any
    /// other length is rejected before a field is read.
    pub fn from_archived(bytes: &[u8]) -> (r: Result<Identity, Error>)
        ensures
            r is Ok <==> bytes@.len() == 96,
            r matches Ok(id) ==> id.canonical() == bytes@,
            r matches Err(e) ==> e == Error::LayoutInvalid,
    {
        if bytes.len() != 96 {
            return Err(Error::LayoutInvalid);
        }
        let public_key: [u8; 32] = read_array(bytes, 0);
        let signature: [u8; 64] = read_array(bytes, 32);
        let id = Identity { account: AccountRef { public_key }, signature };
        proof {
            assert(id.canonical() =~= bytes@);
        }
        Ok(id)
    }

    /// Checks an attestation held as canonical bytes against `message`:
    /// first its layout, then its signature.
    pub fn verify_encoded(encoded: &[u8], message: &[u8]) -> (r: Result<(), Error>)
        ensures
            encoded@.len() != 96 ==> r == Err::<(), Error>(Error::LayoutInvalid),
            encoded@.len() == 96 ==> r == signature_check(encoded@.subrange(0, 32), message@, encoded@.subrange(32, 96)),
    {
        match Identity::from_archived(encoded) {
            Ok(id) => {
                proof {
                    assert(id.account@ =~= encoded@.subrange(0, 32));
                    assert(id.signature@ =~= encoded@.subrange(32, 96));
                }
                id.verify_archived(message)
            },
            Err(e) => Err(e),
        }
    }

    /// Checks the signature against bytes that are already canonical.
    pub fn verify_archived(&self, data: &[u8]) -> (r: Result<(), Error>)
        ensures
            r == self.check(data@),
    {
        if verify_message(&self.account.public_key, data, &self.signature) {
            Ok(())
        } else {
            Err(Error::SignatureInvalid)
        }
    }
}

/// The account's key, then the signature.
impl Canonical for Identity {
    open spec fn canonical(&self) -> Seq<u8> {
        self.account@ + self.signature@
    }

    fn canonical_bytes(&self) -> (r: Vec<u8>) {
        let mut out: Vec<u8> = Vec::new();
        out.extend_from_slice(self.account.public_key.as_slice());
        out.extend_from_slice(self.signature.as_slice());
        proof {
            assert(out@ =~= self.canonical());
        }
        out
    }
}

/// A private credential holder: an Ed25519 secret key and its public key.
pub struct Account {
    secret: [u8; 32],
    public: AccountRef,
}

impl Account {
    /// The public key is the one that belongs to the secret key.
    #[verifier::type_invariant]
    spec fn keys_match(&self) -> bool {
        self.public@ == public_key_of(self.secret@)
    }

    /// The secret key.
    pub closed spec fn secret_key(&self) -> Seq<u8> {
        self.secret@
    }

    /// The account's public identity.
    pub closed spec fn public_ref(&self) -> AccountRef {
        self.public
    }

    /// Creates an account with a fresh random key pair.
    pub fn generate() -> (r: Account)
        ensures
            r.public_ref()@ == public_key_of(r.secret_key()),
    {
        let secret = fresh_secret_key();
        let public = AccountRef { public_key: public_key_for(&secret) };
        Account { secret, public }
    }

    /// The account's public identity.
    pub fn account_ref(&self) -> (r: AccountRef)
        ensures
            r == self.public_ref(),
    {
        self.public
    }

    /// Attests `data`: signs its canonical bytes with the secret key.
    pub fn sign<T: Canonical>(&self, data: &T) -> (r: Identity)
        ensures
            r.made_by(*self, data.canonical()),
    {
        proof {
            use_type_invariant(self);
        }
        let bytes = data.canonical_bytes();
        let signature = sign_message(&self.secret, bytes.as_slice());
        Identity { account: self.public, signature }
    }
}


/// A payload together with the account expected to endorse it.
#[derive(Clone, Copy, Debug, PartialEq, Eq, PartialOrd, Ord, Hash)]
pub struct Metadata<T> {
    pub guarantor: AccountRef,
    pub payload: T,
}

/// The guarantor's key, then the payload's canonical bytes.
impl<T: Canonical> Canonical for Metadata<T> {
    open spec fn canonical(&self) -> Seq<u8> {
        self.guarantor@ + self.payload.canonical()
    }

    fn canonical_bytes(&self) -> (r: Vec<u8>) {
        let mut out: Vec<u8> = Vec::new();
        out.extend_from_slice(self.guarantor.public_key.as_slice());
        let mut rest = self.payload.canonical_bytes();
        out.append(&mut rest);
        proof {
            assert(out@ =~= self.canonical());
        }
        out
    }
}

/// A payload signed by one account: the guarantee layer.
#[derive(Clone, Copy, Debug, PartialEq, Eq, PartialOrd, Ord, Hash)]
pub struct GuaranteeSigned<T> {
    pub guarantee: Identity,
    pub data: Metadata<T>,
}

/// The guarantee's canonical bytes, then the payload record's bytes.
impl<T: Canonical> Canonical for GuaranteeSigned<T> {
    open spec fn canonical(&self) -> Seq<u8> {
        self.guarantee.canonical() + self.data.canonical()
    }

    fn canonical_bytes(&self) -> (r: Vec<u8>) {
        let mut out = self.guarantee.canonical_bytes();
        let mut rest = self.data.canonical_bytes();
        out.append(&mut rest);
        proof {
            assert(out@ =~= self.canonical());
        }
        out
    }
}

/// A guarantee-signed record endorsed by a second account: the guarantor layer.
#[derive(Clone, Copy, Debug, PartialEq, Eq, PartialOrd, Ord, Hash)]
pub struct GuarantorSigned<T> {
    pub guarantor: Identity,
    pub data: GuaranteeSigned<T>,
}

/// Builds a signed record of type `Self` out of a value of type `T`.
pub trait Signer<T>: Sized {
    /// Whether `account` may sign `data`.
    spec fn sign_succeeds(account: Account, data: T) -> bool;

    /// `self` is the record that `account` makes out of `data`.
    spec fn signed_from(self, account: Account, data: T) -> bool;

    /// Signs `data` with `account`.
    fn sign(account: &Account, data: T) -> (r: Result<Self, Error>)
        ensures
            r is Ok <==> Self::sign_succeeds(*account, data),
            r matches Ok(s) ==> s.signed_from(*account, data),
            r matches Err(e) ==> e == Error::GuarantorMismatch,
    ;
}

/// Checks a signed record.
pub trait Verifier {
    /// What verifying the record gives, with an optional expected guarantor.
    spec fn verdict(&self, guarantor: Option<AccountRef>) -> Result<(), Error>;

    /// Verifies the record; with `Some(x)`, also that `x` is its guarantor.
    fn verify(&self, guarantor: Option<AccountRef>) -> (r: Result<(), Error>)
        ensures
            r == self.verdict(guarantor),
    ;
}

impl<T: Canonical> Signer<Metadata<T>> for GuaranteeSigned<T> {
    open spec fn sign_succeeds(account: Account, data: Metadata<T>) -> bool {
        true
    }

    open spec fn signed_from(self, account: Account, data: Metadata<T>) -> bool {
        &&& self.data == data
        &&& self.guarantee.made_by(account, data.canonical())
    }

    fn sign(account: &Account, data: Metadata<T>) -> (r: Result<Self, Error>) {
        let guarantee = account.sign(&data);
        Ok(GuaranteeSigned { guarantee, data })
    }
}

impl<T: Canonical> Verifier for GuaranteeSigned<T> {
    open spec fn verdict(&self, guarantor: Option<AccountRef>) -> Result<(), Error> {
        if guarantor is Some && guarantor->Some_0@ != self.data.guarantor@ {
            Err(Error::GuarantorMismatch)
        } else {
            self.guarantee.check(self.data.canonical())
        }
    }

    fn verify(&self, guarantor: Option<AccountRef>) -> (r: Result<(), Error>) {
        if let Some(expected) = guarantor {
            if !(self.data.guarantor == expected) {
                return Err(Error::GuarantorMismatch);
            }
        }
        self.guarantee.verify(&self.data)
    }
}

impl<T: Canonical> Signer<GuaranteeSigned<T>> for GuarantorSigned<T> {
    open spec fn sign_succeeds(account: Account, data: GuaranteeSigned<T>) -> bool {
        account.public_ref()@ == data.data.guarantor@
    }

    open spec fn signed_from(self, account: Account, data: GuaranteeSigned<T>) -> bool {
        &&& self.data == data
        &&& self.guarantor.made_by(account, data.canonical())
    }

    fn sign(account: &Account, data: GuaranteeSigned<T>) -> (r: Result<Self, Error>) {
        if !(account.account_ref() == data.data.guarantor) {
            return Err(Error::GuarantorMismatch);
        }
        let guarantor = account.sign(&data);
        Ok(GuarantorSigned { guarantor, data })
    }
}

impl<T: Canonical> Verifier for GuarantorSigned<T> {
    open spec fn verdict(&self, guarantor: Option<AccountRef>) -> Result<(), Error> {
        if self.guarantor.account@ != self.data.data.guarantor@ {
            Err(Error::GuarantorMismatch)
        } else if !self.guarantor.signs(self.data.canonical()) {
            Err(Error::SignatureInvalid)
        } else {
            self.data.verdict(guarantor)
        }
    }

    fn verify(&self, guarantor: Option<AccountRef>) -> (r: Result<(), Error>) {
        if !(self.guarantor.account == self.data.data.guarantor) {
            return Err(Error::GuarantorMismatch);
        }
        match self.guarantor.verify(&self.data) {
            Ok(()) => self.data.verify(guarantor),
            Err(e) => Err(e),
        }
    }
}


impl GuaranteeSigned<Vec<u8>> {
    /// Reads a record with a byte payload back from its canonical bytes;
    /// input too short for the fixed fields is rejected before a field is
    /// read.
    pub fn from_archived(bytes: &[u8]) -> (r: Result<Self, Error>)
        ensures
            r is Ok <==> bytes@.len() >= 128,
            r matches Ok(g) ==> g.canonical() == bytes@,
            r matches Err(e) ==> e == Error::LayoutInvalid,
    {
        let len = bytes.len();
        if len < 128 {
            return Err(Error::LayoutInvalid);
        }
        let guarantee = match Identity::from_archived(slice_subrange(bytes, 0, 96)) {
            Ok(id) => id,
            Err(e) => return Err(e),
        };
        let public_key: [u8; 32] = read_array(bytes, 96);
        let payload = slice_to_vec(slice_subrange(bytes, 128, len));
        let g = GuaranteeSigned {
            guarantee,
            data: Metadata { guarantor: AccountRef { public_key }, payload },
        };
        proof {
            assert(g.canonical() =~= bytes@);
        }
        Ok(g)
    }
}

impl GuarantorSigned<Vec<u8>> {
    /// Reads an endorsed record with a byte payload back from its canonical
    /// bytes; input too short for the fixed fields is rejected before a
    /// field is read.
    pub fn from_archived(bytes: &[u8]) -> (r: Result<Self, Error>)
        ensures
            r is Ok <==> bytes@.len() >= 224,
            r matches Ok(g) ==> g.canonical() == bytes@,
            r matches Err(e) ==> e == Error::LayoutInvalid,
    {
        let len = bytes.len();
        if len < 224 {
            return Err(Error::LayoutInvalid);
        }
        let guarantor = match Identity::from_archived(slice_subrange(bytes, 0, 96)) {
            Ok(id) => id,
            Err(e) => return Err(e),
        };
        let data = match GuaranteeSigned::<Vec<u8>>::from_archived(slice_subrange(bytes, 96, len)) {
            Ok(g) => g,
            Err(e) => return Err(e),
        };
        let g = GuarantorSigned { guarantor, data };
        proof {
            assert(g.canonical() =~= bytes@);
        }
        Ok(g)
    }
}

/// The endorsement's canonical bytes, then the inner record's.
impl<T: Canonical> Canonical for GuarantorSigned<T> {
    open spec fn canonical(&self) -> Seq<u8> {
        self.guarantor.canonical() + self.data.canonical()
    }

    fn canonical_bytes(&self) -> (r: Vec<u8>) {
        let mut out = self.guarantor.canonical_bytes();
        let mut rest = self.data.canonical_bytes();
        out.append(&mut rest);
        out
    }
}

/// A borrowed record verifies as the record itself.
impl<'a, V: Verifier> Verifier for &'a V {
    open spec fn verdict(&self, guarantor: Option<AccountRef>) -> Result<(), Error> {
        (**self).verdict(guarantor)
    }

    fn verify(&self, guarantor: Option<AccountRef>) -> (r: Result<(), Error>) {
        (**self).verify(guarantor)
    }
}

/// A boxed record verifies as the record itself.
impl<V: Verifier> Verifier for Box<V> {
    open spec fn verdict(&self, guarantor: Option<AccountRef>) -> Result<(), Error> {
        (**self).verdict(guarantor)
    }

    fn verify(&self, guarantor: Option<AccountRef>) -> (r: Result<(), Error>) {
        (**self).verify(guarantor)
    }
}

} // verus!
