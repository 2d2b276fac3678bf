//! What holds of signing and verifying taken together.

use vstd::prelude::*;

use crate::account::{
    Account, AccountRef, Error, GuaranteeSigned, GuarantorSigned, Metadata, Signer, Verifier,
};
use crate::codec::Canonical;

verus! {

/// A record that an account has just signed as guarantee verifies, with no
/// expected guarantor and with the guarantor its payload names.
pub proof fn lemma_guarantee_round_trip<T: Canonical>(
    account: Account,
    data: Metadata<T>,
    record: GuaranteeSigned<T>,
)
    requires
        record.signed_from(account, data),
    ensures
        record.verdict(None) == Ok::<(), Error>(()),
        record.verdict(Some(data.guarantor)) == Ok::<(), Error>(()),
{
}

/// A record signed as guarantee and then endorsed by the guarantor it names
/// verifies, with no expected guarantor and with that guarantor.
pub proof fn lemma_guarantor_round_trip<T: Canonical>(
    guarantee: Account,
    guarantor: Account,
    data: Metadata<T>,
    inner: GuaranteeSigned<T>,
    record: GuarantorSigned<T>,
)
    requires
        inner.signed_from(guarantee, data),
        GuarantorSigned::<T>::sign_succeeds(guarantor, inner),
        record.signed_from(guarantor, inner),
    ensures
        record.verdict(None) == Ok::<(), Error>(()),
        record.verdict(Some(guarantor.public_ref())) == Ok::<(), Error>(()),
{
}

/// Any account may sign a payload as guarantee; only the account that the
/// payload names may endorse the result, and that account always may.
pub proof fn lemma_guarantor_binding<T: Canonical>(
    a: Account,
    b: Account,
    data: Metadata<T>,
    inner: GuaranteeSigned<T>,
)
    requires
        a.public_ref()@ != b.public_ref()@,
        data.guarantor@ == a.public_ref()@,
        inner.signed_from(a, data),
    ensures
        GuaranteeSigned::<T>::sign_succeeds(a, data),
        !GuarantorSigned::<T>::sign_succeeds(b, inner),
        GuarantorSigned::<T>::sign_succeeds(a, inner),
{
}

/// An endorsement by any account other than the declared guarantor is
/// rejected as a guarantor mismatch, whatever guarantor is expected.
pub proof fn lemma_foreign_endorsement_rejected<T: Canonical>(
    record: GuarantorSigned<T>,
    expected: Option<AccountRef>,
)
    requires
        record.guarantor.account@ != record.data.data.guarantor@,
    ensures
        record.verdict(expected) == Err::<(), Error>(Error::GuarantorMismatch),
{
}

/// A record verifies exactly when the endorser is the declared guarantor,
/// the outer signature covers the whole inner record and the inner
/// signature covers the payload record, and, where a guarantor is
/// expected, it is the declared one.
pub proof fn lemma_accepted_records<T: Canonical>(
    record: GuarantorSigned<T>,
    expected: Option<AccountRef>,
)
    ensures
        record.verdict(expected) is Ok <==> {
            &&& record.guarantor.account@ == record.data.data.guarantor@
            &&& record.guarantor.signs(record.data.canonical())
            &&& record.data.guarantee.signs(record.data.data.canonical())
            &&& (expected is Some ==> expected->Some_0@ == record.data.data.guarantor@)
        },
{
}

/// With an expected guarantor other than the declared one, verification
/// fails with a guarantor mismatch; with the declared one, it gives what it
/// gives with none expected.
pub proof fn lemma_expected_guarantor_filter<T: Canonical>(
    record: GuarantorSigned<T>,
    x: AccountRef,
)
    ensures
        x@ != record.data.data.guarantor@ ==> record.verdict(Some(x)) is Err,
        x@ != record.data.data.guarantor@ && record.guarantor.account@ == record.data.data.guarantor@
            && record.guarantor.signs(record.data.canonical())
            ==> record.verdict(Some(x)) == Err::<(), Error>(Error::GuarantorMismatch),
        x@ == record.data.data.guarantor@ ==> record.verdict(Some(x)) == record.verdict(None),
{
}

/// Changing the declared guarantor or the payload's bytes changes the bytes
/// that the guarantee signs.
pub proof fn lemma_payload_bytes_bind<T: Canonical>(m1: Metadata<T>, m2: Metadata<T>)
    requires
        m1.guarantor@ != m2.guarantor@ || m1.payload.canonical() != m2.payload.canonical(),
    ensures
        m1.canonical() != m2.canonical(),
{
    if m1.canonical() == m2.canonical() {
        assert(m1.guarantor@ =~= m1.canonical().subrange(0, 32));
        assert(m2.guarantor@ =~= m2.canonical().subrange(0, 32));
        assert(m1.payload.canonical() =~= m1.canonical().subrange(32, m1.canonical().len() as int));
        assert(m2.payload.canonical() =~= m2.canonical().subrange(32, m2.canonical().len() as int));
    }
}

/// Changing the guarantee's account, its signature or the payload record
/// changes the bytes that the guarantor signs.
pub proof fn lemma_guarantee_bytes_bind<T: Canonical>(g1: GuaranteeSigned<T>, g2: GuaranteeSigned<T>)
    requires
        g1.guarantee.account@ != g2.guarantee.account@
            || g1.guarantee.signature@ != g2.guarantee.signature@
            || g1.data.canonical() != g2.data.canonical(),
    ensures
        g1.canonical() != g2.canonical(),
{
    if g1.canonical() == g2.canonical() {
        let c1 = g1.canonical();
        let c2 = g2.canonical();
        assert(g1.guarantee.account@ =~= c1.subrange(0, 32));
        assert(g2.guarantee.account@ =~= c2.subrange(0, 32));
        assert(g1.guarantee.signature@ =~= c1.subrange(32, 96));
        assert(g2.guarantee.signature@ =~= c2.subrange(32, 96));
        assert(g1.data.canonical() =~= c1.subrange(96, c1.len() as int));
        assert(g2.data.canonical() =~= c2.subrange(96, c2.len() as int));
    }
}

/// Logically equal payload records have the same canonical bytes.
pub proof fn lemma_canonical_deterministic(m1: Metadata<Vec<u8>>, m2: Metadata<Vec<u8>>)
    requires
        m1.guarantor@ == m2.guarantor@,
        m1.payload@ == m2.payload@,
    ensures
        m1.canonical() == m2.canonical(),
{
}

} // verus!
