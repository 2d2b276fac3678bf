//! Two-party attestations: a payload signed by one account (the guarantee)
//! and endorsed by the account that the payload names (the guarantor).

pub mod account;
pub mod codec;
pub mod laws;
pub mod signature;

pub use account::{
    Account, AccountRef, Error, GuaranteeSigned, GuarantorSigned, Identity, Metadata, Signer,
    Verifier,
};
pub use codec::Canonical;
