//! Addresses of canisters and identities.
use vstd::prelude::*;
use crate::text::{bytes_copy, bytes_eq};

verus! {

/// The address of a canister or of an identity, as its raw bytes.
#[derive(Debug, PartialEq, Eq)]
pub struct Principal {
    pub bytes: Vec<u8>,
}

impl View for Principal {
    type V = Seq<u8>;

    open spec fn view(&self) -> Seq<u8> {
        self.bytes@
    }
}

impl Clone for Principal {
    fn clone(&self) -> (r: Self)
        ensures
            r@ == self@,
    {
        Principal { bytes: bytes_copy(&self.bytes) }
    }
}

/// The address that a textual form denotes, where it denotes one: the result of
/// `candid::Principal::from_text`.
pub uninterp spec fn principal_of_text(text: Seq<char>) -> Option<Seq<u8>>;

/// The textual form of an address, where it has one: what `candid::Principal`
/// writes for these bytes.
pub uninterp spec fn text_of_principal(bytes: Seq<u8>) -> Option<Seq<char>>;

impl Principal {
    /// Whether two addresses are the same.
    pub fn same(&self, other: &Principal) -> (r: bool)
        ensures
            r == (self@ == other@),
    {
        bytes_eq(&self.bytes, &other.bytes)
    }

    /// Calls `candid::Principal::from_text`. The contract claims that the outcome
    /// depends on the text alone.
    #[verifier::external_body]
    pub(crate) fn from_text(text: &str) -> (r: Option<Principal>)
        ensures
            r matches Some(p) ==> principal_of_text(text@) == Some(p@),
            r is None ==> principal_of_text(text@) is None,
    {
        match candid::Principal::from_text(text) {
            Ok(p) => Some(Principal { bytes: p.as_slice().to_vec() }),
            Err(_) => None,
        }
    }

    /// Calls `candid::Principal::try_from_slice` and then `to_text`; there is no
    /// text where the bytes are too many for an address. The contract claims that
    /// the outcome depends on the bytes alone.
    #[verifier::external_body]
    pub(crate) fn to_text(&self) -> (r: Option<String>)
        ensures
            r matches Some(s) ==> text_of_principal(self@) == Some(s@),
            r is None ==> text_of_principal(self@) is None,
    {
        match candid::Principal::try_from_slice(&self.bytes) {
            Ok(p) => Some(p.to_text()),
            Err(_) => None,
        }
    }

    /// Calls `candid::Principal::anonymous`: the address of the anonymous
    /// identity is the single byte 4.
    #[verifier::external_body]
    pub(crate) fn anonymous() -> (r: Principal)
        ensures
            r@ == seq![4u8],
    {
        Principal { bytes: candid::Principal::anonymous().as_slice().to_vec() }
    }
}

} // verus!
