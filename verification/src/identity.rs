//! Identities on the ledger.

use vstd::prelude::*;
use crate::bytes::bytes_equal;

verus! {

/// Number of bytes in an identity.
pub const IDENTITY_BYTES: usize = 32;

/// The address of a signer or of an account on the ledger: 32 raw bytes.
///
/// The identity of all zero bytes stands for "nobody": a parking area that
/// has never been leased is held by it.
#[derive(Clone, Copy, Debug)]
pub struct Identity {
    pub bytes: [u8; 32],
}

impl View for Identity {
    type V = Seq<u8>;

    open spec fn view(&self) -> Seq<u8> {
        self.bytes@
    }
}

/// The 32 zero bytes that stand for "nobody".
pub open spec fn unset_identity() -> Seq<u8> {
    Seq::new(32, |i: int| 0u8)
}

impl Identity {
    /// The identity made of the given bytes.
    pub fn new(bytes: [u8; 32]) -> (identity: Identity)
        ensures
            identity@ == bytes@,
            identity.bytes == bytes,
    {
        Identity { bytes }
    }

    /// The identity that stands for "nobody".
    pub fn unset() -> (identity: Identity)
        ensures
            identity@ == unset_identity(),
    {
        let identity = Identity { bytes: [0u8; 32] };
        assert(identity@ =~= unset_identity());
        identity
    }

    /// Whether this is the identity that stands for "nobody".
    pub fn is_unset(&self) -> (unset: bool)
        ensures
            unset == (self@ == unset_identity()),
    {
        let zero = Identity::unset();
        bytes_equal(&self.bytes, &zero.bytes)
    }

    /// The bytes of this identity.
    pub fn to_bytes(&self) -> (bytes: [u8; 32])
        ensures
            bytes@ == self@,
            bytes == self.bytes,
    {
        self.bytes
    }
}

impl PartialEq for Identity {
    fn eq(&self, other: &Self) -> (same: bool) {
        bytes_equal(&self.bytes, &other.bytes)
    }
}

impl Eq for Identity {

}

impl vstd::std_specs::cmp::PartialEqSpecImpl for Identity {
    open spec fn obeys_eq_spec() -> bool {
        true
    }

    open spec fn eq_spec(&self, other: &Self) -> bool {
        self@ == other@
    }
}

} // verus!
