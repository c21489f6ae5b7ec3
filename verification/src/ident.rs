//! Opaque identifiers: who takes part in a session, and which message is meant.
//!
//! Both kinds of identifier are 32 raw bytes that the hosting runtime hands
//! out. The library never looks inside them; it only compares them.

use vstd::prelude::*;
use vstd::std_specs::cmp::PartialEqSpecImpl;

verus! {

/// Number of bytes in every identifier.
pub const ID_BYTES: usize = 32;

/// Two byte arrays are the same value exactly when their views agree.
pub proof fn lemma_bytes_equal_iff_views_equal(a: [u8; 32], b: [u8; 32])
    ensures
        (a == b) <==> (a@ == b@),
{
    if a@ == b@ {
        assert forall|i: int| 0 <= i < 32 implies a[i] == b[i] by {
            assert(a@[i] == b@[i]);
        }
        assert(a =~= b);
    }
}

/// Compares two identifiers' bytes.
pub fn bytes_equal(a: &[u8; 32], b: &[u8; 32]) -> (same: bool)
    ensures
        same == (*a == *b),
{
    let mut i: usize = 0;
    while i < ID_BYTES
        invariant
            i <= ID_BYTES,
            forall|j: int| 0 <= j < i ==> a@[j] == b@[j],
        decreases ID_BYTES - i,
    {
        if a[i] != b[i] {
            proof {
                lemma_bytes_equal_iff_views_equal(*a, *b);
            }
            return false;
        }
        i += 1;
    }
    proof {
        assert(a@ =~= b@);
        lemma_bytes_equal_iff_views_equal(*a, *b);
    }
    true
}

/// Whether every byte is zero.
pub fn bytes_all_zero(a: &[u8; 32]) -> (zero: bool)
    ensures
        zero == (forall|j: int| 0 <= j < 32 ==> a@[j] == 0),
{
    let mut i: usize = 0;
    while i < ID_BYTES
        invariant
            i <= ID_BYTES,
            forall|j: int| 0 <= j < i ==> a@[j] == 0,
        decreases ID_BYTES - i,
    {
        if a[i] != 0 {
            return false;
        }
        i += 1;
    }
    true
}

/// Identity of a participant: a user, the remote word-checking service, or
/// this process itself.
#[derive(Clone, Copy, Debug, Hash)]
pub struct Identity {
    pub bytes: [u8; 32],
}

impl Identity {
    /// The identity with the given bytes.
    pub fn new(bytes: [u8; 32]) -> (id: Identity)
        ensures
            id.bytes == bytes,
    {
        Identity { bytes }
    }

    /// The bytes of this identity.
    pub fn into_bytes(self) -> (bytes: [u8; 32])
        ensures
            bytes == self.bytes,
    {
        self.bytes
    }

    /// The all-zero identity names nobody.
    pub open spec fn spec_is_zero(self) -> bool {
        forall|j: int| 0 <= j < 32 ==> self.bytes@[j] == 0
    }

    /// Whether this is the all-zero identity.
    #[verifier::when_used_as_spec(spec_is_zero)]
    pub fn is_zero(self) -> (zero: bool)
        ensures
            zero == self.spec_is_zero(),
    {
        bytes_all_zero(&self.bytes)
    }
}

impl PartialEq for Identity {
    fn eq(&self, other: &Identity) -> (same: bool) {
        bytes_equal(&self.bytes, &other.bytes)
    }
}

impl Eq for Identity {

}

impl PartialEqSpecImpl for Identity {
    open spec fn obeys_eq_spec() -> bool {
        true
    }

    open spec fn eq_spec(&self, other: &Identity) -> bool {
        *self == *other
    }
}

/// Identifier of one message: an inbound invocation, or a request sent out.
#[derive(Clone, Copy, Debug, Hash)]
pub struct CorrelationId {
    pub bytes: [u8; 32],
}

impl CorrelationId {
    /// The identifier with the given bytes.
    pub fn new(bytes: [u8; 32]) -> (id: CorrelationId)
        ensures
            id.bytes == bytes,
    {
        CorrelationId { bytes }
    }

    /// The bytes of this identifier.
    pub fn into_bytes(self) -> (bytes: [u8; 32])
        ensures
            bytes == self.bytes,
    {
        self.bytes
    }

    /// The all-zero identifier, held by a record that has not recorded one yet.
    pub open spec fn spec_zero() -> CorrelationId {
        CorrelationId { bytes: vstd::array::spec_array_fill_for_copy_type::<u8, 32>(0u8) }
    }

    /// The all-zero identifier.
    #[verifier::when_used_as_spec(spec_zero)]
    pub fn zero() -> (id: CorrelationId)
        ensures
            id == CorrelationId::spec_zero(),
            forall|j: int| 0 <= j < 32 ==> id.bytes@[j] == 0,
    {
        CorrelationId { bytes: [0u8; 32] }
    }
}

impl PartialEq for CorrelationId {
    fn eq(&self, other: &CorrelationId) -> (same: bool) {
        bytes_equal(&self.bytes, &other.bytes)
    }
}

impl Eq for CorrelationId {

}

impl PartialEqSpecImpl for CorrelationId {
    open spec fn obeys_eq_spec() -> bool {
        true
    }

    open spec fn eq_spec(&self, other: &CorrelationId) -> bool {
        *self == *other
    }
}

} // verus!
