use vstd::prelude::*;

verus! {

/// The identity of a user or a canister, held as the raw bytes of the
/// principal (what `candid::Principal::as_slice` gives).
#[derive(Debug, PartialEq, Eq, Hash)]
pub struct Principal {
    pub bytes: Vec<u8>,
}

impl View for Principal {
    type V = Seq<u8>;

    open spec fn view(&self) -> Seq<u8> {
        self.bytes@
    }
}

/// The bytes of the anonymous principal.
pub open spec fn anonymous_bytes() -> Seq<u8> {
    seq![4u8]
}

/// `candid::Principal::anonymous`, taken as its bytes.
/// Claimed: the anonymous principal is the one byte 0x04 (its source builds it
/// from the one-byte slice `[ANONYMOUS_TAG]`, where the tag is 4).
#[verifier::external_body]
fn candid_anonymous_bytes() -> (r: Vec<u8>)
    ensures
        r@ == anonymous_bytes(),
{
    candid::Principal::anonymous().as_slice().to_vec()
}

impl Principal {
    /// The principal with the given bytes.
    pub fn from_bytes(bytes: Vec<u8>) -> (p: Principal)
        ensures
            p@ == bytes@,
    {
        Principal { bytes }
    }

    /// The anonymous principal.
    pub fn anonymous() -> (p: Principal)
        ensures
            p@ == anonymous_bytes(),
    {
        Principal { bytes: candid_anonymous_bytes() }
    }

    /// Whether two principals are the same: their bytes agree.
    pub fn same(&self, other: &Principal) -> (r: bool)
        ensures
            r == (self@ == other@),
    {
        let n: usize = self.bytes.len();
        if n != other.bytes.len() {
            return false;
        }
        let mut i: usize = 0;
        while i < n
            invariant
                n == self@.len(),
                n == other@.len(),
                i <= n,
                forall|j: int| 0 <= j < i ==> self@[j] == other@[j],
            decreases n - i,
        {
            if self.bytes[i] != other.bytes[i] {
                return false;
            }
            i = i + 1;
        }
        assert(self@ =~= other@);
        true
    }
}

impl Clone for Principal {
    fn clone(&self) -> (r: Self)
        ensures
            r@ == self@,
    {
        let mut bytes: Vec<u8> = Vec::new();
        let mut i: usize = 0;
        while i < self.bytes.len()
            invariant
                i <= self@.len(),
                bytes@ == self@.subrange(0, i as int),
            decreases self@.len() - i,
        {
            bytes.push(self.bytes[i]);
            i = i + 1;
            assert(bytes@ =~= self@.subrange(0, i as int));
        }
        assert(bytes@ =~= self@);
        Principal { bytes }
    }
}

} // verus!
