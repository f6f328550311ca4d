//! Identities: 32-byte addresses of parties, assets and derived custody
//! records. The services never look inside an identity; they only compare
//! identities for equality and hand them to the address derivation.

use vstd::prelude::*;

verus! {

/// A 32-byte address: an external party, an asset, or a derived custody
/// record. Equality of identities is equality of the bytes.
#[derive(Clone, Copy, Debug)]
#[verifier::ext_equal]
pub struct Identity {
    pub bytes: [u8; 32],
}

impl View for Identity {
    type V = Seq<u8>;

    open spec fn view(&self) -> Seq<u8> {
        self.bytes@
    }
}

impl Identity {
    /// An identity whose bytes are all `b`; convenient for callers that
    /// label parties with small tags.
    pub fn from_byte(b: u8) -> (r: Identity)
        ensures
            r@ == Seq::new(32, |i: int| b),
    {
        let bytes = vstd::array::array_fill_for_copy_types::<u8, 32>(b);
        proof {
            broadcast use vstd::array::axiom_spec_array_fill_for_copy_type;

            assert(bytes@ =~= Seq::new(32, |i: int| b));
        }
        Identity { bytes }
    }

    /// The bytes of this identity as a growable buffer, for use as a
    /// derivation discriminant.
    pub fn to_vec(&self) -> (r: Vec<u8>)
        ensures
            r@ == self@,
    {
        let mut out: Vec<u8> = Vec::new();
        let mut i: usize = 0;
        while i < 32
            invariant
                i <= 32,
                out@ == self@.take(i as int),
            decreases 32 - i,
        {
            out.push(self.bytes[i]);
            proof {
                assert(out@ =~= self@.take(i + 1));
            }
            i = i + 1;
        }
        proof {
            assert(self@.take(32) =~= self@);
        }
        out
    }
}

impl PartialEq for Identity {
    fn eq(&self, other: &Identity) -> (r: bool) {
        let mut i: usize = 0;
        while i < 32
            invariant
                i <= 32,
                forall|j: int| 0 <= j < i ==> self.bytes[j] == other.bytes[j],
            decreases 32 - i,
        {
            if self.bytes[i] != other.bytes[i] {
                proof {
                    assert(self.bytes@[i as int] != other.bytes@[i as int]);
                }
                return false;
            }
            i = i + 1;
        }
        proof {
            broadcast use vstd::array::axiom_array_ext_equal;

            assert(self.bytes =~= other.bytes);
            assert(*self =~= *other);
        }
        true
    }
}

impl vstd::std_specs::cmp::PartialEqSpecImpl for Identity {
    open spec fn obeys_eq_spec() -> bool {
        true
    }

    open spec fn eq_spec(&self, other: &Identity) -> bool {
        *self == *other
    }
}

} // verus!
