use crate::order::{lemma_lex_cmp_suffix, lex_cmp};
use core::cmp::Ordering;
use vstd::prelude::*;

verus! {

/// An IPv6 address held as its sixteen octets, in network order.
#[derive(Clone, Copy, Debug, Eq, Ord, Hash)]
pub struct SIpv6Addr {
    octets: [u8; 16],
}

impl View for SIpv6Addr {
    type V = Seq<u8>;

    closed spec fn view(&self) -> Seq<u8> {
        self.octets@
    }
}

impl SIpv6Addr {
    /// The address whose octets are `octets`.
    pub fn from_octets(octets: [u8; 16]) -> (r: SIpv6Addr)
        ensures
            r@ == octets@,
    {
        SIpv6Addr { octets }
    }

    /// The sixteen octets of the address.
    pub fn octets(&self) -> (r: [u8; 16])
        ensures
            r@ == self@,
    {
        self.octets
    }
}

/// Two addresses are the same value exactly when their octets agree.
pub proof fn lemma_view_injective(a: SIpv6Addr, b: SIpv6Addr)
    ensures
        (a@ == b@) <==> (a == b),
{
    if a@ == b@ {
        assert forall|i: int| 0 <= i < 16 implies a.octets[i] == #[trigger] b.octets[i] by {
            assert(a.octets@[i] == b.octets@[i]);
        }
        assert(a.octets =~= b.octets);
    }
}

impl PartialEq for SIpv6Addr {
    fn eq(&self, other: &SIpv6Addr) -> (r: bool)
        ensures
            r == (self@ == other@),
    {
        let mut i: usize = 0;
        while i < 16
            invariant
                0 <= i <= 16,
                self@.len() == 16,
                other@.len() == 16,
                forall|j: int| 0 <= j < i ==> self@[j] == other@[j],
            decreases 16 - i,
        {
            if self.octets[i] != other.octets[i] {
                return false;
            }
            i = i + 1;
        }
        assert(self@ =~= other@);
        true
    }
}

impl vstd::std_specs::cmp::PartialEqSpecImpl for SIpv6Addr {
    open spec fn obeys_eq_spec() -> bool {
        true
    }

    open spec fn eq_spec(&self, other: &SIpv6Addr) -> bool {
        self@ == other@
    }
}

impl PartialOrd for SIpv6Addr {
    fn partial_cmp(&self, other: &SIpv6Addr) -> (r: Option<Ordering>)
        ensures
            r == Some(lex_cmp(self@, other@)),
    {
        let mut i: usize = 0;
        assert(self@.subrange(0, 16) =~= self@);
        assert(other@.subrange(0, 16) =~= other@);
        while i < 16
            invariant
                0 <= i <= 16,
                self@.len() == 16,
                other@.len() == 16,
                lex_cmp(self@, other@) == lex_cmp(self@.subrange(i as int, 16), other@.subrange(i as int, 16)),
            decreases 16 - i,
        {
            proof {
                lemma_lex_cmp_suffix(self@, other@, i as int);
            }
            let x = self.octets[i];
            let y = other.octets[i];
            if x < y {
                return Some(Ordering::Less);
            } else if x > y {
                return Some(Ordering::Greater);
            }
            i = i + 1;
        }
        assert(self@.subrange(16, 16).len() == 0);
        assert(other@.subrange(16, 16).len() == 0);
        Some(Ordering::Equal)
    }
}

impl vstd::std_specs::cmp::PartialOrdSpecImpl for SIpv6Addr {
    open spec fn obeys_partial_cmp_spec() -> bool {
        true
    }

    open spec fn partial_cmp_spec(&self, other: &SIpv6Addr) -> Option<Ordering> {
        Some(lex_cmp(self@, other@))
    }
}

} // verus!
