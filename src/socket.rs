use crate::ipv6::{lemma_view_injective, SIpv6Addr};
use crate::order::{flip, int_cmp, lemma_lex_cmp_equal, lemma_lex_cmp_flip, lex_cmp, then_cmp};
use core::cmp::Ordering;
use vstd::prelude::*;

verus! {

/// An IPv6 socket address: an IPv6 address, the flow information, the
/// scope id and the port, in that order.
#[derive(Clone, Copy, Debug, Eq, Ord, Hash)]
pub struct SSocketAddrV6 {
    ip: SIpv6Addr,
    flowinfo: u32,
    scope_id: u32,
    port: u16,
}

impl View for SSocketAddrV6 {
    /// The fields in declared order: ip, flow information, scope id, port.
    type V = (SIpv6Addr, u32, u32, u16);

    closed spec fn view(&self) -> (SIpv6Addr, u32, u32, u16) {
        (self.ip, self.flowinfo, self.scope_id, self.port)
    }
}

/// The order of two socket addresses: field by field, in declared order,
/// the first field that differs deciding.
pub open spec fn addr_cmp(a: (SIpv6Addr, u32, u32, u16), b: (SIpv6Addr, u32, u32, u16)) -> Ordering {
    then_cmp(
        lex_cmp(a.0@, b.0@),
        then_cmp(
            int_cmp(a.1 as int, b.1 as int),
            then_cmp(int_cmp(a.2 as int, b.2 as int), int_cmp(a.3 as int, b.3 as int)),
        ),
    )
}

/// Equality of socket addresses: field by field, the ip by its octets.
pub open spec fn addr_eq(a: (SIpv6Addr, u32, u32, u16), b: (SIpv6Addr, u32, u32, u16)) -> bool {
    a.0@ == b.0@ && a.1 == b.1 && a.2 == b.2 && a.3 == b.3
}

impl SSocketAddrV6 {
    /// The socket address with the given fields.
    pub fn new(ip: SIpv6Addr, port: u16, flowinfo: u32, scope_id: u32) -> (r: SSocketAddrV6)
        ensures
            r@ == (ip, flowinfo, scope_id, port),
    {
        SSocketAddrV6 { ip, port, flowinfo, scope_id }
    }

    /// The flow information. std's `SocketAddrV6` keeps the flow
    /// information exactly as it was given, so what a round trip through it
    /// reports is the stored field.
    pub fn flowinfo(&self) -> (r: u32)
        ensures
            r == self@.1,
    {
        self.flowinfo
    }

    /// The IPv6 address.
    pub fn ip(&self) -> (r: &SIpv6Addr)
        ensures
            *r == self@.0,
    {
        &self.ip
    }

    /// The port.
    pub fn port(&self) -> (r: u16)
        ensures
            r == self@.3,
    {
        self.port
    }

    /// The scope id.
    pub fn scope_id(&self) -> (r: u32)
        ensures
            r == self@.2,
    {
        self.scope_id
    }

    /// Replaces the flow information.
    pub fn set_flowinfo(&mut self, new_flowinfo: u32)
        ensures
            final(self)@ == (old(self)@.0, new_flowinfo, old(self)@.2, old(self)@.3),
    {
        self.flowinfo = new_flowinfo;
    }

    /// Replaces the IPv6 address.
    pub fn set_ip(&mut self, new_ip: SIpv6Addr)
        ensures
            final(self)@ == (new_ip, old(self)@.1, old(self)@.2, old(self)@.3),
    {
        self.ip = new_ip;
    }

    /// Replaces the port.
    pub fn set_port(&mut self, new_port: u16)
        ensures
            final(self)@ == (old(self)@.0, old(self)@.1, old(self)@.2, new_port),
    {
        self.port = new_port;
    }

    /// Replaces the scope id.
    pub fn set_scope_id(&mut self, new_scope_id: u32)
        ensures
            final(self)@ == (old(self)@.0, old(self)@.1, new_scope_id, old(self)@.3),
    {
        self.scope_id = new_scope_id;
    }
}

/// Taking an address apart with its accessors and building it again with
/// `new` gives back the same address.
pub proof fn lemma_parts_round_trip(a: SSocketAddrV6, r: SSocketAddrV6)
    requires
        call_ensures(SSocketAddrV6::new, (a@.0, a@.3, a@.1, a@.2), r),
    ensures
        r == a,
{
}

impl PartialEq for SSocketAddrV6 {
    fn eq(&self, other: &SSocketAddrV6) -> (r: bool)
        ensures
            r == addr_eq(self@, other@),
    {
        self.ip == other.ip && self.flowinfo == other.flowinfo && self.scope_id == other.scope_id
            && self.port == other.port
    }
}

impl vstd::std_specs::cmp::PartialEqSpecImpl for SSocketAddrV6 {
    open spec fn obeys_eq_spec() -> bool {
        true
    }

    open spec fn eq_spec(&self, other: &SSocketAddrV6) -> bool {
        addr_eq(self@, other@)
    }
}

impl PartialOrd for SSocketAddrV6 {
    fn partial_cmp(&self, other: &SSocketAddrV6) -> (r: Option<Ordering>)
        ensures
            r == Some(addr_cmp(self@, other@)),
    {
        match self.ip.partial_cmp(&other.ip) {
            Some(Ordering::Equal) => {},
            by_ip => {
                return by_ip;
            },
        }
        if self.flowinfo != other.flowinfo {
            return if self.flowinfo < other.flowinfo {
                Some(Ordering::Less)
            } else {
                Some(Ordering::Greater)
            };
        }
        if self.scope_id != other.scope_id {
            return if self.scope_id < other.scope_id {
                Some(Ordering::Less)
            } else {
                Some(Ordering::Greater)
            };
        }
        if self.port < other.port {
            Some(Ordering::Less)
        } else if self.port == other.port {
            Some(Ordering::Equal)
        } else {
            Some(Ordering::Greater)
        }
    }
}

impl vstd::std_specs::cmp::PartialOrdSpecImpl for SSocketAddrV6 {
    open spec fn obeys_partial_cmp_spec() -> bool {
        true
    }

    open spec fn partial_cmp_spec(&self, other: &SSocketAddrV6) -> Option<Ordering> {
        Some(addr_cmp(self@, other@))
    }
}

/// Equality and order agree with each other and with the fields: `==`
/// holds, and the order says `Equal`, exactly when all four fields are equal.
pub proof fn lemma_eq_order_fieldwise(a: SSocketAddrV6, b: SSocketAddrV6)
    ensures
        addr_eq(a@, b@) <==> (a == b),
        (addr_cmp(a@, b@) == Ordering::Equal) <==> (a == b),
{
    lemma_view_injective(a@.0, b@.0);
    lemma_lex_cmp_equal(a@.0@, b@.0@);
}

/// The order is antisymmetric: comparing `b` with `a` gives the opposite of
/// comparing `a` with `b`, so `a < b` exactly when `b > a`.
pub proof fn lemma_order_flip(a: SSocketAddrV6, b: SSocketAddrV6)
    ensures
        addr_cmp(b@, a@) == flip(addr_cmp(a@, b@)),
{
    lemma_lex_cmp_flip(a@.0@, b@.0@);
}

} // verus!
