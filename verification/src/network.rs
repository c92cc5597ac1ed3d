//! The network set up by the daemon when it runs as the first process, and
//! the reading of what the kernel reports about links and addresses.
use vstd::prelude::*;

verus! {

/// An IP address, by family.
#[derive(Debug, Clone, PartialEq, Eq)]
pub enum IpAddress {
    V4(Vec<u8>),
    V6(Vec<u8>),
}

/// One netlink step of configuring the network.
#[derive(Debug, Clone)]
pub enum NetworkStep {
    /// Add `address/prefix` to the link named `iface`.
    AddAddress { iface: String, address: String, prefix: u8 },
    /// Bring the link up, then wait for it.
    SetLinkUp { iface: String },
    /// Add an IPv6 route on `iface` from `source/prefix` through `gateway`.
    AddRouteV6 { iface: String, source: String, source_prefix: u8, gateway: String },
}

/// Whether a step adds `address/prefix` to `iface`.
pub open spec fn is_add_address(s: NetworkStep, iface: Seq<char>, address: Seq<char>, prefix: u8) -> bool {
    s matches NetworkStep::AddAddress { iface: i, address: a, prefix: p } && i@ == iface && a@ == address && p == prefix
}

/// Whether a step brings `iface` up.
pub open spec fn is_link_up(s: NetworkStep, iface: Seq<char>) -> bool {
    s matches NetworkStep::SetLinkUp { iface: i } && i@ == iface
}

fn add_address(iface: &str, address: &str, prefix: u8) -> (r: NetworkStep)
    ensures
        is_add_address(r, iface@, address@, prefix),
{
    NetworkStep::AddAddress { iface: String::from_str(iface), address: String::from_str(address), prefix }
}

fn link_up(iface: &str) -> (r: NetworkStep)
    ensures
        is_link_up(r, iface@),
{
    NetworkStep::SetLinkUp { iface: String::from_str(iface) }
}

/// The network of the first process, in order: the loopback link gets
/// `::1/128` and `127.0.0.1/8` and is brought up; `eth0` gets `fe80::2/64`,
/// is brought up, and routes `::/0` through `fe80::1`.
pub fn pid1_network_plan() -> (r: Vec<NetworkStep>)
    ensures
        r@.len() == 6,
        is_add_address(r@[0], "lo"@, "::1"@, 128),
        is_add_address(r@[1], "lo"@, "127.0.0.1"@, 8),
        is_link_up(r@[2], "lo"@),
        is_add_address(r@[3], "eth0"@, "fe80::2"@, 64),
        is_link_up(r@[4], "eth0"@),
        r@[5] matches NetworkStep::AddRouteV6 { iface: i, source: s, source_prefix: p, gateway: g } && i@ == "eth0"@
            && s@ == "::"@ && p == 0 && g@ == "fe80::1"@,
{
    let mut v: Vec<NetworkStep> = Vec::new();
    v.push(add_address("lo", "::1", 128));
    v.push(add_address("lo", "127.0.0.1", 8));
    v.push(link_up("lo"));
    v.push(add_address("eth0", "fe80::2", 64));
    v.push(link_up("eth0"));
    v.push(NetworkStep::AddRouteV6 {
        iface: String::from_str("eth0"),
        source: String::from_str("::"),
        source_prefix: 0,
        gateway: String::from_str("fe80::1"),
    });
    v
}

/// The seconds the daemon waits after bringing a link up.
pub const LINK_UP_WAIT_SECONDS: u64 = 3;

/// An attribute of a link as the kernel reports it.
#[derive(Debug, Clone)]
pub enum LinkAttr {
    /// The link's name.
    IfName(String),
    /// Any other attribute.
    Other,
}

/// The index of the first name among a link's attributes.
pub open spec fn first_name_index(attrs: Seq<LinkAttr>) -> int
    decreases attrs.len(),
{
    if attrs.len() == 0 {
        -1
    } else if attrs.last() is IfName && first_name_index(attrs.drop_last()) == -1 {
        attrs.len() - 1
    } else {
        first_name_index(attrs.drop_last())
    }
}

/// The name of a link: its first name attribute, if it has one.
pub fn link_name(attrs: &Vec<LinkAttr>) -> (r: Option<String>)
    ensures
        first_name_index(attrs@) == -1 ==> r is None,
        first_name_index(attrs@) != -1 ==> (r matches Some(n) && (attrs@[first_name_index(attrs@)] matches LinkAttr::IfName(m)
            && n@ == m@)),
{
    let mut i: usize = 0;
    while i < attrs.len()
        invariant
            i <= attrs@.len(),
            first_name_index(attrs@.take(i as int)) == -1,
        decreases attrs.len() - i,
    {
        proof {
            assert(attrs@.take(i + 1).drop_last() =~= attrs@.take(i as int));
        }
        match &attrs[i] {
            LinkAttr::IfName(n) => {
                proof {
                    lemma_first_name_prefix(attrs@, (i + 1) as int);
                }
                return Some(String::from_str(n.as_str()));
            },
            LinkAttr::Other => {},
        }
        i = i + 1;
    }
    proof {
        assert(attrs@.take(attrs@.len() as int) =~= attrs@);
    }
    None
}

/// A name found in a prefix stays the first name of the whole list.
proof fn lemma_first_name_prefix(attrs: Seq<LinkAttr>, k: int)
    requires
        0 <= k <= attrs.len(),
        first_name_index(attrs.take(k)) != -1,
    ensures
        first_name_index(attrs) == first_name_index(attrs.take(k)),
    decreases attrs.len() - k,
{
    if k < attrs.len() {
        assert(attrs.take(k + 1).drop_last() =~= attrs.take(k));
        assert(first_name_index(attrs.take(k + 1)) == first_name_index(attrs.take(k)));
        lemma_first_name_prefix(attrs, k + 1);
    } else {
        assert(attrs.take(k) =~= attrs);
    }
}

/// An address as the kernel reports it: 4 bytes are an IPv4 address, 16
/// an IPv6 address, anything else is not an address.
pub fn address_from_bytes(bytes: &Vec<u8>) -> (r: Option<IpAddress>)
    ensures
        bytes@.len() == 4 ==> (r matches Some(IpAddress::V4(b)) && b@ == bytes@),
        bytes@.len() == 16 ==> (r matches Some(IpAddress::V6(b)) && b@ == bytes@),
        bytes@.len() != 4 && bytes@.len() != 16 ==> r is None,
{
    let mut copy: Vec<u8> = Vec::new();
    let mut i: usize = 0;
    while i < bytes.len()
        invariant
            i <= bytes@.len(),
            copy@ == bytes@.take(i as int),
        decreases bytes.len() - i,
    {
        copy.push(bytes[i]);
        proof {
            assert(copy@ =~= bytes@.take(i + 1));
        }
        i = i + 1;
    }
    proof {
        assert(bytes@.take(bytes@.len() as int) =~= bytes@);
    }
    if bytes.len() == 4 {
        Some(IpAddress::V4(copy))
    } else if bytes.len() == 16 {
        Some(IpAddress::V6(copy))
    } else {
        None
    }
}

} // verus!
