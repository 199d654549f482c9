//! Choosing the address the server binds to, among the host's network interfaces.
use pnet::ipnetwork::IpNetwork;
use vstd::prelude::*;

verus! {

/// An IP address by its numeric value: the 32 bits of an IPv4 address or the 128 bits of an
/// IPv6 address, most significant bit first.
#[derive(Clone, Copy, Debug, PartialEq, Eq, Structural)]
pub enum IpAddress {
    V4(u32),
    V6(u128),
}

/// One address assigned to a network interface, with the text that names it.
#[derive(Clone, Debug)]
pub struct InterfaceAddress {
    pub ip: IpAddress,
    pub text: String,
}

/// A host network interface, as far as the choice of an address depends on it.
#[derive(Clone, Debug)]
pub struct NetInterface {
    pub up: bool,
    pub loopback: bool,
    pub addresses: Vec<InterfaceAddress>,
}

/// Why no address could be chosen.
#[derive(Clone, Copy, Debug, PartialEq, Eq, Structural)]
pub enum AddressError {
    /// No interface is up, other than loopback, with an address assigned.
    NoInterface,
    /// The address given explicitly is not an IP address.
    Invalid,
    /// The chosen interface has no address of the wanted family, or only a loopback one.
    Unroutable,
}

/// The text the standard library prints for an address.
pub uninterp spec fn ip_text_of(a: IpAddress) -> Seq<char>;

/// The loopback addresses: 127.0.0.0/8 and ::1.
pub open spec fn is_loopback(a: IpAddress) -> bool {
    match a {
        IpAddress::V4(bits) => bits / 0x100_0000 == 127,
        IpAddress::V6(bits) => bits == 1,
    }
}

/// Whether `a` belongs to the IPv6 family when `v6` holds, to the IPv4 family otherwise.
pub open spec fn of_family(a: IpAddress, v6: bool) -> bool {
    if v6 {
        a is V6
    } else {
        a is V4
    }
}

/// An interface the server may bind on: up, not the loopback interface, with an address.
pub open spec fn is_candidate(i: NetInterface) -> bool {
    i.up && !i.loopback && i.addresses@.len() > 0
}

/// `i` is the first candidate interface of `ifs`.
pub open spec fn is_first_candidate(ifs: Seq<NetInterface>, i: int) -> bool {
    &&& 0 <= i < ifs.len()
    &&& is_candidate(ifs[i])
    &&& forall|k: int| 0 <= k < i ==> !is_candidate(#[trigger] ifs[k])
}

/// `j` is the first address of the wanted family in `addrs`.
pub open spec fn is_first_of_family(addrs: Seq<InterfaceAddress>, v6: bool, j: int) -> bool {
    &&& 0 <= j < addrs.len()
    &&& of_family(addrs[j].ip, v6)
    &&& forall|k: int| 0 <= k < j ==> !of_family(#[trigger] addrs[k].ip, v6)
}

/// What the choice among `ifs` gives: the first address of the wanted family on the first
/// candidate interface, unless that interface has none or it is a loopback address.
pub open spec fn chosen_among(
    ifs: Seq<NetInterface>,
    v6: bool,
    r: Result<(IpAddress, Seq<char>), AddressError>,
) -> bool {
    match r {
        Ok((ip, text)) => exists|i: int, j: int|
            #[trigger] is_first_candidate(ifs, i) && #[trigger] is_first_of_family(
                ifs[i].addresses@,
                v6,
                j,
            ) && ifs[i].addresses@[j].ip == ip && ifs[i].addresses@[j].text@ == text
                && !is_loopback(ip),
        Err(AddressError::NoInterface) => forall|i: int|
            0 <= i < ifs.len() ==> !is_candidate(#[trigger] ifs[i]),
        Err(AddressError::Unroutable) => exists|i: int|
            #[trigger] is_first_candidate(ifs, i) && ((forall|j: int|
                0 <= j < ifs[i].addresses@.len() ==> !of_family(
                    (#[trigger] ifs[i].addresses@[j]).ip,
                    v6,
                )) || exists|j: int|
                #[trigger] is_first_of_family(ifs[i].addresses@, v6, j) && is_loopback(
                    ifs[i].addresses@[j].ip,
                )),
        Err(AddressError::Invalid) => false,
    }
}

/// The view of a choice: the address and its text.
pub open spec fn choice_view(r: Result<InterfaceAddress, AddressError>) -> Result<
    (IpAddress, Seq<char>),
    AddressError,
> {
    match r {
        Ok(a) => Ok((a.ip, a.text@)),
        Err(e) => Err(e),
    }
}

/// Whether `a` is a loopback address.
pub fn address_is_loopback(a: IpAddress) -> (r: bool)
    ensures
        r == is_loopback(a),
{
    match a {
        IpAddress::V4(bits) => bits / 0x100_0000 == 127,
        IpAddress::V6(bits) => bits == 1,
    }
}

fn address_of_family(a: IpAddress, v6: bool) -> (r: bool)
    ensures
        r == of_family(a, v6),
{
    match a {
        IpAddress::V4(_) => !v6,
        IpAddress::V6(_) => v6,
    }
}

/// Picks, on one candidate interface, the first address of the wanted family, and refuses it
/// when it is a loopback address.
fn pick_on_interface(iface: &NetInterface, prefer_ipv6: bool) -> (r: Result<
    InterfaceAddress,
    AddressError,
>)
    ensures
        match r {
            Ok(a) => exists|j: int|
                #[trigger] is_first_of_family(iface.addresses@, prefer_ipv6, j)
                    && iface.addresses@[j].ip == a.ip && iface.addresses@[j].text@ == a.text@
                    && !is_loopback(a.ip),
            Err(AddressError::Unroutable) => (forall|j: int|
                0 <= j < iface.addresses@.len() ==> !of_family(
                    (#[trigger] iface.addresses@[j]).ip,
                    prefer_ipv6,
                )) || exists|j: int|
                #[trigger] is_first_of_family(iface.addresses@, prefer_ipv6, j) && is_loopback(
                    iface.addresses@[j].ip,
                ),
            Err(_) => false,
        },
{
    let mut j: usize = 0;
    while j < iface.addresses.len()
        invariant
            0 <= j <= iface.addresses@.len(),
            forall|k: int| 0 <= k < j ==> !of_family(#[trigger] iface.addresses@[k].ip, prefer_ipv6),
        decreases iface.addresses@.len() - j,
    {
        let a = &iface.addresses[j];
        if address_of_family(a.ip, prefer_ipv6) {
            assert(is_first_of_family(iface.addresses@, prefer_ipv6, j as int));
            if address_is_loopback(a.ip) {
                return Err(AddressError::Unroutable);
            }
            return Ok(InterfaceAddress { ip: a.ip, text: a.text.clone() });
        }
        j += 1;
    }
    Err(AddressError::Unroutable)
}

/// Chooses the address to bind among the host's interfaces: on the first interface that is
/// up, is not the loopback interface and has an address, the first IPv6 address when
/// `prefer_ipv6` holds, else the first IPv4 address. A loopback result, or none of the wanted
/// family, is refused, since a second device could not reach it.
pub fn select_address(interfaces: &Vec<NetInterface>, prefer_ipv6: bool) -> (r: Result<
    InterfaceAddress,
    AddressError,
>)
    ensures
        chosen_among(interfaces@, prefer_ipv6, choice_view(r)),
{
    let mut i: usize = 0;
    while i < interfaces.len()
        invariant
            0 <= i <= interfaces@.len(),
            forall|k: int| 0 <= k < i ==> !is_candidate(#[trigger] interfaces@[k]),
        decreases interfaces@.len() - i,
    {
        let iface = &interfaces[i];
        if iface.up && !iface.loopback && iface.addresses.len() > 0 {
            assert(is_first_candidate(interfaces@, i as int));
            return pick_on_interface(iface, prefer_ipv6);
        }
        i += 1;
    }
    Err(AddressError::NoInterface)
}

#[verifier::external_type_specification]
#[verifier::external_body]
pub struct ExIpNetworkError(pnet::ipnetwork::IpNetworkError);

/// Whether ipnetwork reads `text` as a network: an IPv4 or IPv6 address, possibly followed by
/// `/` and a prefix.
pub uninterp spec fn reads_as_ip_network(text: Seq<char>) -> bool;

/// An IP literal: an IPv4 or IPv6 address alone, with no prefix.
pub open spec fn is_ip_literal(text: Seq<char>) -> bool {
    !text.contains('/') && reads_as_ip_network(text)
}

/// Relies on ipnetwork's `FromStr for IpNetwork`, which reads the part before a `/` with std's
/// `Ipv4Addr` or `Ipv6Addr` parser and takes the full prefix when there is no `/`.
#[verifier::external_body]
fn parse_ip_network(text: &str) -> (r: Result<(), pnet::ipnetwork::IpNetworkError>)
    ensures
        r is Ok <==> reads_as_ip_network(text@),
{
    text.parse::<IpNetwork>().map(|_| ())
}

/// Accepts an address given explicitly when it reads as a network and carries no prefix; it
/// is then kept as it was written.
pub fn accept_explicit(text: &str, reads_as_network: bool) -> (r: Result<String, AddressError>)
    ensures
        r is Ok <==> !text@.contains('/') && reads_as_network,
        r matches Ok(s) ==> s@ == text@,
        r matches Err(e) ==> e == AddressError::Invalid,
{
    let n = text.unicode_len();
    let mut i: usize = 0;
    while i < n
        invariant
            n == text@.len(),
            0 <= i <= n,
            forall|k: int| 0 <= k < i ==> text@[k] != '/',
        decreases n - i,
    {
        if text.get_char(i) == '/' {
            return Err(AddressError::Invalid);
        }
        i += 1;
    }
    if reads_as_network {
        Ok(text.to_owned())
    } else {
        Err(AddressError::Invalid)
    }
}

/// Checks an address given explicitly: an IP literal is kept as it was written, anything else
/// is `Invalid`.
pub fn check_explicit_address(text: &str) -> (r: Result<String, AddressError>)
    ensures
        r is Ok <==> is_ip_literal(text@),
        r matches Ok(s) ==> s@ == text@,
        r matches Err(e) ==> e == AddressError::Invalid,
{
    let parsed = parse_ip_network(text);
    accept_explicit(text, parsed.is_ok())
}

/// Relies on pnet's `datalink::interfaces`: the host's interfaces as the operating system lists
/// them, with `NetworkInterface::is_up` and `is_loopback` read from their flags, and each
/// assigned address by its numeric value (std's `From<Ipv4Addr> for u32` and
/// `From<Ipv6Addr> for u128`) and its text (std's `Display` of `IpAddr`).
#[verifier::external_body]
pub(crate) fn host_interfaces() -> (r: Vec<NetInterface>)
    ensures
        forall|i: int, j: int|
            0 <= i < r@.len() && 0 <= j < r@[i].addresses@.len() ==> (#[trigger] r@[i].addresses@[j]).text@
                == ip_text_of(r@[i].addresses@[j].ip),
{
    pnet::datalink::interfaces().into_iter().map(|i| NetInterface {
        up: i.is_up(),
        loopback: i.is_loopback(),
        addresses: i.ips.iter().map(|n| InterfaceAddress {
            ip: match n {
                IpNetwork::V4(v) => IpAddress::V4(u32::from(v.ip())),
                IpNetwork::V6(v) => IpAddress::V6(u128::from(v.ip())),
            },
            text: n.ip().to_string(),
        }).collect(),
    }).collect()
}

} // verus!
