//! The network interfaces of this machine, as far as discovery needs them:
//! which of them have a link-local IPv6 address.

use network_interface::NetworkInterfaceConfig;
use vstd::prelude::*;
use crate::endpoint::{is_link_local, LINK_LOCAL_FIRST, LINK_LOCAL_LAST};

verus! {

/// The error of the interface listing of the `network_interface` crate.
#[verifier::external_type_specification]
#[verifier::external_body]
pub struct ExListingError(network_interface::Error);

/// An address of a network interface, as an integer in network order.
#[derive(Clone, Copy, Debug, PartialEq, Eq, Structural)]
pub enum InterfaceAddress {
    V4(u32),
    V6(u128),
}

/// A network interface of this machine.
#[derive(Clone, Debug, PartialEq, Eq)]
pub struct Interface {
    /// The index the system knows the interface by.
    pub index: u32,
    /// The addresses of the interface.
    pub addr: Vec<InterfaceAddress>,
}

/// The interfaces could not be listed.
#[derive(Clone, Copy, Debug, PartialEq, Eq, Structural)]
pub enum InterfaceError {
    ListingFailed,
}

impl InterfaceAddress {
    /// Whether this is an IPv6 address in the link-local block.
    pub open spec fn spec_is_ipv6_link_local(&self) -> bool {
        match *self {
            InterfaceAddress::V4(_) => false,
            InterfaceAddress::V6(ip) => is_link_local(ip),
        }
    }

    #[verifier::when_used_as_spec(spec_is_ipv6_link_local)]
    pub fn is_ipv6_link_local(&self) -> (b: bool)
        ensures
            b == self.spec_is_ipv6_link_local(),
    {
        match self {
            InterfaceAddress::V4(_) => false,
            InterfaceAddress::V6(ip) => LINK_LOCAL_FIRST <= *ip && *ip <= LINK_LOCAL_LAST,
        }
    }
}

/// The index of an interface, once for each of the given addresses that is a
/// link-local IPv6 address.
pub open spec fn interface_ids(index: u32, addrs: Seq<InterfaceAddress>) -> Seq<u32>
    decreases addrs.len(),
{
    if addrs.len() == 0 {
        Seq::empty()
    } else if addrs.last().spec_is_ipv6_link_local() {
        interface_ids(index, addrs.drop_last()).push(index)
    } else {
        interface_ids(index, addrs.drop_last())
    }
}

/// The indices of the interfaces that have a link-local IPv6 address, in
/// the order of the listing, once for each such address.
pub open spec fn link_local_interface_ids(nics: Seq<Interface>) -> Seq<u32>
    decreases nics.len(),
{
    if nics.len() == 0 {
        Seq::empty()
    } else {
        link_local_interface_ids(nics.drop_last()) + interface_ids(
            nics.last().index,
            nics.last().addr@,
        )
    }
}

/// Picks the interfaces with a link-local IPv6 address out of a listing.
pub fn ipv6_interface_ids(nics: &Vec<Interface>) -> (ids: Vec<u32>)
    ensures
        ids@ == link_local_interface_ids(nics@),
{
    let mut ids: Vec<u32> = Vec::new();
    let mut i: usize = 0;
    while i < nics.len()
        invariant
            i <= nics.len(),
            ids@ == link_local_interface_ids(nics@.subrange(0, i as int)),
        decreases nics.len() - i,
    {
        let nic = &nics[i];
        let ghost listed = ids@;
        let mut k: usize = 0;
        while k < nic.addr.len()
            invariant
                k <= nic.addr.len(),
                ids@ == listed + interface_ids(nic.index, nic.addr@.subrange(0, k as int)),
            decreases nic.addr.len() - k,
        {
            assert(nic.addr@.subrange(0, k + 1).drop_last() == nic.addr@.subrange(0, k as int));
            if nic.addr[k].is_ipv6_link_local() {
                ids.push(nic.index);
            }
            k += 1;
        }
        assert(nic.addr@.subrange(0, k as int) == nic.addr@);
        assert(nics@.subrange(0, i + 1).drop_last() == nics@.subrange(0, i as int));
        i += 1;
    }
    assert(nics@.subrange(0, i as int) == nics@);
    ids
}

/// Asks the system for its network interfaces, through
/// `network_interface::NetworkInterface::show`, and hands them on with index
/// and addresses as they were listed. What is listed depends on the machine,
/// so nothing is promised about it.
#[verifier::external_body]
fn show_interfaces() -> (shown: Result<Vec<Interface>, network_interface::Error>) {
    let nics = network_interface::NetworkInterface::show()?;
    Ok(
        nics.into_iter().map(
            |nic| Interface {
                index: nic.index,
                addr: nic.addr.into_iter().map(
                    |addr| match addr {
                        network_interface::Addr::V4(v4) => InterfaceAddress::V4(u32::from(v4.ip)),
                        network_interface::Addr::V6(v6) => InterfaceAddress::V6(u128::from(v6.ip)),
                    },
                ).collect(),
            },
        ).collect(),
    )
}

/// What a listing of the interfaces yields: the interfaces with a link-local
/// IPv6 address, or the error if there is no listing.
pub fn interface_ids_of_listing(
    shown: Result<Vec<Interface>, network_interface::Error>,
) -> (ids: Result<Vec<u32>, InterfaceError>)
    ensures
        match shown {
            Ok(nics) => ids is Ok && ids->Ok_0@ == link_local_interface_ids(nics@),
            Err(_) => ids == Err::<Vec<u32>, _>(InterfaceError::ListingFailed),
        },
{
    match shown {
        Ok(nics) => Ok(ipv6_interface_ids(&nics)),
        Err(_) => Err(InterfaceError::ListingFailed),
    }
}

/// Lists the index of every network interface with a link-local IPv6
/// address, once for each such address.
pub fn list_ipv6_interface_ids() -> (ids: Result<Vec<u32>, InterfaceError>) {
    interface_ids_of_listing(show_interfaces())
}

} // verus!
