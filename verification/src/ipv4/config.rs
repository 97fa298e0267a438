//! The IPv4 settings of a chassis.

use vstd::prelude::*;
use crate::clock::Millis;
use crate::ipv4::addr::IpV4Addr;
use crate::route::{RoutingEntry, RoutingTable};

verus! {

/// How long an ARP entry is believed, unless the chassis is told
/// otherwise: 5 seconds.
pub const DEFAULT_ARP_TTL: Millis = 5000;

/// The IPv4 settings of a chassis: one value that all its processes read.
#[derive(Debug)]
pub struct IpV4ConfigInner {
    /// The address of the chassis.
    pub addr: IpV4Addr,
    pub routing: RoutingTable,
    /// How long an ARP entry is believed.
    pub arp_ttl: Millis,
    pub dhcp_run: bool,
}

impl IpV4ConfigInner {
    /// The routing table is in order.
    pub open spec fn wf(&self) -> bool {
        self.routing.wf()
    }
}

impl Default for IpV4ConfigInner {
    fn default() -> (c: Self)
        ensures
            c.addr == IpV4Addr::spec_default(),
            c.routing@ == Seq::<RoutingEntry>::empty(),
            c.arp_ttl == DEFAULT_ARP_TTL,
            !c.dhcp_run,
            c.wf(),
    {
        Self {
            addr: IpV4Addr::default_addr(),
            routing: RoutingTable::new(),
            arp_ttl: DEFAULT_ARP_TTL,
            dhcp_run: false,
        }
    }
}

} // verus!
