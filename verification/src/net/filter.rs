//! Packet filter bins and the diagnostic counters kept for each bin.
use vstd::prelude::*;

verus! {

/// Incoming Ethernet frames get sorted into these bins by the packet filter
#[derive(Copy, Clone, PartialEq, Eq, Structural, Debug)]
pub enum FilterBin {
    /// Malformed packet
    DropNoise,
    /// Unsupported Ethernet protocol (perhaps IPv6, 802.1Q VLAN, etc)
    DropEType,
    /// DHCP noise (malformed options or a reply out of sync with the client)
    DropDhcp,
    /// Multicast (likely mDNS)
    DropMulti,
    /// Unsupported IP layer protocol
    DropProto,
    /// Unsupported packet fragment
    DropFrag,
    /// Bad IP header checksum
    DropIpCk,
    /// Bad UDP header checksum
    DropUdpCk,
    Arp,
    Icmp,
    Dhcp,
    Udp,
    /// Forward to COM net bridge
    ComFwd,
}

/// FilterStats maintains diagnostic statistics on how inbound packets were filtered
pub struct FilterStats {
    pub drop_noise: u16,
    pub drop_etype: u16,
    pub drop_dhcp: u16,
    pub drop_multi: u16,
    pub drop_proto: u16,
    pub drop_frag: u16,
    pub drop_ipck: u16,
    pub drop_udpck: u16,
    pub arp: u16,
    pub icmp: u16,
    pub dhcp: u16,
    pub udp: u16,
    pub com_fwd: u16,
}

/// One step of a saturating 16-bit event counter.
pub open spec fn saturating_inc(x: u16) -> u16 {
    if x == u16::MAX { x } else { (x + 1) as u16 }
}

impl FilterStats {
    /// The counter that `inc_count_for` bumps for the given bin.
    pub open spec fn count_for(&self, bin: FilterBin) -> u16 {
        match bin {
            FilterBin::DropNoise => self.drop_noise,
            FilterBin::DropEType => self.drop_etype,
            FilterBin::DropDhcp => self.drop_dhcp,
            FilterBin::DropMulti => self.drop_multi,
            FilterBin::DropProto => self.drop_proto,
            FilterBin::DropFrag => self.drop_frag,
            FilterBin::DropIpCk => self.drop_ipck,
            FilterBin::DropUdpCk => self.drop_udpck,
            FilterBin::Arp => self.arp,
            FilterBin::Icmp => self.icmp,
            FilterBin::Dhcp => self.dhcp,
            FilterBin::Udp => self.udp,
            FilterBin::ComFwd => self.com_fwd,
        }
    }

    /// Every counter is zero.
    pub open spec fn all_zero(&self) -> bool {
        forall|b: FilterBin| #[trigger] self.count_for(b) == 0
    }

    /// Initialize a new filter stats struct
    pub fn new_all_zero() -> (r: FilterStats)
        ensures
            r.all_zero(),
    {
        FilterStats {
            drop_noise: 0,
            drop_etype: 0,
            drop_dhcp: 0,
            drop_multi: 0,
            drop_proto: 0,
            drop_frag: 0,
            drop_ipck: 0,
            drop_udpck: 0,
            arp: 0,
            icmp: 0,
            dhcp: 0,
            udp: 0,
            com_fwd: 0,
        }
    }

    /// Zero all the counters
    pub fn reset(&mut self)
        ensures
            final(self).all_zero(),
    {
        *self = Self::new_all_zero();
    }

    /// Increment the counter for the specified filter bin, saturating at u16::MAX;
    /// every other counter is left alone.
    pub fn inc_count_for(&mut self, filter_bin: FilterBin)
        ensures
            final(self).count_for(filter_bin) == saturating_inc(old(self).count_for(filter_bin)),
            forall|b: FilterBin| b != filter_bin ==> #[trigger] final(self).count_for(b) == old(self).count_for(b),
    {
        match filter_bin {
            FilterBin::DropNoise => self.drop_noise = self.drop_noise.saturating_add(1),
            FilterBin::DropEType => self.drop_etype = self.drop_etype.saturating_add(1),
            FilterBin::DropDhcp => self.drop_dhcp = self.drop_dhcp.saturating_add(1),
            FilterBin::DropMulti => self.drop_multi = self.drop_multi.saturating_add(1),
            FilterBin::DropProto => self.drop_proto = self.drop_proto.saturating_add(1),
            FilterBin::DropFrag => self.drop_frag = self.drop_frag.saturating_add(1),
            FilterBin::DropIpCk => self.drop_ipck = self.drop_ipck.saturating_add(1),
            FilterBin::DropUdpCk => self.drop_udpck = self.drop_udpck.saturating_add(1),
            FilterBin::Arp => self.arp = self.arp.saturating_add(1),
            FilterBin::Icmp => self.icmp = self.icmp.saturating_add(1),
            FilterBin::Dhcp => self.dhcp = self.dhcp.saturating_add(1),
            FilterBin::Udp => self.udp = self.udp.saturating_add(1),
            FilterBin::ComFwd => self.com_fwd = self.com_fwd.saturating_add(1),
        };
    }
}

} // verus!
