//! Parsing of the DHCP options field of a server reply.
//!
//! For option tag meanings see RFC 1533 (DHCP Options and BOOTP Vendor Extensions).
//! Options 0 (pad) and 255 (end) are one octet long; every other option is
//! `| tag | length=n | n octets of data |`.
use super::be32_at;
use vstd::prelude::*;

verus! {

/// DHCP Option tag constants
pub const O_END: u8 = 255;
pub const O_PAD: u8 = 0;
pub const O_MSG_TYPE: u8 = 53;
pub const O_SERVER_ID: u8 = 54;
pub const O_IP_LEASE_TIME: u8 = 51;
pub const O_SUBNET_MASK: u8 = 1;
pub const O_GATEWAY_LIST: u8 = 3;
pub const O_DNS_LIST: u8 = 6;

/// Struct to accumulate options that may be present in a DHCP response.
#[derive(Copy, Clone, PartialEq, Eq, Structural, Debug)]
pub struct DhcpOption {
    pub msg_type: Option<u8>,
    pub server_id: Option<u32>,
    pub ip_lease_time: Option<u32>,
    pub subnet: Option<u32>,
    pub gateway: Option<u32>,
    pub dns: Option<u32>,
}

/// The first big-endian u32 of an option's data, which must be a non-zero multiple
/// of 4 bytes long (later list items are ignored); `Err(e)` for any other length.
pub open spec fn first_be_u32_spec(data: Seq<u8>, e: u8) -> Result<u32, u8> {
    if data.len() == 0 || data.len() % 4 != 0 {
        Err(e)
    } else {
        Ok(be32_at(data, 0) as u32)
    }
}

/// The effect of one option on the accumulated options: the interesting tags store
/// their value, each with its own error code; other tags are ignored.
pub open spec fn apply_option(d: DhcpOption, tag: u8, data: Seq<u8>) -> Result<DhcpOption, u8> {
    if tag == O_MSG_TYPE {
        if data.len() == 1 && 1 <= data[0] <= 8 {
            Ok(DhcpOption { msg_type: Some(data[0]), ..d })
        } else {
            Err(0x11)
        }
    } else if tag == O_SERVER_ID {
        match first_be_u32_spec(data, 0x12) {
            Ok(v) => Ok(DhcpOption { server_id: Some(v), ..d }),
            Err(e) => Err(e),
        }
    } else if tag == O_IP_LEASE_TIME {
        match first_be_u32_spec(data, 0x13) {
            Ok(v) => Ok(DhcpOption { ip_lease_time: Some(v), ..d }),
            Err(e) => Err(e),
        }
    } else if tag == O_SUBNET_MASK {
        match first_be_u32_spec(data, 0x14) {
            Ok(v) => Ok(DhcpOption { subnet: Some(v), ..d }),
            Err(e) => Err(e),
        }
    } else if tag == O_GATEWAY_LIST {
        match first_be_u32_spec(data, 0x15) {
            Ok(v) => Ok(DhcpOption { gateway: Some(v), ..d }),
            Err(e) => Err(e),
        }
    } else if tag == O_DNS_LIST {
        match first_be_u32_spec(data, 0x16) {
            Ok(v) => Ok(DhcpOption { dns: Some(v), ..d }),
            Err(e) => Err(e),
        }
    } else {
        Ok(d)
    }
}

/// The options with nothing parsed yet.
pub open spec fn empty_options() -> DhcpOption {
    DhcpOption {
        msg_type: None,
        server_id: None,
        ip_lease_time: None,
        subnet: None,
        gateway: None,
        dns: None,
    }
}

/// Outcome of parsing the options from byte `i` on, in pass `k` of a scan that makes
/// at most `opts.len()` passes. The scan ends after an end option, at the end of the
/// options (a trailing pad included), or exactly at the end of an option's data.
pub open spec fn parse_from(opts: Seq<u8>, k: nat, i: int, d: DhcpOption) -> Result<DhcpOption, u8>
    decreases opts.len() - k,
{
    if k >= opts.len() || i < 0 || i >= opts.len() {
        Ok(d)
    } else if opts[i] == O_END {
        Ok(d)
    } else if opts[i] == O_PAD {
        parse_from(opts, k + 1, i + 1, d)
    } else if i + 1 >= opts.len() {
        // Options bytes ran out before the length byte
        Err(0x01)
    } else {
        let j = i + 2 + opts[i + 1];
        if j > opts.len() {
            // Options bytes aren't long enough for the specified data length
            Err(0x02)
        } else {
            match apply_option(d, opts[i], opts.subrange(i + 2, j)) {
                Err(e) => Err(e),
                Ok(d2) => if j == opts.len() {
                    Ok(d2)
                } else {
                    parse_from(opts, k + 1, j, d2)
                },
            }
        }
    }
}

/// Result of parsing a whole options field.
pub open spec fn parse_options_spec(opts: Seq<u8>) -> Result<DhcpOption, u8> {
    parse_from(opts, 0, 0, empty_options())
}

impl DhcpOption {
    /// Return a new empty DhcpOption struct instance
    pub fn new() -> (r: Self)
        ensures
            r == empty_options(),
    {
        DhcpOption {
            msg_type: None,
            server_id: None,
            ip_lease_time: None,
            subnet: None,
            gateway: None,
            dns: None,
        }
    }

    /// Parse the first big-endian u32 off a list of data bytes that should be a non-zero multiple of 4 long.
    /// Return Err(e) if the length is not valid.
    pub fn parse_first_be_u32(data: &[u8], e: u8) -> (r: Result<u32, u8>)
        ensures
            r == first_be_u32_spec(data@, e),
    {
        let l: usize = data.len();
        assert(l & 3 == l % 4) by (bit_vector);
        if (l == 0) || ((l & 3) != 0) {
            // Data is not a valid length
            return Err(e);
        }
        // Convert first 4 bytes into a u32, potentially ignoring additional list items
        let hi: u32 = (data[0] as u32) * 256 + data[1] as u32;
        let lo: u32 = (data[2] as u32) * 256 + data[3] as u32;
        Ok(hi * 0x1_0000 + lo)
    }

    /// Parse message type (Discover, Offer, Request, Ack, Nack, etc)
    ///  1 DHCPDISCOVER, 2 DHCPOFFER, 3 DHCPREQUEST, 4 DHCPDECLINE,
    ///  5 DHCPACK, 6 DHCPNAK, 7 DHCPRELEASE, 8 DHCPINFORM
    pub fn parse_msg_type(&mut self, data: &[u8], e: u8) -> (r: Result<(), u8>)
        ensures
            data@.len() == 1 && 1 <= data@[0] <= 8 ==> r is Ok && *final(self) == (DhcpOption {
                msg_type: Some(data@[0]),
                ..*old(self)
            }),
            !(data@.len() == 1 && 1 <= data@[0] <= 8) ==> r == Err::<(), u8>(e) && *final(self)
                == *old(self),
    {
        if data.len() == 1 {
            let t = data[0];
            if 1 <= t && t <= 8 {
                self.msg_type = Some(t);
                return Ok(());
            }
            return Err(e);
        }
        Err(e)
    }

    /// Parse server id option (usually server's IP address)
    pub fn parse_server_id(&mut self, data: &[u8], e: u8) -> (r: Result<(), u8>)
        ensures
            match first_be_u32_spec(data@, e) {
                Ok(v) => r is Ok && *final(self) == (DhcpOption { server_id: Some(v), ..*old(self) }),
                Err(x) => r == Err::<(), u8>(x) && *final(self) == *old(self),
            },
    {
        self.server_id = Some(Self::parse_first_be_u32(data, e)?);
        Ok(())
    }

    /// Parse IP lease time option
    pub fn parse_ip_lease_time(&mut self, data: &[u8], e: u8) -> (r: Result<(), u8>)
        ensures
            match first_be_u32_spec(data@, e) {
                Ok(v) => r is Ok && *final(self) == (DhcpOption {
                    ip_lease_time: Some(v),
                    ..*old(self)
                }),
                Err(x) => r == Err::<(), u8>(x) && *final(self) == *old(self),
            },
    {
        self.ip_lease_time = Some(Self::parse_first_be_u32(data, e)?);
        Ok(())
    }

    /// Parse subnet mask option
    pub fn parse_subnet(&mut self, data: &[u8], e: u8) -> (r: Result<(), u8>)
        ensures
            match first_be_u32_spec(data@, e) {
                Ok(v) => r is Ok && *final(self) == (DhcpOption { subnet: Some(v), ..*old(self) }),
                Err(x) => r == Err::<(), u8>(x) && *final(self) == *old(self),
            },
    {
        self.subnet = Some(Self::parse_first_be_u32(data, e)?);
        Ok(())
    }

    /// Parse _only_the_first_ gateway from a list of one or more gateway IP addresses
    pub fn parse_gateway(&mut self, data: &[u8], e: u8) -> (r: Result<(), u8>)
        ensures
            match first_be_u32_spec(data@, e) {
                Ok(v) => r is Ok && *final(self) == (DhcpOption { gateway: Some(v), ..*old(self) }),
                Err(x) => r == Err::<(), u8>(x) && *final(self) == *old(self),
            },
    {
        self.gateway = Some(Self::parse_first_be_u32(data, e)?);
        Ok(())
    }

    /// Parse _only_the_first_ DNS server from a list of one or more DNS server IP addresses
    pub fn parse_dns(&mut self, data: &[u8], e: u8) -> (r: Result<(), u8>)
        ensures
            match first_be_u32_spec(data@, e) {
                Ok(v) => r is Ok && *final(self) == (DhcpOption { dns: Some(v), ..*old(self) }),
                Err(x) => r == Err::<(), u8>(x) && *final(self) == *old(self),
            },
    {
        self.dns = Some(Self::parse_first_be_u32(data, e)?);
        Ok(())
    }
}

/// Parse the DHCP options field of a server reply, accumulating the options that
/// the client uses. Returns the first error code met.
pub fn parse_options(options: &[u8]) -> (r: Result<DhcpOption, u8>)
    ensures
        r == parse_options_spec(options@),
{
    let mut d = DhcpOption::new();
    let len = options.len();
    let mut i: usize = 0;
    let mut k: usize = 0;
    while k < len
        invariant
            k <= len,
            len == options@.len(),
            parse_options_spec(options@) == parse_from(options@, k as nat, i as int, d),
        decreases len - k,
    {
        if i >= len {
            // a trailing pad ran to the end of the options: nothing more to parse
            return Ok(d);
        }
        // Next byte should be an option tag, so decide how to handle it
        let tag: u8 = options[i];
        if tag == O_END {
            // End option means we're done, so ignore the rest
            return Ok(d);
        }
        if tag == O_PAD {
            // Pad is NOP with no length byte or data after it
            i += 1;
            k += 1;
            continue;
        }
        if i + 1 >= len {
            // Malformed packet: Options bytes ran out too early
            return Err(0x01);
        }
        let dlen: u8 = options[i + 1];
        let data_start = i + 2;
        if dlen as usize > len - data_start {
            // Malformed packet: Options bytes aren't long enough for specified data length
            return Err(0x02);
        }
        let i_plus_data_len = data_start + (dlen as usize);
        let data = vstd::slice::slice_subrange(options, data_start, i_plus_data_len);
        match tag {
            // These options are interesting, parse and store their data
            O_MSG_TYPE => d.parse_msg_type(data, 0x11)?,
            O_SERVER_ID => d.parse_server_id(data, 0x12)?,
            O_IP_LEASE_TIME => d.parse_ip_lease_time(data, 0x13)?,
            O_SUBNET_MASK => d.parse_subnet(data, 0x14)?,
            O_GATEWAY_LIST => d.parse_gateway(data, 0x15)?,
            O_DNS_LIST => d.parse_dns(data, 0x16)?,
            // Ignore data for other options
            _ => (),
        };
        i = i_plus_data_len;
        if i == len {
            // This is the normal loop exit point for a well-formed options block
            return Ok(d);
        }
        k += 1;
    }
    Ok(d)
}

/// A router or DNS list option keeps the first address of its list: for data a nonzero
/// multiple of 4 bytes long, the stored value is the big-endian number of its first four
/// bytes, whatever addresses follow; other options stay as they were.
pub proof fn lemma_list_option_keeps_first(d: DhcpOption, tag: u8, data: Seq<u8>, more: Seq<u8>)
    requires
        tag == O_DNS_LIST || tag == O_GATEWAY_LIST,
        data.len() > 0,
        data.len() % 4 == 0,
        more.len() % 4 == 0,
    ensures
        ({
            let v = (data[0] * 0x100_0000 + data[1] * 0x1_0000 + data[2] * 0x100 + data[3]) as u32;
            &&& apply_option(d, tag, data) matches Ok(d2) && (if tag == O_DNS_LIST {
                d2 == DhcpOption { dns: Some(v), ..d }
            } else {
                d2 == DhcpOption { gateway: Some(v), ..d }
            })
            &&& apply_option(d, tag, data + more) == apply_option(d, tag, data)
        }),
{
    let dm = data + more;
    assert(dm[0] == data[0] && dm[1] == data[1] && dm[2] == data[2] && dm[3] == data[3]);
    assert(dm.len() % 4 == 0);
}
/// Every 32-bit option (server id, lease time, subnet mask, router, DNS) stores the
/// big-endian number of the first four bytes of its data, when the data is a nonzero
/// multiple of 4 bytes long, and is refused otherwise with the option's own error code.
pub proof fn lemma_word_options_big_endian(d: DhcpOption, tag: u8, data: Seq<u8>)
    requires
        tag == O_SERVER_ID || tag == O_IP_LEASE_TIME || tag == O_SUBNET_MASK || tag == O_GATEWAY_LIST
            || tag == O_DNS_LIST,
    ensures
        ({
            let v = (data[0] * 0x100_0000 + data[1] * 0x1_0000 + data[2] * 0x100 + data[3]) as u32;
            let code: u8 = if tag == O_SERVER_ID {
                0x12
            } else if tag == O_IP_LEASE_TIME {
                0x13
            } else if tag == O_SUBNET_MASK {
                0x14
            } else if tag == O_GATEWAY_LIST {
                0x15
            } else {
                0x16
            };
            &&& (data.len() == 0 || data.len() % 4 != 0) ==> apply_option(d, tag, data) == Err::<DhcpOption, u8>(code)
            &&& (data.len() > 0 && data.len() % 4 == 0) ==> apply_option(d, tag, data) == Ok::<DhcpOption, u8>(
                if tag == O_SERVER_ID {
                    DhcpOption { server_id: Some(v), ..d }
                } else if tag == O_IP_LEASE_TIME {
                    DhcpOption { ip_lease_time: Some(v), ..d }
                } else if tag == O_SUBNET_MASK {
                    DhcpOption { subnet: Some(v), ..d }
                } else if tag == O_GATEWAY_LIST {
                    DhcpOption { gateway: Some(v), ..d }
                } else {
                    DhcpOption { dns: Some(v), ..d }
                },
            )
        }),
{
}
} // verus!
