//! Destination addresses and their encoding in a request header.

use crate::codec::{be16, put_slice, put_u16, put_u8};
use vstd::prelude::*;

verus! {

/// Where the proxied session goes: a domain name (ASCII bytes), an IPv4 or an
/// IPv6 address, each with a port.
#[derive(Clone, Debug)]
pub enum SocksAddr {
    Domain(Vec<u8>, u16),
    Ipv4(Vec<u8>, u16),
    Ipv6(Vec<u8>, u16),
}

pub const ATYP_IPV4: u8 = 0x01;

pub const ATYP_DOMAIN: u8 = 0x02;

pub const ATYP_IPV6: u8 = 0x03;

impl SocksAddr {
    /// A domain fits its one-byte length; addresses have their fixed sizes.
    pub open spec fn wf(&self) -> bool {
        match self {
            SocksAddr::Domain(d, _) => d@.len() <= 255,
            SocksAddr::Ipv4(a, _) => a@.len() == 4,
            SocksAddr::Ipv6(a, _) => a@.len() == 16,
        }
    }

    /// Port (big-endian), address type, then the address; a domain is
    /// preceded by its length.
    pub open spec fn vmess_bytes(&self) -> Seq<u8> {
        match self {
            SocksAddr::Domain(d, p) => be16(*p) + seq![ATYP_DOMAIN, d@.len() as u8] + d@,
            SocksAddr::Ipv4(a, p) => be16(*p) + seq![ATYP_IPV4] + a@,
            SocksAddr::Ipv6(a, p) => be16(*p) + seq![ATYP_IPV6] + a@,
        }
    }

    pub fn write_to_buf_vmess(&self, buf: &mut Vec<u8>)
        requires
            self.wf(),
        ensures
            final(buf)@ == old(buf)@ + self.vmess_bytes(),
    {
        match self {
            SocksAddr::Domain(d, p) => {
                put_u16(buf, *p);
                put_u8(buf, ATYP_DOMAIN);
                put_u8(buf, d.len() as u8);
                put_slice(buf, d.as_slice());
            },
            SocksAddr::Ipv4(a, p) => {
                put_u16(buf, *p);
                put_u8(buf, ATYP_IPV4);
                put_slice(buf, a.as_slice());
            },
            SocksAddr::Ipv6(a, p) => {
                put_u16(buf, *p);
                put_u8(buf, ATYP_IPV6);
                put_slice(buf, a.as_slice());
            },
        }
        assert(final(buf)@ =~= old(buf)@ + self.vmess_bytes());
    }
}

} // verus!
