use vstd::prelude::*;

verus! {

/// The port that a server listens on when none is configured.
pub const DEFAULT_PORT: u16 = 9090;

/// The IPv4 loopback address, `127.0.0.1`, as its 32 bits in network order.
pub const LOOPBACK_V4: u32 = 0x7f00_0001;

/// An IP address held as its bits, most significant octet first.
#[derive(Clone, Copy, Debug, PartialEq, Eq, Structural)]
pub enum IpAddress {
    V4(u32),
    V6(u128),
}

/// A socket address that a server binds: an IP address and a port.
#[derive(Clone, Copy, Debug, PartialEq, Eq, Structural)]
pub struct ListenAddr {
    pub ip: IpAddress,
    pub port: u16,
}

impl ListenAddr {
    pub open spec fn is_default(self) -> bool {
        self.ip == IpAddress::V4(LOOPBACK_V4) && self.port == DEFAULT_PORT
    }

    /// The address used when none is configured: `127.0.0.1:9090`.
    pub fn default_addr() -> (r: ListenAddr)
        ensures
            r.is_default(),
    {
        ListenAddr { ip: IpAddress::V4(LOOPBACK_V4), port: DEFAULT_PORT }
    }

    /// An IPv4 address, given as four octets, and a port.
    pub fn v4(octets: [u8; 4], port: u16) -> (r: ListenAddr)
        ensures
            r.ip matches IpAddress::V4(bits) && bits == octets[0] * 0x100_0000 + octets[1]
                * 0x1_0000 + octets[2] * 0x100 + octets[3],
            r.port == port,
    {
        let bits: u32 = (octets[0] as u32) * 0x100_0000 + (octets[1] as u32) * 0x1_0000
            + (octets[2] as u32) * 0x100 + (octets[3] as u32);
        ListenAddr { ip: IpAddress::V4(bits), port }
    }
}

} // verus!
