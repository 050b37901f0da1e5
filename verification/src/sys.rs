//! The system calls that the transport asks for, and the answers it takes back.
use vstd::prelude::*;

verus! {

/// The direction of traffic that a deadline applies to.
#[derive(Debug, Clone, Copy, PartialEq, Eq)]
pub enum Direction {
    /// Writes to the peer.
    Sending,
    /// Reads from the peer.
    Receiving,
}

/// A deadline as the operating system takes it: whole seconds and the
/// microseconds beyond them.
#[derive(Debug, Clone, Copy, PartialEq, Eq)]
pub struct Timeval {
    pub secs: u32,
    pub micros: u32,
}

impl Timeval {
    /// The split of `ms` milliseconds: the one pair with fewer than a million
    /// microseconds that adds up to `ms`.
    pub open spec fn of_millis(ms: u32) -> Timeval {
        Timeval { secs: (ms / 1000) as u32, micros: ((ms % 1000) * 1000) as u32 }
    }

    /// The length of the deadline in microseconds.
    pub open spec fn total_micros(self) -> int {
        self.secs * 1_000_000 + self.micros
    }

    /// Splits a deadline in milliseconds into seconds and microseconds.
    pub fn from_millis(ms: u32) -> (tv: Timeval)
        ensures
            tv == Timeval::of_millis(ms),
            tv.micros < 1_000_000,
            tv.total_micros() == ms * 1000,
    {
        Timeval { secs: ms / 1000, micros: (ms % 1000) * 1000 }
    }
}

/// An IPv4 address and a TCP port, each as its bytes in network order, the most
/// significant first.
#[derive(Debug, Clone, Copy, PartialEq, Eq)]
pub struct SockAddrIn {
    pub addr: [u8; 4],
    pub port: [u8; 2],
}

impl SockAddrIn {
    /// The number that the address bytes spell, read most significant first.
    pub open spec fn host(self) -> int {
        ((self.addr@[0] * 256 + self.addr@[1]) * 256 + self.addr@[2]) * 256 + self.addr@[3]
    }

    /// The number that the port bytes spell, read most significant first.
    pub open spec fn port_number(self) -> int {
        self.port@[0] * 256 + self.port@[1]
    }

    /// The address of host `ip_host`, port `port`.
    pub open spec fn of(ip_host: u32, port: u16) -> SockAddrIn {
        SockAddrIn {
            addr: [
                (ip_host / 0x100_0000) as u8,
                (ip_host / 0x1_0000 % 256) as u8,
                (ip_host / 0x100 % 256) as u8,
                (ip_host % 256) as u8,
            ],
            port: [(port / 256) as u8, (port % 256) as u8],
        }
    }

    /// Puts a host address and a port, both given as numbers, into network order.
    pub fn new(ip_host: u32, port: u16) -> (a: SockAddrIn)
        ensures
            a == SockAddrIn::of(ip_host, port),
            a.host() == ip_host,
            a.port_number() == port,
    {
        let a0: u8 = (ip_host / 0x100_0000) as u8;
        let a1: u8 = (ip_host / 0x1_0000 % 256) as u8;
        let a2: u8 = (ip_host / 0x100 % 256) as u8;
        let a3: u8 = (ip_host % 256) as u8;
        let p0: u8 = (port / 256) as u8;
        let p1: u8 = (port % 256) as u8;
        SockAddrIn { addr: [a0, a1, a2, a3], port: [p0, p1] }
    }
}

/// A system call that the transport asks its caller to make.
#[derive(Debug, Clone, Copy, PartialEq, Eq)]
pub enum SysCall {
    /// Open a stream socket for TCP over IPv4.
    Socket,
    /// Connect the socket `fd` to `addr` and wait until the connection stands.
    Connect { fd: i32, addr: SockAddrIn },
    /// Set the deadline of one direction of the socket `fd`.
    SetTimeout { fd: i32, direction: Direction, timeout: Timeval },
    /// Receive up to `len` bytes from the socket `fd` into the start of the
    /// caller's buffer.
    Recv { fd: i32, len: usize },
    /// Send the `len` bytes of the caller's buffer that start at `offset` to the
    /// socket `fd`.
    Send { fd: i32, offset: usize, len: usize },
    /// Close the socket `fd`.
    Close { fd: i32 },
}

/// What a system call gave back: its return value, and the error number that
/// the operating system left behind.
///
/// The error number is read only where the return value reports a failure.
#[derive(Debug, Clone, Copy, PartialEq, Eq)]
pub struct SysReturn {
    pub ret: isize,
    pub errno: i32,
}

impl SysReturn {
    /// The descriptor that the return value holds: a number that is not
    /// negative and is small enough to be one.
    pub open spec fn descriptor(self) -> Option<i32> {
        if 0 <= self.ret <= i32::MAX {
            Some(self.ret as i32)
        } else {
            None
        }
    }

    /// The byte count that the return value holds, of at most `limit` bytes
    /// asked for: a negative value counts no bytes, and a value beyond `limit`
    /// counts `limit`.
    pub open spec fn count(self, limit: usize) -> usize {
        if self.ret <= 0 {
            0
        } else if self.ret >= limit {
            limit
        } else {
            self.ret as usize
        }
    }

    /// Reads the return value as a descriptor.
    pub fn as_descriptor(&self) -> (fd: Option<i32>)
        ensures
            fd == self.descriptor(),
    {
        if 0 <= self.ret && self.ret <= 0x7fff_ffff {
            Some(self.ret as i32)
        } else {
            None
        }
    }

    /// Reads the return value as a byte count, which is never taken to be more
    /// than the `limit` bytes asked for.
    pub fn as_count(&self, limit: usize) -> (n: usize)
        ensures
            n == self.count(limit),
            n <= limit,
    {
        if self.ret <= 0 {
            0
        } else {
            let given: usize = self.ret as usize;
            if given >= limit {
                limit
            } else {
                given
            }
        }
    }
}

} // verus!
