//! The Windows family of platforms.
//!
//! A descriptor is an opaque handle of 64 bits, lengths and counts are signed
//! 32-bit numbers, and the host stores numbers least significant byte first.
use super::addr::{addr_of, decode, encode, lemma_decode_encode, sockaddr, storage};
use super::addr::{ByteOrder, Layout, NativeAddr, SocketAddr};
use super::error::{count, count_or_shutdown, status, value};
use super::error::{cvt_count, cvt_count_or_shutdown, cvt_nonzero, cvt_status, cvt_value, Error};
use super::flags::AcceptFlags;
use vstd::prelude::*;

verus! {

/// Socket families.
pub struct Family;

#[allow(non_upper_case_globals)]
impl Family {
    pub const UNSPECIFIED: i32 = 0;

    pub const IPv4: i32 = 2;

    pub const IPv6: i32 = 23;

    pub const IRDA: i32 = 26;

    pub const BTH: i32 = 32;
}

/// Socket types.
pub struct Type;

impl Type {
    pub const STREAM: i32 = 1;

    pub const DATAGRAM: i32 = 2;

    pub const RAW: i32 = 3;

    pub const RDM: i32 = 4;

    pub const SEQPACKET: i32 = 5;
}

/// Socket protocols.
pub struct Protocol;

#[allow(non_upper_case_globals)]
impl Protocol {
    pub const NONE: i32 = 59;

    pub const ICMPv4: i32 = 1;

    pub const TCP: i32 = 6;

    pub const UDP: i32 = 17;

    pub const ICMPv6: i32 = 58;
}

/// The handle that stands for no socket: what a call that was to hand back a
/// descriptor returns on failure.
pub const INVALID_SOCKET: u64 = 0xffff_ffff_ffff_ffff;

/// The error code of a send on a connection that has been shut down.
pub const WSAESHUTDOWN: i32 = 10058;

/// The request that sets or clears non-blocking mode.
pub const FIONBIO: i32 = -2147195266;

/// The handle flag that lets processes created later inherit a handle.
pub const HANDLE_FLAG_INHERIT: u32 = 1;

/// The number of descriptors that a descriptor set has room for.
pub const FD_SETSIZE: usize = 64;

/// How this family lays out a native address.
pub open spec fn spec_layout() -> Layout {
    Layout { inet: Family::IPv4 as u16, inet6: Family::IPv6 as u16, order: ByteOrder::LittleEndian }
}

/// How this family lays out a native address.
#[verifier::when_used_as_spec(spec_layout)]
pub fn layout() -> (r: Layout)
    ensures
        r == spec_layout(),
        r.wf(),
{
    Layout { inet: Family::IPv4 as u16, inet6: Family::IPv6 as u16, order: ByteOrder::LittleEndian }
}

/// Lays `addr` out as the OS reads it: the structure of the address's family,
/// and that structure's size as the length. Read back by [`sockaddr_to_addr`],
/// the result is `addr` again.
pub fn get_raw_addr(addr: &SocketAddr) -> (r: NativeAddr)
    ensures
        r.bytes@ == storage(*addr, layout()),
        r.len == sockaddr(*addr, layout()).len(),
        addr_of(r.bytes@, r.len as int, layout()) == Ok::<SocketAddr, Error>(*addr),
{
    proof {
        lemma_decode_encode(*addr, layout());
    }
    encode(addr, &layout())
}

/// Reads the address that the OS wrote to `storage`.
///
/// Fails with [`Error::InvalidAddrType`] where the family tag is neither that
/// of IPv4 nor that of IPv6, and with [`Error::ShortAddr`] where the length
/// that the OS reported does not cover the structure of the tag's family.
pub fn sockaddr_to_addr(storage: &NativeAddr) -> (r: Result<SocketAddr, Error>)
    ensures
        r == addr_of(storage.bytes@, storage.len as int, layout()),
{
    decode(storage, &layout())
}

/// The length of a buffer as the OS takes it: the buffer's length, or the
/// largest signed 32-bit number where the buffer is longer.
pub fn io_len(len: usize) -> (r: i32)
    ensures
        r == (if len <= i32::MAX {
            len as int
        } else {
            i32::MAX as int
        }),
{
    if len <= 0x7fff_ffff {
        len as i32
    } else {
        i32::MAX
    }
}

/// A socket descriptor. It stands for one open socket of the OS, and is moved,
/// never copied.
#[derive(Debug)]
pub struct Socket {
    inner: u64,
}

impl View for Socket {
    type V = int;

    /// The native handle.
    closed spec fn view(&self) -> int {
        self.inner as int
    }
}

/// What the OS's answer to a call that hands back a descriptor means: a new
/// descriptor, or the OS's error where the answer is the invalid handle.
pub open spec fn opened(r: Result<Socket, Error>, ret: u64, os_error: i32) -> bool {
    match r {
        Ok(socket) => ret != INVALID_SOCKET && socket@ == ret,
        Err(e) => ret == INVALID_SOCKET && e == Error::Os(os_error),
    }
}

/// What the OS's answer to a call that writes an address means: the OS's
/// error where the call failed, otherwise what the buffer reads as.
pub open spec fn named(failed: bool, storage: NativeAddr, os_error: i32) -> Result<
    SocketAddr,
    Error,
> {
    if failed {
        Err(Error::Os(os_error))
    } else {
        addr_of(storage.bytes@, storage.len as int, layout())
    }
}

/// The number of bytes that a send sent, seen that a failure with the error
/// code of a connection shut down is a send of no bytes.
pub open spec fn sent(ret: i32, os_error: i32) -> Result<usize, Error> {
    count_or_shutdown(ret as isize, os_error, WSAESHUTDOWN)
}

/// An accept that gave no connection.
#[derive(Debug)]
pub struct AcceptError {
    /// Why there is no connection.
    pub error: Error,
    /// The descriptor of the connection, where the OS accepted one and the
    /// failure is that the peer's address cannot be read. It is open, and its
    /// owner is to close it.
    pub socket: Option<Socket>,
}

/// What a failed accept hands back: the OS's error and no descriptor where
/// the call failed; otherwise the error of the address, and the descriptor
/// that the OS handed over.
pub open spec fn not_accepted(
    refused: AcceptError,
    ret: u64,
    storage: NativeAddr,
    os_error: i32,
) -> bool {
    &&& named(ret == INVALID_SOCKET, storage, os_error) == Err::<SocketAddr, Error>(refused.error)
    &&& match refused.socket {
        Some(socket) => ret != INVALID_SOCKET && socket@ == ret,
        None => ret == INVALID_SOCKET,
    }
}

/// A newly accepted descriptor, and what it is to be set to.
#[derive(Debug)]
pub struct Accepted {
    /// The accepted descriptor.
    pub socket: Socket,
    /// The peer's address.
    pub addr: SocketAddr,
    /// Whether the descriptor is to block. To be set before it is used.
    pub blocking: bool,
    /// Whether processes created later are to inherit the descriptor. To be
    /// set before it is used.
    pub inheritable: bool,
}

impl Socket {
    /// The descriptor that the OS's socket call created.
    ///
    /// `ret` is what the call returned, `os_error` the OS's last error code
    /// read right after it.
    pub fn new(ret: u64, os_error: i32) -> (r: Result<Socket, Error>)
        ensures
            opened(r, ret, os_error),
    {
        if ret == INVALID_SOCKET {
            Err(Error::Os(os_error))
        } else {
            Ok(Socket { inner: ret })
        }
    }

    /// The native handle. The descriptor keeps owning it.
    pub fn raw(&self) -> (handle: u64)
        ensures
            handle == self@,
    {
        self.inner
    }

    /// The local address that `getsockname` reported.
    ///
    /// A failed call is an error whatever the buffer holds: a descriptor
    /// without a name has no address, not an address of zeros.
    pub fn name(ret: i32, storage: &NativeAddr, os_error: i32) -> (r: Result<SocketAddr, Error>)
        ensures
            r == named(ret < 0, *storage, os_error),
    {
        if ret < 0 {
            Err(Error::Os(os_error))
        } else {
            sockaddr_to_addr(storage)
        }
    }

    /// The outcome of `bind`.
    pub fn bind(ret: i32, os_error: i32) -> (r: Result<(), Error>)
        ensures
            r == status(ret, os_error),
    {
        cvt_status(ret, os_error)
    }

    /// The outcome of `listen`.
    pub fn listen(ret: i32, os_error: i32) -> (r: Result<(), Error>)
        ensures
            r == status(ret, os_error),
    {
        cvt_status(ret, os_error)
    }

    /// The number of bytes that `recv` received. A failed receive is the
    /// error of the OS, whatever its code.
    pub fn recv(ret: i32, os_error: i32) -> (r: Result<usize, Error>)
        ensures
            r == count(ret as isize, os_error),
    {
        cvt_count(ret as isize, os_error)
    }

    /// The number of bytes that `recvfrom` received, and the address that
    /// they came from. A failed receive is the error of the OS, whatever its
    /// code.
    pub fn recv_from(ret: i32, storage: &NativeAddr, os_error: i32) -> (r: Result<
        (usize, SocketAddr),
        Error,
    >)
        ensures
            match r {
                Ok((n, peer)) => ret >= 0 && n == ret && named(false, *storage, os_error) == Ok::<
                    SocketAddr,
                    Error,
                >(peer),
                Err(e) => named(ret < 0, *storage, os_error) == Err::<SocketAddr, Error>(e),
            },
    {
        if ret < 0 {
            Err(Error::Os(os_error))
        } else {
            match sockaddr_to_addr(storage) {
                Ok(peer) => Ok((ret as usize, peer)),
                Err(e) => Err(e),
            }
        }
    }

    /// The number of bytes that `send` sent.
    ///
    /// A send that failed because the peer had shut the connection down
    /// counts as a send of no bytes.
    pub fn send(ret: i32, os_error: i32) -> (r: Result<usize, Error>)
        ensures
            r == sent(ret, os_error),
    {
        cvt_count_or_shutdown(ret as isize, os_error, WSAESHUTDOWN)
    }

    /// The number of bytes that `sendto` sent.
    ///
    /// A send that failed because the peer had shut the connection down
    /// counts as a send of no bytes.
    pub fn send_to(ret: i32, os_error: i32) -> (r: Result<usize, Error>)
        ensures
            r == sent(ret, os_error),
    {
        cvt_count_or_shutdown(ret as isize, os_error, WSAESHUTDOWN)
    }

    /// The descriptor that `accept` handed back, and the peer's address.
    ///
    /// Where the call succeeded and the address cannot be read, the error is
    /// that of the address, and the descriptor comes back with it: the OS
    /// has accepted the connection, and somebody has to close it.
    pub fn accept(ret: u64, storage: &NativeAddr, os_error: i32) -> (r: Result<
        (Socket, SocketAddr),
        AcceptError,
    >)
        ensures
            match r {
                Ok((socket, peer)) => ret != INVALID_SOCKET && socket@ == ret && named(
                    false,
                    *storage,
                    os_error,
                ) == Ok::<SocketAddr, Error>(peer),
                Err(refused) => not_accepted(refused, ret, *storage, os_error),
            },
    {
        if ret == INVALID_SOCKET {
            Err(AcceptError { error: Error::Os(os_error), socket: None })
        } else {
            let socket = Socket { inner: ret };
            match sockaddr_to_addr(storage) {
                Ok(peer) => Ok((socket, peer)),
                Err(error) => Err(AcceptError { error, socket: Some(socket) }),
            }
        }
    }

    /// The descriptor that `accept` handed back, the peer's address, and what
    /// `flags` ask the descriptor to be set to: this family has no call that
    /// accepts under flags, so they are applied after the call, by
    /// `set_blocking` and `set_inheritable`.
    ///
    /// Fails as [`Socket::accept`] does.
    pub fn accept4(flags: AcceptFlags, ret: u64, storage: &NativeAddr, os_error: i32) -> (r: Result<
        Accepted,
        AcceptError,
    >)
        ensures
            match r {
                Ok(accepted) => {
                    &&& ret != INVALID_SOCKET
                    &&& accepted.socket@ == ret
                    &&& named(false, *storage, os_error) == Ok::<SocketAddr, Error>(accepted.addr)
                    &&& accepted.blocking == !flags.has_non_blocking()
                    &&& accepted.inheritable == !flags.has_non_inheritable()
                },
                Err(refused) => not_accepted(refused, ret, *storage, os_error),
            },
    {
        match Socket::accept(ret, storage, os_error) {
            Ok((socket, addr)) => Ok(
                Accepted {
                    socket,
                    addr,
                    blocking: flags.blocking(),
                    inheritable: flags.inheritable(),
                },
            ),
            Err(refused) => Err(refused),
        }
    }

    /// The outcome of `connect`.
    pub fn connect(ret: i32, os_error: i32) -> (r: Result<(), Error>)
        ensures
            r == status(ret, os_error),
    {
        cvt_status(ret, os_error)
    }

    /// The value of a socket option that `getsockopt` wrote to `value`.
    pub fn get_opt<T>(ret: i32, value: T, os_error: i32) -> (r: Result<T, Error>)
        ensures
            r == (if ret == 0 {
                Ok::<T, Error>(value)
            } else {
                Err::<T, Error>(Error::Os(os_error))
            }),
    {
        if ret == 0 {
            Ok(value)
        } else {
            Err(Error::Os(os_error))
        }
    }

    /// The outcome of `setsockopt`.
    pub fn set_opt(ret: i32, os_error: i32) -> (r: Result<(), Error>)
        ensures
            r == status(ret, os_error),
    {
        cvt_status(ret, os_error)
    }

    /// The outcome of `ioctlsocket`.
    pub fn ioctl(ret: i32, os_error: i32) -> (r: Result<(), Error>)
        ensures
            r == status(ret, os_error),
    {
        cvt_status(ret, os_error)
    }

    /// The `ioctlsocket` that makes a descriptor blocking or non-blocking:
    /// the request, and its argument, which is 1 for non-blocking and 0 for
    /// blocking.
    pub fn set_blocking(value: bool) -> (r: (i32, u32))
        ensures
            r.0 == FIONBIO,
            r.1 == (if value {
                0u32
            } else {
                1u32
            }),
    {
        (
            FIONBIO,
            if value {
                0
            } else {
                1
            },
        )
    }

    /// The handle flags to store so that the descriptor is inherited by
    /// processes created later, or is not: the mask of the flags to change,
    /// and their new values. The call that stores them returns zero on
    /// failure, which [`cvt_nonzero`] reads.
    pub fn set_inheritable(value: bool) -> (r: (u32, u32))
        ensures
            r.0 == HANDLE_FLAG_INHERIT,
            r.1 == (if value {
                HANDLE_FLAG_INHERIT
            } else {
                0u32
            }),
    {
        (
            HANDLE_FLAG_INHERIT,
            if value {
                HANDLE_FLAG_INHERIT
            } else {
                0
            },
        )
    }

    /// Whether the descriptor is inherited by processes created later. `ret`
    /// is what the query of the handle's flags returned, zero on failure, and
    /// `flags` what it wrote.
    pub fn get_inheritable(ret: i32, flags: u32, os_error: i32) -> (r: Result<bool, Error>)
        ensures
            r == (if ret == 0 {
                Err::<bool, Error>(Error::Os(os_error))
            } else {
                Ok::<bool, Error>(flags % 2 == 1)
            }),
    {
        match cvt_nonzero(ret, os_error) {
            Ok(()) => {
                assert(((flags & 1u32) != 0) == (flags % 2 == 1)) by (bit_vector);
                Ok((flags & HANDLE_FLAG_INHERIT) != 0)
            },
            Err(e) => Err(e),
        }
    }

    /// The outcome of `shutdown`.
    pub fn shutdown(ret: i32, os_error: i32) -> (r: Result<(), Error>)
        ensures
            r == status(ret, os_error),
    {
        cvt_status(ret, os_error)
    }

    /// The outcome of `closesocket`.
    pub fn close(ret: i32, os_error: i32) -> (r: Result<(), Error>)
        ensures
            r == status(ret, os_error),
    {
        cvt_status(ret, os_error)
    }

    /// The native handle.
    pub fn as_raw_socket(&self) -> (handle: u64)
        ensures
            handle == self@,
    {
        self.inner
    }

    /// A descriptor for a handle that the caller owns and hands over.
    pub fn from_raw_socket(handle: u64) -> (r: Socket)
        ensures
            r@ == handle,
    {
        Socket { inner: handle }
    }

    /// Gives the native handle up to the caller.
    pub fn into_raw_socket(self) -> (handle: u64)
        ensures
            handle == self@,
    {
        self.inner
    }
}

/// A native descriptor set: the handles, and how many there are.
#[derive(Clone, Copy, Debug)]
pub struct FdSet {
    fd_count: u32,
    fd_array: [u64; 64],
}

impl View for FdSet {
    type V = Seq<int>;

    /// The handles in the set, in the order in which they were put there.
    closed spec fn view(&self) -> Seq<int> {
        Seq::new(self.fd_count as nat, |i: int| self.fd_array[i] as int)
    }
}

impl FdSet {
    #[verifier::type_invariant]
    spec fn wf(&self) -> bool {
        self.fd_count <= 64
    }

    /// The set without descriptors.
    pub fn new() -> (r: FdSet)
        ensures
            r@ == Seq::<int>::empty(),
    {
        let r = FdSet { fd_count: 0, fd_array: [0u64; 64] };
        assert(r@ =~= Seq::<int>::empty());
        r
    }

    /// The number of handles in the set.
    pub fn fd_count(&self) -> (n: u32)
        ensures
            n == self@.len(),
            n <= FD_SETSIZE,
    {
        proof {
            use_type_invariant(self);
        }
        self.fd_count
    }

    /// The handle at place `i`.
    pub fn fd(&self, i: u32) -> (handle: u64)
        requires
            i < self@.len(),
        ensures
            handle == self@[i as int],
    {
        proof {
            use_type_invariant(self);
        }
        self.fd_array[i as usize]
    }

    /// Puts `handle` behind the handles in the set.
    pub fn push(&mut self, handle: u64)
        requires
            old(self)@.len() < FD_SETSIZE,
        ensures
            final(self)@ == old(self)@.push(handle as int),
    {
        proof {
            use_type_invariant(&*self);
        }
        let idx = self.fd_count as usize;
        self.fd_array[idx] = handle;
        self.fd_count += 1;
        assert(self@ =~= old(self)@.push(handle as int));
    }
}

/// A time interval as the OS takes it: whole seconds, and microseconds below
/// one second.
#[derive(Clone, Copy, Debug, PartialEq, Eq, Structural)]
pub struct TimeVal {
    pub tv_sec: i32,
    pub tv_usec: i32,
}

/// Whether the OS's interval can hold `timeout_ms` milliseconds: the seconds
/// are a signed 32-bit number.
pub open spec fn spec_representable(timeout_ms: u64) -> bool {
    timeout_ms / 1000 <= i32::MAX
}

/// Whether the OS's interval can hold `timeout_ms` milliseconds.
#[verifier::when_used_as_spec(spec_representable)]
pub fn representable(timeout_ms: u64) -> (r: bool)
    ensures
        r == spec_representable(timeout_ms),
{
    timeout_ms / 1000 <= 0x7fff_ffff
}

/// The interval of `timeout_ms` milliseconds.
pub open spec fn timeval_of(timeout_ms: u64) -> TimeVal {
    TimeVal { tv_sec: (timeout_ms / 1000) as i32, tv_usec: ((timeout_ms % 1000) * 1000) as i32 }
}

/// Turns milliseconds into the interval that the OS takes.
pub fn ms_to_timeval(timeout_ms: u64) -> (tv: TimeVal)
    requires
        representable(timeout_ms),
    ensures
        tv == timeval_of(timeout_ms),
        tv.tv_sec * 1000 + tv.tv_usec / 1000 == timeout_ms,
        0 <= tv.tv_usec < 1_000_000,
{
    TimeVal { tv_sec: (timeout_ms / 1000) as i32, tv_usec: ((timeout_ms % 1000) * 1000) as i32 }
}

/// The handles of `sockets`, in their order.
pub open spec fn handles(sockets: Seq<&Socket>) -> Seq<int> {
    Seq::new(sockets.len(), |i: int| sockets[i]@)
}

/// Builds the native descriptor set of `sockets`.
pub fn sockets_to_fd_set(sockets: &[&Socket]) -> (r: FdSet)
    requires
        sockets@.len() <= FD_SETSIZE,
    ensures
        r@ == handles(sockets@),
{
    let mut raw_fds = FdSet::new();
    let mut k: usize = 0;
    while k < sockets.len()
        invariant
            k <= sockets.len(),
            sockets@.len() <= FD_SETSIZE,
            raw_fds@ == handles(sockets@.take(k as int)),
        decreases sockets.len() - k,
    {
        let handle = sockets[k].raw();
        raw_fds.push(handle);
        assert(raw_fds@ =~= handles(sockets@.take(k + 1)));
        k += 1;
    }
    assert(sockets@.take(k as int) =~= sockets@);
    raw_fds
}

/// What a readiness wait hands to the OS.
#[derive(Clone, Copy, Debug)]
pub struct Select {
    /// The OS does not look at this number. It is zero.
    pub nfds: i32,
    /// The descriptors to watch for data to read. `None` stands for the null
    /// pointer, which is not the same to the OS as a set without members.
    pub read_fds: Option<FdSet>,
    /// The descriptors to watch for room to write.
    pub write_fds: Option<FdSet>,
    /// The descriptors to watch for exceptional conditions.
    pub except_fds: Option<FdSet>,
    /// How long to wait. `None` stands for the null pointer: the wait has no
    /// limit.
    pub timeout: Option<TimeVal>,
}

/// What is handed to the OS for the descriptors `sockets`: nothing where
/// there are none, otherwise the set of their handles.
pub open spec fn passed(sockets: Seq<&Socket>, set: Option<FdSet>) -> bool {
    if sockets.len() == 0 {
        set is None
    } else {
        set matches Some(s) && s@ == handles(sockets)
    }
}

/// The interval handed to the OS for a timeout in milliseconds: none where
/// there is no timeout.
pub open spec fn interval(timeout_ms: Option<u64>) -> Option<TimeVal> {
    match timeout_ms {
        Some(ms) => Some(timeval_of(ms)),
        None => None,
    }
}

fn pass(sockets: &[&Socket]) -> (r: Option<FdSet>)
    requires
        sockets@.len() <= FD_SETSIZE,
    ensures
        passed(sockets@, r),
{
    if sockets.len() > 0 {
        Some(sockets_to_fd_set(sockets))
    } else {
        None
    }
}

/// Prepares a wait for readiness: until one of the descriptors is ready for
/// what its set stands for, or until the timeout has passed.
///
/// Hands back what the OS's `select` is to be called with. What that call
/// returns is read by [`Select::ready`]. No set may hold more descriptors
/// than a native set has room for, and the timeout has to be one that the
/// OS's interval can hold.
pub fn select(
    read_fds: &[&Socket],
    write_fds: &[&Socket],
    except_fds: &[&Socket],
    timeout_ms: Option<u64>,
) -> (call: Select)
    requires
        read_fds@.len() <= FD_SETSIZE,
        write_fds@.len() <= FD_SETSIZE,
        except_fds@.len() <= FD_SETSIZE,
        timeout_ms matches Some(ms) ==> representable(ms),
    ensures
        call.nfds == 0,
        passed(read_fds@, call.read_fds),
        passed(write_fds@, call.write_fds),
        passed(except_fds@, call.except_fds),
        call.timeout == interval(timeout_ms),
{
    let timeout = match timeout_ms {
        Some(ms) => Some(ms_to_timeval(ms)),
        None => None,
    };
    Select {
        nfds: 0,
        read_fds: pass(read_fds),
        write_fds: pass(write_fds),
        except_fds: pass(except_fds),
        timeout,
    }
}

impl Select {
    /// The number of descriptors that the OS's `select` found ready. Zero
    /// says that the timeout passed with none ready, and is no failure.
    pub fn ready(ret: i32, os_error: i32) -> (r: Result<i32, Error>)
        ensures
            r == value(ret, os_error),
    {
        cvt_value(ret, os_error)
    }
}

} // verus!
