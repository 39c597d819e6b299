//! The POSIX family of platforms, with the constants and integer widths of
//! 64-bit Linux.
//!
//! A descriptor is a small non-negative number. A failed call returns a
//! negative number, and the OS's error code says why.
use super::addr::{addr_of, decode, encode, lemma_decode_encode, sockaddr, storage};
use super::addr::{ByteOrder, Layout, NativeAddr, SocketAddr};
use super::error::{count, count_or_shutdown, status, value};
use super::error::{cvt_count, cvt_count_or_shutdown, cvt_status, cvt_value, Error};
use vstd::prelude::*;

verus! {

/// Socket families.
pub struct Family;

#[allow(non_upper_case_globals)]
impl Family {
    pub const UNSPECIFIED: i32 = 0;

    pub const UNIX: i32 = 1;

    pub const IPv4: i32 = 2;

    pub const IPv6: i32 = 10;

    pub const NETLINK: i32 = 16;

    pub const PACKET: i32 = 17;
}

/// Socket types.
pub struct Type;

impl Type {
    pub const STREAM: i32 = 1;

    pub const DATAGRAM: i32 = 2;

    pub const RAW: i32 = 3;

    pub const SEQPACKET: i32 = 5;

    /// Applied through bitwise OR.
    pub const NONBLOCK: i32 = 0o4000;

    /// Applied through bitwise OR.
    pub const CLOEXEC: i32 = 0o2000000;
}

/// Socket protocols.
pub struct Protocol;

#[allow(non_upper_case_globals)]
impl Protocol {
    pub const NONE: i32 = 0;

    pub const ICMPv4: i32 = 1;

    pub const TCP: i32 = 6;

    pub const UDP: i32 = 17;

    pub const ICMPv6: i32 = 58;
}

/// The error code of a send to a peer that has shut the connection down.
pub const ESHUTDOWN: i32 = 108;

/// The request that sets or clears non-blocking mode.
pub const FIONBIO: u64 = 0x5421;

/// The command that reads a descriptor's flags.
pub const F_GETFD: i32 = 1;

/// The command that stores a descriptor's flags.
pub const F_SETFD: i32 = 2;

/// The descriptor flag that keeps a descriptor from processes created later.
pub const FD_CLOEXEC: i32 = 1;

/// How this family lays out a native address on a host of the given byte
/// order.
pub open spec fn spec_layout(order: ByteOrder) -> Layout {
    Layout { inet: Family::IPv4 as u16, inet6: Family::IPv6 as u16, order }
}

/// How this family lays out a native address on a host of the given byte
/// order.
#[verifier::when_used_as_spec(spec_layout)]
pub fn layout(order: ByteOrder) -> (r: Layout)
    ensures
        r == spec_layout(order),
        r.wf(),
{
    Layout { inet: Family::IPv4 as u16, inet6: Family::IPv6 as u16, order }
}

/// Lays `addr` out as the OS reads it: the structure of the address's family,
/// and that structure's size as the length. Read back by [`sockaddr_to_addr`],
/// the result is `addr` again.
pub fn get_raw_addr(addr: &SocketAddr, order: ByteOrder) -> (r: NativeAddr)
    ensures
        r.bytes@ == storage(*addr, layout(order)),
        r.len == sockaddr(*addr, layout(order)).len(),
        addr_of(r.bytes@, r.len as int, layout(order)) == Ok::<SocketAddr, Error>(*addr),
{
    proof {
        lemma_decode_encode(*addr, layout(order));
    }
    encode(addr, &layout(order))
}

/// Reads the address that the OS wrote to `storage`.
///
/// Fails with [`Error::InvalidAddrType`] where the family tag is neither that
/// of IPv4 nor that of IPv6, and with [`Error::ShortAddr`] where the length
/// that the OS reported does not cover the structure of the tag's family.
pub fn sockaddr_to_addr(storage: &NativeAddr, order: ByteOrder) -> (r: Result<SocketAddr, Error>)
    ensures
        r == addr_of(storage.bytes@, storage.len as int, layout(order)),
{
    decode(storage, &layout(order))
}

/// A socket descriptor. It stands for one open socket of the OS, and is moved,
/// never copied.
#[derive(Debug)]
pub struct Socket {
    inner: i32,
}

impl View for Socket {
    type V = int;

    /// The native handle.
    closed spec fn view(&self) -> int {
        self.inner as int
    }
}

/// What the OS's answer to a call that hands back a descriptor means: a new
/// descriptor, or the OS's error where the answer is negative.
pub open spec fn opened(r: Result<Socket, Error>, ret: i32, os_error: i32) -> bool {
    match r {
        Ok(socket) => ret >= 0 && socket@ == ret,
        Err(e) => ret < 0 && e == Error::Os(os_error),
    }
}

/// What the OS's answer to a call that writes an address means: the OS's
/// error where the return value is negative, otherwise what the buffer reads
/// as.
pub open spec fn named(ret: int, storage: NativeAddr, order: ByteOrder, os_error: i32) -> Result<
    SocketAddr,
    Error,
> {
    if ret < 0 {
        Err(Error::Os(os_error))
    } else {
        addr_of(storage.bytes@, storage.len as int, layout(order))
    }
}

/// An accept that gave no connection.
#[derive(Debug)]
pub struct AcceptError {
    /// Why there is no connection.
    pub error: Error,
    /// The descriptor of the connection, where the OS accepted one and the
    /// failure is that the peer's address cannot be read. It is open, and its
    /// owner is to close it.
    pub socket: Option<Socket>,
}

/// What a failed accept hands back: the OS's error and no descriptor where
/// the call failed; otherwise the error of the address, and the descriptor
/// that the OS handed over.
pub open spec fn not_accepted(
    refused: AcceptError,
    ret: i32,
    storage: NativeAddr,
    order: ByteOrder,
    os_error: i32,
) -> bool {
    &&& named(ret as int, storage, order, os_error) == Err::<SocketAddr, Error>(refused.error)
    &&& match refused.socket {
        Some(socket) => ret >= 0 && socket@ == ret,
        None => ret < 0,
    }
}

/// Whether descriptor flags say that the descriptor is inherited: the
/// close-on-exec flag, the lowest bit, is clear.
pub open spec fn inheritable(flags: i32) -> bool {
    flags % 2 == 0
}

/// Descriptor flags with the close-on-exec flag cleared (`value`) or set, and
/// the rest as it was.
pub open spec fn with_inheritable(flags: i32, value: bool) -> i32 {
    if value {
        (flags - flags % 2) as i32
    } else {
        (flags - flags % 2 + 1) as i32
    }
}

impl Socket {
    /// The descriptor that the OS's socket call created.
    ///
    /// `ret` is what the call returned, `os_error` the OS's last error code
    /// read right after it.
    pub fn new(ret: i32, os_error: i32) -> (r: Result<Socket, Error>)
        ensures
            opened(r, ret, os_error),
    {
        if ret < 0 {
            Err(Error::Os(os_error))
        } else {
            Ok(Socket { inner: ret })
        }
    }

    /// The native handle. The descriptor keeps owning it.
    pub fn raw(&self) -> (fd: i32)
        ensures
            fd == self@,
    {
        self.inner
    }

    /// The local address that `getsockname` reported.
    ///
    /// A failed call is an error whatever the buffer holds: a descriptor
    /// without a name has no address, not an address of zeros.
    pub fn name(ret: i32, storage: &NativeAddr, order: ByteOrder, os_error: i32) -> (r: Result<
        SocketAddr,
        Error,
    >)
        ensures
            r == named(ret as int, *storage, order, os_error),
    {
        if ret < 0 {
            Err(Error::Os(os_error))
        } else {
            sockaddr_to_addr(storage, order)
        }
    }

    /// The outcome of `bind`.
    pub fn bind(ret: i32, os_error: i32) -> (r: Result<(), Error>)
        ensures
            r == status(ret, os_error),
    {
        cvt_status(ret, os_error)
    }

    /// The outcome of `listen`.
    pub fn listen(ret: i32, os_error: i32) -> (r: Result<(), Error>)
        ensures
            r == status(ret, os_error),
    {
        cvt_status(ret, os_error)
    }

    /// The number of bytes that `recv` received.
    pub fn recv(ret: isize, os_error: i32) -> (r: Result<usize, Error>)
        ensures
            r == count(ret, os_error),
    {
        cvt_count(ret, os_error)
    }

    /// The number of bytes that `recvfrom` received, and the address that
    /// they came from.
    pub fn recv_from(ret: isize, storage: &NativeAddr, order: ByteOrder, os_error: i32) -> (r:
        Result<(usize, SocketAddr), Error>)
        ensures
            match r {
                Ok((n, peer)) => ret >= 0 && n == ret && named(
                    ret as int,
                    *storage,
                    order,
                    os_error,
                ) == Ok::<SocketAddr, Error>(peer),
                Err(e) => named(ret as int, *storage, order, os_error) == Err::<SocketAddr, Error>(
                    e,
                ),
            },
    {
        if ret < 0 {
            Err(Error::Os(os_error))
        } else {
            match sockaddr_to_addr(storage, order) {
                Ok(peer) => Ok((ret as usize, peer)),
                Err(e) => Err(e),
            }
        }
    }

    /// The number of bytes that `send` sent.
    ///
    /// A send that failed because the peer had shut the connection down
    /// counts as a send of no bytes.
    pub fn send(ret: isize, os_error: i32) -> (r: Result<usize, Error>)
        ensures
            r == count_or_shutdown(ret, os_error, ESHUTDOWN),
    {
        cvt_count_or_shutdown(ret, os_error, ESHUTDOWN)
    }

    /// The number of bytes that `sendto` sent.
    ///
    /// A send that failed because the peer had shut the connection down
    /// counts as a send of no bytes.
    pub fn send_to(ret: isize, os_error: i32) -> (r: Result<usize, Error>)
        ensures
            r == count_or_shutdown(ret, os_error, ESHUTDOWN),
    {
        cvt_count_or_shutdown(ret, os_error, ESHUTDOWN)
    }

    /// The descriptor that `accept` handed back, and the peer's address.
    ///
    /// Where the call succeeded and the address cannot be read, the error is
    /// that of the address, and the descriptor comes back with it: the OS
    /// has accepted the connection, and somebody has to close it.
    pub fn accept(ret: i32, storage: &NativeAddr, order: ByteOrder, os_error: i32) -> (r: Result<
        (Socket, SocketAddr),
        AcceptError,
    >)
        ensures
            match r {
                Ok((socket, peer)) => ret >= 0 && socket@ == ret && named(
                    ret as int,
                    *storage,
                    order,
                    os_error,
                ) == Ok::<SocketAddr, Error>(peer),
                Err(refused) => not_accepted(refused, ret, *storage, order, os_error),
            },
    {
        if ret < 0 {
            Err(AcceptError { error: Error::Os(os_error), socket: None })
        } else {
            let socket = Socket { inner: ret };
            match sockaddr_to_addr(storage, order) {
                Ok(peer) => Ok((socket, peer)),
                Err(error) => Err(AcceptError { error, socket: Some(socket) }),
            }
        }
    }

    /// The descriptor that `accept4` handed back, and the peer's address. The
    /// flags went to the OS with the call, as [`AcceptFlags::bits`] gives them.
    ///
    /// Fails as [`Socket::accept`] does.
    ///
    /// [`AcceptFlags::bits`]: super::flags::AcceptFlags::bits
    pub fn accept4(ret: i32, storage: &NativeAddr, order: ByteOrder, os_error: i32) -> (r: Result<
        (Socket, SocketAddr),
        AcceptError,
    >)
        ensures
            match r {
                Ok((socket, peer)) => ret >= 0 && socket@ == ret && named(
                    ret as int,
                    *storage,
                    order,
                    os_error,
                ) == Ok::<SocketAddr, Error>(peer),
                Err(refused) => not_accepted(refused, ret, *storage, order, os_error),
            },
    {
        Socket::accept(ret, storage, order, os_error)
    }

    /// The outcome of `connect`.
    pub fn connect(ret: i32, os_error: i32) -> (r: Result<(), Error>)
        ensures
            r == status(ret, os_error),
    {
        cvt_status(ret, os_error)
    }

    /// The value of a socket option that `getsockopt` wrote to `value`.
    pub fn get_opt<T>(ret: i32, value: T, os_error: i32) -> (r: Result<T, Error>)
        ensures
            r == (if ret == 0 {
                Ok::<T, Error>(value)
            } else {
                Err::<T, Error>(Error::Os(os_error))
            }),
    {
        if ret == 0 {
            Ok(value)
        } else {
            Err(Error::Os(os_error))
        }
    }

    /// The outcome of `setsockopt`.
    pub fn set_opt(ret: i32, os_error: i32) -> (r: Result<(), Error>)
        ensures
            r == status(ret, os_error),
    {
        cvt_status(ret, os_error)
    }

    /// The outcome of `ioctl`.
    pub fn ioctl(ret: i32, os_error: i32) -> (r: Result<(), Error>)
        ensures
            r == status(ret, os_error),
    {
        cvt_status(ret, os_error)
    }

    /// The `ioctl` that makes a descriptor blocking or non-blocking: the
    /// request, and its argument, which is 1 for non-blocking and 0 for
    /// blocking.
    pub fn set_blocking(value: bool) -> (r: (u64, u64))
        ensures
            r.0 == FIONBIO,
            r.1 == (if value {
                0u64
            } else {
                1u64
            }),
    {
        (
            FIONBIO,
            if value {
                0
            } else {
                1
            },
        )
    }

    /// The descriptor flags to store with `F_SETFD` so that the descriptor is
    /// inherited by processes created later, or is not. `flags` is what
    /// `F_GETFD` returned: the flags, or a negative number on failure.
    ///
    /// Only the close-on-exec flag changes: it is cleared for an inheritable
    /// descriptor and set for one that is not.
    pub fn set_inheritable(flags: i32, value: bool, os_error: i32) -> (r: Result<i32, Error>)
        ensures
            r == (if flags < 0 {
                Err::<i32, Error>(Error::Os(os_error))
            } else {
                Ok::<i32, Error>(with_inheritable(flags, value))
            }),
    {
        if flags < 0 {
            return Err(Error::Os(os_error));
        }
        assert((flags & !1i32) == flags - flags % 2 && (flags | 1i32) == flags - flags % 2 + 1)
            by (bit_vector)
            requires
                flags >= 0,
        ;
        if value {
            Ok(flags & !FD_CLOEXEC)
        } else {
            Ok(flags | FD_CLOEXEC)
        }
    }

    /// Whether the descriptor is inherited by processes created later.
    /// `flags` is what `F_GETFD` returned: the flags, or a negative number on
    /// failure.
    pub fn get_inheritable(flags: i32, os_error: i32) -> (r: Result<bool, Error>)
        ensures
            r == (if flags < 0 {
                Err::<bool, Error>(Error::Os(os_error))
            } else {
                Ok::<bool, Error>(inheritable(flags))
            }),
    {
        if flags < 0 {
            return Err(Error::Os(os_error));
        }
        assert(((flags & 1i32) == 0) == (flags % 2 == 0)) by (bit_vector)
            requires
                flags >= 0,
        ;
        Ok((flags & FD_CLOEXEC) == 0)
    }

    /// The outcome of `shutdown`.
    pub fn shutdown(ret: i32, os_error: i32) -> (r: Result<(), Error>)
        ensures
            r == status(ret, os_error),
    {
        cvt_status(ret, os_error)
    }

    /// The outcome of `close`.
    pub fn close(ret: i32, os_error: i32) -> (r: Result<(), Error>)
        ensures
            r == status(ret, os_error),
    {
        cvt_status(ret, os_error)
    }

    /// The native handle.
    pub fn as_raw_fd(&self) -> (fd: i32)
        ensures
            fd == self@,
    {
        self.inner
    }

    /// A descriptor for a handle that the caller owns and hands over.
    pub fn from_raw(fd: i32) -> (r: Socket)
        ensures
            r@ == fd,
    {
        Socket { inner: fd }
    }

    /// Gives the native handle up to the caller.
    pub fn into_raw_fd(self) -> (fd: i32)
        ensures
            fd == self@,
    {
        self.inner
    }
}

/// The number of descriptors that a descriptor set has room for. A set holds
/// descriptors below this number only.
pub const FD_SETSIZE: i32 = 1024;

/// A native descriptor set: one bit for each descriptor below
/// [`FD_SETSIZE`], in words of 64 bits.
#[derive(Clone, Copy, Debug)]
pub struct FdSet {
    bits: [u64; 16],
}

/// Whether bit `k` of `word` is set.
pub open spec fn bit(word: u64, k: u64) -> bool {
    (word >> k) & 1 == 1
}

impl View for FdSet {
    type V = Set<int>;

    /// The descriptors in the set.
    closed spec fn view(&self) -> Set<int> {
        Set::new(|fd: int| 0 <= fd < 1024 && bit(self.bits[fd / 64], (fd % 64) as u64))
    }
}

proof fn lemma_bit_of_zero(k: u64)
    requires
        k < 64,
    ensures
        !bit(0, k),
{
    assert(!((0u64 >> k) & 1 == 1)) by (bit_vector)
        requires
            k < 64,
    ;
}

proof fn lemma_bit_after_set(word: u64, b: u64, k: u64)
    requires
        b < 64,
        k < 64,
    ensures
        bit(word | (1u64 << b), k) == (k == b || bit(word, k)),
{
    assert((((word | (1u64 << b)) >> k) & 1 == 1) == (k == b || (word >> k) & 1 == 1))
        by (bit_vector)
        requires
            b < 64,
            k < 64,
    ;
}

impl FdSet {
    /// The set without descriptors.
    pub fn new() -> (r: FdSet)
        ensures
            r@ == Set::<int>::empty(),
    {
        let r = FdSet { bits: [0u64; 16] };
        proof {
            assert forall|fd: int| !r@.contains(fd) by {
                if 0 <= fd < 1024 {
                    lemma_bit_of_zero((fd % 64) as u64);
                }
            }
            assert(r@ =~= Set::<int>::empty());
        }
        r
    }

    /// Puts `fd` in the set.
    pub fn insert(&mut self, fd: i32)
        requires
            0 <= fd < FD_SETSIZE,
        ensures
            final(self)@ == old(self)@.insert(fd as int),
    {
        let word: usize = (fd / 64) as usize;
        let b: u64 = (fd % 64) as u64;
        let before: u64 = self.bits[word];
        self.bits[word] = before | (1u64 << b);
        proof {
            assert forall|x: int| self@.contains(x) == old(self)@.insert(fd as int).contains(
                x,
            ) by {
                if 0 <= x < 1024 {
                    if x / 64 == word {
                        lemma_bit_after_set(before, b, (x % 64) as u64);
                    }
                }
            }
            assert(self@ =~= old(self)@.insert(fd as int));
        }
    }

    /// Whether `fd` is in the set.
    pub fn contains(&self, fd: i32) -> (r: bool)
        ensures
            r == self@.contains(fd as int),
    {
        if fd < 0 || fd >= FD_SETSIZE {
            return false;
        }
        let word: usize = (fd / 64) as usize;
        let b: u64 = (fd % 64) as u64;
        (self.bits[word] >> b) & 1 == 1
    }
}

/// A time interval as the OS takes it: whole seconds, and microseconds below
/// one second.
#[derive(Clone, Copy, Debug, PartialEq, Eq, Structural)]
pub struct TimeVal {
    pub tv_sec: i64,
    pub tv_usec: i64,
}

/// The interval of `timeout_ms` milliseconds.
pub open spec fn timeval_of(timeout_ms: u64) -> TimeVal {
    TimeVal { tv_sec: (timeout_ms / 1000) as i64, tv_usec: ((timeout_ms % 1000) * 1000) as i64 }
}

/// Turns milliseconds into the interval that the OS takes.
pub fn ms_to_timeval(timeout_ms: u64) -> (tv: TimeVal)
    ensures
        tv == timeval_of(timeout_ms),
        tv.tv_sec * 1000 + tv.tv_usec / 1000 == timeout_ms,
        0 <= tv.tv_usec < 1_000_000,
{
    TimeVal { tv_sec: (timeout_ms / 1000) as i64, tv_usec: ((timeout_ms % 1000) * 1000) as i64 }
}

/// The handles of `sockets`, as a set.
pub open spec fn handles(sockets: Seq<&Socket>) -> Set<int> {
    Set::new(|fd: int| exists|i: int| 0 <= i < sockets.len() && (#[trigger] sockets[i])@ == fd)
}

/// Whether a descriptor set has room for each handle of `sockets`.
pub open spec fn fit(sockets: Seq<&Socket>) -> bool {
    forall|i: int| 0 <= i < sockets.len() ==> 0 <= (#[trigger] sockets[i])@ < FD_SETSIZE
}

/// Whether a descriptor set has room for each handle of `sockets`: what
/// [`sockets_to_fd_set`] and [`select`] ask of their arguments.
pub fn fits(sockets: &[&Socket]) -> (r: bool)
    ensures
        r == fit(sockets@),
{
    let mut k: usize = 0;
    while k < sockets.len()
        invariant
            k <= sockets.len(),
            forall|i: int| 0 <= i < k ==> 0 <= (#[trigger] sockets@[i])@ < FD_SETSIZE,
        decreases sockets.len() - k,
    {
        let fd = sockets[k].raw();
        if fd < 0 || fd >= FD_SETSIZE {
            assert(!(0 <= sockets@[k as int]@ < FD_SETSIZE));
            return false;
        }
        k += 1;
    }
    true
}

/// Whether `m` is the largest handle of `sockets`, or 0 where none is above
/// that.
pub open spec fn is_max_handle(m: int, sockets: Seq<&Socket>) -> bool {
    &&& 0 <= m
    &&& forall|i: int| 0 <= i < sockets.len() ==> (#[trigger] sockets[i])@ <= m
    &&& m == 0 || exists|i: int| 0 <= i < sockets.len() && (#[trigger] sockets[i])@ == m
}

/// The larger of two numbers.
spec fn larger(a: int, b: int) -> int {
    if a >= b {
        a
    } else {
        b
    }
}

/// One more descriptor adds its handle to the set of the handles.
proof fn lemma_handles_push(sockets: Seq<&Socket>, socket: &Socket)
    ensures
        handles(sockets.push(socket)) == handles(sockets).insert(socket@),
{
    let more = sockets.push(socket);
    assert forall|fd: int| handles(more).contains(fd) == handles(sockets).insert(
        socket@,
    ).contains(fd) by {
        if handles(more).contains(fd) {
            let i = choose|i: int| 0 <= i < more.len() && (#[trigger] more[i])@ == fd;
            if i < sockets.len() {
                assert(sockets[i]@ == fd);
            }
        }
        if handles(sockets).contains(fd) {
            let i = choose|i: int| 0 <= i < sockets.len() && (#[trigger] sockets[i])@ == fd;
            assert(more[i]@ == fd);
        }
        if fd == socket@ {
            assert(more[sockets.len() as int]@ == fd);
        }
    }
    assert(handles(more) =~= handles(sockets).insert(socket@));
}

/// The largest handle of two runs of descriptors is the larger of the two
/// largest handles.
proof fn lemma_max_handle_concat(m: int, a: Seq<&Socket>, n: int, b: Seq<&Socket>)
    requires
        is_max_handle(m, a),
        is_max_handle(n, b),
    ensures
        is_max_handle(larger(m, n), a + b),
{
    let all = a + b;
    let top = larger(m, n);
    assert forall|i: int| 0 <= i < all.len() implies (#[trigger] all[i])@ <= top by {
        if i < a.len() {
            assert(all[i] == a[i]);
        } else {
            assert(all[i] == b[i - a.len()]);
        }
    }
    if top != 0 {
        if top == m {
            let i = choose|i: int| 0 <= i < a.len() && (#[trigger] a[i])@ == m;
            assert(all[i] == a[i]);
        } else {
            let i = choose|i: int| 0 <= i < b.len() && (#[trigger] b[i])@ == n;
            assert(all[i + a.len()] == b[i]);
        }
    }
}

/// The largest handle of one descriptor is its handle, or 0 where that is
/// negative.
proof fn lemma_max_handle_one(socket: &Socket)
    ensures
        is_max_handle(larger(0, socket@), seq![socket]),
{
    let one = seq![socket];
    assert(one[0]@ == socket@);
}

/// Builds the native descriptor set of `sockets`, and finds their largest
/// handle.
pub fn sockets_to_fd_set(sockets: &[&Socket]) -> (r: (i32, FdSet))
    requires
        fit(sockets@),
    ensures
        is_max_handle(r.0 as int, sockets@),
        r.1@ == handles(sockets@),
{
    let mut max_fd: i32 = 0;
    let mut raw_fds = FdSet::new();
    let mut k: usize = 0;
    assert(handles(sockets@.take(0)) =~= Set::<int>::empty());
    while k < sockets.len()
        invariant
            k <= sockets.len(),
            fit(sockets@),
            is_max_handle(max_fd as int, sockets@.take(k as int)),
            raw_fds@ == handles(sockets@.take(k as int)),
        decreases sockets.len() - k,
    {
        let socket = sockets[k];
        let fd = socket.raw();
        proof {
            let seen = sockets@.take(k as int);
            assert(sockets@.take(k + 1) =~= seen.push(socket));
            assert(seen.push(socket) =~= seen + seq![socket]);
            lemma_handles_push(seen, socket);
            lemma_max_handle_one(socket);
            lemma_max_handle_concat(max_fd as int, seen, larger(0, fd as int), seq![socket]);
        }
        raw_fds.insert(fd);
        if fd > max_fd {
            max_fd = fd;
        }
        k += 1;
    }
    assert(sockets@.take(k as int) =~= sockets@);
    (max_fd, raw_fds)
}

/// What a readiness wait hands to the OS.
#[derive(Clone, Copy, Debug)]
pub struct Select {
    /// The number of descriptors that the OS is to look at: one more than the
    /// largest handle in the three sets.
    pub nfds: i32,
    /// The descriptors to watch for data to read. `None` stands for the null
    /// pointer, which is not the same to the OS as a set without members.
    pub read_fds: Option<FdSet>,
    /// The descriptors to watch for room to write.
    pub write_fds: Option<FdSet>,
    /// The descriptors to watch for exceptional conditions.
    pub except_fds: Option<FdSet>,
    /// How long to wait. `None` stands for the null pointer: the wait has no
    /// limit.
    pub timeout: Option<TimeVal>,
}

/// What is handed to the OS for the descriptors `sockets`: nothing where
/// there are none, otherwise the set of their handles.
pub open spec fn passed(sockets: Seq<&Socket>, set: Option<FdSet>) -> bool {
    if sockets.len() == 0 {
        set is None
    } else {
        set matches Some(s) && s@ == handles(sockets)
    }
}

/// The interval handed to the OS for a timeout in milliseconds: none where
/// there is no timeout.
pub open spec fn interval(timeout_ms: Option<u64>) -> Option<TimeVal> {
    match timeout_ms {
        Some(ms) => Some(timeval_of(ms)),
        None => None,
    }
}

fn pass(sockets: &[&Socket], set: FdSet) -> (r: Option<FdSet>)
    requires
        set@ == handles(sockets@),
    ensures
        passed(sockets@, r),
{
    if sockets.len() > 0 {
        Some(set)
    } else {
        None
    }
}

/// Prepares a wait for readiness: until one of the descriptors is ready for
/// what its set stands for, or until the timeout has passed.
///
/// Hands back what the OS's `select` is to be called with. What that call
/// returns is read by [`Select::ready`].
pub fn select(
    read_fds: &[&Socket],
    write_fds: &[&Socket],
    except_fds: &[&Socket],
    timeout_ms: Option<u64>,
) -> (call: Select)
    requires
        fit(read_fds@),
        fit(write_fds@),
        fit(except_fds@),
    ensures
        is_max_handle(call.nfds - 1, read_fds@ + write_fds@ + except_fds@),
        passed(read_fds@, call.read_fds),
        passed(write_fds@, call.write_fds),
        passed(except_fds@, call.except_fds),
        call.timeout == interval(timeout_ms),
{
    let (max_read_fd, raw_read_fds) = sockets_to_fd_set(read_fds);
    let (max_write_fd, raw_write_fds) = sockets_to_fd_set(write_fds);
    let (max_except_fd, raw_except_fds) = sockets_to_fd_set(except_fds);
    let mut max_fd = max_read_fd;
    if max_write_fd > max_fd {
        max_fd = max_write_fd;
    }
    if max_except_fd > max_fd {
        max_fd = max_except_fd;
    }
    proof {
        let top = larger(max_read_fd as int, max_write_fd as int);
        lemma_max_handle_concat(max_read_fd as int, read_fds@, max_write_fd as int, write_fds@);
        lemma_max_handle_concat(top, read_fds@ + write_fds@, max_except_fd as int, except_fds@);
    }
    let timeout = match timeout_ms {
        Some(ms) => Some(ms_to_timeval(ms)),
        None => None,
    };
    Select {
        nfds: max_fd + 1,
        read_fds: pass(read_fds, raw_read_fds),
        write_fds: pass(write_fds, raw_write_fds),
        except_fds: pass(except_fds, raw_except_fds),
        timeout,
    }
}

impl Select {
    /// The number of descriptors that the OS's `select` found ready. Zero
    /// says that the timeout passed with none ready, and is no failure.
    pub fn ready(ret: i32, os_error: i32) -> (r: Result<i32, Error>)
        ensures
            r == value(ret, os_error),
    {
        cvt_value(ret, os_error)
    }
}

} // verus!
