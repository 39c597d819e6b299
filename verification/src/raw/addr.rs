//! Network addresses, and their layout in the bytes that the OS reads and
//! writes.
//!
//! A native address is a family tag, stored as the host stores a 16-bit
//! number, followed by the fields of that family. The port is stored in
//! network byte order whatever the host. The bytes of an IP address are stored
//! as they are. Flow information and scope of an IPv6 address are stored as
//! the host stores a 32-bit number.
use super::error::Error;
use vstd::prelude::*;

verus! {

/// The order in which a host stores the bytes of a number.
#[derive(Clone, Copy, Debug, PartialEq, Eq, Structural)]
pub enum ByteOrder {
    /// Least significant byte first.
    LittleEndian,
    /// Most significant byte first.
    BigEndian,
}

/// What the standard library's `u16::to_be` does: it hands its argument
/// back on a host that stores numbers most significant byte first, and swaps
/// the two bytes on any other. Which of the two a host is, is not stated.
pub assume_specification[ u16::to_be ](v: u16) -> (r: u16)
    ensures
        r == v || r == (v % 256) * 256 + v / 256,
;

impl ByteOrder {
    /// The order in which this host stores the bytes of a number.
    pub fn native() -> ByteOrder {
        let one: u16 = 1;
        ByteOrder::of_probe(one.to_be())
    }

    /// The order of a host on which the number 1, turned to big endian, is
    /// the number `one_be`.
    pub open spec fn spec_of_probe(one_be: u16) -> ByteOrder {
        if one_be == 1 {
            ByteOrder::BigEndian
        } else {
            ByteOrder::LittleEndian
        }
    }

    /// The order of a host on which the number 1, turned to big endian, is
    /// the number `one_be`: most significant byte first where the number is
    /// unchanged, least significant byte first where its bytes are swapped.
    ///
    /// Under the order handed back the host stores `one_be` as the bytes
    /// that 1 has in network byte order. [`ByteOrder::native`] asks the host
    /// for the number, by way of `u16::to_be`, and hands it here.
    #[verifier::when_used_as_spec(spec_of_probe)]
    pub fn of_probe(one_be: u16) -> (r: ByteOrder)
        ensures
            r == Self::spec_of_probe(one_be),
            one_be == 1 || one_be == 256 ==> native16(one_be, r) == network16(1),
    {
        if one_be == 1 {
            ByteOrder::BigEndian
        } else {
            ByteOrder::LittleEndian
        }
    }
}

/// An IPv4 address and a port.
#[derive(Clone, Copy, Debug, PartialEq, Eq)]
pub struct SocketAddrV4 {
    /// The four bytes of the address, first byte first.
    pub ip: [u8; 4],
    /// The port, as a number.
    pub port: u16,
}

/// An IPv6 address, a port, flow information and a scope.
#[derive(Clone, Copy, Debug, PartialEq, Eq)]
pub struct SocketAddrV6 {
    /// The sixteen bytes of the address, first byte first.
    pub ip: [u8; 16],
    /// The port, as a number.
    pub port: u16,
    /// Traffic class and flow label.
    pub flowinfo: u32,
    /// The scope that the address belongs to.
    pub scope_id: u32,
}

/// A network address of either family.
#[derive(Clone, Copy, Debug, PartialEq, Eq)]
pub enum SocketAddr {
    /// An IPv4 address.
    V4(SocketAddrV4),
    /// An IPv6 address.
    V6(SocketAddrV6),
}

/// The capacity of a native address buffer, in bytes.
pub const STORAGE_SIZE: u32 = 128;

/// The size of the native IPv4 structure, in bytes.
pub const SOCKADDR_IN_SIZE: u32 = 16;

/// The size of the native IPv6 structure, in bytes.
pub const SOCKADDR_IN6_SIZE: u32 = 28;

/// A native address: the buffer that the OS reads an address from or writes
/// one to, and the number of bytes of it that are in use.
#[derive(Clone, Copy, Debug, PartialEq, Eq)]
pub struct NativeAddr {
    /// The buffer. What lies behind the structure in it is zero.
    pub bytes: [u8; 128],
    /// Handed to the OS: the size of the structure in `bytes`, or the capacity
    /// of `bytes` where the OS is to fill it. Handed back: the size of what
    /// the OS wrote.
    pub len: u32,
}

impl SocketAddr {
    /// The port of the address.
    pub open spec fn spec_port(&self) -> u16 {
        match *self {
            SocketAddr::V4(a) => a.port,
            SocketAddr::V6(a) => a.port,
        }
    }

    /// The port of the address.
    #[verifier::when_used_as_spec(spec_port)]
    pub fn port(&self) -> (port: u16)
        ensures
            port == self.spec_port(),
    {
        match self {
            SocketAddr::V4(a) => a.port,
            SocketAddr::V6(a) => a.port,
        }
    }
}

/// What tells one platform's native addresses from another's.
#[derive(Clone, Copy, Debug, PartialEq, Eq, Structural)]
pub struct Layout {
    /// The family tag of an IPv4 address.
    pub inet: u16,
    /// The family tag of an IPv6 address.
    pub inet6: u16,
    /// How the host stores numbers.
    pub order: ByteOrder,
}

impl Layout {
    /// The two families have different tags.
    pub open spec fn wf(&self) -> bool {
        self.inet != self.inet6
    }
}

/// The two bytes of `v` in network byte order.
pub open spec fn network16(v: u16) -> Seq<u8> {
    seq![(v / 256) as u8, (v % 256) as u8]
}

/// The two bytes of `v` as a host of the given order stores them.
pub open spec fn native16(v: u16, order: ByteOrder) -> Seq<u8> {
    match order {
        ByteOrder::BigEndian => seq![(v / 256) as u8, (v % 256) as u8],
        ByteOrder::LittleEndian => seq![(v % 256) as u8, (v / 256) as u8],
    }
}

/// The four bytes of `v` as a host of the given order stores them.
pub open spec fn native32(v: u32, order: ByteOrder) -> Seq<u8> {
    match order {
        ByteOrder::BigEndian => seq![
            (v / 0x100_0000) as u8,
            (v / 0x1_0000 % 256) as u8,
            (v / 0x100 % 256) as u8,
            (v % 256) as u8,
        ],
        ByteOrder::LittleEndian => seq![
            (v % 256) as u8,
            (v / 0x100 % 256) as u8,
            (v / 0x1_0000 % 256) as u8,
            (v / 0x100_0000) as u8,
        ],
    }
}

/// The number whose bytes in network byte order are `hi`, `lo`.
pub open spec fn from_network16(hi: u8, lo: u8) -> u16 {
    (hi * 256 + lo) as u16
}

/// The number that a host of the given order stores as the bytes `b0`, `b1`.
pub open spec fn from_native16(b0: u8, b1: u8, order: ByteOrder) -> u16 {
    match order {
        ByteOrder::BigEndian => (b0 * 256 + b1) as u16,
        ByteOrder::LittleEndian => (b1 * 256 + b0) as u16,
    }
}

/// The number that a host of the given order stores as the bytes `b0` to `b3`.
pub open spec fn from_native32(b0: u8, b1: u8, b2: u8, b3: u8, order: ByteOrder) -> u32 {
    match order {
        ByteOrder::BigEndian => (b0 * 0x100_0000 + b1 * 0x1_0000 + b2 * 0x100 + b3) as u32,
        ByteOrder::LittleEndian => (b3 * 0x100_0000 + b2 * 0x1_0000 + b1 * 0x100 + b0) as u32,
    }
}

/// The native IPv4 structure of `a`: tag, port, address, eight bytes of zero.
pub open spec fn sockaddr_in(a: SocketAddrV4, layout: Layout) -> Seq<u8> {
    native16(layout.inet, layout.order) + network16(a.port) + a.ip@ + Seq::new(8, |i: int| 0u8)
}

/// The native IPv6 structure of `a`: tag, port, flow information, address,
/// scope.
pub open spec fn sockaddr_in6(a: SocketAddrV6, layout: Layout) -> Seq<u8> {
    native16(layout.inet6, layout.order) + network16(a.port) + native32(a.flowinfo, layout.order)
        + a.ip@ + native32(a.scope_id, layout.order)
}

/// The native structure of `a`.
pub open spec fn sockaddr(a: SocketAddr, layout: Layout) -> Seq<u8> {
    match a {
        SocketAddr::V4(a) => sockaddr_in(a, layout),
        SocketAddr::V6(a) => sockaddr_in6(a, layout),
    }
}

/// The buffer that holds `structure` and zero behind it.
pub open spec fn padded(structure: Seq<u8>) -> Seq<u8> {
    structure + Seq::new((STORAGE_SIZE - structure.len()) as nat, |i: int| 0u8)
}

/// The buffer that holds the native structure of `a`: the structure, and
/// zero behind it up to the buffer's capacity.
pub open spec fn storage(a: SocketAddr, layout: Layout) -> Seq<u8> {
    padded(sockaddr(a, layout))
}

/// The address that a buffer of 128 bytes holds, of which the OS reported
/// `len` to be in use.
///
/// The family tag decides. Where it names a family, `len` has to cover that
/// family's structure.
pub open spec fn addr_of(bytes: Seq<u8>, len: int, layout: Layout) -> Result<SocketAddr, Error> {
    let family = from_native16(bytes[0], bytes[1], layout.order);
    if family == layout.inet {
        if len >= SOCKADDR_IN_SIZE {
            Ok(
                SocketAddr::V4(
                    SocketAddrV4 {
                        ip: [bytes[4], bytes[5], bytes[6], bytes[7]],
                        port: from_network16(bytes[2], bytes[3]),
                    },
                ),
            )
        } else {
            Err(Error::ShortAddr)
        }
    } else if family == layout.inet6 {
        if len >= SOCKADDR_IN6_SIZE {
            Ok(
                SocketAddr::V6(
                    SocketAddrV6 {
                        ip: [
                            bytes[8],
                            bytes[9],
                            bytes[10],
                            bytes[11],
                            bytes[12],
                            bytes[13],
                            bytes[14],
                            bytes[15],
                            bytes[16],
                            bytes[17],
                            bytes[18],
                            bytes[19],
                            bytes[20],
                            bytes[21],
                            bytes[22],
                            bytes[23],
                        ],
                        port: from_network16(bytes[2], bytes[3]),
                        flowinfo: from_native32(
                            bytes[4],
                            bytes[5],
                            bytes[6],
                            bytes[7],
                            layout.order,
                        ),
                        scope_id: from_native32(
                            bytes[24],
                            bytes[25],
                            bytes[26],
                            bytes[27],
                            layout.order,
                        ),
                    },
                ),
            )
        } else {
            Err(Error::ShortAddr)
        }
    } else {
        Err(Error::InvalidAddrType)
    }
}

impl NativeAddr {
    /// An empty buffer for the OS to fill: all zero, with the length set to
    /// the buffer's full capacity.
    pub fn new() -> (r: NativeAddr)
        ensures
            r.len == STORAGE_SIZE,
            forall|i: int| 0 <= i < 128 ==> r.bytes[i] == 0,
    {
        NativeAddr { bytes: [0u8; 128], len: STORAGE_SIZE }
    }
}

/// The two bytes of `v`, most significant first.
fn split16(v: u16) -> (r: (u8, u8))
    ensures
        r.0 == v / 256,
        r.1 == v % 256,
        network16(v) == seq![r.0, r.1],
{
    ((v / 256) as u8, (v % 256) as u8)
}

/// The four bytes of `v`, most significant first.
fn split32(v: u32) -> (r: (u8, u8, u8, u8))
    ensures
        r.0 == v / 0x100_0000,
        r.1 == v / 0x1_0000 % 256,
        r.2 == v / 0x100 % 256,
        r.3 == v % 256,
{
    (
        (v / 0x100_0000) as u8,
        (v / 0x1_0000 % 256) as u8,
        (v / 0x100 % 256) as u8,
        (v % 256) as u8,
    )
}

/// Stores `v` at `at` as a host of the given order does.
fn put_native16(bytes: &mut [u8; 128], at: usize, v: u16, order: ByteOrder)
    requires
        at + 2 <= 128,
    ensures
        final(bytes)@ == old(bytes)@.update(at as int, native16(v, order)[0]).update(
            at + 1,
            native16(v, order)[1],
        ),
{
    let (hi, lo) = split16(v);
    match order {
        ByteOrder::BigEndian => {
            bytes[at] = hi;
            bytes[at + 1] = lo;
        },
        ByteOrder::LittleEndian => {
            bytes[at] = lo;
            bytes[at + 1] = hi;
        },
    }
}

/// Stores `v` at `at` as a host of the given order does.
fn put_native32(bytes: &mut [u8; 128], at: usize, v: u32, order: ByteOrder)
    requires
        at + 4 <= 128,
    ensures
        final(bytes)@ == old(bytes)@.update(at as int, native32(v, order)[0]).update(
            at + 1,
            native32(v, order)[1],
        ).update(at + 2, native32(v, order)[2]).update(at + 3, native32(v, order)[3]),
{
    let (b3, b2, b1, b0) = split32(v);
    match order {
        ByteOrder::BigEndian => {
            bytes[at] = b3;
            bytes[at + 1] = b2;
            bytes[at + 2] = b1;
            bytes[at + 3] = b0;
        },
        ByteOrder::LittleEndian => {
            bytes[at] = b0;
            bytes[at + 1] = b1;
            bytes[at + 2] = b2;
            bytes[at + 3] = b3;
        },
    }
}

/// Copies `src` to `bytes`, from `at` on.
fn put_bytes(bytes: &mut [u8; 128], at: usize, src: &[u8])
    requires
        at + src.len() <= 128,
    ensures
        forall|i: int| 0 <= i < at ==> final(bytes)[i] == old(bytes)[i],
        forall|i: int| at <= i < at + src.len() ==> final(bytes)[i] == src[i - at],
        forall|i: int| at + src.len() <= i < 128 ==> final(bytes)[i] == old(bytes)[i],
{
    let mut k: usize = 0;
    while k < src.len()
        invariant
            k <= src.len(),
            at + src.len() <= 128,
            forall|i: int| 0 <= i < at ==> bytes[i] == old(bytes)[i],
            forall|i: int| at <= i < at + k ==> bytes[i] == src[i - at],
            forall|i: int| at + k <= i < 128 ==> bytes[i] == old(bytes)[i],
        decreases src.len() - k,
    {
        bytes[at + k] = src[k];
        k += 1;
    }
}

/// The number stored at `at` in network byte order.
fn get_network16(bytes: &[u8; 128], at: usize) -> (v: u16)
    requires
        at + 2 <= 128,
    ensures
        v == from_network16(bytes[at as int], bytes[at + 1]),
{
    (bytes[at] as u16) * 256 + (bytes[at + 1] as u16)
}

/// The number stored at `at` by a host of the given order.
fn get_native16(bytes: &[u8; 128], at: usize, order: ByteOrder) -> (v: u16)
    requires
        at + 2 <= 128,
    ensures
        v == from_native16(bytes[at as int], bytes[at + 1], order),
{
    match order {
        ByteOrder::BigEndian => (bytes[at] as u16) * 256 + (bytes[at + 1] as u16),
        ByteOrder::LittleEndian => (bytes[at + 1] as u16) * 256 + (bytes[at] as u16),
    }
}

/// The number stored at `at` by a host of the given order.
fn get_native32(bytes: &[u8; 128], at: usize, order: ByteOrder) -> (v: u32)
    requires
        at + 4 <= 128,
    ensures
        v == from_native32(bytes[at as int], bytes[at + 1], bytes[at + 2], bytes[at + 3], order),
{
    let b0: u32 = bytes[at] as u32;
    let b1: u32 = bytes[at + 1] as u32;
    let b2: u32 = bytes[at + 2] as u32;
    let b3: u32 = bytes[at + 3] as u32;
    match order {
        ByteOrder::BigEndian => b0 * 0x100_0000 + b1 * 0x1_0000 + b2 * 0x100 + b3,
        ByteOrder::LittleEndian => b3 * 0x100_0000 + b2 * 0x1_0000 + b1 * 0x100 + b0,
    }
}

/// Lays an IPv4 address out as the OS reads it.
fn encode_v4(a: &SocketAddrV4, layout: &Layout) -> (r: NativeAddr)
    ensures
        r.bytes@ == padded(sockaddr_in(*a, *layout)),
        r.len == SOCKADDR_IN_SIZE,
{
    let mut bytes = [0u8; 128];
    let (hi, lo) = split16(a.port);
    put_native16(&mut bytes, 0, layout.inet, layout.order);
    bytes[2] = hi;
    bytes[3] = lo;
    put_bytes(&mut bytes, 4, a.ip.as_slice());
    assert(bytes@ =~= padded(sockaddr_in(*a, *layout)));
    NativeAddr { bytes, len: SOCKADDR_IN_SIZE }
}

/// Lays an IPv6 address out as the OS reads it.
fn encode_v6(a: &SocketAddrV6, layout: &Layout) -> (r: NativeAddr)
    ensures
        r.bytes@ == padded(sockaddr_in6(*a, *layout)),
        r.len == SOCKADDR_IN6_SIZE,
{
    let mut bytes = [0u8; 128];
    let (hi, lo) = split16(a.port);
    put_native16(&mut bytes, 0, layout.inet6, layout.order);
    bytes[2] = hi;
    bytes[3] = lo;
    put_native32(&mut bytes, 4, a.flowinfo, layout.order);
    put_bytes(&mut bytes, 8, a.ip.as_slice());
    put_native32(&mut bytes, 24, a.scope_id, layout.order);
    assert(bytes@ =~= padded(sockaddr_in6(*a, *layout)));
    NativeAddr { bytes, len: SOCKADDR_IN6_SIZE }
}

/// Lays `addr` out as the OS reads it.
///
/// The length handed back is the size of the structure of the address's
/// family, never the capacity of the buffer.
pub fn encode(addr: &SocketAddr, layout: &Layout) -> (r: NativeAddr)
    ensures
        r.bytes@ == storage(*addr, *layout),
        r.len == sockaddr(*addr, *layout).len(),
{
    match addr {
        SocketAddr::V4(a) => encode_v4(a, layout),
        SocketAddr::V6(a) => encode_v6(a, layout),
    }
}

/// Reads the address that the OS wrote to `native`.
///
/// Fails with [`Error::InvalidAddrType`] where the family tag is neither that
/// of IPv4 nor that of IPv6, and with [`Error::ShortAddr`] where the reported
/// length does not cover the structure of the family that the tag names.
pub fn decode(native: &NativeAddr, layout: &Layout) -> (r: Result<SocketAddr, Error>)
    ensures
        r == addr_of(native.bytes@, native.len as int, *layout),
{
    let bytes = &native.bytes;
    let family = get_native16(bytes, 0, layout.order);
    if family == layout.inet {
        if native.len >= SOCKADDR_IN_SIZE {
            let ip = [bytes[4], bytes[5], bytes[6], bytes[7]];
            let port = get_network16(bytes, 2);
            Ok(SocketAddr::V4(SocketAddrV4 { ip, port }))
        } else {
            Err(Error::ShortAddr)
        }
    } else if family == layout.inet6 {
        if native.len >= SOCKADDR_IN6_SIZE {
            let ip = [
                bytes[8],
                bytes[9],
                bytes[10],
                bytes[11],
                bytes[12],
                bytes[13],
                bytes[14],
                bytes[15],
                bytes[16],
                bytes[17],
                bytes[18],
                bytes[19],
                bytes[20],
                bytes[21],
                bytes[22],
                bytes[23],
            ];
            let port = get_network16(bytes, 2);
            let flowinfo = get_native32(bytes, 4, layout.order);
            let scope_id = get_native32(bytes, 24, layout.order);
            Ok(SocketAddr::V6(SocketAddrV6 { ip, port, flowinfo, scope_id }))
        } else {
            Err(Error::ShortAddr)
        }
    } else {
        Err(Error::InvalidAddrType)
    }
}

/// A number is read back from its two bytes in network byte order.
proof fn lemma_network16(v: u16)
    ensures
        network16(v).len() == 2,
        from_network16(network16(v)[0], network16(v)[1]) == v,
{
}

/// A number is read back from the two bytes that a host stores it as.
proof fn lemma_native16(v: u16, order: ByteOrder)
    ensures
        native16(v, order).len() == 2,
        from_native16(native16(v, order)[0], native16(v, order)[1], order) == v,
{
}

/// A number is read back from the four bytes that a host stores it as.
proof fn lemma_native32(v: u32, order: ByteOrder)
    ensures
        native32(v, order).len() == 4,
        from_native32(
            native32(v, order)[0],
            native32(v, order)[1],
            native32(v, order)[2],
            native32(v, order)[3],
            order,
        ) == v,
{
}

/// Where each field of the native IPv4 structure lies in the buffer.
proof fn lemma_storage_v4(a: SocketAddrV4, layout: Layout)
    ensures
        sockaddr_in(a, layout).len() == SOCKADDR_IN_SIZE,
        storage(SocketAddr::V4(a), layout).len() == STORAGE_SIZE,
        storage(SocketAddr::V4(a), layout).subrange(0, 2) == native16(layout.inet, layout.order),
        storage(SocketAddr::V4(a), layout).subrange(2, 4) == network16(a.port),
        storage(SocketAddr::V4(a), layout).subrange(4, 8) == a.ip@,
{
    let s = storage(SocketAddr::V4(a), layout);
    assert(s.subrange(0, 2) =~= native16(layout.inet, layout.order));
    assert(s.subrange(2, 4) =~= network16(a.port));
    assert(s.subrange(4, 8) =~= a.ip@);
}

/// Where each field of the native IPv6 structure lies in the buffer.
proof fn lemma_storage_v6(a: SocketAddrV6, layout: Layout)
    ensures
        sockaddr_in6(a, layout).len() == SOCKADDR_IN6_SIZE,
        storage(SocketAddr::V6(a), layout).len() == STORAGE_SIZE,
        storage(SocketAddr::V6(a), layout).subrange(0, 2) == native16(layout.inet6, layout.order),
        storage(SocketAddr::V6(a), layout).subrange(2, 4) == network16(a.port),
        storage(SocketAddr::V6(a), layout).subrange(4, 8) == native32(a.flowinfo, layout.order),
        storage(SocketAddr::V6(a), layout).subrange(8, 24) == a.ip@,
        storage(SocketAddr::V6(a), layout).subrange(24, 28) == native32(a.scope_id, layout.order),
{
    let s = storage(SocketAddr::V6(a), layout);
    assert(s.subrange(0, 2) =~= native16(layout.inet6, layout.order));
    assert(s.subrange(2, 4) =~= network16(a.port));
    assert(s.subrange(4, 8) =~= native32(a.flowinfo, layout.order));
    assert(s.subrange(8, 24) =~= a.ip@);
    assert(s.subrange(24, 28) =~= native32(a.scope_id, layout.order));
}

/// Reading back the native form of an address gives that address, of either
/// family and for either byte order of the host.
pub proof fn lemma_decode_encode(a: SocketAddr, layout: Layout)
    requires
        layout.wf(),
    ensures
        addr_of(storage(a, layout), sockaddr(a, layout).len() as int, layout) == Ok::<
            SocketAddr,
            Error,
        >(a),
{
    let s = storage(a, layout);
    let back = addr_of(s, sockaddr(a, layout).len() as int, layout);
    match a {
        SocketAddr::V4(v4) => {
            lemma_storage_v4(v4, layout);
            lemma_native16(layout.inet, layout.order);
            lemma_network16(v4.port);
            let tag = s.subrange(0, 2);
            let port = s.subrange(2, 4);
            let ip = s.subrange(4, 8);
            assert(s[0] == tag[0] && s[1] == tag[1]);
            assert(s[2] == port[0] && s[3] == port[1]);
            assert(s[4] == ip[0] && s[5] == ip[1] && s[6] == ip[2] && s[7] == ip[3]);
            assert(from_native16(s[0], s[1], layout.order) == layout.inet);
            assert(back is Ok && back->Ok_0 is V4);
            assert(back->Ok_0->V4_0.ip =~= v4.ip);
        },
        SocketAddr::V6(v6) => {
            lemma_storage_v6(v6, layout);
            lemma_native16(layout.inet6, layout.order);
            lemma_network16(v6.port);
            lemma_native32(v6.flowinfo, layout.order);
            lemma_native32(v6.scope_id, layout.order);
            let tag = s.subrange(0, 2);
            let port = s.subrange(2, 4);
            let flow = s.subrange(4, 8);
            let ip = s.subrange(8, 24);
            let scope = s.subrange(24, 28);
            assert(s[0] == tag[0] && s[1] == tag[1]);
            assert(s[2] == port[0] && s[3] == port[1]);
            assert(s[4] == flow[0] && s[5] == flow[1] && s[6] == flow[2] && s[7] == flow[3]);
            assert(s[24] == scope[0] && s[25] == scope[1] && s[26] == scope[2] && s[27]
                == scope[3]);
            assert forall|i: int| 0 <= i < 16 implies s[8 + i] == v6.ip[i] by {
                assert(s[8 + i] == ip[i]);
            }
            assert(from_native16(s[0], s[1], layout.order) == layout.inet6);
            assert(back is Ok && back->Ok_0 is V6);
            assert(back->Ok_0->V6_0.ip =~= v6.ip);
        },
    }
}

/// The port lies in the native form in network byte order, most significant
/// byte first, whatever the byte order of the host, and is read back
/// unchanged.
pub proof fn lemma_port_network_order(a: SocketAddr, layout: Layout)
    requires
        layout.wf(),
    ensures
        sockaddr(a, layout)[2] == a.spec_port() / 256,
        sockaddr(a, layout)[3] == a.spec_port() % 256,
        addr_of(storage(a, layout), sockaddr(a, layout).len() as int, layout) matches Ok(b)
            && b.spec_port() == a.spec_port(),
{
    lemma_decode_encode(a, layout);
}

} // verus!
