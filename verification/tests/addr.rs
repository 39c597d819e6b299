use lazy_socket::raw::addr::{decode, encode};
use lazy_socket::raw::addr::{ByteOrder, Layout, NativeAddr, SocketAddr, SocketAddrV4, SocketAddrV6};
use lazy_socket::raw::addr::{SOCKADDR_IN6_SIZE, SOCKADDR_IN_SIZE, STORAGE_SIZE};
use lazy_socket::raw::error::Error;
use lazy_socket::raw::unix;
use lazy_socket::raw::windows;

fn v4(ip: [u8; 4], port: u16) -> SocketAddr {
    SocketAddr::V4(SocketAddrV4 { ip, port })
}

fn v6(ip: [u8; 16], port: u16, flowinfo: u32, scope_id: u32) -> SocketAddr {
    SocketAddr::V6(SocketAddrV6 { ip, port, flowinfo, scope_id })
}

fn samples() -> Vec<SocketAddr> {
    let mut loopback6 = [0u8; 16];
    loopback6[15] = 1;
    vec![
        v4([0, 0, 0, 0], 0),
        v4([127, 0, 0, 1], 1666),
        v4([127, 0, 0, 1], 5666),
        v4([127, 0, 0, 1], 60000),
        v4([127, 0, 0, 1], 65003),
        v4([222, 0, 0, 1], 60004),
        v4([192, 168, 0, 1], 80),
        v4([255, 255, 255, 255], 65535),
        v4([1, 2, 3, 4], 0x0102),
        v6([0; 16], 0, 0, 0),
        v6(loopback6, 1666, 0, 0),
        v6(
            [0x20, 0x01, 0x0d, 0xb8, 0, 0, 0, 0, 0, 0, 0, 0, 0, 0, 0, 1],
            8080,
            0x0102_0304,
            0x0a0b_0c0d,
        ),
        v6([0xfe, 0x80, 0, 0, 0, 0, 0, 0, 1, 2, 3, 4, 5, 6, 7, 8], 443, 0xffff_ffff, 3),
        v6([255; 16], 65535, 0xffff_ffff, 0xffff_ffff),
        v6(
            [1, 2, 3, 4, 5, 6, 7, 8, 9, 10, 11, 12, 13, 14, 15, 16],
            0x8001,
            0x8000_0001,
            0x0000_00ff,
        ),
    ]
}

fn zeros_behind(native: &NativeAddr) -> bool {
    native.bytes[native.len as usize..].iter().all(|b| *b == 0)
}

#[test]
fn decode_of_encode_is_the_address() {
    for addr in samples() {
        for order in [ByteOrder::LittleEndian, ByteOrder::BigEndian] {
            let native = unix::get_raw_addr(&addr, order);
            assert_eq!(unix::sockaddr_to_addr(&native, order), Ok(addr));
            assert!(zeros_behind(&native));
        }
        let native = windows::get_raw_addr(&addr);
        assert_eq!(windows::sockaddr_to_addr(&native), Ok(addr));
        assert!(zeros_behind(&native));
    }
}

#[test]
fn decode_of_encode_is_the_address_for_any_tags() {
    let layout = Layout { inet: 0x1234, inet6: 0xfedc, order: ByteOrder::BigEndian };
    for addr in samples() {
        let native = encode(&addr, &layout);
        assert_eq!(decode(&native, &layout), Ok(addr));
    }
}

#[test]
fn port_1666_is_stored_in_network_byte_order() {
    let addr = v4([127, 0, 0, 1], 1666);
    let little = unix::get_raw_addr(&addr, ByteOrder::LittleEndian);
    let big = unix::get_raw_addr(&addr, ByteOrder::BigEndian);
    assert_eq!(&little.bytes[2..4], &[0x06, 0x82]);
    assert_eq!(&big.bytes[2..4], &[0x06, 0x82]);
    assert_eq!(&windows::get_raw_addr(&addr).bytes[2..4], &[0x06, 0x82]);
    assert_eq!(unix::sockaddr_to_addr(&little, ByteOrder::LittleEndian).unwrap().port(), 1666);
    assert_eq!(unix::sockaddr_to_addr(&big, ByteOrder::BigEndian).unwrap().port(), 1666);
}

#[test]
fn every_port_is_read_back_unchanged() {
    for port in 0..=u16::MAX {
        for order in [ByteOrder::LittleEndian, ByteOrder::BigEndian] {
            let native = unix::get_raw_addr(&v4([10, 0, 0, 1], port), order);
            assert_eq!(native.bytes[2], (port >> 8) as u8);
            assert_eq!(native.bytes[3], (port & 0xff) as u8);
            assert_eq!(unix::sockaddr_to_addr(&native, order).unwrap().port(), port);
        }
    }
}

#[test]
fn ipv4_structure_on_a_little_endian_host() {
    let native = unix::get_raw_addr(&v4([127, 0, 0, 1], 1666), ByteOrder::LittleEndian);
    assert_eq!(native.len, 16);
    assert_eq!(
        &native.bytes[..16],
        &[2, 0, 0x06, 0x82, 127, 0, 0, 1, 0, 0, 0, 0, 0, 0, 0, 0]
    );
    assert!(zeros_behind(&native));
}

#[test]
fn ipv4_structure_on_a_big_endian_host() {
    let native = unix::get_raw_addr(&v4([127, 0, 0, 1], 1666), ByteOrder::BigEndian);
    assert_eq!(native.len, 16);
    assert_eq!(
        &native.bytes[..16],
        &[0, 2, 0x06, 0x82, 127, 0, 0, 1, 0, 0, 0, 0, 0, 0, 0, 0]
    );
}

#[test]
fn ipv6_structure_on_a_little_endian_host() {
    let ip = [0x20, 0x01, 0x0d, 0xb8, 0, 0, 0, 0, 0, 0, 0, 0, 0, 0, 0, 1];
    let addr = v6(ip, 8080, 0x0102_0304, 0x0a0b_0c0d);
    let native = unix::get_raw_addr(&addr, ByteOrder::LittleEndian);
    assert_eq!(native.len, 28);
    let mut expected = vec![10, 0, 0x1f, 0x90, 4, 3, 2, 1];
    expected.extend_from_slice(&ip);
    expected.extend_from_slice(&[0x0d, 0x0c, 0x0b, 0x0a]);
    assert_eq!(&native.bytes[..28], &expected[..]);
    assert!(zeros_behind(&native));
}

#[test]
fn ipv6_structure_on_a_big_endian_host() {
    let ip = [0x20, 0x01, 0x0d, 0xb8, 0, 0, 0, 0, 0, 0, 0, 0, 0, 0, 0, 1];
    let addr = v6(ip, 8080, 0x0102_0304, 0x0a0b_0c0d);
    let native = unix::get_raw_addr(&addr, ByteOrder::BigEndian);
    assert_eq!(native.len, 28);
    let mut expected = vec![0, 10, 0x1f, 0x90, 1, 2, 3, 4];
    expected.extend_from_slice(&ip);
    expected.extend_from_slice(&[0x0a, 0x0b, 0x0c, 0x0d]);
    assert_eq!(&native.bytes[..28], &expected[..]);
}

#[test]
fn windows_structures() {
    let native = windows::get_raw_addr(&v4([192, 168, 0, 1], 80));
    assert_eq!(native.len, 16);
    assert_eq!(
        &native.bytes[..16],
        &[2, 0, 0, 80, 192, 168, 0, 1, 0, 0, 0, 0, 0, 0, 0, 0]
    );
    let ip = [0xfe, 0x80, 0, 0, 0, 0, 0, 0, 1, 2, 3, 4, 5, 6, 7, 8];
    let native = windows::get_raw_addr(&v6(ip, 443, 7, 3));
    assert_eq!(native.len, 28);
    let mut expected = vec![23, 0, 0x01, 0xbb, 7, 0, 0, 0];
    expected.extend_from_slice(&ip);
    expected.extend_from_slice(&[3, 0, 0, 0]);
    assert_eq!(&native.bytes[..28], &expected[..]);
}

#[test]
fn the_length_is_the_size_of_the_structure() {
    assert_eq!(SOCKADDR_IN_SIZE, 16);
    assert_eq!(SOCKADDR_IN6_SIZE, 28);
    assert_eq!(STORAGE_SIZE, 128);
    assert_eq!(std::mem::size_of::<libc::sockaddr_in>(), 16);
    assert_eq!(std::mem::size_of::<libc::sockaddr_in6>(), 28);
    assert_eq!(std::mem::size_of::<libc::sockaddr_storage>(), 128);
    for addr in samples() {
        let expected = match addr {
            SocketAddr::V4(_) => 16,
            SocketAddr::V6(_) => 28,
        };
        assert_eq!(unix::get_raw_addr(&addr, ByteOrder::LittleEndian).len, expected);
        assert_eq!(unix::get_raw_addr(&addr, ByteOrder::BigEndian).len, expected);
        assert_eq!(windows::get_raw_addr(&addr).len, expected);
    }
}

#[test]
fn an_empty_buffer_is_zero_with_its_full_capacity_as_length() {
    let native = NativeAddr::new();
    assert_eq!(native.len, 128);
    assert_eq!(native.bytes, [0u8; 128]);
}

#[test]
fn an_unknown_family_is_refused() {
    let little = ByteOrder::LittleEndian;
    let empty = NativeAddr::new();
    assert_eq!(unix::sockaddr_to_addr(&empty, little), Err(Error::InvalidAddrType));
    assert_eq!(unix::sockaddr_to_addr(&empty, ByteOrder::BigEndian), Err(Error::InvalidAddrType));
    assert_eq!(windows::sockaddr_to_addr(&empty), Err(Error::InvalidAddrType));

    let mut local = NativeAddr::new();
    local.bytes[0] = 1;
    local.len = 110;
    assert_eq!(unix::sockaddr_to_addr(&local, little), Err(Error::InvalidAddrType));

    // The tag of one family of platforms is not that of the other.
    let addr = v6([0; 16], 1, 0, 0);
    let native = unix::get_raw_addr(&addr, little);
    assert_eq!(windows::sockaddr_to_addr(&native), Err(Error::InvalidAddrType));
    let native = windows::get_raw_addr(&addr);
    assert_eq!(unix::sockaddr_to_addr(&native, little), Err(Error::InvalidAddrType));

    // A tag read in the wrong byte order names no family.
    let native = unix::get_raw_addr(&v4([1, 2, 3, 4], 5), ByteOrder::BigEndian);
    assert_eq!(unix::sockaddr_to_addr(&native, little), Err(Error::InvalidAddrType));
}

#[test]
fn a_length_below_the_structure_is_refused() {
    let addr4 = v4([127, 0, 0, 1], 1666);
    let mut native = unix::get_raw_addr(&addr4, ByteOrder::LittleEndian);
    for len in 0..16 {
        native.len = len;
        let read = unix::sockaddr_to_addr(&native, ByteOrder::LittleEndian);
        assert_eq!(read, Err(Error::ShortAddr));
    }
    for len in [16, 17, 28, 128, 129, u32::MAX] {
        native.len = len;
        assert_eq!(unix::sockaddr_to_addr(&native, ByteOrder::LittleEndian), Ok(addr4));
    }

    let addr6 = v6([9; 16], 1666, 1, 2);
    let mut native = windows::get_raw_addr(&addr6);
    for len in 0..28 {
        native.len = len;
        assert_eq!(windows::sockaddr_to_addr(&native), Err(Error::ShortAddr));
    }
    for len in [28, 29, 128, u32::MAX] {
        native.len = len;
        assert_eq!(windows::sockaddr_to_addr(&native), Ok(addr6));
    }
}

#[test]
fn the_bytes_of_an_ip_address_keep_their_order() {
    let mut native = NativeAddr::new();
    native.bytes[0] = 2;
    native.bytes[2] = 0x12;
    native.bytes[3] = 0x34;
    native.bytes[4..8].copy_from_slice(&[1, 2, 3, 4]);
    native.len = 16;
    assert_eq!(
        unix::sockaddr_to_addr(&native, ByteOrder::LittleEndian),
        Ok(v4([1, 2, 3, 4], 0x1234))
    );
    native.bytes[0] = 0;
    native.bytes[1] = 2;
    assert_eq!(
        unix::sockaddr_to_addr(&native, ByteOrder::BigEndian),
        Ok(v4([1, 2, 3, 4], 0x1234))
    );
}

#[test]
fn flow_information_and_scope_are_read_as_the_host_stores_them() {
    let mut native = NativeAddr::new();
    native.bytes[0] = 10;
    native.bytes[2] = 0x06;
    native.bytes[3] = 0x82;
    native.bytes[4..8].copy_from_slice(&[0x11, 0x22, 0x33, 0x44]);
    for i in 0..16 {
        native.bytes[8 + i] = 0xa0 + i as u8;
    }
    native.bytes[24..28].copy_from_slice(&[0x55, 0x66, 0x77, 0x88]);
    native.len = 28;
    let ip = [
        0xa0, 0xa1, 0xa2, 0xa3, 0xa4, 0xa5, 0xa6, 0xa7, 0xa8, 0xa9, 0xaa, 0xab, 0xac, 0xad, 0xae,
        0xaf,
    ];
    assert_eq!(
        unix::sockaddr_to_addr(&native, ByteOrder::LittleEndian),
        Ok(v6(ip, 1666, 0x4433_2211, 0x8877_6655))
    );
    native.bytes[0] = 0;
    native.bytes[1] = 10;
    assert_eq!(
        unix::sockaddr_to_addr(&native, ByteOrder::BigEndian),
        Ok(v6(ip, 1666, 0x1122_3344, 0x5566_7788))
    );
}

#[test]
fn what_lies_behind_the_structure_is_not_read() {
    let addr = v4([10, 1, 2, 3], 9);
    let mut native = unix::get_raw_addr(&addr, ByteOrder::LittleEndian);
    for i in 8..128 {
        native.bytes[i] = 0xee;
    }
    assert_eq!(unix::sockaddr_to_addr(&native, ByteOrder::LittleEndian), Ok(addr));
}

#[test]
fn the_native_byte_order_is_that_of_this_host() {
    let expected = if u16::from_ne_bytes([1, 0]) == 1 {
        ByteOrder::LittleEndian
    } else {
        ByteOrder::BigEndian
    };
    assert_eq!(ByteOrder::native(), expected);
    assert_eq!(unix::layout(ByteOrder::native()).order, expected);
}

#[test]
fn a_probe_tells_the_byte_order() {
    assert_eq!(ByteOrder::of_probe(1), ByteOrder::BigEndian);
    assert_eq!(ByteOrder::of_probe(256), ByteOrder::LittleEndian);
    assert_eq!(ByteOrder::of_probe(0x0100), ByteOrder::LittleEndian);
    assert_eq!(ByteOrder::of_probe(1u16.to_be()), ByteOrder::native());
    // The bytes of the probe, as this host stores them, are those of 1 in
    // network byte order.
    assert_eq!(1u16.to_be().to_ne_bytes(), [0, 1]);
}

#[test]
fn the_layouts_of_the_two_families() {
    assert_eq!(
        unix::layout(ByteOrder::BigEndian),
        Layout { inet: 2, inet6: 10, order: ByteOrder::BigEndian }
    );
    assert_eq!(
        windows::layout(),
        Layout { inet: 2, inet6: 23, order: ByteOrder::LittleEndian }
    );
    assert_eq!(unix::layout(ByteOrder::native()).inet as i32, libc::AF_INET);
    assert_eq!(unix::layout(ByteOrder::native()).inet6 as i32, libc::AF_INET6);
}
