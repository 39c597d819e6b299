use lazy_socket::raw::flags::{AcceptFlags, ShutdownType};
use lazy_socket::raw::flags::{SOCK_CLOEXEC, SOCK_NONBLOCK};

#[test]
fn shutdown_directions_have_the_codes_of_the_os() {
    assert_eq!(i32::from(ShutdownType::Receive), 0);
    assert_eq!(i32::from(ShutdownType::Send), 1);
    assert_eq!(i32::from(ShutdownType::Both), 2);
    let code: i32 = ShutdownType::Both.into();
    assert_eq!(code, 2);
    assert_eq!(i32::from(ShutdownType::Receive), libc::SHUT_RD);
    assert_eq!(i32::from(ShutdownType::Send), libc::SHUT_WR);
    assert_eq!(i32::from(ShutdownType::Both), libc::SHUT_RDWR);
}

#[test]
fn accept_flags_have_the_values_of_the_os() {
    assert_eq!(SOCK_NONBLOCK, 0o4000);
    assert_eq!(SOCK_CLOEXEC, 0o2000000);
    assert_eq!(SOCK_NONBLOCK, libc::SOCK_NONBLOCK);
    assert_eq!(SOCK_CLOEXEC, libc::SOCK_CLOEXEC);
    assert_eq!(AcceptFlags::empty().bits(), 0);
    assert_eq!(AcceptFlags::non_blocking().bits(), 2048);
    assert_eq!(AcceptFlags::non_inheritable().bits(), 524288);
    assert_eq!(AcceptFlags::all().bits(), 526336);
    assert_eq!(
        AcceptFlags::non_blocking().union(AcceptFlags::non_inheritable()).bits(),
        libc::SOCK_NONBLOCK | libc::SOCK_CLOEXEC
    );
}

#[test]
fn a_number_stands_for_at_most_one_set_of_flags() {
    assert_eq!(AcceptFlags::from_bits(0), Some(AcceptFlags::empty()));
    assert_eq!(AcceptFlags::from_bits(2048), Some(AcceptFlags::non_blocking()));
    assert_eq!(AcceptFlags::from_bits(524288), Some(AcceptFlags::non_inheritable()));
    assert_eq!(AcceptFlags::from_bits(526336), Some(AcceptFlags::all()));
    for bits in [1, 2, 2047, 2049, 4096, 524287, 524289, 526335, 526337, -1, i32::MIN, i32::MAX] {
        assert_eq!(AcceptFlags::from_bits(bits), None);
    }
    for flags in [
        AcceptFlags::empty(),
        AcceptFlags::non_blocking(),
        AcceptFlags::non_inheritable(),
        AcceptFlags::all(),
    ] {
        assert_eq!(AcceptFlags::from_bits(flags.bits()), Some(flags));
    }
}

#[test]
fn sets_of_flags() {
    let none = AcceptFlags::empty();
    let nb = AcceptFlags::non_blocking();
    let ni = AcceptFlags::non_inheritable();
    let all = AcceptFlags::all();
    assert!(none.is_empty());
    assert!(!nb.is_empty());
    assert!(!ni.is_empty());
    assert!(!all.is_empty());
    assert_eq!(nb.union(ni), all);
    assert_eq!(none.union(nb), nb);
    assert_eq!(ni.union(ni), ni);
    assert_eq!(all.union(none), all);
    assert!(all.contains(nb) && all.contains(ni) && all.contains(all) && all.contains(none));
    assert!(nb.contains(nb) && nb.contains(none));
    assert!(!nb.contains(ni) && !nb.contains(all));
    assert!(!ni.contains(nb) && !ni.contains(all));
    assert!(none.contains(none));
    assert!(!none.contains(nb) && !none.contains(ni));
}

#[test]
fn what_accept_flags_ask_of_a_new_descriptor() {
    assert!(AcceptFlags::empty().blocking());
    assert!(AcceptFlags::empty().inheritable());
    assert!(!AcceptFlags::non_blocking().blocking());
    assert!(AcceptFlags::non_blocking().inheritable());
    assert!(AcceptFlags::non_inheritable().blocking());
    assert!(!AcceptFlags::non_inheritable().inheritable());
    assert!(!AcceptFlags::all().blocking());
    assert!(!AcceptFlags::all().inheritable());
}
