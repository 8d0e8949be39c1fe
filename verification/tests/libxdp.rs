use lqos_xdp::libxdp::{err_ptr, to_c_ifindex, DriverMode, MAX_ERRNO};

#[test]
fn err_ptr_decodes_errno() {
    assert_eq!(err_ptr(-22isize), Some(22));
    assert_eq!(err_ptr(-1isize), Some(1));
    assert_eq!(err_ptr(-4095isize), Some(4095));
}

#[test]
fn err_ptr_passes_valid_pointers() {
    let valid = 0x7fff_ffff_ffff;
    assert_eq!(err_ptr(valid), None);
    // Null is no error; it is told apart by itself.
    assert_eq!(err_ptr(0), None);
}

#[test]
fn err_ptr_rejects_below_errno_range() {
    // Outside of the range that stands for errors.
    assert_eq!(err_ptr(-4096isize), None);
}

#[test]
fn every_errno_is_read_back() {
    for errno in 1..=MAX_ERRNO {
        assert_eq!(err_ptr(-errno), Some(errno as i32));
    }
    assert_eq!(err_ptr(isize::MIN), None);
    assert_eq!(err_ptr(isize::MAX), None);
}

#[test]
fn interface_index_as_int() {
    for ifindex in [0u32, 1, 7, 0x7fff_fffe, 0x7fff_ffff, 0x8000_0000, 0x8000_0001, u32::MAX] {
        assert_eq!(to_c_ifindex(ifindex), ifindex as i32);
    }
}

#[test]
fn names() {
    assert_eq!(DriverMode::Native.label(), "DRV");
    assert_eq!(DriverMode::Skb.label(), "SKB");
}
