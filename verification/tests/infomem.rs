//! The configuration-memory planner: overlap detection, the protected
//! final sector, and the device lookup.

use mspdebug_embedded::Error;
use mspdebug_embedded::InfoMem;
use mspdebug_embedded::compute_infomem;
use mspdebug_embedded::infomem_lookup;

#[test]
fn overlap_shrinks_range_by_one_sector() {
    let device = Some("G2553".to_string());
    let r = compute_infomem(false, &device, &vec![0x1050]).unwrap();
    assert_eq!(r, Some(InfoMem { origin: 0x1000, length: 192, sector_size: 64 }));
}

#[test]
fn no_overlap_plans_nothing() {
    let device = Some("G2553".to_string());
    let r = compute_infomem(false, &device, &vec![0x0800, 0x0c00]).unwrap();
    assert_eq!(r, None);
}

#[test]
fn window_bounds_are_half_open() {
    let device = Some("G2553".to_string());
    // The first address of the window overlaps ...
    let r = compute_infomem(false, &device, &vec![0x1000]).unwrap();
    assert!(r.is_some());
    // ... the last does too ...
    let r = compute_infomem(false, &device, &vec![0x10ff]).unwrap();
    assert!(r.is_some());
    // ... the address one past the window does not.
    let r = compute_infomem(false, &device, &vec![0x1100]).unwrap();
    assert_eq!(r, None);
}

#[test]
fn unknown_device_is_refused() {
    let device = Some("X9999".to_string());
    let e = compute_infomem(false, &device, &vec![0x1050]).unwrap_err();
    assert_eq!(e, Error::UnknownDevice("X9999".to_string()));
}

#[test]
fn simulation_plans_nothing() {
    assert_eq!(compute_infomem(true, &None, &vec![0x1050]).unwrap(), None);
}

#[test]
fn missing_device_identity_is_refused() {
    let e = compute_infomem(false, &None, &vec![0x1050]).unwrap_err();
    assert_eq!(e, Error::NoDevice);
}

#[test]
fn lookup_knows_the_value_line_layout() {
    assert_eq!(
        infomem_lookup("G2553"),
        Some(InfoMem { origin: 0x1000, length: 256, sector_size: 64 })
    );
    assert_eq!(infomem_lookup("G2553 "), None);
    assert_eq!(infomem_lookup(""), None);
}
