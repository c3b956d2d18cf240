use playout_core::commands::build_move_cmd;
use playout_core::commands::build_overlay_cmd;
use playout_core::commands::build_route_cmd;
use playout_core::numeral::delta_string;
use playout_core::numeral::u64_to_fixed_string;
use playout_core::u64_to_string;

#[test]
fn decimal_rendering() {
    assert_eq!(u64_to_string(0), "0");
    assert_eq!(u64_to_string(7), "7");
    assert_eq!(u64_to_string(30), "30");
    assert_eq!(u64_to_string(12345), "12345");
    assert_eq!(u64_to_string(u64::MAX), "18446744073709551615");
}

#[test]
fn fixed_width_rendering_keeps_leading_zeros() {
    assert_eq!(u64_to_fixed_string(33333, 6), "033333");
    assert_eq!(u64_to_fixed_string(500000, 6), "500000");
    assert_eq!(u64_to_fixed_string(0, 3), "000");
}

#[test]
fn delta_rendering() {
    assert_eq!(delta_string(1), "1");
    assert_eq!(delta_string(2), "0.500000");
    assert_eq!(delta_string(30), "0.033333");
    assert_eq!(delta_string(1000000), "0.000001");
}

#[test]
fn delta_is_floored_to_a_nonzero_step() {
    assert_eq!(delta_string(1000001), "0.000001");
    assert_eq!(delta_string(2000000), "0.000001");
    assert_eq!(delta_string(u64::MAX), "0.000001");
}

#[test]
fn route_command_wire_form() {
    assert_eq!(build_route_cmd(2, 0), "vfeed alpha 2 0");
    assert_eq!(build_route_cmd(11, 1), "vfeed alpha 11 1");
}

#[test]
fn overlay_command_keeps_trailing_space_on_empty_list() {
    assert_eq!(build_overlay_cmd(1, 2, &String::new()), "tcl eval SetFeedToOverlay 1 2 ");
    assert_eq!(
        build_overlay_cmd(1, 5, &String::from("4 7")),
        "tcl eval SetFeedToOverlay 1 5 4 7"
    );
}

#[test]
fn move_command_wire_form() {
    assert_eq!(build_move_cmd(2, 30), "vfeed move alpha 2 0.033333 30");
    assert_eq!(build_move_cmd(9, 1), "vfeed move alpha 9 1 1");
}
