use gestures::gestures::{PinchDir, SwipeDir};
use gestures::utils::{format_milli, render_command, ExecArgs};

fn args(template: &str, dx: i64, dy: i64, da: i64, scale: i64) -> ExecArgs {
    ExecArgs { args: template.to_string(), dx, dy, da, scale }
}

#[test]
fn template_without_placeholders_is_unchanged() {
    let a = render_command(&args("notify-send hello world", 1234, -77, 9000, 500));
    let b = render_command(&args("notify-send hello world", 0, 0, 0, 0));
    assert_eq!(a, "notify-send hello world");
    assert_eq!(a, b);
}

#[test]
fn empty_template_renders_empty() {
    assert_eq!(render_command(&args("", 5, 5, 5, 5)), "");
}

#[test]
fn delta_x_placeholder_renders_default_zero() {
    // A phase with no motion context substitutes the numeric default.
    let r = render_command(&ExecArgs::new_args_only("notify-send $delta_x".to_string()));
    assert_eq!(r, "notify-send 0");
}

#[test]
fn scale_placeholder_renders_fraction() {
    let r = render_command(&args("echo $scale", 0, 0, 2000, 500));
    assert_eq!(r, "echo 0.5");
}

#[test]
fn all_placeholders_substitute_their_own_value() {
    let r = render_command(&args("$delta_x/$delta_y/$delta_angle/$scale", 1000, -2000, 2500, 1500));
    assert_eq!(r, "1/-2/2.5/1.5");
}

#[test]
fn escaped_placeholder_is_preserved_verbatim() {
    let r = render_command(&args("echo \\$scale", 0, 0, 0, 777));
    assert_eq!(r, "echo \\$scale");
}

#[test]
fn escape_applies_only_to_the_next_occurrence() {
    let r = render_command(&args("\\$delta_x $delta_x", 3000, 0, 0, 0));
    assert_eq!(r, "\\$delta_x 3");
}

#[test]
fn unmatched_dollar_text_passes_through() {
    let r = render_command(&args("echo $delta_z $scal", 1, 2, 3, 4));
    assert_eq!(r, "echo $delta_z $scal");
}

#[test]
fn placeholder_at_start_of_template_substitutes() {
    let r = render_command(&args("$delta_y px", 0, 12345, 0, 0));
    assert_eq!(r, "12.345 px");
}

#[test]
fn format_milli_exact_values() {
    assert_eq!(format_milli(0), "0");
    assert_eq!(format_milli(1000), "1");
    assert_eq!(format_milli(1500), "1.5");
    assert_eq!(format_milli(1230), "1.23");
    assert_eq!(format_milli(1234), "1.234");
    assert_eq!(format_milli(12), "0.012");
    assert_eq!(format_milli(-500), "-0.5");
    assert_eq!(format_milli(-12000), "-12");
    assert_eq!(format_milli(1100), "1.1");
}

#[test]
fn swipe_direction_dominant_axis_and_sign() {
    assert_eq!(SwipeDir::dir(5000, 1000), SwipeDir::Right);
    assert_eq!(SwipeDir::dir(-5000, 1000), SwipeDir::Left);
    assert_eq!(SwipeDir::dir(1000, 5000), SwipeDir::Down);
    assert_eq!(SwipeDir::dir(1000, -5000), SwipeDir::Up);
}

#[test]
fn swipe_direction_tie_prefers_horizontal() {
    assert_eq!(SwipeDir::dir(1000, 1000), SwipeDir::Right);
    assert_eq!(SwipeDir::dir(-1000, 1000), SwipeDir::Left);
    assert_eq!(SwipeDir::dir(0, 0), SwipeDir::Right);
}

#[test]
fn pinch_direction_scale_below_one_is_in() {
    assert_eq!(PinchDir::dir(500, 2000), PinchDir::In);
}

#[test]
fn pinch_direction_scale_above_one_is_out() {
    assert_eq!(PinchDir::dir(1500, -2000), PinchDir::Out);
}

#[test]
fn pinch_direction_rotation_beyond_threshold_wins() {
    assert_eq!(PinchDir::dir(500, 6000), PinchDir::Clockwise);
    assert_eq!(PinchDir::dir(1500, -6000), PinchDir::CounterClockwise);
    // At the threshold itself the scale still decides.
    assert_eq!(PinchDir::dir(900, 5000), PinchDir::In);
}
