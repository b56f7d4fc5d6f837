use teledash::presentation::{
    core_bar_heights, temperature_to_color, usage_to_bar_height, BAR_DIVISOR, BAR_FLOOR,
    HEAT_TEMP_BASELINE, TEMP_SPAN, USAGE_TEMP_BASELINE,
};
use teledash::HeatWidget;

#[test]
fn bar_floor_and_ceiling() {
    assert_eq!(usage_to_bar_height(0, 10, 1), 1);
    assert_eq!(usage_to_bar_height(100, 10, 1), 10);
}

#[test]
fn bar_heights_between_the_ends() {
    assert_eq!(usage_to_bar_height(5, 10, 1), 1);
    assert_eq!(usage_to_bar_height(37, 10, 1), 3);
    assert_eq!(usage_to_bar_height(90, 10, 1), 9);
}

#[test]
fn gradient_is_yellow_at_and_below_baseline() {
    let at = temperature_to_color(50, HEAT_TEMP_BASELINE, TEMP_SPAN);
    assert_eq!((at.red, at.green, at.blue), (255, 255, 0));
    let below = temperature_to_color(20, HEAT_TEMP_BASELINE, TEMP_SPAN);
    assert_eq!(below.green, 255);
}

#[test]
fn gradient_is_red_at_and_above_baseline_plus_span() {
    let at = temperature_to_color(90, HEAT_TEMP_BASELINE, TEMP_SPAN);
    assert_eq!((at.red, at.green, at.blue), (255, 0, 0));
    let above = temperature_to_color(110, HEAT_TEMP_BASELINE, TEMP_SPAN);
    assert_eq!(above.green, 0);
}

#[test]
fn gradient_midpoint_value() {
    // 70 degrees on the 50..90 fade: green = 255 * 20 / 40 = 127.
    let mid = temperature_to_color(70, HEAT_TEMP_BASELINE, TEMP_SPAN);
    assert_eq!(mid.green, 127);
}

#[test]
fn green_never_increases_with_temperature() {
    let mut last = 255u8;
    for v in 0..=255u8 {
        let g = temperature_to_color(v, USAGE_TEMP_BASELINE, TEMP_SPAN).green;
        assert!(g <= last);
        last = g;
    }
}

#[test]
fn heat_widget_uses_the_lower_baseline() {
    let w = HeatWidget::new("Heat");
    // 55 degrees: 5 over the heat baseline of 50, green = 255 * 35 / 40.
    assert_eq!(w.temperature_style(55).green, 223);
    // The usage panel's baseline is 55, so the same reading stays full green.
    assert_eq!(temperature_to_color(55, USAGE_TEMP_BASELINE, TEMP_SPAN).green, 255);
}

#[test]
fn bar_heights_of_a_core_row() {
    let usages: Vec<u8> = vec![0, 5, 37, 100];
    let heights = core_bar_heights(&usages);
    assert_eq!(heights, vec![1, 1, 3, 10]);
    assert_eq!(BAR_DIVISOR, 10);
    assert_eq!(BAR_FLOOR, 1);
}
