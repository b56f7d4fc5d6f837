//! The remaining widget state holders: the navigation bar, the heat
//! panel and the fan panels. Their drawing lives with the renderer;
//! what is held here is the state and the rules (gradient parameters,
//! fan-target clamping) that the readings run through.

use vstd::prelude::*;

use crate::presentation::{spec_green, temperature_to_color, Rgb, HEAT_TEMP_BASELINE, TEMP_SPAN};

verus! {

/// Title bar across the top of the dashboard.
pub struct Navbar {
    pub title: &'static str,
}

impl Navbar {
    pub fn new(title: &'static str) -> (r: Self)
        ensures
            r.title == title,
    {
        Self { title: title }
    }
}

/// One hardware fan, addressed by its sysfs index.
pub struct Fan {
    pub id: usize,
}

impl Fan {
    pub fn new(id: usize) -> (r: Self)
        ensures
            r.id == id,
    {
        Self { id: id }
    }

    /// A requested target speed never exceeds the hardware maximum:
    /// anything above it is cut down to the maximum itself.
    pub fn clamp_target(speed: u16, max_speed: u16) -> (r: u16)
        ensures
            r == if speed > max_speed {
                max_speed
            } else {
                speed
            },
            r <= max_speed,
    {
        if speed > max_speed {
            max_speed
        } else {
            speed
        }
    }
}

/// The panel that lays the fans out side by side.
pub struct FansWidget {
    pub title: &'static str,
}

impl FansWidget {
    pub fn new(title: &'static str) -> (r: Self)
        ensures
            r.title == title,
    {
        Self { title: title }
    }
}

/// The temperature bar panel.
pub struct HeatWidget {
    pub title: &'static str,
}

impl HeatWidget {
    pub fn new(title: &'static str) -> (r: Self)
        ensures
            r.title == title,
    {
        Self { title: title }
    }

    /// Gradient color of a CPU temperature on this panel, which fades
    /// from 50 degrees over the next 40.
    pub fn temperature_style(&self, value: u8) -> (r: Rgb)
        ensures
            r.red == 255,
            r.blue == 0,
            r.green == spec_green(value as int, HEAT_TEMP_BASELINE as int, TEMP_SPAN as int),
    {
        temperature_to_color(value, HEAT_TEMP_BASELINE, TEMP_SPAN)
    }
}

} // verus!
