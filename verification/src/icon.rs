//! Which picture shows a state.

use crate::headset_control::BatteryState;
use vstd::prelude::*;

verus! {

/// The pictures of a battery, from empty to full.
#[derive(Clone, Copy, Debug, Eq, PartialEq, Hash, Structural)]
pub enum IconImage {
    Battery0,
    Battery1,
    Battery2,
    Battery3,
    Battery4,
}

/// The picture for a battery level from 0 to 4.
pub open spec fn icon_of_level(battery_state: u8) -> IconImage
    recommends
        battery_state <= 4,
{
    if battery_state == 0 {
        IconImage::Battery0
    } else if battery_state == 1 {
        IconImage::Battery1
    } else if battery_state == 2 {
        IconImage::Battery2
    } else if battery_state == 3 {
        IconImage::Battery3
    } else {
        IconImage::Battery4
    }
}

/// The picture for a state: the empty battery for a headset that is not
/// connected (charging code 0), else the one of the battery level.
pub open spec fn icon_of_state(battery_state: u8, charging_state: Option<u8>) -> IconImage
    recommends
        charging_state == Some(0u8) || battery_state <= 4,
{
    if charging_state == Some(0u8) {
        IconImage::Battery0
    } else {
        icon_of_level(battery_state)
    }
}

/// The file that holds a picture.
pub open spec fn image_file_of(icon: IconImage) -> Seq<char> {
    match icon {
        IconImage::Battery0 => "bat/battery0.png"@,
        IconImage::Battery1 => "bat/battery1.png"@,
        IconImage::Battery2 => "bat/battery2.png"@,
        IconImage::Battery3 => "bat/battery3.png"@,
        IconImage::Battery4 => "bat/battery4.png"@,
    }
}

impl IconImage {
    /// The file that holds the picture, as a path below the program's
    /// resources.
    pub fn image_file(&self) -> (r: &'static str)
        ensures
            r@ == image_file_of(*self),
    {
        match self {
            IconImage::Battery0 => "bat/battery0.png",
            IconImage::Battery1 => "bat/battery1.png",
            IconImage::Battery2 => "bat/battery2.png",
            IconImage::Battery3 => "bat/battery3.png",
            IconImage::Battery4 => "bat/battery4.png",
        }
    }

    /// The picture for a battery level from 0 to 4 and a charging code. A
    /// level above 4 has no picture, and is only taken together with the code
    /// of a headset that is not connected.
    pub fn from_state(battery_state: u8, charging_state: Option<u8>) -> (r: Self)
        requires
            charging_state == Some(0u8) || battery_state <= 4,
        ensures
            r == icon_of_state(battery_state, charging_state),
    {
        match charging_state {
            // Not connected
            Some(0) => Self::Battery0,
            // Charging or discharging
            _ => {
                if battery_state == 0 {
                    Self::Battery0
                } else if battery_state == 1 {
                    Self::Battery1
                } else if battery_state == 2 {
                    Self::Battery2
                } else if battery_state == 3 {
                    Self::Battery3
                } else {
                    Self::Battery4
                }
            },
        }
    }
}

/// The step of the icon scale that a battery level in percent falls on: five
/// steps, each a quarter of the scale wide around 0, 25, 50, 75 and 100
/// percent. A level of -1 stands for "unknown" and is shown as empty; any
/// other level off the scale is shown as full.
pub open spec fn icon_step(battery_percent: int) -> int {
    if battery_percent == -1 {
        1
    } else if 0 <= battery_percent <= 12 {
        1
    } else if 13 <= battery_percent <= 37 {
        2
    } else if 38 <= battery_percent <= 62 {
        3
    } else if 63 <= battery_percent <= 87 {
        4
    } else {
        5
    }
}

/// The id of the icon resource for a theme, a battery level in percent and a
/// battery state. The icons for the dark theme have the ids 10, 20, .., 50,
/// those for the light theme are 5 above, and the icon of a charging battery
/// comes right after that of the same level. A device without battery
/// information gets the empty icon of the theme.
pub open spec fn icon_resource(light_theme: bool, battery_percent: int, state: BatteryState) -> int {
    let theme_offset: int = if light_theme {
        5
    } else {
        0
    };
    let charging_offset: int = if state == BatteryState::BatteryCharging {
        1
    } else {
        0
    };
    if state == BatteryState::BatteryUnavailable {
        10 + theme_offset
    } else {
        icon_step(battery_percent) * 10 + theme_offset + charging_offset
    }
}

/// The id of the icon resource to show.
pub fn icon_resource_id(light_theme: bool, battery_percent: isize, state: BatteryState) -> (r: u16)
    ensures
        r == icon_resource(light_theme, battery_percent as int, state),
{
    let level: u16 = if battery_percent == -1 {
        1
    } else if 0 <= battery_percent && battery_percent <= 12 {
        1
    } else if 13 <= battery_percent && battery_percent <= 37 {
        2
    } else if 38 <= battery_percent && battery_percent <= 62 {
        3
    } else if 63 <= battery_percent && battery_percent <= 87 {
        4
    } else {
        5
    };
    let theme_offset: u16 = if light_theme {
        5
    } else {
        0
    };
    let charging_offset: u16 = if state == BatteryState::BatteryCharging {
        1
    } else {
        0
    };
    if state == BatteryState::BatteryUnavailable {
        10 + theme_offset
    } else {
        level * 10 + theme_offset + charging_offset
    }
}

} // verus!
