//! What the tray icon shows of the devices.

use crate::headset_control::{device_label, Device};
use crate::icon::{icon_resource, icon_resource_id};
use crate::lang::{system_lang, text, translate, Key, Lang};
use vstd::prelude::*;
use vstd::string::StringExecFns;

verus! {

/// What the tray icon shows.
#[derive(Debug)]
pub enum TrayView {
    /// No device is there: only the tooltip says so.
    NoAdapter { tooltip: String },
    /// A device is shown.
    Device {
        /// The index of the device that is shown, which is the selection
        /// from now on.
        selected: usize,
        tooltip: String,
        /// The id of the icon resource.
        icon: u16,
    },
}

/// Whether `view` is what the tray shows of `devices` in `lang`. Without a
/// device the tooltip says that no adapter was found. Else the last device
/// is shown: the tooltip is its label, and the icon the one for its battery
/// in the theme.
pub open spec fn shows(view: TrayView, devices: Seq<Device>, light_theme: bool, lang: Lang) -> bool {
    match view {
        TrayView::NoAdapter { tooltip } => {
            &&& devices.len() == 0
            &&& tooltip@ == text(lang, Key::no_adapter_found)
        },
        TrayView::Device { selected, tooltip, icon } => {
            &&& devices.len() > 0
            &&& selected == devices.len() - 1
            &&& tooltip@ == device_label(devices[selected as int], lang)
            &&& icon == icon_resource(
                light_theme,
                devices[selected as int].battery.level as int,
                devices[selected as int].battery.status,
            )
        },
    }
}

/// What the tray shows of `devices` in `lang`, where `selected` was the
/// selection so far. A selection that points behind the list is not taken.
pub fn tray_view_in(devices: &Vec<Device>, selected: usize, light_theme: bool, lang: Lang) -> (r:
    TrayView)
    requires
        devices@.len() == 0 || selected < devices@.len(),
    ensures
        shows(r, devices@, light_theme, lang),
{
    if devices.is_empty() {
        return TrayView::NoAdapter {
            tooltip: String::from_str(translate(lang, Key::no_adapter_found)),
        };
    }
    let mut selected: usize = selected;
    if selected < devices.len() {
        selected = devices.len() - 1;
    }
    let device = &devices[selected];
    TrayView::Device {
        selected,
        tooltip: device.to_string_in(lang),
        icon: icon_resource_id(light_theme, device.battery.level, device.battery.status),
    }
}

/// What the tray shows of `devices` in the language of this system. Which
/// language that is depends on the machine; [`tray_view_in`] says what is
/// shown in each.
pub fn tray_view(devices: &Vec<Device>, selected: usize, light_theme: bool) -> (r: TrayView)
    requires
        devices@.len() == 0 || selected < devices@.len(),
    ensures
        shows(r, devices@, light_theme, Lang::En) || shows(r, devices@, light_theme, Lang::Fi),
{
    tray_view_in(devices, selected, light_theme, system_lang())
}

} // verus!
