//! What the headset control tool reports of the connected devices, and how a
//! device is shown.

use crate::lang::{system_lang, text, translate, Key, Lang};
use crate::text::{decimal, decimal_string, same_text};
use vstd::prelude::*;
use vstd::string::StringExecFns;

verus! {

/// The state of a device's battery, as the tool names it.
#[derive(Debug, Clone, Copy, PartialEq, Eq, Structural)]
pub enum BatteryState {
    BatteryUnavailable,
    BatteryCharging,
    BatteryAvailable,
    BatteryHiderror,
    BatteryTimeout,
}

impl Default for BatteryState {
    fn default() -> (r: BatteryState)
        ensures
            r == BatteryState::BatteryUnavailable,
    {
        BatteryState::BatteryUnavailable
    }
}

/// A device's battery.
#[derive(Debug, Clone, Copy, PartialEq, Eq, Structural)]
pub struct Battery {
    pub status: BatteryState,
    /// percentage in range 0-100
    pub level: isize,
}

impl Default for Battery {
    fn default() -> (r: Battery)
        ensures
            r == (Battery { status: BatteryState::BatteryUnavailable, level: 0 }),
    {
        Battery { status: BatteryState::BatteryUnavailable, level: 0 }
    }
}

/// One device of the tool's report.
#[derive(Debug, Clone, PartialEq)]
pub struct Device {
    pub status: String,
    pub product: String,
    pub id_vendor: String,
    pub id_product: String,
    pub capabilities_str: Vec<String>,
    pub battery: Battery,
}

impl Default for Device {
    fn default() -> (r: Device)
        ensures
            r.status@.len() == 0,
            r.product@.len() == 0,
            r.id_vendor@.len() == 0,
            r.id_product@.len() == 0,
            r.capabilities_str@.len() == 0,
            r.battery == (Battery { status: BatteryState::BatteryUnavailable, level: 0 }),
    {
        Device {
            status: String::new(),
            product: String::new(),
            id_vendor: String::new(),
            id_product: String::new(),
            capabilities_str: Vec::new(),
            battery: Battery { status: BatteryState::BatteryUnavailable, level: 0 },
        }
    }
}

/// The whole of the tool's report.
#[derive(Debug, Clone, PartialEq)]
pub struct Output {
    pub devices: Vec<Device>,
}

impl Default for Output {
    fn default() -> (r: Output)
        ensures
            r.devices@.len() == 0,
    {
        Output { devices: Vec::new() }
    }
}

/// Whether a capability is the one of reporting the battery.
pub open spec fn is_battery_capability(capability: Seq<char>) -> bool {
    capability == "battery"@
}

/// Whether a device names the battery among its capabilities.
pub open spec fn reports_battery(device: Device) -> bool {
    exists|i: int|
        0 <= i < device.capabilities_str@.len() && is_battery_capability(
            #[trigger] device.capabilities_str@[i]@,
        )
}

/// What stands behind a device's name for the state of its battery: nothing
/// while it runs on battery, the word for charging while it charges, and the
/// word for disconnected in every other state.
pub open spec fn status_key(status: BatteryState) -> Option<Key> {
    match status {
        BatteryState::BatteryCharging => Some(Key::device_charging),
        BatteryState::BatteryAvailable => None,
        _ => Some(Key::device_disconnected),
    }
}

/// How a device is shown in `lang`: its name; behind it, where the level is
/// above zero, a colon, the level in percent and the word for "remaining";
/// and last the state of the battery, where there is a word for it.
pub open spec fn device_label(device: Device, lang: Lang) -> Seq<char> {
    let head = if device.battery.level > 0 {
        device.product@ + seq![':', ' '] + decimal(device.battery.level as nat) + seq!['%', ' ']
            + text(lang, Key::battery_remaining)
    } else {
        device.product@
    };
    match status_key(device.battery.status) {
        Some(key) => head + seq![' '] + text(lang, key),
        None => head,
    }
}

impl Device {
    /// Whether the device names the battery among its capabilities.
    pub fn reports_battery(&self) -> (r: bool)
        ensures
            r == reports_battery(*self),
    {
        let mut i: usize = 0;
        while i < self.capabilities_str.len()
            invariant
                i <= self.capabilities_str@.len(),
                forall|j: int|
                    0 <= j < i ==> !is_battery_capability(#[trigger] self.capabilities_str@[j]@),
            decreases self.capabilities_str@.len() - i,
        {
            if same_text(self.capabilities_str[i].as_str(), "battery") {
                return true;
            }
            i += 1;
        }
        false
    }

    /// The word for the state of the battery in `lang`, if there is one.
    pub fn status_text_in(&self, lang: Lang) -> (r: Option<&'static str>)
        ensures
            match status_key(self.battery.status) {
                Some(key) => r matches Some(word) && word@ == text(lang, key),
                None => r.is_none(),
            },
    {
        match self.battery.status {
            BatteryState::BatteryCharging => Some(translate(lang, Key::device_charging)),
            BatteryState::BatteryAvailable => None,
            _ => Some(translate(lang, Key::device_disconnected)),
        }
    }

    /// The word for the state of the battery in the language of this system,
    /// if there is one. Which language that is depends on the machine;
    /// [`Device::status_text_in`] says what is returned in each.
    pub fn status_text(&self) -> (r: Option<&'static str>)
        ensures
            match status_key(self.battery.status) {
                Some(key) => r matches Some(word) && (word@ == text(Lang::En, key) || word@
                    == text(Lang::Fi, key)),
                None => r.is_none(),
            },
    {
        self.status_text_in(system_lang())
    }

    /// How the device is shown in `lang`.
    pub fn to_string_in(&self, lang: Lang) -> (r: String)
        ensures
            r@ == device_label(*self, lang),
    {
        proof {
            reveal_strlit(": ");
            reveal_strlit("% ");
            reveal_strlit(" ");
        }
        let mut r = self.product.clone();
        if self.battery.level > 0 {
            r.append(": ");
            let level = decimal_string(self.battery.level as usize);
            r.append(level.as_str());
            r.append("% ");
            r.append(translate(lang, Key::battery_remaining));
            assert(r@ =~= self.product@ + seq![':', ' '] + decimal(self.battery.level as nat)
                + seq!['%', ' '] + text(lang, Key::battery_remaining));
        }
        let ghost head = r@;
        match self.status_text_in(lang) {
            Some(word) => {
                r.append(" ");
                r.append(word);
                assert(r@ =~= head + seq![' '] + word@);
            },
            None => {},
        }
        r
    }

    /// How the device is shown in the language of this system. Which language
    /// that is depends on the machine; [`Device::to_string_in`] says what is
    /// returned in each.
    pub fn to_string(&self) -> (r: String)
        ensures
            r@ == device_label(*self, Lang::En) || r@ == device_label(*self, Lang::Fi),
    {
        self.to_string_in(system_lang())
    }
}

/// Replaces what `vec` holds by the devices of `response` that report their
/// battery, in the order of the report.
pub fn query_devices(vec: &mut Vec<Device>, response: Output)
    ensures
        final(vec)@ == response.devices@.filter(|d: Device| reports_battery(d)),
{
    let ghost keeps = |d: Device| reports_battery(d);
    vec.clear();
    assert(response.devices@.take(0).filter(keeps) =~= Seq::<Device>::empty()) by {
        reveal(Seq::filter);
    }
    for device in it: response.devices
        invariant
            it.seq() == response.devices@,
            keeps == (|d: Device| reports_battery(d)),
            vec@ == response.devices@.take(it.index() as int).filter(keeps),
    {
        let ghost seen = response.devices@.take(it.index() as int);
        assert(response.devices@.take(it.index() + 1) =~= seen.push(device));
        assert(seen.push(device).drop_last() =~= seen);
        assert(seen.push(device).filter(keeps) == if keeps(device) {
            seen.filter(keeps).push(device)
        } else {
            seen.filter(keeps)
        }) by {
            reveal(Seq::filter);
        }
        if device.reports_battery() {
            vec.push(device);
        }
    }
    assert(response.devices@.take(response.devices@.len() as int) =~= response.devices@);
}

} // verus!
