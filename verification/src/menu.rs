//! The decisions behind the context menu: what an event asks for, which
//! device is selected, and what the menu lists.

use crate::headset_control::{device_label, Device};
use crate::lang::{system_lang, Lang};
use crate::text::same_text;
use vstd::prelude::*;

verus! {

/// Where the menu lists the first device; the version stands at 0 and a
/// separator at 1.
pub const FIRST_DEVICE_POSITION: usize = 2;

/// Where the separator above the devices stands.
pub const TOP_SEPARATOR_POSITION: usize = 1;

/// What a menu event asks for.
#[derive(Clone, Copy, Debug, PartialEq, Eq, Structural)]
pub enum MenuAction {
    /// Leave the program.
    Quit,
    /// Show where updates are found.
    ViewUpdates,
    /// Show where the logs are kept.
    ViewLogs,
    /// Select the device with this index.
    SelectDevice(usize),
    /// The event is of no item of the menu.
    Nothing,
}

/// The context menu, as far as its decisions go: the ids of its items and
/// the device that is selected. The items themselves are the caller's.
#[derive(Debug)]
pub struct ContextMenu {
    /// The ids of the items of the devices that the menu lists, in their
    /// order.
    pub device_menu_items: Vec<String>,
    pub selected_device_idx: usize,
    /// The id of the item that shows where the logs are kept.
    pub menu_logs: String,
    /// The id of the item that shows where updates are found.
    pub menu_github: String,
    /// The id of the item that leaves the program.
    pub menu_close: String,
}

/// Whether `action` is what an event with the id `event` asks of `menu`. The
/// items to close, to view updates and to view logs are asked in this order,
/// then the items of the devices, of which the first with the id counts.
pub open spec fn is_action_for(menu: ContextMenu, event: Seq<char>, action: MenuAction) -> bool {
    if event == menu.menu_close@ {
        action == MenuAction::Quit
    } else if event == menu.menu_github@ {
        action == MenuAction::ViewUpdates
    } else if event == menu.menu_logs@ {
        action == MenuAction::ViewLogs
    } else {
        match action {
            MenuAction::SelectDevice(idx) => {
                &&& idx < menu.device_menu_items@.len()
                &&& menu.device_menu_items@[idx as int]@ == event
                &&& forall|j: int| 0 <= j < idx ==> (#[trigger] menu.device_menu_items@[j])@ != event
            },
            MenuAction::Nothing => forall|j: int|
                0 <= j < menu.device_menu_items@.len() ==> (#[trigger] menu.device_menu_items@[j])@
                    != event,
            _ => false,
        }
    }
}

/// The selection after the user picked the device `idx` of `count`: `idx`
/// itself, and the selection as it was where there is no such device.
pub open spec fn selection_after_pick(selected: usize, count: nat, idx: usize) -> usize {
    if idx < count {
        idx
    } else {
        selected
    }
}

/// The selection that holds for a list of `count` devices: the one that was,
/// the last device where it points behind the list, and 0 for an empty list.
pub open spec fn selection_within(selected: usize, count: nat) -> usize {
    if count == 0 {
        0
    } else if selected < count {
        selected
    } else {
        (count - 1) as usize
    }
}

/// One device in the menu.
#[derive(Debug)]
pub struct DeviceMenuItem {
    pub label: String,
    pub checked: bool,
    /// The place of the item in the menu.
    pub position: usize,
}

/// The part of the menu that lists the devices.
#[derive(Debug)]
pub struct DeviceMenu {
    /// The index of the device that is selected.
    pub selected: usize,
    /// One item for each device, in the order of the devices.
    pub items: Vec<DeviceMenuItem>,
    /// The places of the separators above and below the devices; none where
    /// there is no device.
    pub separators: Option<(usize, usize)>,
}

/// Whether `menu` lists `devices` in `lang`, with `selected` as the selection
/// so far: each device stands under its label at its place behind the first,
/// the one selected is checked and no other, and the separators stand right
/// above and right below.
pub open spec fn lists_devices(
    menu: DeviceMenu,
    devices: Seq<Device>,
    selected: usize,
    lang: Lang,
) -> bool {
    &&& menu.selected == selection_within(selected, devices.len())
    &&& menu.items@.len() == devices.len()
    &&& forall|i: int|
        0 <= i < devices.len() ==> {
            &&& (#[trigger] menu.items@[i]).label@ == device_label(devices[i], lang)
            &&& menu.items@[i].checked == (i == menu.selected)
            &&& menu.items@[i].position == FIRST_DEVICE_POSITION + i
        }
    &&& menu.separators == if devices.len() == 0 {
        None
    } else {
        Some((TOP_SEPARATOR_POSITION, (FIRST_DEVICE_POSITION + devices.len()) as usize))
    }
}

/// The part of the menu that lists `devices`, in `lang`.
pub fn device_menu_in(devices: &Vec<Device>, selected: usize, lang: Lang) -> (r: DeviceMenu)
    requires
        devices@.len() + FIRST_DEVICE_POSITION <= usize::MAX,
    ensures
        lists_devices(r, devices@, selected, lang),
{
    let count: usize = devices.len();
    if count == 0 {
        return DeviceMenu { selected: 0, items: Vec::new(), separators: None };
    }
    let selected: usize = if selected < count {
        selected
    } else {
        count - 1
    };
    let mut items: Vec<DeviceMenuItem> = Vec::new();
    let mut i: usize = 0;
    while i < count
        invariant
            count == devices@.len(),
            count + FIRST_DEVICE_POSITION <= usize::MAX,
            i <= count,
            items@.len() == i,
            forall|j: int|
                0 <= j < i ==> {
                    &&& (#[trigger] items@[j]).label@ == device_label(devices@[j], lang)
                    &&& items@[j].checked == (j == selected)
                    &&& items@[j].position == FIRST_DEVICE_POSITION + j
                },
        decreases count - i,
    {
        items.push(
            DeviceMenuItem {
                label: devices[i].to_string_in(lang),
                checked: i == selected,
                position: FIRST_DEVICE_POSITION + i,
            },
        );
        i += 1;
    }
    DeviceMenu {
        selected,
        items,
        separators: Some((TOP_SEPARATOR_POSITION, FIRST_DEVICE_POSITION + count)),
    }
}

impl ContextMenu {
    /// The menu before any device is listed: the first device is selected.
    pub fn new(menu_logs: String, menu_github: String, menu_close: String) -> (r: ContextMenu)
        ensures
            r.device_menu_items@.len() == 0,
            r.selected_device_idx == 0,
            r.menu_logs == menu_logs,
            r.menu_github == menu_github,
            r.menu_close == menu_close,
    {
        ContextMenu {
            device_menu_items: Vec::new(),
            selected_device_idx: 0,
            menu_logs,
            menu_github,
            menu_close,
        }
    }

    /// Whether two menus have the same fixed items.
    pub open spec fn same_fixed_items(&self, other: &ContextMenu) -> bool {
        &&& self.menu_logs == other.menu_logs
        &&& self.menu_github == other.menu_github
        &&& self.menu_close == other.menu_close
    }

    /// Lists `devices` anew, in `lang`. The items that were listed are
    /// forgotten, and the selection is brought within the new list. Returns
    /// what to put into the menu; the ids of the new items are for the caller
    /// to enter in `device_menu_items`.
    pub fn update_device_menu_in(&mut self, devices: &Vec<Device>, lang: Lang) -> (r: DeviceMenu)
        requires
            devices@.len() + FIRST_DEVICE_POSITION <= usize::MAX,
        ensures
            lists_devices(r, devices@, old(self).selected_device_idx, lang),
            final(self).selected_device_idx == r.selected,
            final(self).device_menu_items@.len() == 0,
            final(self).same_fixed_items(old(self)),
    {
        let r = device_menu_in(devices, self.selected_device_idx, lang);
        self.device_menu_items.clear();
        self.selected_device_idx = r.selected;
        r
    }

    /// Lists `devices` anew, in the language of this system. Which language
    /// that is depends on the machine; the whole list is in one language, and
    /// [`ContextMenu::update_device_menu_in`] says what it is in each.
    pub fn update_device_menu(&mut self, devices: &Vec<Device>) -> (r: DeviceMenu)
        requires
            devices@.len() + FIRST_DEVICE_POSITION <= usize::MAX,
        ensures
            lists_devices(r, devices@, old(self).selected_device_idx, Lang::En) || lists_devices(
                r,
                devices@,
                old(self).selected_device_idx,
                Lang::Fi,
            ),
            final(self).selected_device_idx == r.selected,
            final(self).device_menu_items@.len() == 0,
            final(self).same_fixed_items(old(self)),
    {
        self.update_device_menu_in(devices, system_lang())
    }

    /// Selects the device `idx`, if the menu lists one there.
    pub fn set_selected(&mut self, idx: usize)
        ensures
            final(self).selected_device_idx == selection_after_pick(
                old(self).selected_device_idx,
                old(self).device_menu_items@.len(),
                idx,
            ),
            final(self).device_menu_items == old(self).device_menu_items,
            final(self).same_fixed_items(old(self)),
    {
        if idx >= self.device_menu_items.len() {
            return ;
        }
        self.selected_device_idx = idx;
    }

    /// Takes in the menu event with the id `event`. An event of a device's
    /// item selects that device; every other leaves the menu as it is.
    /// Returns what the event asks for, which is the caller's to do.
    pub fn handle_event(&mut self, event: &str) -> (r: MenuAction)
        ensures
            is_action_for(*old(self), event@, r),
            final(self).selected_device_idx == match r {
                MenuAction::SelectDevice(idx) => idx,
                _ => old(self).selected_device_idx,
            },
            final(self).device_menu_items == old(self).device_menu_items,
            final(self).same_fixed_items(old(self)),
    {
        if same_text(event, self.menu_close.as_str()) {
            return MenuAction::Quit;
        }
        if same_text(event, self.menu_github.as_str()) {
            return MenuAction::ViewUpdates;
        }
        if same_text(event, self.menu_logs.as_str()) {
            return MenuAction::ViewLogs;
        }
        let mut i: usize = 0;
        while i < self.device_menu_items.len()
            invariant
                i <= self.device_menu_items@.len(),
                *self == *old(self),
                event@ != self.menu_close@,
                event@ != self.menu_github@,
                event@ != self.menu_logs@,
                forall|j: int| 0 <= j < i ==> (#[trigger] self.device_menu_items@[j])@ != event@,
            decreases self.device_menu_items@.len() - i,
        {
            if same_text(self.device_menu_items[i].as_str(), event) {
                self.set_selected(i);
                return MenuAction::SelectDevice(i);
            }
            i += 1;
        }
        MenuAction::Nothing
    }
}

} // verus!
