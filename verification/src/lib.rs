//! Battery and charging state of SteelSeries Arctis headsets.
//!
//! The crate identifies a connected HID device against a catalog of known
//! headset models, decodes the status report that each model answers with
//! into a battery level and a charging state, and says how that state is
//! shown: as a label, as an icon, in a menu.
//!
//! Nothing here touches a device, a file or a window. The caller enumerates
//! the devices, performs the write and the timed read, and hands over what it
//! got; the functions here decide, and their contracts say what they return
//! for every input. The code is verified with Verus. Three small functions
//! are believed, not proved, because they stand for code from elsewhere: the
//! comparison of two texts, the leaking of a name, and the question to the
//! system for its locale.
//!
//! - [`hid`]: the models, the search for a headset, the session and the
//!   decoder of its reports
//! - [`headphone_models`]: the catalog
//! - [`config_file`]: a model that the user describes
//! - [`headset_control`]: the devices that the headset control tool reports
//! - [`icon`], [`menu`], [`tray`]: what is shown
//! - [`lang`], [`text`]: words and numbers

pub mod config_file;
pub mod headphone_models;
pub mod headset_control;
pub mod hid;
pub mod icon;
pub mod lang;
pub mod menu;
pub mod text;
pub mod tray;
