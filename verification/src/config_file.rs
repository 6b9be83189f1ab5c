//! A headset model that the user describes in a configuration file.

use crate::hid::HeadphoneModel;
use vstd::prelude::*;
use vstd::std_specs::convert::FromSpecImpl;

verus! {

/// A headset model as the configuration file describes it.
#[derive(Debug)]
pub struct ConfigFile {
    pub name: String,
    pub product_id: u16,
    /// Magic bytes that make the device output battery information
    pub write_bytes: [u8; 2],
    pub interface_num: Option<i32>,
    pub battery_percent_idx: usize,
    pub charging_status_idx: Option<usize>,
    pub connected_status_idx: Option<usize>,
    /// Usage page first, then id
    pub usage_page_id: Option<(u16, u16)>,
    /// Size of buffer to send when reading battery status
    pub read_buf_size: usize,
    pub battery_range: (u8, u8),
}

impl Clone for ConfigFile {
    fn clone(&self) -> (r: ConfigFile)
        ensures
            r == *self,
    {
        ConfigFile {
            name: self.name.clone(),
            product_id: self.product_id,
            write_bytes: self.write_bytes,
            interface_num: self.interface_num,
            battery_percent_idx: self.battery_percent_idx,
            charging_status_idx: self.charging_status_idx,
            connected_status_idx: self.connected_status_idx,
            usage_page_id: self.usage_page_id,
            read_buf_size: self.read_buf_size,
            battery_range: self.battery_range,
        }
    }
}

/// Whether `model` is the model that `config` describes: the same name,
/// character by character, and every other field as it stands.
pub open spec fn describes(config: ConfigFile, model: HeadphoneModel) -> bool {
    &&& model.name@ == config.name@
    &&& model.product_id == config.product_id
    &&& model.write_bytes == config.write_bytes
    &&& model.interface_num == config.interface_num
    &&& model.battery_percent_idx == config.battery_percent_idx
    &&& model.charging_status_idx == config.charging_status_idx
    &&& model.connected_status_idx == config.connected_status_idx
    &&& model.usage_page_and_id == config.usage_page_id
    &&& model.read_buf_size == config.read_buf_size
    &&& model.battery_range == config.battery_range
}

/// Gives a text a lifetime without end, for a model's name. The text is
/// never freed: this is meant to happen once for a configuration.
///
/// Trusted: this is `String::leak`, which std documents as handing back the
/// string's contents as a slice.
#[verifier::external_body]
fn leak_text(text: String) -> (r: &'static str)
    ensures
        r@ == text@,
{
    text.leak()
}

impl From<ConfigFile> for HeadphoneModel {
    /// The model that `value` describes.
    fn from(value: ConfigFile) -> (r: HeadphoneModel)
        ensures
            describes(value, r),
    {
        HeadphoneModel {
            name: leak_text(value.name),
            battery_percent_idx: value.battery_percent_idx,
            product_id: value.product_id,
            write_bytes: value.write_bytes,
            interface_num: value.interface_num,
            charging_status_idx: value.charging_status_idx,
            connected_status_idx: value.connected_status_idx,
            usage_page_and_id: value.usage_page_id,
            read_buf_size: value.read_buf_size,
            battery_range: value.battery_range,
        }
    }
}

impl FromSpecImpl<ConfigFile> for HeadphoneModel {
    /// A name is told only by its characters, which do not say which text in
    /// memory holds them: the conversion is stated by `describes`, on `from`
    /// itself.
    open spec fn obeys_from_spec() -> bool {
        false
    }

    open spec fn from_spec(v: ConfigFile) -> HeadphoneModel {
        choose|model: HeadphoneModel| describes(v, model)
    }
}

} // verus!
