use arctis_battery_indicator::config_file::ConfigFile;
use arctis_battery_indicator::hid::HeadphoneModel;

fn config() -> ConfigFile {
    ConfigFile {
        name: "Arctis Nova 5".to_owned(),
        product_id: 0x2232,
        write_bytes: [0x00, 0xb0],
        interface_num: Some(3),
        battery_percent_idx: 3,
        charging_status_idx: Some(4),
        connected_status_idx: Some(1),
        usage_page_id: Some((0xffc0, 0x1)),
        read_buf_size: 64,
        battery_range: (0, 100),
    }
}

#[test]
fn model_of_a_configuration() {
    let model = HeadphoneModel::from(config());
    assert_eq!(model.name, "Arctis Nova 5");
    assert_eq!(model.product_id, 0x2232);
    assert_eq!(model.write_bytes, [0x00, 0xb0]);
    assert_eq!(model.interface_num, Some(3));
    assert_eq!(model.battery_percent_idx, 3);
    assert_eq!(model.charging_status_idx, Some(4));
    assert_eq!(model.connected_status_idx, Some(1));
    assert_eq!(model.usage_page_and_id, Some((0xffc0, 0x1)));
    assert_eq!(model.read_buf_size, 64);
    assert_eq!(model.battery_range, (0, 100));
    assert!(model.is_valid());
}

#[test]
fn model_of_a_sparse_configuration() {
    let mut c = config();
    c.name = String::new();
    c.interface_num = None;
    c.charging_status_idx = None;
    c.connected_status_idx = None;
    c.usage_page_id = None;
    c.battery_range = (7, 3);
    let model: HeadphoneModel = c.into();
    assert_eq!(model.name, "");
    assert_eq!(model.interface_num, None);
    assert_eq!(model.charging_status_idx, None);
    assert_eq!(model.connected_status_idx, None);
    assert_eq!(model.usage_page_and_id, None);
    assert_eq!(model.battery_range, (7, 3));
}

#[test]
fn clone_of_a_configuration() {
    let c = config();
    let d = c.clone();
    assert_eq!(d.name, c.name);
    assert_eq!(d.product_id, c.product_id);
    assert_eq!(d.write_bytes, c.write_bytes);
    assert_eq!(d.interface_num, c.interface_num);
    assert_eq!(d.battery_percent_idx, c.battery_percent_idx);
    assert_eq!(d.charging_status_idx, c.charging_status_idx);
    assert_eq!(d.connected_status_idx, c.connected_status_idx);
    assert_eq!(d.usage_page_id, c.usage_page_id);
    assert_eq!(d.read_buf_size, c.read_buf_size);
    assert_eq!(d.battery_range, c.battery_range);
}

#[test]
fn configuration_with_an_index_off_the_buffer_is_not_valid() {
    let mut c = config();
    c.battery_percent_idx = 64;
    assert!(!HeadphoneModel::from(c).is_valid());
    let mut c = config();
    c.read_buf_size = 200;
    assert!(!HeadphoneModel::from(c).is_valid());
}
