use std::collections::HashMap;

use arctis_battery_indicator::headphone_models::{
    arctis_1, arctis_7, arctis_9, arctis_nova_7, arctis_pro_wireless, known_headphones,
    models_with_custom,
};
use arctis_battery_indicator::hid::{HeadphoneModel, MAX_READ_BUF_SIZE};

#[test]
fn unique_product_ids() {
    let mut seen_product_ids: HashMap<u16, bool> = HashMap::new();
    let mut seen_names: HashMap<&str, bool> = HashMap::new();
    known_headphones().iter().for_each(|h| {
        assert!(
            seen_product_ids.insert(h.product_id, true).is_none(),
            "duplicate entries for {:#x}",
            &h.product_id
        );
        assert!(
            seen_names.insert(h.name, true).is_none(),
            "duplicate entries for {}",
            &h.name
        );
    });
}

#[test]
fn catalog_lists_every_model_in_order() {
    let names: Vec<&str> = known_headphones().iter().map(|m| m.name).collect();
    assert_eq!(
        names,
        vec![
            "Arctis Pro Wireless",
            "Arctis 7 2017",
            "Arctis 7 2019",
            "Arctis Pro 2019",
            "Arctis Pro GameDac",
            "Arctis 9",
            "Arctis 1 Wireless",
            "Arctis 1 Xbox",
            "Arctis 7X",
            "Arctis 7 Plus",
            "Arctis 7P Plus",
            "Arctis 7X Plus",
            "Arctis 7 Destiny Plus",
            "Arctis Nova 7",
            "Arctis Nova 7X",
            "Arctis Nova 7X v2",
            "Arctis Nova 7P",
            "Arctis Nova 7 Diablo IV",
        ]
    );
    let ids: Vec<u16> = known_headphones().iter().map(|m| m.product_id).collect();
    assert_eq!(
        ids,
        vec![
            0x1290, 0x1260, 0x12ad, 0x1252, 0x1280, 0x12c2, 0x12b3, 0x12b6, 0x12d7, 0x220e,
            0x2212, 0x2216, 0x2236, 0x2202, 0x2206, 0x2258, 0x220a, 0x223a,
        ]
    );
}

#[test]
fn catalog_models_are_sound() {
    for model in known_headphones() {
        assert!(model.is_valid(), "{}", model.name);
        assert!(model.read_buf_size >= 4 && model.read_buf_size <= MAX_READ_BUF_SIZE);
        assert!(model.battery_range.0 < model.battery_range.1);
    }
}

#[test]
fn pro_wireless_entry() {
    let m = arctis_pro_wireless();
    assert_eq!(m.name, "Arctis Pro Wireless");
    assert_eq!(m.product_id, 0x1290);
    assert_eq!(m.write_bytes, [0x40, 0xaa]);
    assert_eq!(m.interface_num, Some(0));
    assert_eq!(m.battery_percent_idx, 0);
    assert_eq!(m.charging_status_idx, None);
    assert_eq!(m.connected_status_idx, None);
    assert_eq!(m.usage_page_and_id, None);
    assert_eq!(m.battery_range, (0, 4));
}

#[test]
fn arctis_7_entry() {
    let m = arctis_7("Arctis 7 2019", 0x12ad);
    assert_eq!(m.name, "Arctis 7 2019");
    assert_eq!(m.product_id, 0x12ad);
    assert_eq!(m.write_bytes, [0x06, 0x18]);
    assert_eq!(m.interface_num, Some(5));
    assert_eq!(m.battery_percent_idx, 2);
    assert_eq!(m.charging_status_idx, None);
    assert_eq!(m.usage_page_and_id, None);
    assert_eq!(m.battery_range, (0, 100));
}

#[test]
fn arctis_9_entry() {
    let m = arctis_9();
    assert_eq!(m.name, "Arctis 9");
    assert_eq!(m.product_id, 0x12c2);
    assert_eq!(m.write_bytes, [0x06, 0x12]);
    assert_eq!(m.interface_num, Some(3));
    assert_eq!(m.battery_percent_idx, 3);
    assert_eq!(m.charging_status_idx, Some(4));
    assert_eq!(m.usage_page_and_id, None);
    assert_eq!(m.read_buf_size, 12);
    assert_eq!(m.battery_range, (0x64, 0x9a));
}

#[test]
fn arctis_1_entry() {
    let m = arctis_1("Arctis 7X", 0x12d7);
    assert_eq!(m.name, "Arctis 7X");
    assert_eq!(m.product_id, 0x12d7);
    assert_eq!(m.write_bytes, [0x06, 0x12]);
    assert_eq!(m.interface_num, Some(3));
    assert_eq!(m.battery_percent_idx, 3);
    assert_eq!(m.charging_status_idx, Some(4));
    assert_eq!(m.usage_page_and_id, Some((0xff43, 0x202)));
}

#[test]
fn nova_7_entry() {
    let m = arctis_nova_7("Arctis Nova 7", 0x2202);
    assert_eq!(m.name, "Arctis Nova 7");
    assert_eq!(m.product_id, 0x2202);
    assert_eq!(m.write_bytes, [0x00, 0xb0]);
    assert_eq!(m.interface_num, Some(3));
    assert_eq!(m.battery_percent_idx, 2);
    assert_eq!(m.charging_status_idx, Some(3));
    assert_eq!(m.connected_status_idx, None);
    assert_eq!(m.usage_page_and_id, Some((0xffc0, 0x1)));
    assert_eq!(m.read_buf_size, 8);
    assert_eq!(m.battery_range, (0, 4));
}

fn custom_model() -> HeadphoneModel {
    HeadphoneModel {
        name: "Bench Prototype",
        product_id: 0x4242,
        write_bytes: [0x01, 0x02],
        interface_num: None,
        battery_percent_idx: 1,
        charging_status_idx: Some(2),
        connected_status_idx: Some(3),
        usage_page_and_id: None,
        read_buf_size: 16,
        battery_range: (10, 20),
    }
}

#[test]
fn custom_models_come_before_the_catalog() {
    let all = models_with_custom(vec![custom_model()]);
    assert_eq!(all.len(), 19);
    assert_eq!(all[0].name, "Bench Prototype");
    assert_eq!(all[0].product_id, 0x4242);
    assert_eq!(all[1].name, "Arctis Pro Wireless");
    assert_eq!(all[18].name, "Arctis Nova 7 Diablo IV");
}

#[test]
fn without_custom_models_the_catalog_stands_alone() {
    let all = models_with_custom(Vec::new());
    let known = known_headphones();
    assert_eq!(all.len(), known.len());
    for (a, k) in all.iter().zip(known.iter()) {
        assert_eq!(a.name, k.name);
        assert_eq!(a.product_id, k.product_id);
    }
}

#[test]
fn validity_asks_every_index_within_the_buffer() {
    let good = custom_model();
    assert!(good.is_valid());

    let mut m = custom_model();
    m.read_buf_size = 129;
    assert!(!m.is_valid());
    m.read_buf_size = 128;
    assert!(m.is_valid());

    let mut m = custom_model();
    m.battery_percent_idx = 16;
    assert!(!m.is_valid());
    m.battery_percent_idx = 15;
    assert!(m.is_valid());

    let mut m = custom_model();
    m.charging_status_idx = Some(16);
    assert!(!m.is_valid());
    m.charging_status_idx = None;
    assert!(m.is_valid());

    let mut m = custom_model();
    m.connected_status_idx = Some(200);
    assert!(!m.is_valid());

    let mut m = custom_model();
    m.read_buf_size = 0;
    assert!(!m.is_valid());
}
