use arctis_battery_indicator::headphone_models::{known_headphones, models_with_custom};
use arctis_battery_indicator::hid::{
    device_fits_model, find_headphone, next_match, HeadphoneModel, HidDeviceInfo, MatchCursor,
    MatchPass,
};

fn device(product_id: u16, interface_number: i32, usage_page: u16, usage: u16, path: &str) -> HidDeviceInfo {
    HidDeviceInfo {
        vendor_id: 0x1038,
        product_id,
        interface_number,
        usage_page,
        usage,
        path: path.as_bytes().to_vec(),
    }
}

fn plain_model(name: &'static str, product_id: u16, interface_num: Option<i32>) -> HeadphoneModel {
    HeadphoneModel {
        name,
        product_id,
        write_bytes: [0x06, 0x18],
        interface_num,
        battery_percent_idx: 2,
        charging_status_idx: None,
        connected_status_idx: None,
        usage_page_and_id: None,
        read_buf_size: 8,
        battery_range: (0, 100),
    }
}

fn usage_model(name: &'static str, product_id: u16, page: u16, id: u16) -> HeadphoneModel {
    let mut m = plain_model(name, product_id, Some(3));
    m.usage_page_and_id = Some((page, id));
    m
}

#[test]
fn start_is_the_first_place() {
    let s = MatchCursor::start();
    assert_eq!(s, MatchCursor { pass: MatchPass::Usage, device: 0, model: 0 });
}

#[test]
fn interface_number_picks_among_devices_of_one_product() {
    let models = vec![plain_model("Seven", 0x1260, Some(5))];
    let devices = vec![
        device(0x1260, 0, 0xc, 1, "if0"),
        device(0x1260, 5, 0xff00, 1, "if5"),
    ];
    let (headphone, next) = find_headphone(&models, &devices, MatchCursor::start()).unwrap();
    assert_eq!(headphone.path, b"if5".to_vec());
    assert_eq!(headphone.name, "Seven");
    assert_eq!(next, MatchCursor { pass: MatchPass::Interface, device: 1, model: 1 });
    // and it is the only one
    assert!(find_headphone(&models, &devices, next).is_none());
}

#[test]
fn model_without_interface_number_takes_any_interface() {
    let models = vec![plain_model("Any", 0x1260, None)];
    let devices = vec![device(0x1260, 7, 0xc, 1, "if7"), device(0x1260, 9, 0xc, 1, "if9")];
    let (headphone, next) = find_headphone(&models, &devices, MatchCursor::start()).unwrap();
    assert_eq!(headphone.path, b"if7".to_vec());
    let (headphone, _) = find_headphone(&models, &devices, next).unwrap();
    assert_eq!(headphone.path, b"if9".to_vec());
}

#[test]
fn no_device_no_model_no_match() {
    let models = known_headphones();
    assert!(find_headphone(&models, &Vec::new(), MatchCursor::start()).is_none());
    let devices = vec![device(0x2202, 3, 0xffc0, 1, "nova")];
    assert!(find_headphone(&Vec::new(), &devices, MatchCursor::start()).is_none());
    let devices = vec![device(0x9999, 3, 0xffc0, 1, "other")];
    assert!(find_headphone(&models, &devices, MatchCursor::start()).is_none());
}

#[test]
fn devices_of_other_vendors_are_passed_over() {
    let models = known_headphones();
    let mut other = device(0x2202, 3, 0xffc0, 1, "other");
    other.vendor_id = 0x046d;
    let devices = vec![other, device(0x2202, 3, 0xffc0, 1, "steelseries")];
    let (headphone, next) = find_headphone(&models, &devices, MatchCursor::start()).unwrap();
    assert_eq!(headphone.path, b"steelseries".to_vec());
    assert_eq!(next.device, 1);
    let mut alone = device(0x2202, 3, 0xffc0, 1, "other");
    alone.vendor_id = 0;
    assert!(find_headphone(&models, &vec![alone], MatchCursor::start()).is_none());
}

#[test]
fn usage_is_tried_on_every_device_before_any_interface() {
    let models = vec![
        plain_model("Seven", 0x1260, Some(5)),
        usage_model("Nova", 0x2202, 0xffc0, 1),
    ];
    let devices = vec![
        device(0x1260, 5, 0xc, 1, "seven"),
        device(0x2202, 0, 0xffc0, 1, "nova"),
    ];
    let (headphone, next) = find_headphone(&models, &devices, MatchCursor::start()).unwrap();
    assert_eq!(headphone.path, b"nova".to_vec());
    assert_eq!(headphone.name, "Nova");
    assert_eq!(next, MatchCursor { pass: MatchPass::Usage, device: 1, model: 2 });
    let (headphone, next) = find_headphone(&models, &devices, next).unwrap();
    assert_eq!(headphone.path, b"seven".to_vec());
    assert_eq!(next, MatchCursor { pass: MatchPass::Interface, device: 0, model: 1 });
    assert!(find_headphone(&models, &devices, next).is_none());
}

#[test]
fn usage_match_asks_page_and_id_and_product() {
    let model = usage_model("Nova", 0x2202, 0xffc0, 1);
    assert!(device_fits_model(MatchPass::Usage, &device(0x2202, 9, 0xffc0, 1, "a"), &model));
    assert!(!device_fits_model(MatchPass::Usage, &device(0x2202, 3, 0xffc0, 2, "a"), &model));
    assert!(!device_fits_model(MatchPass::Usage, &device(0x2202, 3, 0xffc1, 1, "a"), &model));
    assert!(!device_fits_model(MatchPass::Usage, &device(0x2203, 3, 0xffc0, 1, "a"), &model));
    // page and id are not to be swapped
    let swapped = usage_model("Swapped", 0x2202, 1, 0xffc0);
    assert!(!device_fits_model(MatchPass::Usage, &device(0x2202, 3, 0xffc0, 1, "a"), &swapped));
    // a model that names no usage never fits by usage
    let plain = plain_model("Plain", 0x2202, None);
    assert!(!device_fits_model(MatchPass::Usage, &device(0x2202, 3, 0, 0, "a"), &plain));
}

#[test]
fn interface_match_asks_product_and_interface() {
    let model = plain_model("Seven", 0x1260, Some(5));
    assert!(device_fits_model(MatchPass::Interface, &device(0x1260, 5, 1, 2, "a"), &model));
    assert!(!device_fits_model(MatchPass::Interface, &device(0x1260, 4, 1, 2, "a"), &model));
    assert!(!device_fits_model(MatchPass::Interface, &device(0x1261, 5, 1, 2, "a"), &model));
    let negative = plain_model("Minus", 0x1260, Some(-1));
    assert!(device_fits_model(MatchPass::Interface, &device(0x1260, -1, 1, 2, "a"), &negative));
}

#[test]
fn device_that_fits_both_ways_comes_up_twice() {
    let models = vec![usage_model("Nova", 0x2202, 0xffc0, 1)];
    let devices = vec![device(0x2202, 3, 0xffc0, 1, "nova")];
    let first = next_match(&models, &devices, MatchCursor::start()).unwrap();
    assert_eq!(first, MatchCursor { pass: MatchPass::Usage, device: 0, model: 0 });
    let (_, next) = find_headphone(&models, &devices, MatchCursor::start()).unwrap();
    let second = next_match(&models, &devices, next).unwrap();
    assert_eq!(second, MatchCursor { pass: MatchPass::Interface, device: 0, model: 0 });
}

#[test]
fn search_goes_on_behind_a_device_that_did_not_open() {
    let models = known_headphones();
    let devices = vec![
        device(0x12ad, 5, 0xc, 1, "seven-2019"),
        device(0x2202, 3, 0x1, 0x2, "nova-if3"),
        device(0x2202, 4, 0xffc0, 0x1, "nova-usage"),
    ];
    let mut from = MatchCursor::start();
    let mut paths: Vec<Vec<u8>> = Vec::new();
    let mut names: Vec<String> = Vec::new();
    while let Some((headphone, next)) = find_headphone(&models, &devices, from) {
        paths.push(headphone.path.clone());
        names.push(headphone.name.clone());
        from = next;
    }
    assert_eq!(
        paths,
        vec![
            b"nova-usage".to_vec(),
            b"seven-2019".to_vec(),
            b"nova-if3".to_vec(),
        ]
    );
    assert_eq!(names, vec!["Arctis Nova 7", "Arctis 7 2019", "Arctis Nova 7"]);
}

#[test]
fn models_are_tried_in_their_order() {
    let models = vec![
        plain_model("First", 0x1260, None),
        plain_model("Second", 0x1260, Some(5)),
    ];
    let devices = vec![device(0x1260, 5, 0xc, 1, "seven")];
    let (headphone, next) = find_headphone(&models, &devices, MatchCursor::start()).unwrap();
    assert_eq!(headphone.name, "First");
    let (headphone, next) = find_headphone(&models, &devices, next).unwrap();
    assert_eq!(headphone.name, "Second");
    assert!(find_headphone(&models, &devices, next).is_none());
}

#[test]
fn custom_model_is_found_before_the_catalogs() {
    let custom = plain_model("My Nova", 0x2202, Some(3));
    let models = models_with_custom(vec![custom]);
    let devices = vec![device(0x2202, 3, 0x1, 0x2, "nova")];
    let (headphone, _) = find_headphone(&models, &devices, MatchCursor::start()).unwrap();
    assert_eq!(headphone.name, "My Nova");
}

#[test]
fn search_from_a_place_behind_everything_finds_nothing() {
    let models = known_headphones();
    let devices = vec![device(0x2202, 3, 0xffc0, 1, "nova")];
    let far = MatchCursor { pass: MatchPass::Interface, device: usize::MAX, model: usize::MAX };
    assert!(next_match(&models, &devices, far).is_none());
    let behind_models = MatchCursor { pass: MatchPass::Usage, device: 0, model: usize::MAX };
    let found = next_match(&models, &devices, behind_models).unwrap();
    assert_eq!(found.pass, MatchPass::Interface);
    assert_eq!(found.device, 0);
    assert_eq!(models[found.model].name, "Arctis Nova 7");
}
