//! The catalog of the headset models that are known.

use crate::hid::HeadphoneModel;
use vstd::prelude::*;

verus! {

/// The Arctis Pro Wireless: the battery level, from 0 to 4, comes first in
/// its answer.
pub open spec fn spec_arctis_pro_wireless() -> HeadphoneModel {
    HeadphoneModel {
        name: "Arctis Pro Wireless",
        product_id: 0x1290,
        write_bytes: [0x40, 0xaa],
        interface_num: Some(0),
        battery_percent_idx: 0,
        charging_status_idx: None,
        connected_status_idx: None,
        usage_page_and_id: None,
        read_buf_size: 8,
        battery_range: (0, 4),
    }
}

/// A model of the Arctis 7 and Arctis Pro line: the battery level is a
/// percentage, and nothing is said of charging.
pub open spec fn spec_arctis_7(name: &'static str, product_id: u16) -> HeadphoneModel {
    HeadphoneModel {
        name,
        product_id,
        write_bytes: [0x06, 0x18],
        interface_num: Some(5),
        battery_percent_idx: 2,
        charging_status_idx: None,
        connected_status_idx: None,
        usage_page_and_id: None,
        read_buf_size: 8,
        battery_range: (0, 100),
    }
}

/// The Arctis 9: a longer answer, with a battery byte between 0x64 and 0x9a.
pub open spec fn spec_arctis_9() -> HeadphoneModel {
    HeadphoneModel {
        name: "Arctis 9",
        product_id: 0x12c2,
        write_bytes: [0x06, 0x12],
        interface_num: Some(3),
        battery_percent_idx: 3,
        charging_status_idx: Some(4),
        connected_status_idx: None,
        usage_page_and_id: None,
        read_buf_size: 12,
        battery_range: (0x64, 0x9a),
    }
}

/// A model of the Arctis 1 line: the battery level is a percentage.
pub open spec fn spec_arctis_1(name: &'static str, product_id: u16) -> HeadphoneModel {
    HeadphoneModel {
        name,
        product_id,
        write_bytes: [0x06, 0x12],
        interface_num: Some(3),
        battery_percent_idx: 3,
        charging_status_idx: Some(4),
        connected_status_idx: None,
        usage_page_and_id: Some((0xff43, 0x202)),
        read_buf_size: 8,
        battery_range: (0, 100),
    }
}

/// A model of the Arctis 7 Plus and Arctis Nova 7 lines: the battery level
/// goes from 0 to 4.
pub open spec fn spec_arctis_nova_7(name: &'static str, product_id: u16) -> HeadphoneModel {
    HeadphoneModel {
        name,
        product_id,
        write_bytes: [0x00, 0xb0],
        interface_num: Some(3),
        battery_percent_idx: 2,
        charging_status_idx: Some(3),
        connected_status_idx: None,
        usage_page_and_id: Some((0xffc0, 0x1)),
        read_buf_size: 8,
        battery_range: (0, 4),
    }
}

#[verifier::when_used_as_spec(spec_arctis_pro_wireless)]
pub fn arctis_pro_wireless() -> (r: HeadphoneModel)
    ensures
        r == spec_arctis_pro_wireless(),
{
    HeadphoneModel {
        name: "Arctis Pro Wireless",
        product_id: 0x1290,
        write_bytes: [0x40, 0xaa],
        interface_num: Some(0),
        battery_percent_idx: 0,
        charging_status_idx: None,
        connected_status_idx: None,
        usage_page_and_id: None,
        read_buf_size: 8,
        battery_range: (0, 4),
    }
}

#[verifier::when_used_as_spec(spec_arctis_7)]
pub fn arctis_7(name: &'static str, product_id: u16) -> (r: HeadphoneModel)
    ensures
        r == spec_arctis_7(name, product_id),
{
    HeadphoneModel {
        name,
        product_id,
        write_bytes: [0x06, 0x18],
        interface_num: Some(5),
        battery_percent_idx: 2,
        charging_status_idx: None,
        connected_status_idx: None,
        usage_page_and_id: None,
        read_buf_size: 8,
        battery_range: (0, 100),
    }
}

#[verifier::when_used_as_spec(spec_arctis_9)]
pub fn arctis_9() -> (r: HeadphoneModel)
    ensures
        r == spec_arctis_9(),
{
    HeadphoneModel {
        name: "Arctis 9",
        product_id: 0x12c2,
        write_bytes: [0x06, 0x12],
        interface_num: Some(3),
        battery_percent_idx: 3,
        charging_status_idx: Some(4),
        connected_status_idx: None,
        usage_page_and_id: None,
        read_buf_size: 12,
        battery_range: (0x64, 0x9a),
    }
}

#[verifier::when_used_as_spec(spec_arctis_1)]
pub fn arctis_1(name: &'static str, product_id: u16) -> (r: HeadphoneModel)
    ensures
        r == spec_arctis_1(name, product_id),
{
    HeadphoneModel {
        name,
        product_id,
        write_bytes: [0x06, 0x12],
        interface_num: Some(3),
        battery_percent_idx: 3,
        charging_status_idx: Some(4),
        connected_status_idx: None,
        usage_page_and_id: Some((0xff43, 0x202)),
        read_buf_size: 8,
        battery_range: (0, 100),
    }
}

#[verifier::when_used_as_spec(spec_arctis_nova_7)]
pub fn arctis_nova_7(name: &'static str, product_id: u16) -> (r: HeadphoneModel)
    ensures
        r == spec_arctis_nova_7(name, product_id),
{
    HeadphoneModel {
        name,
        product_id,
        write_bytes: [0x00, 0xb0],
        interface_num: Some(3),
        battery_percent_idx: 2,
        charging_status_idx: Some(3),
        connected_status_idx: None,
        usage_page_and_id: Some((0xffc0, 0x1)),
        read_buf_size: 8,
        battery_range: (0, 4),
    }
}

/// The catalog: every known model, in the order in which a search tries them.
pub open spec fn catalog() -> Seq<HeadphoneModel> {
    seq![
        arctis_pro_wireless(),
        arctis_7("Arctis 7 2017", 0x1260),
        arctis_7("Arctis 7 2019", 0x12ad),
        arctis_7("Arctis Pro 2019", 0x1252),
        arctis_7("Arctis Pro GameDac", 0x1280),
        arctis_9(),
        arctis_1("Arctis 1 Wireless", 0x12b3),
        arctis_1("Arctis 1 Xbox", 0x12b6),
        arctis_1("Arctis 7X", 0x12d7),
        arctis_nova_7("Arctis 7 Plus", 0x220e),
        arctis_nova_7("Arctis 7P Plus", 0x2212),
        arctis_nova_7("Arctis 7X Plus", 0x2216),
        arctis_nova_7("Arctis 7 Destiny Plus", 0x2236),
        arctis_nova_7("Arctis Nova 7", 0x2202),
        arctis_nova_7("Arctis Nova 7X", 0x2206),
        arctis_nova_7("Arctis Nova 7X v2", 0x2258),
        arctis_nova_7("Arctis Nova 7P", 0x220a),
        arctis_nova_7("Arctis Nova 7 Diablo IV", 0x223a),
    ]
}

/// Whether no two models of a list share a product id.
pub open spec fn product_ids_unique(models: Seq<HeadphoneModel>) -> bool {
    forall|i: int, j: int|
        0 <= i < j < models.len() ==> (#[trigger] models[i]).product_id != (
        #[trigger] models[j]).product_id
}

/// Whether no two models of a list share a name.
pub open spec fn names_unique(models: Seq<HeadphoneModel>) -> bool {
    forall|i: int, j: int|
        0 <= i < j < models.len() ==> (#[trigger] models[i]).name@ != (#[trigger] models[j]).name@
}

/// Whether every model of a list is sound and has a battery range with a
/// width.
pub open spec fn all_usable(models: Seq<HeadphoneModel>) -> bool {
    forall|i: int|
        0 <= i < models.len() ==> (#[trigger] models[i]).valid() && models[i].battery_range.0
            < models[i].battery_range.1
}

/// The catalog of the known models. No two of them share a product id or a
/// name, and each is sound.
pub fn known_headphones() -> (r: Vec<HeadphoneModel>)
    ensures
        r@ == catalog(),
        product_ids_unique(r@),
        names_unique(r@),
        all_usable(r@),
{
    let r = vec![
        arctis_pro_wireless(),
        arctis_7("Arctis 7 2017", 0x1260),
        arctis_7("Arctis 7 2019", 0x12ad),
        arctis_7("Arctis Pro 2019", 0x1252),
        arctis_7("Arctis Pro GameDac", 0x1280),
        arctis_9(),
        arctis_1("Arctis 1 Wireless", 0x12b3),
        arctis_1("Arctis 1 Xbox", 0x12b6),
        arctis_1("Arctis 7X", 0x12d7),
        arctis_nova_7("Arctis 7 Plus", 0x220e),
        arctis_nova_7("Arctis 7P Plus", 0x2212),
        arctis_nova_7("Arctis 7X Plus", 0x2216),
        arctis_nova_7("Arctis 7 Destiny Plus", 0x2236),
        arctis_nova_7("Arctis Nova 7", 0x2202),
        arctis_nova_7("Arctis Nova 7X", 0x2206),
        arctis_nova_7("Arctis Nova 7X v2", 0x2258),
        arctis_nova_7("Arctis Nova 7P", 0x220a),
        arctis_nova_7("Arctis Nova 7 Diablo IV", 0x223a),
    ];
    assert(r@ =~= catalog());
    proof {
        lemma_catalog_unique();
    }
    r
}

/// The models to search with: those that the user supplies, which are tried
/// first, and behind them the catalog.
pub fn models_with_custom(custom: Vec<HeadphoneModel>) -> (r: Vec<HeadphoneModel>)
    ensures
        r@ == custom@ + catalog(),
{
    let mut r = custom;
    let mut known = known_headphones();
    r.append(&mut known);
    r
}

/// The length of a name and four of its characters: enough to tell any two
/// names of the catalog apart.
spec fn name_key(name: Seq<char>) -> (nat, char, char, char, char) {
    (name.len(), char_at(name, 7), char_at(name, 8), char_at(name, 12), char_at(name, 13))
}

spec fn char_at(name: Seq<char>, i: int) -> char {
    if 0 <= i < name.len() {
        name[i]
    } else {
        ' '
    }
}

/// No two models of the catalog share a product id, and no two share a name.
pub proof fn lemma_catalog_unique()
    ensures
        product_ids_unique(catalog()),
        names_unique(catalog()),
{
    reveal_strlit("Arctis Pro Wireless");
    reveal_strlit("Arctis 7 2017");
    reveal_strlit("Arctis 7 2019");
    reveal_strlit("Arctis Pro 2019");
    reveal_strlit("Arctis Pro GameDac");
    reveal_strlit("Arctis 9");
    reveal_strlit("Arctis 1 Wireless");
    reveal_strlit("Arctis 1 Xbox");
    reveal_strlit("Arctis 7X");
    reveal_strlit("Arctis 7 Plus");
    reveal_strlit("Arctis 7P Plus");
    reveal_strlit("Arctis 7X Plus");
    reveal_strlit("Arctis 7 Destiny Plus");
    reveal_strlit("Arctis Nova 7");
    reveal_strlit("Arctis Nova 7X");
    reveal_strlit("Arctis Nova 7X v2");
    reveal_strlit("Arctis Nova 7P");
    reveal_strlit("Arctis Nova 7 Diablo IV");
    assert(name_key("Arctis Pro Wireless"@) == (19nat, 'P', 'r', 'i', 'r'));
    assert(name_key("Arctis 7 2017"@) == (13nat, '7', ' ', '7', ' '));
    assert(name_key("Arctis 7 2019"@) == (13nat, '7', ' ', '9', ' '));
    assert(name_key("Arctis Pro 2019"@) == (15nat, 'P', 'r', '0', '1'));
    assert(name_key("Arctis Pro GameDac"@) == (18nat, 'P', 'r', 'a', 'm'));
    assert(name_key("Arctis 9"@) == (8nat, '9', ' ', ' ', ' '));
    assert(name_key("Arctis 1 Wireless"@) == (17nat, '1', ' ', 'e', 'l'));
    assert(name_key("Arctis 1 Xbox"@) == (13nat, '1', ' ', 'x', ' '));
    assert(name_key("Arctis 7X"@) == (9nat, '7', 'X', ' ', ' '));
    assert(name_key("Arctis 7 Plus"@) == (13nat, '7', ' ', 's', ' '));
    assert(name_key("Arctis 7P Plus"@) == (14nat, '7', 'P', 'u', 's'));
    assert(name_key("Arctis 7X Plus"@) == (14nat, '7', 'X', 'u', 's'));
    assert(name_key("Arctis 7 Destiny Plus"@) == (21nat, '7', ' ', 't', 'i'));
    assert(name_key("Arctis Nova 7"@) == (13nat, 'N', 'o', '7', ' '));
    assert(name_key("Arctis Nova 7X"@) == (14nat, 'N', 'o', '7', 'X'));
    assert(name_key("Arctis Nova 7X v2"@) == (17nat, 'N', 'o', '7', 'X'));
    assert(name_key("Arctis Nova 7P"@) == (14nat, 'N', 'o', '7', 'P'));
    assert(name_key("Arctis Nova 7 Diablo IV"@) == (23nat, 'N', 'o', '7', ' '));
}

} // verus!
