use wiz_model::classify::known_type_ids;
use wiz_model::device::{features_for, Bulb, Device, DeviceType};
use wiz_model::error::ModelError;
use wiz_model::text::{chars_of, contains_text, same_text, second_segment_of};
use wiz_model::values::{
    merge_field, merge_option, ApplyOptions, ColorTempSpace, DeviceDescriptor, DeviceFeatures,
    OptionalDeviceDescriptor, OptionalDeviceFeatures,
};

fn features(hue: bool, color_temp: bool, effects: bool, dimming: bool, dual_head: bool) -> DeviceFeatures {
    DeviceFeatures { hue, color_temp, effects, dimming, dual_head }
}

fn named(name: &str, color_temp: Option<ColorTempSpace>) -> DeviceDescriptor {
    let mut d = DeviceDescriptor::unknown();
    d.module_name = Some(name.to_string());
    d.color_temp = color_temp;
    d
}

fn indexed(index: usize) -> DeviceDescriptor {
    let mut d = DeviceDescriptor::unknown();
    d.type_id_index = Some(index);
    d
}

fn blank_features() -> OptionalDeviceFeatures {
    OptionalDeviceFeatures { hue: None, color_temp: None, effects: None, dimming: None, dual_head: None }
}

fn blank_descriptor() -> OptionalDeviceDescriptor {
    OptionalDeviceDescriptor {
        module_name: None,
        color_temp: None,
        firmware_version: None,
        white_channels: None,
        white_to_color_ratio: None,
        type_id_index: None,
    }
}

fn assert_descriptor_eq(a: &DeviceDescriptor, b: &DeviceDescriptor) {
    assert_eq!(a.module_name, b.module_name);
    assert_eq!(a.color_temp, b.color_temp);
    assert_eq!(a.firmware_version, b.firmware_version);
    assert_eq!(a.white_channels, b.white_channels);
    assert_eq!(a.white_to_color_ratio, b.white_to_color_ratio);
    assert_eq!(a.type_id_index, b.type_id_index);
}

fn assert_device_eq(a: &Device, b: &Device) {
    assert_eq!(a.get_type(), b.get_type());
    assert_eq!(a.get_definition().features, b.get_definition().features);
    assert_descriptor_eq(&a.get_definition().descriptor, &b.get_definition().descriptor);
}

fn rich_device() -> Device {
    let mut d = DeviceDescriptor::unknown();
    d.module_name = Some("ESP01_SHTW1C_31".to_string());
    d.firmware_version = Some("1.22.0".to_string());
    d.white_channels = Some(2);
    d.color_temp = Some(ColorTempSpace { min_temp: 2200, max_temp: 6500 });
    Device::new(DeviceType::BulbTW, Some(features(false, true, false, true, true)), Some(d))
}

#[test]
fn default_features_per_type() {
    let table = [
        (DeviceType::BulbTW, features(false, true, true, true, false)),
        (DeviceType::BulbDW, features(false, false, false, true, false)),
        (DeviceType::BulbRGB, features(true, true, true, true, false)),
        (DeviceType::Socket, features(false, false, false, false, false)),
    ];
    for (t, expected) in table {
        let device = Device::new(t, None, None);
        assert_eq!(device.get_type(), t);
        let definition = device.get_definition();
        assert_eq!(definition.features, expected);
        assert_descriptor_eq(&definition.descriptor, &DeviceDescriptor::unknown());
        assert_eq!(features_for(t), expected);
    }
}

#[test]
fn new_builds_matching_variant() {
    assert!(matches!(Device::new(DeviceType::BulbTW, None, None), Device::Bulb(Bulb::TunableWhite(_))));
    assert!(matches!(Device::new(DeviceType::BulbDW, None, None), Device::Bulb(Bulb::DimmableWhite(_))));
    assert!(matches!(Device::new(DeviceType::BulbRGB, None, None), Device::Bulb(Bulb::Rgb(_))));
    assert!(matches!(Device::new(DeviceType::Socket, None, None), Device::Socket(_)));
}

#[test]
fn new_keeps_given_parts() {
    let given = features(true, false, true, false, true);
    let device = Device::new(DeviceType::Socket, Some(given), Some(named("A_B", None)));
    assert_eq!(device.get_type(), DeviceType::Socket);
    assert_eq!(device.get_definition().features, given);
    assert_eq!(device.get_definition().descriptor.module_name, Some("A_B".to_string()));
}

#[test]
fn blank_patch_leaves_device_unchanged() {
    let before = rich_device();
    let after = rich_device().patch_features(blank_features()).patch_descriptor(blank_descriptor());
    assert_device_eq(&after, &before);
}

#[test]
fn patch_twice_equals_once() {
    let overlay = OptionalDeviceFeatures {
        hue: Some(true),
        color_temp: None,
        effects: Some(true),
        dimming: Some(false),
        dual_head: None,
    };
    let once = rich_device().patch_features(overlay);
    let twice = rich_device().patch_features(overlay).patch_features(overlay);
    assert_device_eq(&once, &twice);
    assert_eq!(once.get_definition().features, features(true, true, true, false, true));

    let mut d_overlay = blank_descriptor();
    d_overlay.firmware_version = Some("1.30.0".to_string());
    d_overlay.white_to_color_ratio = Some(20);
    let once = rich_device().patch_descriptor(d_overlay.clone());
    let twice = rich_device().patch_descriptor(d_overlay.clone()).patch_descriptor(d_overlay);
    assert_device_eq(&once, &twice);
    let descriptor = once.get_definition().descriptor;
    assert_eq!(descriptor.firmware_version, Some("1.30.0".to_string()));
    assert_eq!(descriptor.white_to_color_ratio, Some(20));
    assert_eq!(descriptor.white_channels, Some(2));
    assert_eq!(descriptor.module_name, Some("ESP01_SHTW1C_31".to_string()));
}

#[test]
fn patch_preserves_type() {
    let overlay = OptionalDeviceFeatures {
        hue: Some(true),
        color_temp: Some(true),
        effects: Some(true),
        dimming: Some(true),
        dual_head: Some(true),
    };
    for t in [DeviceType::BulbTW, DeviceType::BulbDW, DeviceType::BulbRGB, DeviceType::Socket] {
        let patched = Device::new(t, None, None).patch_features(overlay);
        assert_eq!(patched.get_type(), t);
        assert_eq!(patched.get_definition().features, features(true, true, true, true, true));
        let mut d_overlay = blank_descriptor();
        d_overlay.module_name = Some("X_RGB".to_string());
        let patched = Device::new(t, None, None).patch_descriptor(d_overlay);
        assert_eq!(patched.get_type(), t);
    }
}

#[test]
fn tunable_white_with_range() {
    let range = ColorTempSpace { min_temp: 2700, max_temp: 6500 };
    let device = Device::from_descriptor(named("FOO_TWxyz", Some(range))).unwrap();
    assert_eq!(device.get_type(), DeviceType::BulbTW);
    let definition = device.get_definition();
    assert_eq!(definition.features, features(false, true, true, true, false));
    assert_eq!(definition.descriptor.color_temp, Some(range));
    assert_eq!(definition.descriptor.module_name, None);
}

#[test]
fn tunable_white_without_range_fails() {
    match Device::from_descriptor(named("FOO_TWxyz", None)) {
        Err(ModelError::DeviceColorTempParse { data, details }) => {
            assert_descriptor_eq(&data, &DeviceDescriptor::unknown());
            assert_eq!(details, "Bulb type should include color temp data in the descriptor.");
        }
        other => panic!("unexpected result: {:?}", other),
    }
}

#[test]
fn rgb_without_range_fails() {
    let r = Device::from_descriptor(named("ESP_RGBxyz", None));
    assert!(matches!(r, Err(ModelError::DeviceColorTempParse { .. })));
}

#[test]
fn dual_head_identifier_falls_back_to_dimmable_white() {
    let device = Device::from_descriptor(named("FOO_DHxyz", None)).unwrap();
    assert_eq!(device.get_type(), DeviceType::BulbDW);
    assert_eq!(device.get_definition().features, features(false, false, true, true, true));
}

#[test]
fn single_head_identifier_has_effects_only() {
    let device = Device::from_descriptor(named("FOO_SHxyz", None)).unwrap();
    assert_eq!(device.get_type(), DeviceType::BulbDW);
    assert_eq!(device.get_definition().features, features(false, false, true, true, false));
}

#[test]
fn untagged_identifier_is_plain_dimmable_white() {
    let device = Device::from_descriptor(named("FOO_DWxyz", None)).unwrap();
    assert_eq!(device.get_type(), DeviceType::BulbDW);
    assert_eq!(device.get_definition().features, features(false, false, false, true, false));
    let device = Device::from_descriptor(named("FOO__BAR", None)).unwrap();
    assert_eq!(device.get_type(), DeviceType::BulbDW);
    assert_eq!(device.get_definition().features, features(false, false, false, true, false));
}

#[test]
fn name_without_identifier_fails() {
    match Device::from_descriptor(named("NoUnderscoreHere", None)) {
        Err(ModelError::DeviceTypeParse { data, details }) => {
            assert_eq!(data.module_name, Some("NoUnderscoreHere".to_string()));
            assert_eq!(details, "Failed to find an identifier in the descriptor.");
        }
        other => panic!("unexpected result: {:?}", other),
    }
}

#[test]
fn known_index_is_dimmable_white_with_effects() {
    let device = Device::from_descriptor(indexed(0)).unwrap();
    assert_eq!(device.get_type(), DeviceType::BulbDW);
    assert_eq!(device.get_definition().features, features(false, false, true, true, false));
    assert_eq!(known_type_ids(), vec![DeviceType::BulbDW]);
}

#[test]
fn unknown_index_fails() {
    match Device::from_descriptor(indexed(99)) {
        Err(ModelError::DeviceTypeParse { data, details }) => {
            assert_descriptor_eq(&data, &indexed(99));
            assert_eq!(details, "Failed finding a known type ID in the descriptor");
        }
        other => panic!("unexpected result: {:?}", other),
    }
    assert!(matches!(Device::from_descriptor(indexed(1)), Err(ModelError::DeviceTypeParse { .. })));
}

#[test]
fn empty_descriptor_is_default_dimmable_white() {
    let device = Device::from_descriptor(DeviceDescriptor::unknown()).unwrap();
    assert_device_eq(&device, &Device::new(DeviceType::BulbDW, None, None));
}

#[test]
fn tag_precedence() {
    let range = Some(ColorTempSpace { min_temp: 2200, max_temp: 6500 });
    let rgb = Device::from_descriptor(named("ESP_SOCKETTWRGB", range)).unwrap();
    assert_eq!(rgb.get_type(), DeviceType::BulbRGB);
    let tw = Device::from_descriptor(named("ESP_SOCKETTW", range)).unwrap();
    assert_eq!(tw.get_type(), DeviceType::BulbTW);
    let socket = Device::from_descriptor(named("ESP_SOCKETDH", None)).unwrap();
    assert_eq!(socket.get_type(), DeviceType::Socket);
    assert_eq!(socket.get_definition().features, features(false, false, false, false, false));
    let later_token = Device::from_descriptor(named("ESP_DW_RGB", None)).unwrap();
    assert_eq!(later_token.get_type(), DeviceType::BulbDW);
}

#[test]
fn module_name_wins_over_index() {
    let mut d = named("ESP_SOCKET", None);
    d.type_id_index = Some(99);
    let device = Device::from_descriptor(d).unwrap();
    assert_eq!(device.get_type(), DeviceType::Socket);
}

#[test]
fn range_is_carried_onto_socket() {
    let range = ColorTempSpace { min_temp: 1000, max_temp: 2000 };
    let device = Device::from_descriptor(named("A_SOCKET", Some(range))).unwrap();
    assert_eq!(device.get_type(), DeviceType::Socket);
    assert_eq!(device.get_definition().descriptor.color_temp, Some(range));
}

#[test]
fn overlay_replaces_present_fields_only() {
    let mut f = features(false, false, false, false, false);
    f.apply_options(OptionalDeviceFeatures {
        hue: Some(true),
        color_temp: None,
        effects: Some(false),
        dimming: None,
        dual_head: Some(true),
    });
    assert_eq!(f, features(true, false, false, false, true));

    let mut d = named("A_B", None);
    let mut o = blank_descriptor();
    o.white_channels = Some(3);
    d.apply_options(o);
    assert_eq!(d.module_name, Some("A_B".to_string()));
    assert_eq!(d.white_channels, Some(3));

    assert_eq!(merge_field(1u8, Some(2)), 2);
    assert_eq!(merge_field(1u8, None), 1);
    assert_eq!(merge_option(Some(1u8), Some(2)), Some(2));
    assert_eq!(merge_option(Some(1u8), None), Some(1));
    assert_eq!(merge_option::<u8>(None, None), None);
}

#[test]
fn text_helpers() {
    let hay = chars_of("ESP01_SHRGB1C_31");
    assert_eq!(hay.len(), 16);
    assert_eq!(second_segment_of(&hay), Some(chars_of("SHRGB1C")));
    assert_eq!(second_segment_of(&chars_of("NoSeparator")), None);
    assert_eq!(second_segment_of(&chars_of("A_")), Some(vec![]));
    let id = chars_of("SHRGB1C");
    assert!(contains_text(&id, &chars_of("RGB")));
    assert!(contains_text(&id, &chars_of("SH")));
    assert!(contains_text(&id, &chars_of("1C")));
    assert!(!contains_text(&id, &chars_of("TW")));
    assert!(!contains_text(&chars_of("R"), &chars_of("RGB")));
    assert!(contains_text(&id, &[]));
    assert!(same_text("Ocean", "Ocean"));
    assert!(!same_text("Ocean", "Ocea"));
    assert!(!same_text("Ocean", "ocean"));
}
