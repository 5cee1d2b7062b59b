use wiz_devices::color::{ColorType, Rgb, WhiteStaticType, WhiteType};
use wiz_devices::definition::{
    known_type, Bulb, DeviceConfig, DeviceDefinition, DeviceDescriptor, DeviceFeatures,
    DeviceOptions, DeviceState, DeviceType, OptionalDeviceConfig, OptionalDeviceDescriptor,
    OptionalDeviceFeatures,
};
use wiz_devices::device::{classified, features_of_identifier, type_of_identifier, Device};
use wiz_devices::errors::{DeviceError, ParseError};
use wiz_devices::group::{DeviceGroup, GroupType};
use wiz_devices::intensity::{ColorTempSpace, Intensity};
use wiz_devices::network::NetworkConfig;
use wiz_devices::scene::Scenes;
use wiz_devices::text::{chars_of, find_token_end, has_text, identifier, matches_at};

const KINDS: [DeviceType; 4] =
    [DeviceType::BulbTW, DeviceType::BulbDW, DeviceType::BulbRGB, DeviceType::Socket];

fn space() -> ColorTempSpace {
    ColorTempSpace { min_temp: 1500, max_temp: 8000 }
}

fn named(name: &str, color_temp: Option<ColorTempSpace>) -> DeviceDescriptor {
    let mut d = DeviceDescriptor::empty();
    d.module_name = Some(String::from(name));
    d.color_temp = color_temp;
    d
}

fn features(hue: bool, color_temp: bool, effects: bool, dimming: bool, dual_head: bool) -> DeviceFeatures {
    DeviceFeatures { hue, color_temp, effects, dimming, dual_head }
}

fn says_nothing(d: &DeviceDescriptor) -> bool {
    d.module_name.is_none()
        && d.color_temp.is_none()
        && d.firmware_version.is_none()
        && d.white_channels.is_none()
        && d.white_to_color_ratio.is_none()
        && d.type_id_index.is_none()
}

fn chars(s: &str) -> Vec<char> {
    s.chars().collect()
}

#[test]
fn chars_of_gives_the_characters() {
    assert_eq!(chars_of("ESP01_SHRGB_03"), chars("ESP01_SHRGB_03"));
    assert_eq!(chars_of(""), Vec::<char>::new());
    assert_eq!(chars_of("a\u{e9}\u{4e2d}_"), vec!['a', '\u{e9}', '\u{4e2d}', '_']);
}

#[test]
fn identifier_is_the_second_token() {
    assert_eq!(identifier(&chars("ESP01_SHRGB_03")), Some(chars("SHRGB")));
    assert_eq!(identifier(&chars("ESP01_SHRGB")), Some(chars("SHRGB")));
    assert_eq!(identifier(&chars("a_b_c_d")), Some(chars("b")));
    assert_eq!(identifier(&chars("ESP01_")), Some(chars("")));
    assert_eq!(identifier(&chars("_")), Some(chars("")));
    assert_eq!(identifier(&chars("__x")), Some(chars("")));
    assert_eq!(identifier(&chars("_x")), Some(chars("x")));
    assert_eq!(identifier(&chars("ESP01")), None);
    assert_eq!(identifier(&chars("")), None);
}

#[test]
fn token_ends_at_the_next_separator() {
    let text = chars("ab_cd_");
    assert_eq!(find_token_end(&text, 0), 2);
    assert_eq!(find_token_end(&text, 2), 2);
    assert_eq!(find_token_end(&text, 3), 5);
    assert_eq!(find_token_end(&text, 6), 6);
    assert_eq!(find_token_end(&chars("abc"), 1), 3);
}

#[test]
fn has_text_finds_a_word_anywhere() {
    assert!(has_text(&chars("SHRGB"), &chars("RGB")));
    assert!(has_text(&chars("RGBSH"), &chars("RGB")));
    assert!(has_text(&chars("xRGBx"), &chars("RGB")));
    assert!(has_text(&chars("RGB"), &chars("RGB")));
    assert!(has_text(&chars("RRGB"), &chars("RGB")));
    assert!(!has_text(&chars("RG"), &chars("RGB")));
    assert!(!has_text(&chars("RGxB"), &chars("RGB")));
    assert!(!has_text(&chars("rgb"), &chars("RGB")));
    assert!(!has_text(&chars(""), &chars("RGB")));
    assert!(has_text(&chars("abc"), &chars("")));
    assert!(has_text(&chars(""), &chars("")));
    assert!(matches_at(&chars("SHRGB"), &chars("RGB"), 2));
    assert!(!matches_at(&chars("SHRGB"), &chars("RGB"), 1));
}

#[test]
fn the_words_in_use() {
    let words = DeviceOptions::standard();
    assert_eq!(words.rgb, "RGB");
    assert_eq!(words.dimmable_white, "DW");
    assert_eq!(words.tunable_white, "TW");
    assert_eq!(words.dual_head, "DH");
    assert_eq!(words.single_head, "SH");
    assert_eq!(words.socket, "SOCKET");
}

#[test]
fn kinds_that_need_a_color_temp_space() {
    assert!(DeviceType::BulbRGB.needs_color_temp());
    assert!(DeviceType::BulbTW.needs_color_temp());
    assert!(!DeviceType::BulbDW.needs_color_temp());
    assert!(!DeviceType::Socket.needs_color_temp());
}

#[test]
fn known_type_ids_hold_the_dimmable_bulb_alone() {
    assert_eq!(known_type(0), Some(DeviceType::BulbDW));
    assert_eq!(known_type(1), None);
    assert_eq!(known_type(usize::MAX), None);
}

#[test]
fn classify_shrgb_is_an_rgb_bulb() {
    let device = Device::from_descriptor(named("ESP01_SHRGB_03", Some(space()))).unwrap();
    assert_eq!(device.get_type(), DeviceType::BulbRGB);
    assert!(matches!(device, Device::Bulb(Bulb::Rgb(_))));
    let definition = device.get_definition();
    assert!(definition.features.effects);
    assert!(!definition.features.dual_head);
    assert_eq!(definition.features, features(true, true, true, true, false));
}

#[test]
fn classify_dhtw_is_a_tunable_white_bulb() {
    let device = Device::from_descriptor(named("ESP01_DHTW_01", Some(space()))).unwrap();
    assert_eq!(device.get_type(), DeviceType::BulbTW);
    assert!(matches!(device, Device::Bulb(Bulb::TunableWhite(_))));
    assert_eq!(device.get_definition().features, features(false, true, true, true, false));
}

#[test]
fn classify_without_a_known_word_is_a_dimmable_white_bulb() {
    let device = Device::from_descriptor(named("ESP01_XYZ_01", None)).unwrap();
    assert_eq!(device.get_type(), DeviceType::BulbDW);
    assert!(matches!(device, Device::Bulb(Bulb::DimmableWhite(_))));
    let definition = device.get_definition();
    assert!(!definition.features.dual_head);
    assert!(!definition.features.effects);
    assert_eq!(definition.features, features(false, false, false, true, false));
    assert!(says_nothing(&definition.descriptor));
}

#[test]
fn classify_without_a_second_token_is_undefined() {
    match Device::from_descriptor(named("ESP01", None)) {
        Err(DeviceError::Parse(ParseError::UndefinedType(d))) => {
            assert_eq!(d.module_name.as_deref(), Some("ESP01"));
            assert!(d.color_temp.is_none());
        },
        other => panic!("expected an undefined type, got {:?}", other),
    }
}

#[test]
fn undefined_type_hands_the_descriptor_back() {
    let mut d = named("NOSEPARATOR", Some(space()));
    d.firmware_version = Some(String::from("1.2.3"));
    d.white_channels = Some(2);
    d.white_to_color_ratio = Some(30);
    d.type_id_index = Some(0);
    match Device::from_descriptor(d) {
        Err(DeviceError::Parse(ParseError::UndefinedType(d))) => {
            assert_eq!(d.module_name.as_deref(), Some("NOSEPARATOR"));
            assert_eq!(d.color_temp, Some(space()));
            assert_eq!(d.firmware_version.as_deref(), Some("1.2.3"));
            assert_eq!(d.white_channels, Some(2));
            assert_eq!(d.white_to_color_ratio, Some(30));
            assert_eq!(d.type_id_index, Some(0));
        },
        other => panic!("expected an undefined type, got {:?}", other),
    }
}

#[test]
fn rgb_and_tunable_white_fail_without_a_color_temp_space() {
    for name in ["ESP01_SHRGB_03", "ESP01_DHTW_01", "ESP_RGB", "ESP_TW"] {
        match Device::from_descriptor(named(name, None)) {
            Err(DeviceError::Parse(ParseError::ColorTemp(d))) => assert!(says_nothing(&d)),
            other => panic!("expected a missing color temp for {}, got {:?}", name, other),
        }
    }
}

#[test]
fn socket_and_dimmable_white_need_no_color_temp_space() {
    let socket = Device::from_descriptor(named("ESP10_SOCKET_06", None)).unwrap();
    assert_eq!(socket.get_type(), DeviceType::Socket);
    assert!(matches!(socket, Device::Socket(_)));
    let definition = socket.get_definition();
    assert_eq!(definition.features, features(false, false, false, false, false));
    assert!(definition.config.total_intensity.is_none());
    assert!(definition.config.color_data.is_none());
    let dimmable = Device::from_descriptor(named("ESP06_SHDW_01", None)).unwrap();
    assert_eq!(dimmable.get_type(), DeviceType::BulbDW);
}

#[test]
fn words_are_taken_in_their_order_of_priority() {
    let cases = [
        ("X_RGBTW_1", DeviceType::BulbRGB),
        ("X_TWRGB_1", DeviceType::BulbRGB),
        ("X_SOCKETRGB_1", DeviceType::BulbRGB),
        ("X_TWSOCKET_1", DeviceType::BulbTW),
        ("X_SOCKETTW_1", DeviceType::BulbTW),
        ("X_SOCKET_1", DeviceType::Socket),
        ("X_DHSOCKET_1", DeviceType::Socket),
        ("X_DW_1", DeviceType::BulbDW),
        ("X__RGB", DeviceType::BulbDW),
        ("RGB_X_RGB", DeviceType::BulbDW),
        ("X_rgb_1", DeviceType::BulbDW),
    ];
    for (name, kind) in cases {
        let device = Device::from_descriptor(named(name, Some(space()))).unwrap();
        assert_eq!(device.get_type(), kind, "{}", name);
        assert_eq!(type_of_identifier(&identifier(&chars(name)).unwrap()), kind, "{}", name);
    }
}

#[test]
fn a_dimmable_bulb_reads_its_heads_from_the_identifier() {
    let cases = [
        ("ESP_DHDW_1", true, true),
        ("ESP_SHDW_1", true, false),
        ("ESP_DHSH_1", true, true),
        ("ESP_DW_1", false, false),
        ("ESP__1", false, false),
        ("ESP_", false, false),
    ];
    for (name, effects, dual_head) in cases {
        let device = Device::from_descriptor(named(name, None)).unwrap();
        assert_eq!(device.get_type(), DeviceType::BulbDW, "{}", name);
        let got = device.get_definition().features;
        assert_eq!(got, features(false, false, effects, true, dual_head), "{}", name);
        assert_eq!(features_of_identifier(&identifier(&chars(name)).unwrap()), got);
    }
}

#[test]
fn other_kinds_keep_their_own_capabilities() {
    let rgb = Device::from_descriptor(named("ESP_DHRGB_1", Some(space()))).unwrap();
    assert_eq!(rgb.get_definition().features, features(true, true, true, true, false));
    let socket = Device::from_descriptor(named("ESP_DHSOCKET_1", None)).unwrap();
    assert_eq!(socket.get_definition().features, features(false, false, false, false, false));
}

#[test]
fn a_type_index_names_a_known_kind_and_sets_effects() {
    let mut d = DeviceDescriptor::empty();
    d.type_id_index = Some(0);
    let device = Device::from_descriptor(d).unwrap();
    assert_eq!(device.get_type(), DeviceType::BulbDW);
    assert_eq!(device.get_definition().features, features(false, false, true, true, false));
}

#[test]
fn a_type_index_out_of_bounds_is_undefined() {
    for index in [1usize, 2, usize::MAX] {
        let mut d = DeviceDescriptor::empty();
        d.type_id_index = Some(index);
        d.color_temp = Some(space());
        match Device::from_descriptor(d) {
            Err(DeviceError::Parse(ParseError::UndefinedType(d))) => {
                assert_eq!(d.type_id_index, Some(index));
                assert_eq!(d.color_temp, Some(space()));
            },
            other => panic!("expected an undefined type, got {:?}", other),
        }
    }
}

#[test]
fn the_module_name_comes_before_the_type_index() {
    let mut d = named("ESP_RGB_1", Some(space()));
    d.type_id_index = Some(0);
    assert_eq!(Device::from_descriptor(d).unwrap().get_type(), DeviceType::BulbRGB);
    let mut d = named("ESP", None);
    d.type_id_index = Some(0);
    assert!(matches!(
        Device::from_descriptor(d),
        Err(DeviceError::Parse(ParseError::UndefinedType(_)))
    ));
    let mut d = named("ESP_SOCKET", None);
    d.type_id_index = Some(7);
    assert_eq!(Device::from_descriptor(d).unwrap().get_type(), DeviceType::Socket);
}

#[test]
fn a_descriptor_that_says_nothing_is_a_dimmable_white_bulb() {
    let device = Device::from_descriptor(DeviceDescriptor::empty()).unwrap();
    assert_eq!(device.get_type(), DeviceType::BulbDW);
    let definition = device.get_definition();
    assert_eq!(definition.features, features(false, false, false, true, false));
    assert!(says_nothing(&definition.descriptor));
}

#[test]
fn the_device_keeps_the_color_temp_space_and_nothing_else() {
    let mut d = named("ESP01_SHRGB_03", Some(ColorTempSpace { min_temp: 2200, max_temp: 6500 }));
    d.firmware_version = Some(String::from("1.30.0"));
    d.white_channels = Some(2);
    d.white_to_color_ratio = Some(20);
    d.type_id_index = Some(0);
    let got = Device::from_descriptor(d).unwrap().get_definition().descriptor;
    assert_eq!(got.color_temp, Some(ColorTempSpace { min_temp: 2200, max_temp: 6500 }));
    assert!(got.module_name.is_none());
    assert!(got.firmware_version.is_none());
    assert!(got.white_channels.is_none());
    assert!(got.white_to_color_ratio.is_none());
    assert!(got.type_id_index.is_none());
}

#[test]
fn classify_takes_the_identifier_that_it_is_given() {
    let id = uuid::Uuid::from_u128(0x1234_5678_9abc_def0_1234_5678_9abc_def0);
    let device = Device::classify(named("ESP01_SHRGB_03", Some(space())), id).unwrap();
    let config = device.get_definition().config;
    assert_eq!(config.id, Some(id));
    assert_eq!(config.state, DeviceState::Disabled);
    assert_eq!(config.total_intensity, Some(Intensity::from_percent(0)));
    assert_eq!(
        config.color_data,
        Some(ColorType::Rgb(Rgb::new_from_percent(0, 0, 0)))
    );
    assert!(config.address.is_none() && config.mac.is_none() && config.name.is_none());
    assert!(config.speed.is_none() && config.scene.is_none());
    assert!(matches!(
        Device::classify(named("ESP01", None), id),
        Err(DeviceError::Parse(ParseError::UndefinedType(_)))
    ));
    assert!(matches!(
        Device::classify(named("ESP01_TW", None), id),
        Err(DeviceError::Parse(ParseError::ColorTemp(_)))
    ));
}

#[test]
fn classification_depends_on_the_descriptor_alone() {
    let id = uuid::Uuid::from_u128(7);
    for name in ["ESP01_SHRGB_03", "ESP01_DHTW_01", "ESP01_XYZ_01", "ESP_SOCKET", "ESP_DHDW"] {
        let a = Device::from_descriptor(named(name, Some(space()))).unwrap();
        let b = Device::classify(named(name, Some(space())), id).unwrap();
        assert_eq!(a.get_type(), b.get_type());
        assert_eq!(a.get_definition().features, b.get_definition().features);
        assert_eq!(
            classified(&named(name, Some(space()))),
            Some((a.get_type(), a.get_definition().features))
        );
    }
    assert_eq!(classified(&named("ESP01", Some(space()))), None);
}

#[test]
fn fresh_identifiers_differ() {
    let a = Device::from_descriptor(DeviceDescriptor::empty()).unwrap();
    let b = Device::from_descriptor(DeviceDescriptor::empty()).unwrap();
    let a = a.get_definition().config.id.unwrap();
    let b = b.get_definition().config.id.unwrap();
    assert_ne!(a, b);
    assert_eq!(a.get_version_num(), 4);
}

#[test]
fn new_fills_in_what_each_kind_starts_with() {
    let expected = [
        (DeviceType::BulbTW, features(false, true, true, true, false)),
        (DeviceType::BulbDW, features(false, false, false, true, false)),
        (DeviceType::BulbRGB, features(true, true, true, true, false)),
        (DeviceType::Socket, features(false, false, false, false, false)),
    ];
    for (kind, starts_with) in expected {
        let device = Device::new(kind, None, None, None);
        assert_eq!(device.get_type(), kind);
        let definition = device.get_definition();
        assert_eq!(definition.features, starts_with);
        assert_eq!(DeviceFeatures::default_for(kind), starts_with);
        assert!(says_nothing(&definition.descriptor));
        let config = definition.config;
        assert!(config.id.is_some());
        assert_eq!(config.state, DeviceState::Disabled);
        assert!(config.address.is_none() && config.mac.is_none() && config.name.is_none());
        assert!(config.speed.is_none() && config.scene.is_none());
        if kind == DeviceType::Socket {
            assert!(config.total_intensity.is_none());
            assert!(config.color_data.is_none());
        } else {
            let dark = config.total_intensity.unwrap();
            assert_eq!((dark.raw_value, dark.percentage), (0, 0));
            assert!(config.color_data.is_some());
        }
    }
}

#[test]
fn the_color_state_that_each_kind_starts_with() {
    let id = uuid::Uuid::from_u128(1);
    match DeviceConfig::default_for(DeviceType::BulbTW, id).color_data {
        Some(ColorType::White(WhiteType::Tunable(w))) => {
            assert_eq!(w.temp.value, 5000);
            assert_eq!(w.temp.space, space());
            assert_eq!(w.intensity, Intensity::from_percent(0));
        },
        other => panic!("expected tunable white, got {:?}", other),
    }
    match DeviceConfig::default_for(DeviceType::BulbDW, id).color_data {
        Some(ColorType::White(WhiteType::Variable(w))) => {
            assert_eq!(w.current, WhiteStaticType::Mixed);
            assert_eq!(w.ratio, 50);
            assert_eq!(w.intensity, Intensity::from_percent(0));
        },
        other => panic!("expected variable white, got {:?}", other),
    }
    match DeviceConfig::default_for(DeviceType::BulbRGB, id).color_data {
        Some(ColorType::Rgb(c)) => assert_eq!(c, Rgb::new_from_percent(0, 0, 0)),
        other => panic!("expected rgb, got {:?}", other),
    }
    assert!(DeviceConfig::default_for(DeviceType::Socket, id).color_data.is_none());
    assert_eq!(DeviceConfig::default_for(DeviceType::Socket, id).id, Some(id));
}

#[test]
fn new_takes_the_parts_that_are_given() {
    let given = features(true, false, true, false, true);
    let mut descriptor = DeviceDescriptor::empty();
    descriptor.firmware_version = Some(String::from("9.9"));
    let id = uuid::Uuid::from_u128(42);
    let mut config = DeviceConfig::default_for(DeviceType::BulbRGB, id);
    config.name = Some(String::from("desk"));
    config.scene = Some(Scenes::Party);
    for kind in KINDS {
        let device = Device::new(kind, Some(given), Some(descriptor.clone()), Some(config.clone()));
        assert_eq!(device.get_type(), kind);
        let definition = device.get_definition();
        assert_eq!(definition.features, given);
        assert_eq!(definition.descriptor.firmware_version.as_deref(), Some("9.9"));
        assert_eq!(definition.config.id, Some(id));
        assert_eq!(definition.config.name.as_deref(), Some("desk"));
        assert_eq!(definition.config.scene, Some(Scenes::Party));
        assert!(definition.config.color_data.is_some());
    }
}

#[test]
fn assemble_and_into_parts_are_inverse() {
    let id = uuid::Uuid::from_u128(3);
    for kind in KINDS {
        let definition = DeviceDefinition {
            features: DeviceFeatures::default_for(kind),
            descriptor: DeviceDescriptor::empty(),
            config: DeviceConfig::default_for(kind, id),
        };
        let device = Device::assemble(kind, definition);
        assert_eq!(device.get_type(), kind);
        let (got, definition) = device.into_parts();
        assert_eq!(got, kind);
        assert_eq!(definition.config.id, Some(id));
        assert_eq!(definition.features, DeviceFeatures::default_for(kind));
    }
    let device = Device::with_id(DeviceType::Socket, None, None, None, id);
    assert!(matches!(device, Device::Socket(_)));
    assert_eq!(device.get_definition().config.id, Some(id));
}

#[test]
fn patching_features_keeps_the_type() {
    let patches = [
        OptionalDeviceFeatures::empty(),
        OptionalDeviceFeatures {
            hue: Some(true),
            color_temp: Some(true),
            effects: Some(true),
            dimming: Some(true),
            dual_head: Some(true),
        },
        OptionalDeviceFeatures {
            hue: Some(false),
            color_temp: Some(false),
            effects: Some(false),
            dimming: Some(false),
            dual_head: Some(false),
        },
        OptionalDeviceFeatures {
            hue: Some(true),
            color_temp: None,
            effects: None,
            dimming: Some(false),
            dual_head: None,
        },
    ];
    for kind in KINDS {
        for patch in patches {
            let device = Device::new(kind, None, None, None);
            assert_eq!(device.patch_features(patch).get_type(), kind);
        }
    }
}

#[test]
fn patching_features_replaces_what_the_patch_holds() {
    let device = Device::new(DeviceType::BulbRGB, None, None, None);
    let before = device.get_definition();
    let patch = OptionalDeviceFeatures {
        hue: Some(false),
        color_temp: None,
        effects: None,
        dimming: None,
        dual_head: Some(true),
    };
    let after = device.patch_features(patch).get_definition();
    assert_eq!(after.features, features(false, true, true, true, true));
    assert_eq!(after.config.id, before.config.id);
    assert_eq!(after.config.color_data, before.config.color_data);
    assert!(says_nothing(&after.descriptor));
    let mut plain = DeviceFeatures::default_for(DeviceType::Socket);
    plain.apply_options(OptionalDeviceFeatures::empty());
    assert_eq!(plain, DeviceFeatures::default_for(DeviceType::Socket));
}

#[test]
fn patching_the_descriptor_leaves_absent_fields_untouched() {
    let mut descriptor = DeviceDescriptor::empty();
    descriptor.module_name = Some(String::from("ESP01_SHRGB_03"));
    descriptor.firmware_version = Some(String::from("1.0"));
    descriptor.white_channels = Some(1);
    let device = Device::new(DeviceType::BulbRGB, None, Some(descriptor), None);
    let mut patch = OptionalDeviceDescriptor::empty();
    patch.color_temp = Some(space());
    patch.firmware_version = Some(String::from("2.0"));
    patch.type_id_index = Some(4);
    let patched = device.patch_descriptor(patch);
    assert_eq!(patched.get_type(), DeviceType::BulbRGB);
    let got = patched.get_definition().descriptor;
    assert_eq!(got.module_name.as_deref(), Some("ESP01_SHRGB_03"));
    assert_eq!(got.color_temp, Some(space()));
    assert_eq!(got.firmware_version.as_deref(), Some("2.0"));
    assert_eq!(got.white_channels, Some(1));
    assert_eq!(got.white_to_color_ratio, None);
    assert_eq!(got.type_id_index, Some(4));
    let again = patched.patch_descriptor(OptionalDeviceDescriptor::empty());
    let got = again.get_definition().descriptor;
    assert_eq!(got.module_name.as_deref(), Some("ESP01_SHRGB_03"));
    assert_eq!(got.color_temp, Some(space()));
    assert_eq!(got.type_id_index, Some(4));
}

#[test]
fn patching_the_descriptor_does_not_change_the_type() {
    let device = Device::new(DeviceType::BulbDW, None, None, None);
    let mut patch = OptionalDeviceDescriptor::empty();
    patch.module_name = Some(String::from("ESP01_SHRGB_03"));
    patch.type_id_index = Some(0);
    let patched = device.patch_descriptor(patch);
    assert_eq!(patched.get_type(), DeviceType::BulbDW);
    assert!(matches!(patched, Device::Bulb(Bulb::DimmableWhite(_))));
}

#[test]
fn patching_the_config_replaces_what_the_patch_holds() {
    let id = uuid::Uuid::from_u128(11);
    let other = uuid::Uuid::from_u128(12);
    let device = Device::with_id(DeviceType::BulbTW, None, None, None, id);
    let before = device.get_definition().config;
    let address: http::Uri = "http://192.168.1.20:38899/".parse().unwrap();
    let mac = macaddr::MacAddr6::new(0xa8, 0xbb, 0x50, 1, 2, 3);
    let mut patch = OptionalDeviceConfig::empty();
    patch.address = Some(address.clone());
    patch.mac = Some(mac);
    patch.name = Some(String::from("hall"));
    patch.state = Some(DeviceState::Enabled);
    patch.speed = Some(120);
    patch.scene = Some(Scenes::Fireplace);
    patch.total_intensity = Some(Intensity::from_percent(80));
    let patched = device.patch_config(patch.clone());
    assert_eq!(patched.get_type(), DeviceType::BulbTW);
    let got = patched.get_definition().config;
    assert_eq!(got.address, Some(address.clone()));
    assert_eq!(got.mac, Some(mac));
    assert_eq!(got.name.as_deref(), Some("hall"));
    assert_eq!(got.id, Some(id));
    assert_eq!(got.state, DeviceState::Enabled);
    assert_eq!(got.speed, Some(120));
    assert_eq!(got.scene, Some(Scenes::Fireplace));
    assert_eq!(got.total_intensity, Some(Intensity::from_percent(80)));
    assert_eq!(got.color_data, before.color_data);
    let mut second = OptionalDeviceConfig::empty();
    second.id = Some(other);
    second.color_data = Some(ColorType::Rgb(Rgb::new_from_raw(1, 2, 3)));
    let got = patched.patch_config(second).get_definition().config;
    assert_eq!(got.id, Some(other));
    assert_eq!(got.color_data, Some(ColorType::Rgb(Rgb::new_from_raw(1, 2, 3))));
    assert_eq!(got.address, Some(address));
    assert_eq!(got.state, DeviceState::Enabled);
    assert_eq!(got.name.as_deref(), Some("hall"));
}

#[test]
fn an_empty_config_patch_changes_nothing() {
    let id = uuid::Uuid::from_u128(5);
    for kind in KINDS {
        let device = Device::with_id(kind, None, None, None, id);
        let before = device.get_definition().config;
        let patched = device.patch_config(OptionalDeviceConfig::empty());
        assert_eq!(patched.get_type(), kind);
        let after = patched.get_definition().config;
        assert_eq!(after.id, before.id);
        assert_eq!(after.state, before.state);
        assert_eq!(after.total_intensity, before.total_intensity);
        assert_eq!(after.color_data, before.color_data);
        assert_eq!(after.scene, before.scene);
    }
}

#[test]
fn clones_hold_the_same_values() {
    let id = uuid::Uuid::from_u128(21);
    let address: http::Uri = "http://10.0.0.9/".parse().unwrap();
    let mut patch = OptionalDeviceConfig::empty();
    patch.address = Some(address.clone());
    patch.name = Some(String::from("porch"));
    let device =
        Device::with_id(DeviceType::BulbRGB, None, Some(named("A_RGB", Some(space()))), None, id)
            .patch_config(patch);
    let copy = device.clone();
    assert_eq!(copy.get_type(), DeviceType::BulbRGB);
    let a = device.get_definition();
    let b = copy.get_definition();
    assert_eq!(b.config.address, Some(address));
    assert_eq!(b.config.name.as_deref(), Some("porch"));
    assert_eq!(b.config.id, Some(id));
    assert_eq!(b.descriptor.module_name.as_deref(), Some("A_RGB"));
    assert_eq!(b.descriptor.color_temp, a.descriptor.color_temp);
    assert_eq!(b.features, a.features);
    assert_eq!(b.config.color_data, a.config.color_data);
}

#[test]
fn a_group_takes_what_it_is_given() {
    let id = uuid::Uuid::from_u128(99);
    let devices = vec![
        Device::new(DeviceType::BulbRGB, None, None, None),
        Device::new(DeviceType::Socket, None, None, None),
    ];
    let mut config = NetworkConfig::standard();
    config.port = 1234;
    config.max_backoff = 9;
    let group = DeviceGroup::new(
        String::from("kitchen"),
        GroupType::Room,
        Some(devices),
        Some(id),
        Some(config),
    );
    assert_eq!(group.name, "kitchen");
    assert_eq!(group.group_type, GroupType::Room);
    assert_eq!(group.id, id);
    assert_eq!(group.devices.len(), 2);
    assert_eq!(group.devices[0].get_type(), DeviceType::BulbRGB);
    assert_eq!(group.devices[1].get_type(), DeviceType::Socket);
    assert_eq!(group.network_config.port, 1234);
    assert_eq!(group.network_config.max_backoff, 9);
    let copy = group.clone();
    assert_eq!(copy.name, "kitchen");
    assert_eq!(copy.id, id);
    assert_eq!(copy.devices.len(), 2);
    assert_eq!(copy.devices[1].get_type(), DeviceType::Socket);
    assert_eq!(copy.network_config.port, 1234);
}

#[test]
fn a_group_fills_in_what_is_not_given() {
    let group = DeviceGroup::new(String::from("home"), GroupType::House, None, None, None);
    assert_eq!(group.name, "home");
    assert_eq!(group.group_type, GroupType::House);
    assert!(group.devices.is_empty());
    assert_eq!(group.id.get_version_num(), 4);
    assert_eq!(group.network_config.timeout, chrono::Duration::seconds(13));
    assert_eq!(group.network_config.first_send_interval.num_milliseconds(), 750);
    assert_eq!(group.network_config.keepalive.num_milliseconds(), 20);
    assert_eq!(group.network_config.max_sent_datagrams, 6);
    assert_eq!(group.network_config.max_backoff, 3);
    assert_eq!(group.network_config.port, 38899);
    let other = DeviceGroup::new(String::from("home"), GroupType::Group, None, None, None);
    assert_ne!(other.id, group.id);
    let fallback = uuid::Uuid::from_u128(8);
    let fixed =
        DeviceGroup::with_id(String::from("g"), GroupType::Group, None, None, None, fallback);
    assert_eq!(fixed.id, fallback);
    let given = uuid::Uuid::from_u128(9);
    let fixed = DeviceGroup::with_id(
        String::from("g"),
        GroupType::Group,
        None,
        Some(given),
        None,
        fallback,
    );
    assert_eq!(fixed.id, given);
}
