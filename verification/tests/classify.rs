use eye::control::{Integer, MenuItem, Representation};
use eye::format::FourCC;
use eye::probe::{classify_control, classify_format};
use eye::snapshot::{RawControl, RawControlType, RawFormat, RawFrameSize, FMT_EMULATED};

fn raw_control(typ: RawControlType) -> RawControl {
    RawControl {
        id: 9,
        name: String::from("exposure"),
        typ,
        minimum: -8,
        maximum: 8,
        step: 2,
        default: 1,
        items: None,
    }
}

#[test]
fn integer_controls_copy_fields_verbatim() {
    for typ in [RawControlType::Integer, RawControlType::Integer64] {
        let repr = classify_control(&raw_control(typ));
        assert_eq!(
            repr,
            Representation::Integer(Integer { range: (-8, 8), step: 2, default: 1 })
        );
    }
}

#[test]
fn integer_controls_are_not_range_checked() {
    // The platform is trusted: a default outside the range is kept as is.
    let mut c = raw_control(RawControlType::Integer);
    c.minimum = 100;
    c.maximum = -100;
    c.default = 12345;
    let repr = classify_control(&c);
    assert_eq!(
        repr,
        Representation::Integer(Integer { range: (100, -100), step: 2, default: 12345 })
    );
}

#[test]
fn simple_control_types_map_to_their_variant() {
    assert_eq!(classify_control(&raw_control(RawControlType::Boolean)), Representation::Boolean);
    assert_eq!(classify_control(&raw_control(RawControlType::Button)), Representation::Button);
    assert_eq!(classify_control(&raw_control(RawControlType::String)), Representation::String);
    assert_eq!(classify_control(&raw_control(RawControlType::Bitmask)), Representation::Bitmask);
}

#[test]
fn unrecognized_control_types_map_to_unknown() {
    for typ in [
        RawControlType::CtrlClass,
        RawControlType::IntegerMenu,
        RawControlType::U8,
        RawControlType::U16,
        RawControlType::U32,
        RawControlType::Area,
    ] {
        assert_eq!(classify_control(&raw_control(typ)), Representation::Unknown);
    }
}

#[test]
fn menu_control_preserves_each_entry_kind_and_order() {
    let mut c = raw_control(RawControlType::Menu);
    c.items = Some(vec![
        (0, eye::snapshot::RawMenuItem::Name(String::from("auto"))),
        (1, eye::snapshot::RawMenuItem::Value(50)),
        (2, eye::snapshot::RawMenuItem::Name(String::from("manual"))),
        (3, eye::snapshot::RawMenuItem::Value(60)),
    ]);
    let repr = classify_control(&c);
    assert_eq!(
        repr,
        Representation::Menu(vec![
            MenuItem::String(String::from("auto")),
            MenuItem::Integer(50),
            MenuItem::String(String::from("manual")),
            MenuItem::Integer(60),
        ])
    );
}

#[test]
fn menu_control_without_items_yields_empty_menu() {
    let repr = classify_control(&raw_control(RawControlType::Menu));
    assert_eq!(repr, Representation::Menu(Vec::new()));
}

#[test]
fn classify_format_keeps_exactly_the_discrete_entries_in_order() {
    let format = RawFormat { fourcc: FourCC::new(b"YUYV"), flags: 0 };
    let sizes = vec![
        RawFrameSize::Discrete { width: 640, height: 480 },
        RawFrameSize::Stepwise {
            min_width: 32,
            max_width: 1920,
            step_width: 2,
            min_height: 32,
            max_height: 1080,
            step_height: 2,
        },
        RawFrameSize::Discrete { width: 1280, height: 720 },
        RawFrameSize::Discrete { width: 640, height: 480 },
    ];
    let info = classify_format(&format, &sizes);
    let discrete = sizes
        .iter()
        .filter(|s| matches!(s, RawFrameSize::Discrete { .. }))
        .count();
    assert_eq!(info.resolutions.len(), discrete);
    // Original order kept, duplicates allowed, stepwise dropped.
    assert_eq!(info.resolutions, vec![(640, 480), (1280, 720), (640, 480)]);
    assert_eq!(info.fourcc, FourCC::new(b"YUYV"));
    assert!(!info.emulated);
}

#[test]
fn stepwise_only_formats_keep_an_empty_resolution_set() {
    let format = RawFormat { fourcc: FourCC::new(b"MJPG"), flags: 0 };
    let sizes = vec![RawFrameSize::Stepwise {
        min_width: 32,
        max_width: 1920,
        step_width: 2,
        min_height: 32,
        max_height: 1080,
        step_height: 2,
    }];
    let info = classify_format(&format, &sizes);
    assert!(info.resolutions.is_empty());
}

#[test]
fn emulated_flag_comes_from_the_format_flag_bit() {
    let fourcc = FourCC::new(b"RGB3");
    let native = classify_format(&RawFormat { fourcc, flags: 0x0001 }, &Vec::new());
    assert!(!native.emulated);
    let emulated = classify_format(&RawFormat { fourcc, flags: FMT_EMULATED | 0x0001 }, &Vec::new());
    assert!(emulated.emulated);
}
