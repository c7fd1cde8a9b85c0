use eye::probe::{caps_ok, enumerate, probe_device};
use eye::format::FourCC;
use eye::snapshot::{
    RawCapabilities, RawControl, RawControlType, RawDevice, RawFormat, RawFormatEntry,
    RawFrameSize, CAP_STREAMING, CAP_VIDEO_CAPTURE,
};

fn streaming_caps() -> RawCapabilities {
    RawCapabilities { capabilities: CAP_VIDEO_CAPTURE | CAP_STREAMING }
}

fn boolean_control(id: u32, name: &str) -> RawControl {
    RawControl {
        id,
        name: String::from(name),
        typ: RawControlType::Boolean,
        minimum: 0,
        maximum: 1,
        step: 1,
        default: 0,
        items: None,
    }
}

fn well_formed_device(index: usize, name: &str) -> RawDevice {
    RawDevice {
        index: Some(index),
        name: Some(String::from(name)),
        capabilities: Some(streaming_caps()),
        controls: Some(vec![boolean_control(1, "auto exposure")]),
        formats: Some(vec![RawFormatEntry {
            format: RawFormat { fourcc: FourCC::new(b"YUYV"), flags: 0 },
            sizes: Some(vec![RawFrameSize::Discrete { width: 640, height: 480 }]),
        }]),
    }
}

#[test]
fn enumeration_keeps_only_the_well_formed_device() {
    let healthy = well_formed_device(0, "front camera");

    let mut caps_query_failed = well_formed_device(1, "broken caps");
    caps_query_failed.capabilities = None;

    let mut not_streaming = well_formed_device(2, "legacy read() device");
    not_streaming.capabilities = Some(RawCapabilities { capabilities: CAP_VIDEO_CAPTURE });

    let mut controls_query_failed = well_formed_device(3, "broken controls");
    controls_query_failed.controls = None;

    let snapshot = vec![healthy, caps_query_failed, not_streaming, controls_query_failed];
    let devices = enumerate(&snapshot);

    assert_eq!(devices.len(), 1);
    assert_eq!(devices[0].index, 0);
    assert_eq!(devices[0].name, "front camera");
    assert!(!devices[0].formats.is_empty());
}

#[test]
fn enumeration_is_idempotent_for_a_fixed_snapshot() {
    let mut unnamed = well_formed_device(7, "x");
    unnamed.name = None;
    let snapshot = vec![
        well_formed_device(0, "camera a"),
        unnamed,
        well_formed_device(2, "camera b"),
    ];
    let first = enumerate(&snapshot);
    let second = enumerate(&snapshot);
    assert_eq!(first, second);
    assert_eq!(first.len(), 2);
    assert_eq!(first[0].name, "camera a");
    assert_eq!(first[1].name, "camera b");
}

#[test]
fn enumeration_of_an_empty_snapshot_is_empty() {
    assert!(enumerate(&Vec::new()).is_empty());
}

#[test]
fn device_without_index_is_skipped() {
    let mut dev = well_formed_device(0, "no index");
    dev.index = None;
    assert!(probe_device(&dev).is_none());
}

#[test]
fn device_that_cannot_be_opened_is_skipped() {
    let mut dev = well_formed_device(0, "unopenable");
    dev.formats = None;
    assert!(probe_device(&dev).is_none());
}

#[test]
fn device_with_empty_control_set_is_kept() {
    // Control introspection must work, but an empty control set is fine.
    let mut dev = well_formed_device(0, "bare camera");
    dev.controls = Some(Vec::new());
    let info = probe_device(&dev).expect("device should be usable");
    assert!(info.controls.is_empty());
    assert_eq!(info.index, 0);
}

#[test]
fn failing_frame_size_query_skips_that_format_only() {
    let mut dev = well_formed_device(0, "half probed");
    dev.formats = Some(vec![
        RawFormatEntry {
            format: RawFormat { fourcc: FourCC::new(b"MJPG"), flags: 0 },
            sizes: None,
        },
        RawFormatEntry {
            format: RawFormat { fourcc: FourCC::new(b"YUYV"), flags: 0 },
            sizes: Some(vec![RawFrameSize::Discrete { width: 1280, height: 720 }]),
        },
    ]);
    let info = probe_device(&dev).expect("device should be usable");
    assert_eq!(info.formats.len(), 1);
    assert_eq!(info.formats[0].fourcc, FourCC::new(b"YUYV"));
    assert_eq!(info.formats[0].resolutions, vec![(1280, 720)]);
}

#[test]
fn capability_gate_requires_both_flags() {
    assert!(caps_ok(&streaming_caps()));
    assert!(!caps_ok(&RawCapabilities { capabilities: CAP_VIDEO_CAPTURE }));
    assert!(!caps_ok(&RawCapabilities { capabilities: CAP_STREAMING }));
    assert!(!caps_ok(&RawCapabilities { capabilities: 0 }));
    assert!(caps_ok(&RawCapabilities { capabilities: !0 }));
}

#[test]
fn descriptor_keeps_platform_order_of_controls_and_formats() {
    let mut dev = well_formed_device(4, "ordered");
    dev.controls = Some(vec![
        boolean_control(10, "b"),
        boolean_control(2, "a"),
        boolean_control(7, "c"),
    ]);
    let info = probe_device(&dev).expect("device should be usable");
    let ids: Vec<u32> = info.controls.iter().map(|c| c.id).collect();
    assert_eq!(ids, vec![10, 2, 7]);
}
