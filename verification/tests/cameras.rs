use gaze::camera::{
    after_bus, after_end_of_stream, after_sample, after_state, classify_source, is_mono_format,
    enumerate_cameras, enumerate_ir_cameras, needs_devices, open_element, parse_usb_spec, pipeline_description,
    preferred_capture_source, resolve_configured_sources, resolve_node, resolve_source,
    select_usb_node, usb_video_nodes, video_node_index, CameraKind, CapsEntry, DeviceProps,
    PipelineState, PollStep, SampleSeen, SourceElement, VideoDevice, VideoNodeInfo,
};
use gaze::config::CameraConfig;

fn cameras(rgb: &str, ir: &str) -> CameraConfig {
    CameraConfig {
        rgb: rgb.to_string(),
        ir: ir.to_string(),
        emitter_enabled: true,
        dark_luma_threshold: 30,
    }
}

fn caps(name: &str, format: Option<&str>) -> CapsEntry {
    CapsEntry {
        name: name.to_string(),
        format: format.map(|s| s.to_string()),
        drm_format: None,
    }
}

fn device(name: &str, target: &str, node: &str, format: &str) -> VideoDevice {
    VideoDevice {
        display_name: name.to_string(),
        props: Some(DeviceProps {
            pipewire: true,
            node_name: Some(target.to_string()),
            object_serial: None,
            object_id: None,
            object_path: None,
            v4l2_path: Some(node.to_string()),
            device_path: None,
        }),
        caps: Some(vec![caps("video/x-raw", Some(format))]),
        usb_ids: Some((0x046d, 0x085e)),
    }
}

#[test]
fn resolve_source_uses_rgb_when_no_ir_configured() {
    let cameras = CameraConfig {
        rgb: "primary".to_string(),
        ir: String::new(),
        emitter_enabled: false,
        dark_luma_threshold: 30,
    };
    let (source, kind) = resolve_source(&cameras, &[]);
    assert_eq!(source, "primary");
    assert_eq!(
        kind,
        CameraKind::Rgb {
            source: "primary".to_string()
        }
    );
}

#[test]
fn resolve_source_builds_v4l2src_pipeline_for_ir_node() {
    let (source, kind) = resolve_source(&cameras("primary", "/dev/video2"), &[]);
    assert_eq!(source, "/dev/video2");
    assert_eq!(
        kind,
        CameraKind::Ir {
            source: "/dev/video2".to_string(),
            node: "/dev/video2".to_string()
        }
    );
}

#[test]
fn resolve_source_builds_pipewiresrc_pipeline_for_ir() {
    let cameras = cameras("primary", "pipewiresrc target-object=device-name");
    let (source, kind) = resolve_source(&cameras, &[]);
    assert_eq!(source, "pipewiresrc target-object=device-name");
    assert_eq!(
        kind,
        CameraKind::Ir {
            source: "pipewiresrc target-object=device-name".to_string(),
            node: String::new()
        }
    );
}

#[test]
fn classify_source_maps_every_supported_form() {
    assert_eq!(
        classify_source("primary", true).unwrap(),
        SourceElement::Element("pipewiresrc".to_string())
    );
    assert_eq!(
        classify_source("/dev/video0", true).unwrap(),
        SourceElement::Element("v4l2src device=/dev/video0".to_string())
    );
    assert_eq!(
        classify_source("/dev/video2", false).unwrap(),
        SourceElement::Element("v4l2src device=/dev/video2".to_string())
    );
    assert_eq!(
        classify_source("usb:046d:085e", true).unwrap(),
        SourceElement::ResolveUsb {
            vid: 0x046d,
            pid: 0x085e,
            want_color: true,
        }
    );
    assert_eq!(
        classify_source("usb:046d:085e", false).unwrap(),
        SourceElement::ResolveUsb {
            vid: 0x046d,
            pid: 0x085e,
            want_color: false,
        }
    );
    assert_eq!(
        classify_source("v4l2src device=/dev/video0", true).unwrap(),
        SourceElement::Element("v4l2src device=/dev/video0".to_string())
    );
}

#[test]
fn classify_source_rejects_malformed_values() {
    assert!(classify_source("", true).is_err());
    assert!(classify_source("/dev/video", true).is_err());
    assert!(classify_source("/dev/video2 ! fakesink", true).is_err());
    assert!(classify_source("usb:046d", true).is_err());
    assert!(classify_source("usb:zzzz:085e", true).is_err());
}

#[test]
fn camera_errors_say_what_is_expected() {
    assert_eq!(
        classify_source("usb:046d", true).unwrap_err().message(),
        "invalid USB camera spec \"usb:046d\"; expected usb:VVVV:PPPP (hex VID:PID)"
    );
    assert_eq!(
        classify_source(" /dev/video\t", true).unwrap_err().message(),
        "invalid V4L2 camera node \"/dev/video\"; expected /dev/video<number>"
    );
    assert_eq!(
        classify_source(" ", true).unwrap_err().message(),
        "camera source cannot be empty; use \"primary\", \"/dev/video<n>\", \"usb:VVVV:PPPP\", or a GStreamer source"
    );
    let missing = classify_source("usb:046d:85e", true).unwrap();
    assert_eq!(
        open_element(missing, &[]).unwrap_err().message(),
        "no color camera found for USB 046d:085e"
    );
    let missing = classify_source("usb:AbcD:1", false).unwrap();
    assert_eq!(
        open_element(missing, &[]).unwrap_err().message(),
        "no IR camera found for USB abcd:0001"
    );
}

#[test]
fn parse_usb_spec_reads_hex_vid_pid() {
    assert_eq!(parse_usb_spec("usb:046d:085e"), Some((0x046d, 0x085e)));
    assert_eq!(parse_usb_spec("usb:04F2:B67C"), Some((0x04f2, 0xb67c)));
    assert_eq!(parse_usb_spec("pci:046d:085e"), None);
    assert_eq!(parse_usb_spec("usb:046d"), None);
    assert_eq!(parse_usb_spec("usb:zzzz:085e"), None);
    assert_eq!(parse_usb_spec("primary"), None);
}

#[test]
fn usb_ids_read_as_std_reads_them() {
    for text in [
        "0", "ffff", "10000", "+12", "-1", "+", "", "1 2", " 7f ", "00000000ab", "g",
    ] {
        let std = u16::from_str_radix(text.trim(), 16).ok();
        assert_eq!(
            parse_usb_spec(&format!("usb:{text}:1")).map(|ids| ids.0),
            std,
            "{text:?}"
        );
    }
}

#[test]
fn select_usb_node_disambiguates_color_and_mono() {
    // Brio-style single-function UVC: one VID:PID exposes a color node and a
    // mono IR node. Also a second, color-only device.
    let nodes = vec![
        VideoNodeInfo {
            node: "/dev/video0".to_string(),
            vid: 0x046d,
            pid: 0x085e,
            is_color: true,
        },
        VideoNodeInfo {
            node: "/dev/video2".to_string(),
            vid: 0x046d,
            pid: 0x085e,
            is_color: false,
        },
        VideoNodeInfo {
            node: "/dev/video4".to_string(),
            vid: 0x1234,
            pid: 0x5678,
            is_color: true,
        },
    ];
    assert_eq!(
        select_usb_node(&nodes, 0x046d, 0x085e, true),
        Some("/dev/video0".to_string())
    );
    assert_eq!(
        select_usb_node(&nodes, 0x046d, 0x085e, false),
        Some("/dev/video2".to_string())
    );
    // No mono node on a color-only device, and unknown ids resolve to nothing.
    assert_eq!(select_usb_node(&nodes, 0x1234, 0x5678, false), None);
    assert_eq!(select_usb_node(&nodes, 0xdead, 0xbeef, true), None);
}

#[test]
fn select_usb_node_prefers_lowest_numbered_node() {
    let nodes = vec![
        VideoNodeInfo {
            node: "/dev/video10".to_string(),
            vid: 0x046d,
            pid: 0x085e,
            is_color: true,
        },
        VideoNodeInfo {
            node: "/dev/video2".to_string(),
            vid: 0x046d,
            pid: 0x085e,
            is_color: true,
        },
    ];
    assert_eq!(
        select_usb_node(&nodes, 0x046d, 0x085e, true),
        Some("/dev/video2".to_string())
    );
}

#[test]
fn video_nodes_are_numbered() {
    assert_eq!(video_node_index("/dev/video17"), Some(17));
    assert_eq!(video_node_index("/dev/video4294967295"), Some(u32::MAX));
    assert_eq!(video_node_index("/dev/video4294967296"), None);
    assert_eq!(video_node_index("/dev/video"), None);
    assert_eq!(video_node_index("/dev/media0"), None);
}

#[test]
fn mono_format_detection_is_case_and_whitespace_insensitive() {
    for format in [
        "GRAY8", " gray16 ", "GREY", "grey12", "R8", "r16", "Y8", " y16 ",
    ] {
        assert!(is_mono_format(format), "{format} should be mono");
    }

    for format in ["RGB", "BGR", "RGBA", "YUY2", "NV12", "DMA_DRM", ""] {
        assert!(!is_mono_format(format), "{format} should be color/unknown");
    }
}

#[test]
fn devices_tell_color_by_their_formats() {
    let with = |entries: Option<Vec<CapsEntry>>| VideoDevice {
        caps: entries,
        ..device("x", "x", "/dev/video0", "GRAY8")
    };
    assert!(with(None).has_color_caps());
    assert!(with(Some(Vec::new())).has_color_caps());
    assert!(!with(Some(vec![caps("video/x-raw", Some("GRAY8"))])).has_color_caps());
    assert!(with(Some(vec![caps("video/x-raw", None)])).has_color_caps());
    assert!(with(Some(vec![
        caps("video/x-raw", Some("GRAY8")),
        caps("image/jpeg", None)
    ]))
    .has_color_caps());
    assert!(with(Some(vec![caps("audio/x-raw", None)])).has_color_caps());
    let mut drm = caps("video/x-raw", Some("DMA_DRM"));
    assert!(with(Some(vec![drm.clone()])).has_color_caps());
    drm.drm_format = Some("R8".to_string());
    assert!(!with(Some(vec![drm])).has_color_caps());
}

#[test]
fn nodes_are_found_by_text_target_and_usb_ids() {
    let devices = vec![
        device("Color", "cam", "/dev/video3", "RGB"),
        device("Mono", "ir", "/dev/video5", "GRAY8"),
        device("Mono again", "ir", "/dev/video5", "GRAY8"),
        device("Lower", "low", "/dev/video1", "GRAY8"),
    ];
    assert_eq!(
        resolve_node("v4l2src device=/dev/video12 ! x", &[]).as_deref(),
        Some("/dev/video12")
    );
    assert_eq!(resolve_node("/dev/video", &[]).as_deref(), Some("/dev/video"));
    assert_eq!(
        resolve_node(" pipewiresrc target-object=\"ir\" ", &devices).as_deref(),
        Some("/dev/video5")
    );
    assert_eq!(
        resolve_node("pipewiresrc target-object=other", &devices),
        None
    );
    assert_eq!(
        resolve_node("usb:046d:085e", &devices).as_deref(),
        Some("/dev/video1")
    );
    assert_eq!(resolve_node("videotestsrc", &devices), None);
    assert_eq!(resolve_node("  ", &devices), None);
    assert_eq!(usb_video_nodes(&devices).len(), 3);

    assert!(needs_devices("usb:046d:085e"));
    assert!(needs_devices("pipewiresrc target-object=ir"));
    assert!(!needs_devices("/dev/video1"));
    assert!(!needs_devices("videotestsrc"));

    let usb = classify_source("usb:046d:085e", true).unwrap();
    assert_eq!(
        open_element(usb, &devices).unwrap(),
        "v4l2src device=/dev/video3"
    );
    assert!(pipeline_description("pipewiresrc").starts_with("pipewiresrc ! video/x-raw,"));
    assert!(pipeline_description("x").ends_with("appsink name=gaze_sink"));
}

#[test]
fn a_target_is_the_first_name_that_is_set() {
    let mut device = device("x", "ignored", "/dev/video0", "RGB");
    let props = device.props.as_mut().unwrap();
    props.node_name = None;
    props.object_id = Some("17".to_string());
    props.object_path = Some("path".to_string());
    assert_eq!(props.pipewire_target().as_deref(), Some("17"));
    props.object_serial = Some("serial".to_string());
    assert_eq!(props.pipewire_target().as_deref(), Some("serial"));
    props.v4l2_path = Some("/sys/x".to_string());
    props.device_path = Some("/dev/video9".to_string());
    assert_eq!(device.device_video_node().as_deref(), Some("/dev/video9"));
}

#[test]
fn configured_sources_are_trimmed() {
    let sources = resolve_configured_sources(&cameras(" primary ", " /dev/video2 "), &[]);
    assert_eq!(sources.rgb, "primary");
    assert_eq!(sources.ir, "/dev/video2");
    assert_eq!(sources.ir_node, "/dev/video2");
    let sources = resolve_configured_sources(&cameras("", " "), &[]);
    assert_eq!((sources.rgb, sources.ir, sources.ir_node), Default::default());

    assert_eq!(
        preferred_capture_source(&cameras(" a ", "b")),
        ("a".to_string(), false)
    );
    assert_eq!(
        preferred_capture_source(&cameras(" ", "b")),
        ("b".to_string(), true)
    );
    assert_eq!(
        preferred_capture_source(&cameras("", "")),
        ("primary".to_string(), false)
    );
}

#[test]
fn cameras_are_listed_once_by_kind() {
    let mut plain = device("Plain", "plain", "/dev/video8", "RGB");
    plain.props.as_mut().unwrap().pipewire = false;
    let devices = vec![
        device("Color", "cam", "/dev/video3", "RGB"),
        device("Mono", "ir", "/dev/video5", "GRAY8"),
        device("Color twin", "cam", "/dev/video4", "RGB"),
        plain,
    ];
    assert_eq!(
        enumerate_cameras(&devices),
        vec![
            ("Primary Camera".to_string(), "primary".to_string()),
            (
                "Color".to_string(),
                "pipewiresrc target-object=cam".to_string()
            ),
        ]
    );
    assert_eq!(
        enumerate_ir_cameras(&devices),
        vec![(
            "Mono".to_string(),
            "pipewiresrc target-object=ir".to_string()
        )]
    );
}

#[test]
fn a_poll_ends_only_with_the_stream() {
    assert_eq!(after_sample(SampleSeen::Frame), PollStep::Frame);
    assert_eq!(after_sample(SampleSeen::Unusable), PollStep::Timeout);
    assert_eq!(after_sample(SampleSeen::Nothing), PollStep::AskEndOfStream);
    assert_eq!(after_end_of_stream(true), PollStep::Ended);
    assert_eq!(after_end_of_stream(false), PollStep::AskBus);
    assert_eq!(after_bus(true), PollStep::Ended);
    assert_eq!(after_bus(false), PollStep::AskState);
    assert_eq!(after_state(PipelineState::Stopped), PollStep::Ended);
    assert_eq!(after_state(PipelineState::Playing), PollStep::Timeout);
    assert_eq!(after_state(PipelineState::Paused), PollStep::Timeout);
}
