use gaze::dbus::CaptureStatus;
use gaze::face::{CaptureStep, FaceChecker, FaceMeasures};
use gaze::ir_quality::{
    clamp_bbox, has_live_texture, is_dark_frame, texture_patch, BoundingBox, GrayFrame, Rect,
};
use gaze::number::{Double, Single};
use gaze::preview::{bgr_to_rgb, encode_preview, BgrFrame, PreviewError, PreviewStep};

fn single(x: f32) -> Single {
    Single { bits: x.to_bits() }
}

fn gray_with(value: u8, w: u32, h: u32) -> GrayFrame {
    GrayFrame {
        rows: h,
        cols: w,
        data: vec![value; (w * h) as usize],
    }
}

fn bbox(x1: f32, y1: f32, x2: f32, y2: f32) -> BoundingBox {
    BoundingBox {
        x1: single(x1),
        y1: single(y1),
        x2: single(x2),
        y2: single(y2),
    }
}

#[test]
fn is_dark_frame_flags_mostly_black_pixels() {
    let frame = gray_with(0, 64, 64);
    assert!(is_dark_frame(&frame));
}

#[test]
fn is_dark_frame_passes_well_exposed_pixels() {
    let frame = gray_with(128, 64, 64);
    assert!(!is_dark_frame(&frame));
}

#[test]
fn is_dark_frame_passes_dim_but_not_black() {
    let frame = gray_with(40, 64, 64);
    assert!(!is_dark_frame(&frame));
}

#[test]
fn darkness_is_decided_as_a_single_precision_quotient() {
    for (rows, cols) in [(1u32, 5u32), (10, 10), (7, 13), (100, 100), (97, 89), (480, 854)] {
        let total = (rows * cols) as usize;
        let near = total * 3 / 5;
        for dark in near.saturating_sub(3)..(near + 4).min(total + 1) {
            let mut data = vec![32u8; total];
            for px in data.iter_mut().take(dark) {
                *px = 31;
            }
            let frame = GrayFrame { rows, cols, data };
            let expected = dark as f32 / total as f32 > 0.60;
            assert_eq!(is_dark_frame(&frame), expected, "{dark} of {total}");
        }
    }
    let empty = GrayFrame {
        rows: 0,
        cols: 7,
        data: Vec::new(),
    };
    assert!(is_dark_frame(&empty));
}

#[test]
fn clamp_bbox_clips_to_frame() {
    let r = clamp_bbox(16, 16, bbox(-5.0, -5.0, 100.0, 100.0));
    assert_eq!(r.x, 0);
    assert_eq!(r.y, 0);
    assert_eq!(r.width, 16);
    assert_eq!(r.height, 16);
}

#[test]
fn boxes_outside_the_frame_are_empty() {
    let r = clamp_bbox(16, 8, bbox(20.5, 3.9, 30.0, 2.0));
    assert_eq!(
        r,
        Rect {
            x: 15,
            y: 3,
            width: 1,
            height: 0
        }
    );
    let r = clamp_bbox(16, 8, bbox(f32::NAN, f32::INFINITY, f32::INFINITY, f32::NAN));
    assert_eq!(
        r,
        Rect {
            x: 0,
            y: 7,
            width: 16,
            height: 0
        }
    );
    let r = clamp_bbox(0, i32::MIN, bbox(1.0, 1.0, 4.0, 4.0));
    assert_eq!((r.x, r.width), (-1, 1));
    assert_eq!((r.y, r.height), (i32::MIN, 0));
    assert_eq!(texture_patch(16, 8, bbox(20.5, 3.9, 30.0, 2.0)), None);
    assert_eq!(
        texture_patch(16, 8, bbox(1.0, 1.0, 4.0, 4.0)),
        Some(Rect {
            x: 1,
            y: 1,
            width: 3,
            height: 3
        })
    );
}

#[test]
fn flat_patches_are_not_alive() {
    let deviation = |x: f64| Some(Double { bits: x.to_bits() });
    assert!(!has_live_texture(None));
    assert!(!has_live_texture(deviation(0.0)));
    assert!(!has_live_texture(deviation(14.999)));
    assert!(has_live_texture(deviation(15.0)));
    assert!(has_live_texture(deviation(95.0)));
    assert!(!has_live_texture(deviation(f64::NAN)));
}

fn measures(edges: [f32; 4], center: (f32, f32), size: f32, landmarks: bool) -> FaceMeasures {
    FaceMeasures {
        left: single(edges[0]),
        top: single(edges[1]),
        right: single(edges[2]),
        bottom: single(edges[3]),
        off_center_x: single(center.0),
        off_center_y: single(center.1),
        size_ratio: single(size),
        has_landmarks: landmarks,
    }
}

const INSIDE: [f32; 4] = [0.3, 0.3, 0.7, 0.7];

#[test]
fn faces_are_judged_by_place_before_size() {
    let good = measures(INSIDE, (0.1, 0.1), 0.5, true);
    assert_eq!(good.status(), CaptureStatus::Ready);
    assert_eq!(
        measures([0.04, 0.3, 0.7, 0.7], (0.3, 0.1), 0.1, true).status(),
        CaptureStatus::Clipped
    );
    assert_eq!(
        measures([0.3, 0.3, 0.7, 0.96], (0.1, 0.1), 0.5, true).status(),
        CaptureStatus::Clipped
    );
    assert_eq!(
        measures([-0.1, 0.3, 0.7, 0.7], (0.1, 0.1), 0.5, true).status(),
        CaptureStatus::Clipped
    );
    assert_eq!(
        measures(INSIDE, (0.2, 0.1), 0.1, true).status(),
        CaptureStatus::NotCentered
    );
    assert_eq!(
        measures(INSIDE, (0.1, 0.1), 0.34, false).status(),
        CaptureStatus::TooFar
    );
    assert_eq!(
        measures(INSIDE, (0.1, 0.1), 0.79, false).status(),
        CaptureStatus::TooClose
    );
    assert_eq!(
        measures(INSIDE, (0.1, 0.1), 0.78, true).status(),
        CaptureStatus::Ready
    );
    assert_eq!(
        measures(INSIDE, (0.1, 0.1), 0.5, false).status(),
        CaptureStatus::NoFace
    );
}

#[test]
fn infrared_frames_need_light_and_texture() {
    let good = measures(INSIDE, (0.1, 0.1), 0.5, true);
    let mut checker = FaceChecker::new();
    assert!(!checker.ir_mode());
    assert_eq!(
        checker.frame_arrived(&gray_with(0, 8, 8)),
        CaptureStep::Detect
    );
    assert_eq!(
        checker.faces_detected(Some(good)),
        CaptureStep::Done {
            status: CaptureStatus::Ready,
            keep: true
        }
    );
    checker.set_ir_mode(true);
    let nothing = CaptureStep::Done {
        status: CaptureStatus::NoFace,
        keep: false,
    };
    assert_eq!(checker.frame_arrived(&gray_with(0, 8, 8)), nothing);
    assert_eq!(
        checker.frame_arrived(&gray_with(99, 8, 8)),
        CaptureStep::Detect
    );
    assert_eq!(checker.faces_detected(None), nothing);
    assert_eq!(
        checker.faces_detected(Some(good)),
        CaptureStep::CheckTexture
    );
    assert_eq!(checker.texture_checked(false), nothing);
    assert_eq!(
        checker.texture_checked(true),
        CaptureStep::Done {
            status: CaptureStatus::Ready,
            keep: true
        }
    );
    let far = measures(INSIDE, (0.1, 0.1), 0.1, true);
    assert_eq!(
        checker.faces_detected(Some(far)),
        CaptureStep::Done {
            status: CaptureStatus::TooFar,
            keep: true
        }
    );
}

fn bgr_frame(width: i32, height: i32) -> BgrFrame {
    BgrFrame {
        width,
        height,
        data: vec![128; (width * height * 3) as usize],
    }
}

fn detailed_bgr_frame(width: i32, height: i32) -> BgrFrame {
    let mut frame = bgr_frame(width, height);
    let mut seed = 0x2545_f491_4f6c_dd1du64;
    for byte in frame.data.iter_mut() {
        seed ^= seed << 13;
        seed ^= seed >> 7;
        seed ^= seed << 17;
        *byte = (seed >> 24) as u8;
    }
    frame
}

fn jpeg(frame: &BgrFrame) -> Vec<u8> {
    match encode_preview(frame).unwrap() {
        PreviewStep::Encoded(jpeg) => jpeg,
        // A frame of one color stays one when it is scaled.
        PreviewStep::Resize { width, height } => jpeg(&bgr_frame(width, height)),
    }
}

#[test]
fn a_preview_frame_encodes_to_jpeg() {
    let jpeg = jpeg(&detailed_bgr_frame(640, 480));
    assert_eq!(&jpeg[..2], &[0xff, 0xd8], "missing JPEG start-of-image");
    assert_eq!(&jpeg[jpeg.len() - 2..], &[0xff, 0xd9], "missing JPEG EOI");

    let decoded = image::load_from_memory(&jpeg).unwrap();
    assert_eq!(decoded.width(), 640);
    assert_eq!(decoded.height(), 480);
}

#[test]
fn a_frame_wider_than_the_cap_is_scaled_down_keeping_its_aspect_ratio() {
    let jpeg = jpeg(&bgr_frame(1920, 1080));
    let decoded = image::load_from_memory(&jpeg).unwrap();
    assert_eq!(decoded.width(), 854);
    assert_eq!(decoded.height(), 480);
}

#[test]
fn a_camera_sized_frame_passes_through_at_its_own_resolution() {
    let jpeg = jpeg(&bgr_frame(640, 480));
    let decoded = image::load_from_memory(&jpeg).unwrap();
    assert_eq!(decoded.width(), 640);
    assert_eq!(decoded.height(), 480);
}

#[test]
fn a_frame_narrower_than_the_cap_is_not_upscaled() {
    let jpeg = jpeg(&bgr_frame(160, 120));
    let decoded = image::load_from_memory(&jpeg).unwrap();
    assert_eq!(decoded.width(), 160);
    assert_eq!(decoded.height(), 120);
}

#[test]
fn an_empty_frame_is_rejected_rather_than_encoded() {
    assert!(encode_preview(&bgr_frame(0, 0)).is_err());
    assert!(matches!(
        encode_preview(&bgr_frame(0, 5)),
        Err(PreviewError::NoPixels)
    ));
}

#[test]
fn previews_refuse_broken_and_endless_frames() {
    let mut frame = bgr_frame(4, 4);
    frame.data.pop();
    assert!(matches!(
        encode_preview(&frame),
        Err(PreviewError::NotContinuous {
            width: 4,
            height: 4
        })
    ));
    let endless = encode_preview(&bgr_frame(1, 70_000)).err().unwrap();
    assert!(matches!(endless, PreviewError::Encoding(_)));
    assert!(endless.message().contains("Invalid image size (1 x 70000)"));
    assert_eq!(PreviewError::NoPixels.message(), "preview frame has no pixels");
    assert_eq!(
        encode_preview(&frame).err().unwrap().message(),
        "preview frame is not a continuous 4x4 RGB buffer"
    );
    assert!(matches!(
        encode_preview(&BgrFrame {
            width: 5000,
            height: 1,
            data: Vec::new()
        }),
        Ok(PreviewStep::Resize {
            width: 854,
            height: 1
        })
    ));
}

#[test]
fn previews_keep_their_colors() {
    assert_eq!(
        bgr_to_rgb(&[1, 2, 3, 4, 5, 6]),
        vec![3, 2, 1, 6, 5, 4]
    );
    let mut blue = bgr_frame(16, 16);
    for pixel in blue.data.chunks_mut(3) {
        pixel.copy_from_slice(&[250, 10, 10]);
    }
    let decoded = image::load_from_memory(&jpeg(&blue)).unwrap().to_rgb8();
    let pixel = decoded.get_pixel(8, 8).0;
    assert!(pixel[2] > 200 && pixel[0] < 60, "{pixel:?}");
}
