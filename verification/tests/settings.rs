use gaze::config::{
    classify_pam_service, default_liveness_threshold, default_max_frames, temporary_name,
    AuthConfig, AuthSurface, CameraConfig, Config, EnrollmentConfig, InferenceConfig,
    LivenessConfig, StorageConfig, Table, DEFAULT_ENROLLMENT_MIN_FACE_SIZE_RATIO,
    DEFAULT_LIVENESS_THRESHOLD, DEFAULT_RGB_CAMERA, MAX_ENROLLMENT_FACE_SIZE_RATIO,
    MAX_LIVENESS_THRESHOLD, MIN_ENROLLMENT_FACE_SIZE_RATIO, MIN_LIVENESS_MAX_FRAMES,
    MIN_LIVENESS_THRESHOLD, START_DELAY_SCOPE_LABELS, START_DELAY_SCOPE_OPTIONS,
};
use gaze::number::{Double, Single};
use gaze::options::{index_of, value_at};
use gaze::security::{
    SecurityField, SecurityLevel, SecurityLevelFile, DEFAULT_SECURITY_THRESHOLD,
    HYBRID_POLICY_LABELS, HYBRID_POLICY_OPTIONS, MAX_SECURITY_THRESHOLD, MIN_SECURITY_THRESHOLD,
    MODEL_QUALITY_LABELS, MODEL_QUALITY_OPTIONS, SECURITY_LEVEL_LABELS, SECURITY_LEVEL_OPTIONS,
};

fn show(number: Double) -> String {
    f64::from_bits(number.bits).to_string()
}

fn double(x: f64) -> Double {
    Double { bits: x.to_bits() }
}

fn single(x: Single) -> f32 {
    f32::from_bits(x.bits)
}

#[test]
fn constants_are_the_numbers_they_stand_for() {
    assert_eq!(DEFAULT_SECURITY_THRESHOLD, 0.4f64.to_bits());
    assert_eq!(MIN_SECURITY_THRESHOLD, 0.10f64.to_bits());
    assert_eq!(MAX_SECURITY_THRESHOLD, 0.99f64.to_bits());
    assert_eq!(MIN_LIVENESS_THRESHOLD, 0.10f64.to_bits());
    assert_eq!(MAX_LIVENESS_THRESHOLD, 1.0f64.to_bits());
    assert_eq!(DEFAULT_LIVENESS_THRESHOLD, 0.8f64.to_bits());
    assert_eq!(DEFAULT_ENROLLMENT_MIN_FACE_SIZE_RATIO, 0.25f64.to_bits());
    assert_eq!(MIN_ENROLLMENT_FACE_SIZE_RATIO, 0.10f64.to_bits());
    assert_eq!(MAX_ENROLLMENT_FACE_SIZE_RATIO, 0.75f64.to_bits());
}

#[test]
fn security_level_mappings_are_stable() {
    let cases = [
        (SecurityLevel::low(), "det_500m.onnx", "w600k_mbf.onnx", 0.3),
        (
            SecurityLevel::medium(),
            "det_500m.onnx",
            "w600k_mbf.onnx",
            0.4,
        ),
        (SecurityLevel::high(), "det_10g.onnx", "w600k_r50.onnx", 0.5),
        (
            SecurityLevel::maximum(),
            "det_10g.onnx",
            "w600k_r50.onnx",
            0.6,
        ),
    ];

    for (level, detector, recognizer, threshold) in cases {
        assert_eq!(level.detector(), detector);
        assert_eq!(level.recognizer(), recognizer);
        assert!((single(level.threshold()) - threshold).abs() < f32::EPSILON);
        assert!((single(level.ir_threshold()) - threshold).abs() < f32::EPSILON);
    }

    let custom = SecurityLevel::custom(
        "accurate".to_string(),
        "accurate".to_string(),
        double(0.73),
        String::new(),
    );
    assert_eq!(custom.detector(), "det_10g.onnx");
    assert_eq!(custom.recognizer(), "w600k_r50.onnx");
    assert!((single(custom.threshold()) - 0.73).abs() < f32::EPSILON);
    assert!((single(custom.ir_threshold()) - 0.73).abs() < f32::EPSILON);

    let custom_standard = SecurityLevel::custom(
        "standard".to_string(),
        "standard".to_string(),
        double(0.35),
        String::new(),
    );
    assert_eq!(custom_standard.detector(), "det_500m.onnx");
    assert_eq!(custom_standard.recognizer(), "w600k_mbf.onnx");
    assert!((single(custom_standard.threshold()) - 0.35).abs() < f32::EPSILON);
}

#[test]
fn thresholds_narrow_as_casts_do() {
    let level = SecurityLevel::custom_with_thresholds(
        "standard".to_string(),
        "standard".to_string(),
        double(0.73),
        double(0.123456789),
        String::new(),
    );
    assert_eq!(level.rgb_threshold().bits, (0.73f64 as f32).to_bits());
    assert_eq!(level.ir_threshold().bits, (0.123456789f64 as f32).to_bits());
    assert_eq!(SecurityLevel::low().threshold().bits, 0.3f32.to_bits());
    assert_eq!(SecurityLevel::medium().threshold().bits, 0.4f32.to_bits());
    assert_eq!(SecurityLevel::high().threshold().bits, 0.5f32.to_bits());
    assert_eq!(SecurityLevel::maximum().threshold().bits, 0.6f32.to_bits());
}

#[test]
fn validate_rejects_out_of_range_custom_threshold() {
    for bad in [-1.0, -0.5, 0.0, 0.09, 1.01, 5.0, f64::NAN, f64::INFINITY] {
        let level = SecurityLevel::custom(
            "standard".to_string(),
            "standard".to_string(),
            double(bad),
            String::new(),
        );
        assert!(level.validate().is_err(), "{bad}");
    }

    for bad in [-1.0, -0.5, 0.0, 0.09, 1.01, 5.0, f64::NAN, f64::INFINITY] {
        let level = SecurityLevel::custom_with_thresholds(
            "standard".to_string(),
            "standard".to_string(),
            double(0.4),
            double(bad),
            String::new(),
        );
        assert!(level.validate().is_err(), "{bad}");
    }

    for good in [
        f64::from_bits(MIN_SECURITY_THRESHOLD),
        0.4,
        f64::from_bits(MAX_SECURITY_THRESHOLD),
    ] {
        let level = SecurityLevel::custom(
            "standard".to_string(),
            "standard".to_string(),
            double(good),
            String::new(),
        );
        level.validate().unwrap();
    }
}

#[test]
fn the_highest_allowed_threshold_can_still_be_matched() {
    let perfect_score = 1.0_f32;
    let highest = f64::from_bits(MAX_SECURITY_THRESHOLD);
    assert!(
        perfect_score > highest as f32,
        "a threshold of {highest} can never be matched, because scores are dot products of unit vectors and matching requires score > threshold"
    );
    let level = SecurityLevel::custom(
        "standard".to_string(),
        "standard".to_string(),
        double(highest),
        String::new(),
    );
    assert!(perfect_score > single(level.threshold()));
}

#[test]
fn an_existing_config_below_the_new_frame_minimum_falls_back_to_the_default() {
    for stale in 1..MIN_LIVENESS_MAX_FRAMES {
        let liveness = LivenessConfig {
            max_frames: stale,
            ..LivenessConfig::default()
        };
        assert!(liveness.validate().is_err(), "{stale} must be rejected");
        assert_eq!(
            liveness.effective_max_frames(),
            LivenessConfig::default().max_frames,
            "{stale} must fall back to the default rather than gate auth"
        );
    }
}

#[test]
fn the_smallest_allowed_frame_budget_can_reach_sustained_liveness() {
    assert!(
        MIN_LIVENESS_MAX_FRAMES > 5,
        "liveness needs 5 scored frames before its sustained path triggers"
    );
}

#[test]
fn out_of_range_custom_threshold_never_reaches_the_matcher() {
    for bad in [-1.0, 0.0, 5.0, f64::NAN, f64::INFINITY] {
        let level = SecurityLevel::custom(
            "standard".to_string(),
            "standard".to_string(),
            double(bad),
            String::new(),
        );
        assert_eq!(
            single(level.threshold()),
            f64::from_bits(DEFAULT_SECURITY_THRESHOLD) as f32,
            "{bad}"
        );
    }

    let level = SecurityLevel::custom(
        "standard".to_string(),
        "standard".to_string(),
        double(0.73),
        String::new(),
    );
    assert!((single(level.threshold()) - 0.73).abs() < f32::EPSILON);
}

#[test]
fn custom_security_thresholds_are_spectrum_specific() {
    let level = SecurityLevel::custom_with_thresholds(
        "standard".to_string(),
        "standard".to_string(),
        double(0.73),
        double(0.31),
        String::new(),
    );

    assert!((single(level.rgb_threshold()) - 0.73).abs() < f32::EPSILON);
    assert!((single(level.ir_threshold()) - 0.31).abs() < f32::EPSILON);
}

fn security_table(text: &str) -> SecurityLevelFile {
    let document: toml::Table = text.parse().unwrap();
    let table = document["security"].as_table().unwrap();
    let string = |key: &str| table.get(key).and_then(|v| v.as_str()).map(|s| s.to_string());
    let number = |key: &str| table.get(key).and_then(|v| v.as_float()).map(double);
    SecurityLevelFile {
        level: string("level"),
        detector: string("detector"),
        recognizer: string("recognizer"),
        threshold: number("threshold"),
        rgb_threshold: number("rgb_threshold"),
        ir_threshold: number("ir_threshold"),
        hybrid_policy: string("hybrid_policy"),
    }
}

#[test]
fn an_older_threshold_key_applies_to_both_spectra() {
    let security = security_table(
        r#"
            [security]
            level = "custom"
            detector = "standard"
            recognizer = "standard"
            threshold = 0.47
            "#,
    )
    .resolve();

    assert!((single(security.rgb_threshold()) - 0.47).abs() < f32::EPSILON);
    assert!((single(security.ir_threshold()) - 0.47).abs() < f32::EPSILON);
    assert_eq!(security.rgb_threshold, double(0.47));
    assert_eq!(security.ir_threshold, double(0.47));
}

#[test]
fn setting_one_spectrum_threshold_does_not_leak_into_the_other() {
    let security = security_table(
        r#"
            [security]
            level = "custom"
            detector = "standard"
            recognizer = "standard"
            rgb_threshold = 0.6
            "#,
    )
    .resolve();

    assert!((single(security.rgb_threshold()) - 0.6).abs() < f32::EPSILON);
    assert_eq!(
        single(security.ir_threshold()),
        f64::from_bits(DEFAULT_SECURITY_THRESHOLD) as f32,
        "an unset ir_threshold must not silently inherit rgb_threshold"
    );
}

#[test]
fn an_empty_security_table_is_medium() {
    let security = security_table("[security]\n").resolve();
    assert_eq!(security.level, "medium");
    assert_eq!(security.detector, "");
    assert_eq!(security.hybrid_policy, "");
    assert_eq!(security.rgb_threshold, double(0.0));
    security.validate().unwrap();
}

#[test]
fn validate_rejects_unknown_hybrid_policy() {
    let bad = SecurityLevel::custom(
        "standard".to_string(),
        "standard".to_string(),
        double(0.5),
        "not-a-real-policy".to_string(),
    );
    assert!(bad.validate().is_err());

    for policy in HYBRID_POLICY_OPTIONS {
        let level = SecurityLevel::custom(
            "standard".to_string(),
            "standard".to_string(),
            double(0.5),
            policy.to_string(),
        );
        level.validate().unwrap();
    }

    let empty = SecurityLevel::custom(
        "standard".to_string(),
        "standard".to_string(),
        double(0.5),
        String::new(),
    );
    empty.validate().unwrap();
    assert_eq!(empty.hybrid_policy(), "fallback_on_dark");
}

#[test]
fn preset_levels_ignore_a_stored_custom_threshold() {
    for preset in ["low", "medium", "high", "maximum"] {
        let mut level = SecurityLevel::medium();
        level.level = preset.to_string();
        level.rgb_threshold = double(-1.0);
        level.ir_threshold = double(-1.0);
        level.validate().unwrap();
        assert!(single(level.threshold()) > 0.0, "{preset}");
        assert!(single(level.ir_threshold()) > 0.0, "{preset}");
    }
}

#[test]
fn liveness_validate_rejects_degenerate_settings() {
    let mut cfg = LivenessConfig::default();
    cfg.validate().unwrap();

    for bad in [-1.0, 0.0, 0.09, 1.01, f64::NAN, f64::INFINITY] {
        cfg.threshold = double(bad);
        assert!(cfg.validate().is_err(), "{bad}");
        assert_eq!(cfg.effective_threshold(), default_liveness_threshold());
    }

    cfg.threshold = double(0.9);
    assert_eq!(cfg.effective_threshold(), double(0.9));

    cfg.max_frames = 0;
    assert!(cfg.validate().is_err());
    assert_eq!(cfg.effective_max_frames(), default_max_frames());

    cfg.max_frames = 25;
    cfg.validate().unwrap();
    assert_eq!(cfg.effective_max_frames(), 25);
}

#[test]
fn problems_carry_the_number_that_caused_them() {
    let liveness = LivenessConfig {
        enabled: true,
        threshold: double(1.5),
        max_frames: 40,
    };
    assert_eq!(
        liveness.validate().unwrap_err().message(show),
        "liveness.threshold must be between 0.1 and 1, got 1.5"
    );

    let frames = LivenessConfig {
        enabled: true,
        threshold: double(0.8),
        max_frames: 5,
    };
    let problem = frames.validate().unwrap_err();
    assert_eq!(problem.got, None);
    assert_eq!(
        problem.message(|_| panic!("no number to show")),
        "liveness.max_frames must be at least 6, got 5"
    );

    let enrollment = EnrollmentConfig {
        max_templates: 2,
        min_face_size_ratio: double(0.76),
    };
    assert_eq!(
        enrollment.validate().unwrap_err().message(show),
        "enrollment.min_face_size_ratio must be between 0.1 and 0.75, got 0.76"
    );

    let level = SecurityLevel::custom_with_thresholds(
        "standard".to_string(),
        "standard".to_string(),
        double(f64::NAN),
        double(-0.1),
        String::new(),
    );
    let errors = level.validation_errors();
    assert_eq!(
        errors[0].message(show),
        "security.rgb_threshold must be between 0.1 and 0.99, got NaN"
    );
    assert_eq!(
        errors[1].message(show),
        "security.ir_threshold must be between 0.1 and 0.99, got -0.1"
    );
}

#[test]
fn validate_rejects_unknown_security_level() {
    let mut level = SecurityLevel::medium();
    level.level = "bogus".to_string();
    assert!(level.validate().is_err());
    // Known presets still validate.
    for preset in ["low", "medium", "high", "maximum"] {
        let mut l = SecurityLevel::medium();
        l.level = preset.to_string();
        l.validate().unwrap();
    }
}

#[test]
fn errors_quote_what_they_complain_about() {
    let mut level = SecurityLevel::medium();
    level.level = "a \"b\"\n".to_string();
    let error = level.validate().unwrap_err();
    assert_eq!(
        error.message(show),
        format!(
            "invalid security level {:?}: expected one of {:?}",
            "a \"b\"\n", SECURITY_LEVEL_OPTIONS
        )
    );

    let custom = SecurityLevel::custom(
        "sharp".to_string(),
        "standard".to_string(),
        double(0.5),
        "sometimes".to_string(),
    );
    let errors = custom.validation_errors();
    assert_eq!(
        errors[0].message(show),
        "invalid detector level \"sharp\": expected \"standard\" or \"accurate\""
    );
    assert_eq!(
        errors[1].message(show),
        format!(
            "invalid security.hybrid_policy {:?}: expected one of {:?}",
            "sometimes", HYBRID_POLICY_OPTIONS
        )
    );
    assert_eq!(errors.len(), 2);
}

#[test]
fn inference_config_accepts_supported_provider_device_pairs() {
    let supported = [("cpu", "cpu")];

    for (execution_provider, device) in supported {
        let inference = InferenceConfig {
            execution_provider: execution_provider.to_string(),
            device: device.to_string(),
        };
        inference.validate().unwrap();
    }
}

#[test]
fn inference_config_rejects_invalid_pairs() {
    let invalid = [
        ("cpu", "gpu"),
        ("cpu", "npu"),
        ("openvino", "cuda"),
        ("webgpu", "gpu"),
        ("openvino", "cpu"),
        ("openvino", "gpu"),
        ("openvino", "npu"),
    ];

    for (execution_provider, device) in invalid {
        let inference = InferenceConfig {
            execution_provider: execution_provider.to_string(),
            device: device.to_string(),
        };
        assert!(inference.validate().is_err());
    }
}

#[test]
fn inference_problems_name_the_setting() {
    let inference = |provider: &str, device: &str| InferenceConfig {
        execution_provider: provider.to_string(),
        device: device.to_string(),
    };
    assert_eq!(
        inference("openvino", "gpu").validate().unwrap_err(),
        "this Gaze build does not include OpenVINO support; rebuild with the \"openvino\" Cargo feature"
    );
    assert_eq!(
        inference("webgpu", "cpu").validate().unwrap_err(),
        "invalid inference.execution_provider \"webgpu\": expected one of [\"cpu\"]"
    );
    assert_eq!(
        inference("cpu", "gpu").validate().unwrap_err(),
        "invalid inference.device \"gpu\": expected one of [\"cpu\"]"
    );
}

#[test]
fn a_value_this_build_cannot_show_is_not_representable() {
    let unknown = InferenceConfig {
        execution_provider: "webgpu".to_string(),
        device: "cuda".to_string(),
    };
    assert!(!unknown.is_representable());
    assert!(InferenceConfig::default().is_representable());

    let openvino = InferenceConfig {
        execution_provider: "openvino".to_string(),
        device: "npu".to_string(),
    };
    assert!(!openvino.is_representable());
}

#[test]
fn inference_indexes_fall_back_to_the_processor() {
    let unknown = InferenceConfig {
        execution_provider: "webgpu".to_string(),
        device: "cuda".to_string(),
    };
    assert_eq!(unknown.execution_provider_index(), 0);
    assert_eq!(unknown.device_index(), 0);
    assert_eq!(InferenceConfig::execution_provider_from_index(7), "cpu");
    assert_eq!(InferenceConfig::device_from_index(0), "cpu");
}

#[test]
fn unknown_level_falls_back_to_medium_without_panicking() {
    let mut level = SecurityLevel::medium();
    level.level = "bogus".to_string();
    assert_eq!(level.detector(), "det_500m.onnx");
    assert_eq!(level.recognizer(), "w600k_mbf.onnx");
    assert!((single(level.threshold()) - 0.4).abs() < f32::EPSILON);
}

#[test]
fn default_settings() {
    let config = Config::default();
    assert_eq!(
        config.security.detector(),
        SecurityLevel::medium().detector()
    );
    assert_eq!(config.inference.execution_provider, "cpu");
    assert_eq!(config.inference.device, "cpu");
    assert_eq!(config.cameras.rgb, DEFAULT_RGB_CAMERA);
    assert_eq!(config.cameras.ir, "");
    assert!(!config.cameras.emitter_enabled);
    assert_eq!(config.cameras.dark_luma_threshold, 20);
    assert!(config.auth.abort_if_ssh);
    assert!(config.auth.abort_if_lid_closed);
    assert!(!config.auth.require_confirmation_lock_screen);
    assert!(!config.auth.require_confirmation_elevation);
    assert_eq!(config.auth.start_delay_ms, 0);
    assert_eq!(config.enrollment.max_templates, 2);
    assert_eq!(
        config.enrollment.min_face_size_ratio.bits,
        DEFAULT_ENROLLMENT_MIN_FACE_SIZE_RATIO
    );
    assert!(config.liveness.enabled);
    assert_eq!(config.liveness.threshold, double(0.8));
    assert_eq!(config.liveness.max_frames, 40);
    assert!(!config.storage.encrypt_templates);
    assert!(config.load_warnings().is_empty());
}

#[test]
fn loading_warns_about_the_first_problem_of_each_table() {
    let mut config = Config::default();
    config.security.level = "bogus".to_string();
    config.enrollment.min_face_size_ratio = double(0.0);
    config.inference.device = "gpu".to_string();
    config.liveness.max_frames = 0;
    let warnings = config.load_warnings();
    let tables: Vec<Table> = warnings.iter().map(|w| w.table).collect();
    assert_eq!(
        tables,
        vec![
            Table::Security,
            Table::Enrollment,
            Table::Inference,
            Table::Liveness
        ]
    );
    assert_eq!(
        Table::Security.fallback(),
        "using safe fallbacks for invalid security fields"
    );
    assert_eq!(
        warnings[1].problem.message(show),
        "enrollment.min_face_size_ratio must be between 0.1 and 0.75, got 0"
    );
    assert_eq!(
        warnings[3].problem.message(show),
        "liveness.max_frames must be at least 6, got 0"
    );
}

#[test]
fn a_security_preset_leaves_the_storage_table_alone() {
    let mut cfg = Config::default();
    cfg.storage = StorageConfig {
        encrypt_templates: true,
    };
    cfg.security = SecurityLevel::high();
    assert!(cfg.storage.encrypt_templates);
    assert_eq!(CameraConfig::default().rgb, "primary");
}

#[test]
fn settings_are_written_to_a_hidden_temporary_file() {
    assert_eq!(
        temporary_name("config.toml", 4711),
        ".config.toml.4711.tmp"
    );
    assert_eq!(temporary_name("c", 0), ".c.0.tmp");
}

#[test]
fn start_delay_outside_a_lock_does_not_stack_with_resume_grace() {
    let mut auth = AuthConfig::default();
    let lock = AuthSurface::ScreenLock;

    assert_eq!(auth.effective_start_delay_ms(false, lock), 0);
    assert_eq!(auth.effective_start_delay_ms(true, lock), 0);

    auth.start_delay_ms = 5000;
    assert_eq!(auth.effective_start_delay_ms(false, lock), 5000);
    assert_eq!(auth.effective_start_delay_ms(true, lock), 5000);

    auth.resume_grace_ms = 3000;
    assert_eq!(auth.effective_start_delay_ms(false, lock), 5000);
    assert_eq!(auth.effective_start_delay_ms(true, lock), 5000);

    auth.resume_grace_ms = 8000;
    assert_eq!(auth.effective_start_delay_ms(false, lock), 5000);
    assert_eq!(auth.effective_start_delay_ms(true, lock), 8000);

    auth.start_delay_ms = 0;
    assert_eq!(auth.effective_start_delay_ms(false, lock), 0);
    assert_eq!(auth.effective_start_delay_ms(true, lock), 8000);
}

#[test]
fn default_scope_spares_elevation_and_login() {
    let auth = AuthConfig {
        start_delay_ms: 3000,
        ..Default::default()
    };

    assert_eq!(auth.start_delay_scope(), "screen_lock");
    assert_eq!(
        auth.effective_start_delay_ms(false, AuthSurface::ScreenLock),
        3000
    );
    for surface in [AuthSurface::Elevation, AuthSurface::Login] {
        assert_eq!(auth.effective_start_delay_ms(false, surface), 0);
    }
}

#[test]
fn start_delay_is_measured_from_the_lock_not_each_auth() {
    let auth = AuthConfig {
        start_delay_ms: 3000,
        ..Default::default()
    };
    let lock = AuthSurface::ScreenLock;

    assert_eq!(auth.start_delay_after_lock_ms(false, lock, None), 3000);
    assert_eq!(auth.start_delay_after_lock_ms(false, lock, Some(0)), 3000);
    assert_eq!(
        auth.start_delay_after_lock_ms(false, lock, Some(1000)),
        2000
    );
    assert_eq!(auth.start_delay_after_lock_ms(false, lock, Some(3000)), 0);
    assert_eq!(auth.start_delay_after_lock_ms(false, lock, Some(60_000)), 0);
}

#[test]
fn resume_grace_survives_an_already_elapsed_lock_window() {
    let auth = AuthConfig {
        start_delay_ms: 3000,
        resume_grace_ms: 2000,
        ..Default::default()
    };
    let lock = AuthSurface::ScreenLock;

    assert_eq!(auth.start_delay_after_lock_ms(false, lock, Some(60_000)), 0);
    assert_eq!(
        auth.start_delay_after_lock_ms(true, lock, Some(60_000)),
        2000
    );
}

#[test]
fn elapsed_lock_time_never_revives_a_scoped_out_surface() {
    let auth = AuthConfig {
        start_delay_ms: 3000,
        ..Default::default()
    };

    for surface in [AuthSurface::Elevation, AuthSurface::Login] {
        assert_eq!(auth.start_delay_after_lock_ms(false, surface, None), 0);
        assert_eq!(auth.start_delay_after_lock_ms(false, surface, Some(0)), 0);
    }
}

#[test]
fn screen_lock_scope_exempts_elevation_and_login() {
    let auth = AuthConfig {
        start_delay_ms: 3000,
        start_delay_scope: "screen_lock".to_string(),
        ..Default::default()
    };

    assert_eq!(
        auth.effective_start_delay_ms(false, AuthSurface::ScreenLock),
        3000
    );
    assert_eq!(
        auth.effective_start_delay_ms(false, AuthSurface::Elevation),
        0
    );
    assert_eq!(auth.effective_start_delay_ms(false, AuthSurface::Login), 0);
}

#[test]
fn resume_grace_is_not_scoped_away_by_screen_lock() {
    let auth = AuthConfig {
        start_delay_ms: 3000,
        resume_grace_ms: 5000,
        start_delay_scope: "screen_lock".to_string(),
        ..Default::default()
    };

    assert_eq!(
        auth.effective_start_delay_ms(true, AuthSurface::Elevation),
        5000
    );
    assert_eq!(
        auth.effective_start_delay_ms(false, AuthSurface::Elevation),
        0
    );
}

#[test]
fn invalid_scope_falls_back_to_delaying_everything() {
    let auth = AuthConfig {
        start_delay_ms: 3000,
        start_delay_scope: "lockscreen".to_string(),
        ..Default::default()
    };

    assert_eq!(auth.start_delay_scope(), "all");
    assert_eq!(
        auth.effective_start_delay_ms(false, AuthSurface::Elevation),
        3000
    );
}

#[test]
fn lock_screen_and_elevation_confirmation_toggles_are_independent() {
    let lock_only = AuthConfig {
        require_confirmation_lock_screen: true,
        require_confirmation_elevation: false,
        ..Default::default()
    };
    assert!(lock_only.requires_confirmation(AuthSurface::ScreenLock));
    assert!(lock_only.requires_confirmation(AuthSurface::Login));
    assert!(!lock_only.requires_confirmation(AuthSurface::Elevation));
    assert!(!lock_only.requires_confirmation(AuthSurface::Direct));

    let elevation_only = AuthConfig {
        require_confirmation_lock_screen: false,
        require_confirmation_elevation: true,
        ..Default::default()
    };
    assert!(!elevation_only.requires_confirmation(AuthSurface::ScreenLock));
    assert!(!elevation_only.requires_confirmation(AuthSurface::Login));
    assert!(elevation_only.requires_confirmation(AuthSurface::Elevation));
    assert!(!elevation_only.requires_confirmation(AuthSurface::Direct));
}

#[test]
fn elevation_and_login_services_are_classified() {
    for service in ["sudo", "sudo-i", "su", "su-l", "doas", "polkit-1", "pkexec"] {
        assert_eq!(
            classify_pam_service(Some(service)),
            AuthSurface::Elevation,
            "{service}"
        );
    }
    for service in ["login", "sddm", "lightdm", "greetd", "gdm-password"] {
        assert_eq!(
            classify_pam_service(Some(service)),
            AuthSurface::Login,
            "{service}"
        );
    }
}

#[test]
fn unknown_and_ambiguous_services_are_treated_as_screen_locks() {
    for service in [
        "hyprlock-gaze",
        "hyprlock-gaze-simultaneous",
        "gaze",
        "swaylock",
        "some-locker-nobody-has-heard-of",
        "gdm-face",
    ] {
        assert_eq!(
            classify_pam_service(Some(service)),
            AuthSurface::ScreenLock,
            "{service}"
        );
    }
}

#[test]
fn callers_with_no_pam_service_are_direct() {
    assert_eq!(classify_pam_service(None), AuthSurface::Direct);
    assert_eq!(classify_pam_service(Some("")), AuthSurface::Direct);
}

#[test]
fn direct_callers_never_wait_out_the_start_delay() {
    for scope in ["screen_lock", "all"] {
        let auth = AuthConfig {
            start_delay_ms: 3000,
            resume_grace_ms: 5000,
            start_delay_scope: scope.to_string(),
            ..Default::default()
        };

        assert_eq!(
            auth.effective_start_delay_ms(false, AuthSurface::Direct),
            0,
            "{scope}"
        );
        assert_eq!(
            auth.effective_start_delay_ms(true, AuthSurface::Direct),
            5000,
            "{scope}"
        );
        assert_eq!(
            auth.effective_start_delay_ms(false, AuthSurface::ScreenLock),
            3000,
            "{scope}"
        );
    }
}

#[test]
fn start_delay_scopes_have_an_index() {
    assert_eq!(
        AuthConfig::start_delay_scope_index_for_value("screen_lock"),
        1
    );
    assert_eq!(AuthConfig::start_delay_scope_index_for_value("?"), 0);
    assert_eq!(AuthConfig::start_delay_scope_from_index(1), "screen_lock");
    assert_eq!(AuthConfig::start_delay_scope_from_index(2), "all");
}

#[test]
fn enrollment_face_size_ratio_validates_and_falls_back_safely() {
    let default = f64::from_bits(DEFAULT_ENROLLMENT_MIN_FACE_SIZE_RATIO) as f32;
    let mut enrollment = EnrollmentConfig::default();
    assert!(enrollment.validate().is_ok());
    assert_eq!(
        single(enrollment.effective_min_face_size_ratio()),
        default
    );

    enrollment.min_face_size_ratio = double(0.20);
    assert!(enrollment.validate().is_ok());
    assert_eq!(single(enrollment.effective_min_face_size_ratio()), 0.20);

    for invalid in [0.0, 0.09, 0.76, f64::NAN, f64::INFINITY] {
        enrollment.min_face_size_ratio = double(invalid);
        assert!(enrollment.validate().is_err());
        assert_eq!(
            single(enrollment.effective_min_face_size_ratio()),
            default
        );
    }
}

#[test]
fn hybrid_policy_mappings() {
    let mut config = Config::default();

    config.security.level = "low".to_string();
    assert_eq!(config.security.hybrid_policy(), "or");

    config.security.level = "medium".to_string();
    assert_eq!(config.security.hybrid_policy(), "fallback_on_dark");

    config.security.level = "high".to_string();
    assert_eq!(config.security.hybrid_policy(), "fallback_on_dark");

    config.security.level = "maximum".to_string();
    assert_eq!(config.security.hybrid_policy(), "and");

    config.security.level = "unknown".to_string();
    assert_eq!(config.security.hybrid_policy(), "fallback_on_dark");

    config.security.level = "custom".to_string();
    config.security.hybrid_policy = "custom_policy".to_string();
    assert_eq!(config.security.hybrid_policy(), "custom_policy");
}

#[test]
fn validation_errors_accumulate_across_fields() {
    let level = SecurityLevel::custom_with_thresholds(
        "sharp".to_string(),
        "standard".to_string(),
        double(1.5),
        double(-0.1),
        "sometimes".to_string(),
    );

    let fields: Vec<SecurityField> = level
        .validation_errors()
        .iter()
        .map(|err| err.field)
        .collect();
    assert_eq!(
        fields,
        vec![
            SecurityField::ModelQuality,
            SecurityField::Threshold,
            SecurityField::Threshold,
            SecurityField::HybridPolicy,
        ]
    );
}

#[test]
fn option_lists_and_labels_stay_aligned() {
    assert_eq!(SECURITY_LEVEL_OPTIONS.len(), SECURITY_LEVEL_LABELS.len());
    assert_eq!(MODEL_QUALITY_OPTIONS.len(), MODEL_QUALITY_LABELS.len());
    assert_eq!(HYBRID_POLICY_OPTIONS.len(), HYBRID_POLICY_LABELS.len());
    assert_eq!(
        START_DELAY_SCOPE_OPTIONS.len(),
        START_DELAY_SCOPE_LABELS.len()
    );
}

#[test]
fn validate_reports_only_the_first_error() {
    let level = SecurityLevel::custom_with_thresholds(
        "standard".to_string(),
        "standard".to_string(),
        double(1.5),
        double(-0.1),
        String::new(),
    );

    let error = level.validate().unwrap_err();
    let message = error.message(show);
    assert!(message.contains("security.rgb_threshold"), "{message}");
    assert_eq!(
        message,
        "security.rgb_threshold must be between 0.1 and 0.99, got 1.5"
    );
    assert_eq!(level.validation_errors().len(), 2);
}

#[test]
fn an_unknown_level_stops_before_the_custom_checks() {
    let mut level = SecurityLevel::custom_with_thresholds(
        "sharp".to_string(),
        "sharp".to_string(),
        double(1.5),
        double(-0.1),
        "sometimes".to_string(),
    );
    level.level = "paranoid".to_string();

    let errors = level.validation_errors();
    assert_eq!(errors.len(), 1);
    assert_eq!(errors[0].field, SecurityField::Level);
}

#[test]
fn custom_level_index_tracks_the_option_list() {
    assert_eq!(
        SecurityLevel::CUSTOM_LEVEL_INDEX as usize,
        SECURITY_LEVEL_OPTIONS
            .iter()
            .position(|level| *level == "custom")
            .expect("custom must be listed")
    );
}

#[test]
fn index_helpers_fall_back_when_unlisted() {
    assert_eq!(index_of(&SECURITY_LEVEL_OPTIONS, "high", 1), 2);
    assert_eq!(index_of(&SECURITY_LEVEL_OPTIONS, "nonsense", 1), 1);
    assert_eq!(value_at(&MODEL_QUALITY_OPTIONS, 1, "standard"), "accurate");
    assert_eq!(value_at(&MODEL_QUALITY_OPTIONS, 9, "standard"), "standard");
}

#[test]
fn presets_and_indexes_agree() {
    for index in 0..4 {
        let preset = SecurityLevel::preset_from_index(index).unwrap();
        assert_eq!(preset.level_index() as usize, index);
        preset.validate().unwrap();
    }
    assert!(SecurityLevel::preset_from_index(4).is_none());
    for (index, policy) in HYBRID_POLICY_OPTIONS.iter().enumerate() {
        assert_eq!(
            SecurityLevel::hybrid_policy_index_for_value(policy) as usize,
            index
        );
        assert_eq!(&SecurityLevel::hybrid_policy_from_index(index), policy);
    }
    assert_eq!(SecurityLevel::model_quality_index("accurate"), 1);
    assert_eq!(SecurityLevel::model_quality_from_index(5), "standard");
}

#[test]
fn custom_form_seeds_from_the_resolved_preset() {
    let seed = SecurityLevel::high().custom_form();
    assert_eq!(seed.detector, "accurate");
    assert_eq!(seed.recognizer, "accurate");
    assert_eq!(seed.rgb_threshold, double(0.5));
    assert_eq!(seed.ir_threshold, double(0.5));
    assert_eq!(seed.hybrid_policy, "fallback_on_dark");
}

#[test]
fn a_form_resolves_to_what_its_preset_resolved_to() {
    for preset in [
        SecurityLevel::low(),
        SecurityLevel::medium(),
        SecurityLevel::high(),
        SecurityLevel::maximum(),
    ] {
        let seed = preset.custom_form();
        let shown = (single(preset.threshold()) as f64 * 100.0).round() / 100.0;
        assert_eq!(seed.rgb_threshold, double(shown));
        let custom = SecurityLevel::custom_with_thresholds(
            seed.detector,
            seed.recognizer,
            seed.rgb_threshold,
            seed.ir_threshold,
            seed.hybrid_policy,
        );
        custom.validate().unwrap();
        assert_eq!(custom.detector(), preset.detector());
        assert_eq!(custom.recognizer(), preset.recognizer());
        assert_eq!(custom.rgb_threshold(), preset.rgb_threshold());
        assert_eq!(custom.ir_threshold(), preset.ir_threshold());
        assert_eq!(custom.hybrid_policy(), preset.hybrid_policy());
    }
}

#[test]
fn custom_form_keeps_stored_custom_values() {
    let level = SecurityLevel::custom_with_thresholds(
        "standard".to_string(),
        "accurate".to_string(),
        double(0.31),
        double(0.62),
        "and".to_string(),
    );
    let seed = level.custom_form();
    assert_eq!(seed.detector, "standard");
    assert_eq!(seed.recognizer, "accurate");
    assert_eq!(seed.rgb_threshold, double(0.31));
    assert_eq!(seed.ir_threshold, double(0.62));
    assert_eq!(seed.hybrid_policy, "and");
}
