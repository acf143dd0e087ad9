use gaze::dbus::{
    dbus_error_message, dbus_is_file_not_found, dbus_is_not_activatable, BenchmarkResult,
    BusError, CaptureStatus, EnrollPrompt, VerifyResult,
};
use gaze::number::Double;
use gaze::pam::{
    after_terminal, auth_outcome, confirm_target, confirmation_accepted, conversation_confirms,
    detect_desktop_environment, enrollment_disposition, finish_polkit_confirmation,
    graphical_confirm_decision, is_process_of, is_retryable, key_confirms, password_fallback,
    polkit_confirm_message, start_polkit_confirmation, stash_password_and_fallback, AuthOutcome,
    AuthState, Biometric, BiometricEvent, ConfirmStep, EnrollmentDisposition, GraphicalConfirm,
    PolkitStep, CONFIRMATION_REQUEST, DEPRECATION_NOTICE, PAM_AUTHINFO_UNAVAIL, PAM_AUTH_ERR,
    PAM_SUCCESS,
};

fn benchmark_result(requested_device: &str, fallback_reason: &str) -> BenchmarkResult {
    let number = |x: f64| Double { bits: x.to_bits() };
    BenchmarkResult {
        component: "Face detector".to_string(),
        execution_provider: "cpu".to_string(),
        device: "cpu".to_string(),
        requested_execution_provider: "cpu".to_string(),
        requested_device: requested_device.to_string(),
        fallback_reason: fallback_reason.to_string(),
        mean_ms: number(1.0),
        p95_ms: number(2.0),
        min_ms: number(0.5),
        fps: number(1000.0),
    }
}

#[test]
fn a_device_fallback_is_not_reported_as_configured() {
    assert!(!benchmark_result("npu", "no npu driver").ran_as_configured());
    assert!(!benchmark_result("npu", "").ran_as_configured());
}

#[test]
fn a_run_without_fallback_is_as_configured() {
    assert!(benchmark_result("cpu", "").ran_as_configured());
    assert!(!benchmark_result("cpu", "slow").ran_as_configured());
}

#[test]
fn enum_display_strings_are_user_facing_messages() {
    assert_eq!(
        CaptureStatus::NoFace.to_string(),
        "Please look at the camera..."
    );
    assert_eq!(CaptureStatus::TooDark.to_string(), "Need more light...");
    assert_eq!(CaptureStatus::Ready.to_string(), "Hold still...");
    assert_eq!(CaptureStatus::Usable.to_string(), "Hold still...");
    assert_eq!(
        EnrollPrompt::LookLeft.to_string(),
        "Turn your face slightly left"
    );
    assert_eq!(VerifyResult::VerifyNoMatch.as_ref(), "VerifyNoMatch");
}

#[test]
fn serde_plain_uses_kebab_case_wire_values() {
    assert_eq!(CaptureStatus::TooClose.wire_name(), "too-close");
    assert_eq!(CaptureStatus::TooDark.wire_name(), "too-dark");
    assert_eq!(CaptureStatus::Ready.wire_name(), "ready");
    assert_eq!(CaptureStatus::Usable.wire_name(), "usable");
    assert_eq!(EnrollPrompt::LookStraight.wire_name(), "look-straight");
    assert_eq!(VerifyResult::VerifyMatch.wire_name(), "verify-match");

    assert_eq!(
        CaptureStatus::from_wire_name("not-centered").unwrap(),
        CaptureStatus::NotCentered
    );
    assert_eq!(
        EnrollPrompt::from_wire_name("db-failed").unwrap(),
        EnrollPrompt::DbFailed
    );
    assert_eq!(
        VerifyResult::from_wire_name("verify-no-match").unwrap(),
        VerifyResult::VerifyNoMatch
    );
}

#[test]
fn names_on_the_bus_read_back() {
    for status in [
        CaptureStatus::Unused,
        CaptureStatus::NoFace,
        CaptureStatus::TooDark,
        CaptureStatus::Clipped,
        CaptureStatus::NotCentered,
        CaptureStatus::TooFar,
        CaptureStatus::TooClose,
        CaptureStatus::Ready,
        CaptureStatus::Usable,
    ] {
        assert_eq!(
            CaptureStatus::from_wire_name(status.wire_name()),
            Some(status)
        );
    }
    assert_eq!(CaptureStatus::from_wire_name("Ready"), None);
    assert_eq!(EnrollPrompt::from_wire_name(""), None);
}

#[test]
fn statuses_have_a_priority() {
    assert_eq!(CaptureStatus::Usable.priority(), 5);
    assert_eq!(CaptureStatus::Ready.priority(), 4);
    assert_eq!(CaptureStatus::Clipped.priority(), 3);
    assert_eq!(CaptureStatus::TooDark.priority(), 2);
    assert_eq!(CaptureStatus::NoFace.priority(), 1);
    assert_eq!(CaptureStatus::Unused.priority(), 0);
}

fn bus_error(err: zbus::Error) -> BusError {
    BusError {
        text: err.to_string(),
    }
}

#[test]
fn dbus_error_helpers_parse_display_text() {
    let err = bus_error(zbus::Error::Failure("org.example.Error: useful detail".to_string()));
    assert_eq!(dbus_error_message(&err), "useful detail");
    assert!(!dbus_is_file_not_found(&err));

    let err = bus_error(zbus::Error::Failure("FileNotFound: missing face".to_string()));
    assert_eq!(dbus_error_message(&err), "missing face");
    assert!(dbus_is_file_not_found(&err));

    let err = bus_error(zbus::Error::Failure("plain failure".to_string()));
    assert_eq!(dbus_error_message(&err), "plain failure");

    let err = bus_error(zbus::Error::Failure(
        "org.freedesktop.DBus.Error.ServiceUnknown: service is not activatable".to_string(),
    ));
    assert!(dbus_is_not_activatable(&err));

    let err = bus_error(zbus::Error::Failure("ServiceUnknown".to_string()));
    assert!(dbus_is_not_activatable(&err));

    let err = bus_error(zbus::Error::Failure("camera unavailable".to_string()));
    assert!(!dbus_is_not_activatable(&err));
}

#[test]
fn error_texts_are_trimmed_after_the_first_colon() {
    let message_for_user = |text: &str| {
        dbus_error_message(&BusError {
            text: text.to_string(),
        })
    };
    assert_eq!(message_for_user("a: b: c"), "b: c");
    assert_eq!(message_for_user("a:\u{2003} b\t\u{a0}"), "b");
    assert_eq!(message_for_user(" no colon "), " no colon ");
    assert_eq!(message_for_user("a:"), "");
}

#[test]
fn gnome_with_active_extension_confirms_through_it() {
    assert_eq!(
        graphical_confirm_decision("GNOME", true, false),
        GraphicalConfirm::GnomeExtension
    );
}

#[test]
fn gnome_without_extension_fails_closed() {
    assert_eq!(
        graphical_confirm_decision("GNOME", false, false),
        GraphicalConfirm::FailClosed
    );
}

#[test]
fn other_desktops_fail_closed_without_a_channel() {
    for de in ["KDE", "Hyprland", "LXQt", "Other"] {
        assert_eq!(
            graphical_confirm_decision(de, false, false),
            GraphicalConfirm::FailClosed,
            "{de} has no confirm channel and must fail closed, not bypass"
        );
    }
}

#[test]
fn greeter_confirms_through_extension_when_active() {
    // A greeter's DE detection is unreliable, so the flag decides -- even
    // if `/proc` scanning reported a non-GNOME desktop.
    assert_eq!(
        graphical_confirm_decision("Other", true, true),
        GraphicalConfirm::GnomeExtension
    );
}

#[test]
fn greeter_never_bypasses_and_fails_closed_without_extension() {
    for de in ["GNOME", "KDE", "Hyprland", "Other"] {
        assert_eq!(
            graphical_confirm_decision(de, false, true),
            GraphicalConfirm::FailClosed,
            "a greeter ({de}) must fail closed, never bypass, without a confirm channel"
        );
    }
}

#[test]
fn retryable_errors_are_detected_from_error_text() {
    let err = bus_error(zbus::Error::Failure("RETRYABLE: camera is busy".to_string()));
    assert!(is_retryable(&err));
}

#[test]
fn ordinary_errors_are_not_retryable() {
    let err = bus_error(zbus::Error::Failure("camera is unavailable".to_string()));
    assert!(!is_retryable(&err));
}

#[test]
fn enrollment_gate_ignores_unenrolled_users_but_fails_closed_on_daemon_errors() {
    assert_eq!(
        enrollment_disposition::<()>(Ok(true)),
        EnrollmentDisposition::Continue
    );
    assert_eq!(
        enrollment_disposition::<()>(Ok(false)),
        EnrollmentDisposition::Ignore
    );
    assert_eq!(
        enrollment_disposition::<&str>(Err("daemon unavailable")),
        EnrollmentDisposition::Unavailable
    );
}

#[test]
fn confirmation_accepts_only_the_ack_token() {
    assert!(confirmation_accepted(Some("CONFIRM")));
    assert!(!confirmation_accepted(Some("")));
    assert!(!confirmation_accepted(Some("hunter2")));
    assert!(!confirmation_accepted(Some("confirm")));
    assert!(!confirmation_accepted(None));
}

#[test]
fn polkit_confirm_message_uses_extension_token_only_on_gnome() {
    assert_eq!(polkit_confirm_message("GNOME"), CONFIRMATION_REQUEST);
    assert_eq!(
        polkit_confirm_message("KDE"),
        "Face Verified. Press OK to confirm."
    );
    assert_eq!(
        polkit_confirm_message("Hyprland"),
        "Face Verified. Press Authenticate to confirm."
    );
    assert_eq!(
        polkit_confirm_message("Other"),
        "Face Verified. Press Enter to confirm."
    );
}

#[test]
fn too_dark_no_match_is_reported_as_unavailable() {
    assert_eq!(
        auth_outcome(VerifyResult::VerifyNoMatch, Some(CaptureStatus::TooDark)),
        AuthOutcome::Unavailable
    );
    assert_eq!(
        auth_outcome(VerifyResult::VerifyNoMatch, Some(CaptureStatus::NoFace)),
        AuthOutcome::Unavailable
    );
    assert_eq!(
        auth_outcome(VerifyResult::VerifyNoMatch, Some(CaptureStatus::Usable)),
        AuthOutcome::NoMatch
    );
    assert_eq!(
        auth_outcome(VerifyResult::VerifyMatch, Some(CaptureStatus::TooDark)),
        AuthOutcome::Match
    );
}

#[test]
fn deprecation_notice_contains_expected_guidance() {
    assert!(DEPRECATION_NOTICE.contains("pam_gaze_grosshack.so is deprecated"));
    assert!(DEPRECATION_NOTICE.contains("pam_gaze.so simultaneous"));
    assert!(DEPRECATION_NOTICE.contains("gaze doctor"));
}

#[test]
fn recognition_remembers_what_the_camera_saw_last() {
    let mut recognition = Biometric::new();
    assert_eq!(
        recognition.handle(BiometricEvent::Status(CaptureStatus::TooDark)),
        None
    );
    assert_eq!(
        recognition.handle(BiometricEvent::Verified(VerifyResult::VerifyNoMatch)),
        Some(AuthOutcome::Unavailable)
    );
    recognition.handle(BiometricEvent::Status(CaptureStatus::Ready));
    assert_eq!(
        recognition.handle(BiometricEvent::Verified(VerifyResult::VerifyNoMatch)),
        Some(AuthOutcome::NoMatch)
    );
    assert_eq!(
        recognition.handle(BiometricEvent::StreamsEnded),
        Some(AuthOutcome::Unavailable)
    );
    assert_eq!(
        Biometric::new().handle(BiometricEvent::Verified(VerifyResult::VerifyMatch)),
        Some(AuthOutcome::Match)
    );
}

#[test]
fn keys_and_answers_that_confirm() {
    assert!(key_confirms(b'\n') && key_confirms(b'\r'));
    assert!(!key_confirms(0x1b) && !key_confirms(b' '));
    assert_eq!(after_terminal(Some(false)), ConfirmStep::Done(false));
    assert_eq!(after_terminal(None), ConfirmStep::Converse);
    assert!(conversation_confirms(Some("")));
    assert!(!conversation_confirms(Some("x")));
    assert!(!conversation_confirms(None));
}

#[test]
fn typed_passwords_go_to_the_next_module() {
    let mut state = AuthState::new();
    assert!(state.response().is_none());
    assert!(password_fallback(&state).is_none());
    state.prompt_started();
    assert!(state.started && !state.finished);
    state.prompt_finished(Some("hunter2".to_string()));
    assert_eq!(state.response(), Some(Some("hunter2".to_string())));
    let ret = password_fallback(&state).unwrap();
    assert_eq!(ret.code, PAM_AUTHINFO_UNAVAIL);
    assert_eq!(ret.stash.as_deref(), Some("hunter2"));

    let mut closed = AuthState::new();
    closed.prompt_finished(None);
    let ret = password_fallback(&closed).unwrap();
    assert_eq!((ret.code, ret.stash), (PAM_AUTH_ERR, None));

    let ret = stash_password_and_fallback("a\0b");
    assert_eq!((ret.code, ret.stash), (PAM_AUTH_ERR, None));
}

#[test]
fn graphical_confirmation_ends_in_success_password_or_failure() {
    assert!(matches!(
        start_polkit_confirmation("GNOME", false),
        PolkitStep::WaitForPassword
    ));
    assert!(
        matches!(start_polkit_confirmation("GNOME", true), PolkitStep::Say(text) if text == CONFIRMATION_REQUEST)
    );
    assert!(matches!(
        start_polkit_confirmation("KDE", false),
        PolkitStep::Say(_)
    ));
    let code = |de: &str, answer: Option<&str>| {
        finish_polkit_confirmation(de, answer.map(|s| s.to_string())).code
    };
    assert_eq!(code("GNOME", Some("CONFIRM")), PAM_SUCCESS);
    assert_eq!(code("GNOME", Some("")), PAM_AUTHINFO_UNAVAIL);
    assert_eq!(code("KDE", Some("")), PAM_SUCCESS);
    assert_eq!(code("KDE", Some("CONFIRM")), PAM_AUTHINFO_UNAVAIL);
    assert_eq!(code("KDE", None), PAM_AUTH_ERR);
    assert_eq!(code("Other", Some("a\0")), PAM_AUTH_ERR);
}

#[test]
fn the_session_decides_whom_to_confirm_with() {
    assert_eq!(
        confirm_target(Some((42, "greeter".to_string())), Some(7)),
        (Some(42), true)
    );
    assert_eq!(
        confirm_target(Some((42, "user".to_string())), Some(7)),
        (Some(42), false)
    );
    assert_eq!(confirm_target(None, Some(7)), (Some(7), false));
    assert_eq!(confirm_target(None, None), (None, false));
}

#[test]
fn desktops_are_told_by_their_processes() {
    let comms = |names: &[&str]| names.iter().map(|s| s.to_string()).collect::<Vec<_>>();
    assert_eq!(
        detect_desktop_environment(&comms(&["bash\n", "gnome-shell\n"])),
        "GNOME"
    );
    assert_eq!(
        detect_desktop_environment(&comms(&["gnome-shell\n", "Hyprland\n"])),
        "Hyprland"
    );
    assert_eq!(
        detect_desktop_environment(&comms(&["gnome-shell", "hyprland", "lxqt-policykit"])),
        "KDE"
    );
    assert_eq!(detect_desktop_environment(&comms(&["sway"])), "Other");
    assert!(is_process_of(true, "123", 1000, 1000));
    assert!(!is_process_of(true, "self", 1000, 1000));
    assert!(!is_process_of(false, "123", 1000, 1000));
    assert!(!is_process_of(true, "123", 0, 1000));
}
