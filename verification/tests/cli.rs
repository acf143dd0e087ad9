use gaze::commands::{
    command_may_be_challenged, command_requires_root, command_target_user, config_report,
    current_user, escalation, resolve_current_user, startup, Commands, ReportValue, Task,
};
use gaze::config::Config;
use gaze::dbus::{BusError, CaptureStatus, EnrollPrompt, VerifyResult};
use gaze::number::Double;
use gaze::reports::{
    change_report, faces_report, matching_faces, Change, ChangeReply, FacesReport,
};
use gaze::sessions::{
    auth_setback, capture_tone, close_authentication, close_enrollment, enroll_setback, enrolled,
    AuthEnd, AuthEvent, AuthLine, AuthSession, AuthSetback, EnrollEnd, EnrollEvent, EnrollSession,
    EnrollSetback, EnrollUpdate, Enrolled, FaceScore, FacesReply, Tone, Verification,
};
use gaze::uninstall::{
    after_plan, after_question, build_uninstall_plan, command_note, data_notice,
    remove_arch_pam_configuration_cmd, remove_pacman_packages_cmd,
    remove_unmanaged_install_artifacts_cmd, reset_gnome_user_settings_cmd, step_number, CommandEnd,
    Tools, UninstallStep,
};

const NOTHING: Tools = Tools {
    gnome_extensions: false,
    pam_auth_update: false,
    authselect: false,
    pacman: false,
    apt_get: false,
    dnf: false,
    semodule: false,
};

fn plan_has(plan: &[(&'static str, String)], label: &str) -> bool {
    plan.iter().any(|(candidate, _)| *candidate == label)
}

fn face(name: &str) -> String {
    name.to_string()
}

fn double(x: f64) -> Double {
    Double { bits: x.to_bits() }
}

fn bus_error(text: &str) -> BusError {
    BusError {
        text: text.to_string(),
    }
}

#[test]
fn keyring_management_requires_root_and_parses_user_and_forget() {
    let command = Commands::Keyring {
        user: Some("alice".to_string()),
        forget: true,
    };
    assert_eq!(command_requires_root(&command), Some("keyring"));
    assert!(
        matches!(command.into_task("bob".to_string()), Task::ForgetKeyring { user } if user == "alice")
    );
    let command = Commands::Keyring {
        user: None,
        forget: false,
    };
    assert_eq!(command_requires_root(&command), Some("keyring"));
    assert!(
        matches!(command.into_task("bob".to_string()), Task::EnrollKeyring { user } if user == "bob")
    );
}

#[test]
fn face_and_config_writes_require_root() {
    for (command, expected) in [
        (
            Commands::AddFace {
                user: None,
                face: face("default"),
            },
            "add-face",
        ),
        (
            Commands::RefineFace {
                user: None,
                face: face("default"),
            },
            "refine-face",
        ),
        (
            Commands::RemoveFace {
                user: None,
                face: face("default"),
            },
            "remove-face",
        ),
        (
            Commands::RenameFace {
                user: None,
                from: face("old"),
                to: face("new"),
            },
            "rename-face",
        ),
        (Commands::ClearUser { user: None }, "clear-user"),
        (Commands::Config { show: false }, "config"),
    ] {
        assert_eq!(
            command_requires_root(&command),
            Some(expected),
            "{command:?} must require root"
        );
    }
}

#[test]
fn read_only_commands_stay_unprivileged() {
    for command in [
        Commands::Auth {
            user: None,
            verbose: false,
            silent: false,
        },
        Commands::ListFaces { user: None },
        Commands::Doctor {
            user: None,
            benchmark: false,
        },
        Commands::Config { show: true },
    ] {
        assert_eq!(
            command_requires_root(&command),
            None,
            "{command:?} must stay unprivileged"
        );
    }
}

#[test]
fn only_cross_user_reads_need_a_tty_polkit_agent() {
    let command = Commands::ListFaces {
        user: Some("alice".to_string()),
    };
    assert_eq!(command_target_user(&command), Some("alice"));

    let command = Commands::Doctor {
        user: Some("alice".to_string()),
        benchmark: false,
    };
    assert_eq!(command_target_user(&command), Some("alice"));

    let command = Commands::Auth {
        user: None,
        verbose: false,
        silent: false,
    };
    assert_eq!(command_target_user(&command), None);

    let command = Commands::AddFace {
        user: None,
        face: face("default"),
    };
    assert_eq!(command_target_user(&command), None);
}

#[test]
fn challenges_come_only_to_others_than_root_about_others() {
    let about_alice = Commands::ListFaces {
        user: Some("alice".to_string()),
    };
    assert!(command_may_be_challenged(&about_alice, false, "bob"));
    assert!(!command_may_be_challenged(&about_alice, false, "alice"));
    assert!(!command_may_be_challenged(&about_alice, true, "bob"));

    let silent = Commands::Auth {
        user: Some("alice".to_string()),
        verbose: false,
        silent: true,
    };
    let start = startup(&silent, false, "bob");
    assert!(start.silent);
    assert!(!start.agent);
    assert_eq!(start.escalate, None);
    assert!(startup(&about_alice, false, "bob").agent);
    let write = Commands::ClearUser { user: None };
    assert_eq!(startup(&write, false, "bob").escalate, Some("clear-user"));
    assert_eq!(startup(&write, true, "bob").escalate, None);
}

#[test]
fn resolve_current_user_prefers_the_account_behind_sudo() {
    assert_eq!(
        resolve_current_user(Some("alice".into()), Some("root".into())),
        "alice"
    );
    assert_eq!(resolve_current_user(None, Some("alice".into())), "alice");
    assert_eq!(
        resolve_current_user(Some(String::new()), Some("alice".into())),
        "alice"
    );
    assert_eq!(resolve_current_user(None, None), "root");
}

#[test]
fn only_root_can_have_come_through_sudo() {
    assert_eq!(
        current_user(false, Some("alice".into()), Some("bob".into())),
        "bob"
    );
    assert_eq!(
        current_user(true, Some("alice".into()), Some("root".into())),
        "alice"
    );
}

#[test]
fn escalation_happens_once_and_needs_sudo() {
    assert_eq!(
        escalation("add-face", true, true).unwrap_err(),
        "gaze add-face re-ran itself but did not gain root privileges"
    );
    assert_eq!(
        escalation("config", false, false).unwrap_err(),
        "gaze config needs root privileges, but sudo was not found"
    );
    assert_eq!(
        escalation("config", false, true).unwrap(),
        vec!["--", "env", "GAZE_ESCALATED=1"]
    );
}

#[test]
fn commands_become_tasks_for_the_named_or_current_user() {
    let refine = Commands::RefineFace {
        user: None,
        face: face("work"),
    };
    assert!(
        matches!(refine.into_task("bob".to_string()), Task::Enroll { user, face, refine: true } if user == "bob" && face == "work")
    );
    let show = Commands::Config { show: true }.into_task("bob".to_string());
    assert!(matches!(show, Task::ShowConfig));
    assert!(show.needs_daemon());
    let uninstall = Commands::Uninstall {
        yes: true,
        keep_data: true,
        dry_run: false,
    }
    .into_task("bob".to_string());
    assert!(!uninstall.needs_daemon());
    assert!(matches!(
        uninstall,
        Task::Uninstall {
            yes: true,
            keep_data: true,
            dry_run: false
        }
    ));
}

#[test]
fn the_settings_report_resolves_what_is_not_set() {
    let lines = config_report(&Config::default());
    assert_eq!(lines.len(), 25);
    assert_eq!(lines[0].0, "inference.execution_provider:");
    assert!(matches!(&lines[3].1, ReportValue::Text(s) if s == "det_500m.onnx"));
    assert!(matches!(lines[5].1, ReportValue::Single(t) if f32::from_bits(t.bits) == 0.4));
    assert!(matches!(&lines[7].1, ReportValue::Text(s) if s == "\"\" (resolved: fallback_on_dark)"));
    assert!(matches!(&lines[11].1, ReportValue::Text(s) if s == "20"));
    assert!(matches!(&lines[12].1, ReportValue::Text(s) if s == "true"));
    assert_eq!(lines[24].0, "storage.encrypt_templates:");
    assert!(matches!(&lines[24].1, ReportValue::Text(s) if s == "false"));

    let mut config = Config::default();
    config.security.hybrid_policy = "and".to_string();
    config.auth.resume_grace_ms = 1234567890123;
    let lines = config_report(&config);
    assert!(matches!(&lines[7].1, ReportValue::Text(s) if s == "and"));
    assert!(matches!(&lines[16].1, ReportValue::Text(s) if s == "1234567890123"));
}

#[test]
fn capture_statuses_have_a_tone() {
    assert_eq!(capture_tone(CaptureStatus::Usable), Tone::Good);
    assert_eq!(capture_tone(CaptureStatus::NoFace), Tone::Error);
    assert_eq!(capture_tone(CaptureStatus::TooFar), Tone::Warn);
}

fn update(prompt: EnrollPrompt, is_done: bool) -> EnrollEvent {
    EnrollEvent::Update(EnrollUpdate {
        progress: 3,
        max: 5,
        is_done,
        prompt,
        time_remaining: double(1.5),
    })
}

#[test]
fn an_enrollment_follows_the_daemon() {
    let mut session = EnrollSession::new();
    assert_eq!(session.prompt, "Waiting for capture prompt");
    assert_eq!(session.max, 100);
    assert_eq!(session.handle(update(EnrollPrompt::LookUp, false)), None);
    assert_eq!(session.prompt, "Tilt your face slightly up");
    assert_eq!((session.progress, session.max), (3, 5));
    assert_eq!(session.time_remaining, Some(double(1.5)));
    assert_eq!(
        session.handle(EnrollEvent::Capture(CaptureStatus::TooDark)),
        None
    );
    assert_eq!(session.capture, "Need more light...");
    assert_eq!(session.capture_tone, Tone::Warn);
    session.tick = u64::MAX;
    assert_eq!(session.handle(EnrollEvent::Tick), None);
    assert_eq!(session.tick, 0);
    assert_eq!(
        session.handle(update(EnrollPrompt::Completed, false)),
        None
    );
    assert_eq!(
        session.handle(update(EnrollPrompt::Completed, true)),
        Some(EnrollEnd::Completed)
    );
    let closing = close_enrollment(EnrollEnd::Completed, "alice", "work", &session);
    assert_eq!(closing.message, "Captures saved for alice/work!");
    assert_eq!(closing.exit_code, None);
    assert!(!closing.stop);
}

#[test]
fn an_enrollment_can_fail_or_be_cancelled() {
    let mut session = EnrollSession::new();
    assert_eq!(
        session.handle(update(EnrollPrompt::CameraFailed, false)),
        Some(EnrollEnd::Failed)
    );
    assert_eq!(
        close_enrollment(EnrollEnd::Failed, "alice", "work", &session).message,
        "Enrollment failed: Camera error during enrollment"
    );
    assert_eq!(
        session.handle(update(EnrollPrompt::LookLeft, true)),
        Some(EnrollEnd::Failed)
    );
    assert_eq!(
        session.handle(EnrollEvent::StreamEnded),
        Some(EnrollEnd::Failed)
    );
    assert_eq!(
        session.handle(EnrollEvent::CancelConfirmed),
        Some(EnrollEnd::Cancelled)
    );
    let closing = close_enrollment(EnrollEnd::Cancelled, "alice", "work", &session);
    assert!(closing.stop);
    assert_eq!(closing.exit_code, Some(130));
    assert_eq!(closing.message, "Enrollment cancelled");
    let event = EnrollEvent::Update(EnrollUpdate {
        progress: 0,
        max: 5,
        is_done: false,
        prompt: EnrollPrompt::LookUp,
        time_remaining: double(0.0),
    });
    session.handle(event);
    assert_eq!(session.time_remaining, None);
}

fn score(name: &str, rgb: (f64, bool), ir: (f64, bool)) -> FaceScore {
    FaceScore {
        name: name.to_string(),
        rgb_similarity: double(0.0),
        rgb_percent: double(rgb.0),
        rgb_passed: rgb.1,
        ir_similarity: double(0.0),
        ir_percent: double(ir.0),
        ir_passed: ir.1,
    }
}

fn verified(result: VerifyResult, faces: Vec<FaceScore>) -> AuthEnd {
    AuthEnd::Verified(Verification {
        result,
        faces,
        rgb_status: CaptureStatus::Ready,
        ir_status: CaptureStatus::Unused,
    })
}

#[test]
fn an_authentication_reports_the_first_face_that_passed() {
    let faces = vec![
        score("a", (99.0, false), (99.0, false)),
        score("b", (80.0, true), (90.0, true)),
        score("c", (100.0, true), (100.0, true)),
    ];
    let closing = close_authentication(&verified(VerifyResult::VerifyMatch, faces), false);
    assert_eq!(closing.exit_code, 0);
    assert!(!closing.stop);
    assert!(
        matches!(closing.line, Some(AuthLine::Face { ref face, percent }) if face == "b" && percent == double(90.0))
    );

    let infrared = vec![score("d", (80.0, false), (70.0, true))];
    let closing = close_authentication(&verified(VerifyResult::VerifyMatch, infrared), false);
    assert!(
        matches!(closing.line, Some(AuthLine::Face { ref face, percent }) if face == "d" && percent == double(70.0))
    );

    let closing = close_authentication(&verified(VerifyResult::VerifyMatch, Vec::new()), false);
    assert!(matches!(closing.line, Some(AuthLine::User)));
    let closing = close_authentication(&verified(VerifyResult::VerifyMatch, Vec::new()), true);
    assert!(closing.line.is_none());
    assert_eq!(closing.exit_code, 0);
}

#[test]
fn only_a_match_exits_with_success() {
    let closing = close_authentication(&verified(VerifyResult::VerifyNoMatch, Vec::new()), false);
    assert_eq!(closing.exit_code, 1);
    assert!(matches!(closing.line, Some(AuthLine::Failed)));
    let closing = close_authentication(&AuthEnd::StreamEnded, true);
    assert_eq!(closing.exit_code, 1);
    assert!(closing.line.is_none());
    let closing = close_authentication(&AuthEnd::Cancelled, false);
    assert_eq!(closing.exit_code, 130);
    assert!(closing.stop);
    assert!(closing.line.is_none());
}

#[test]
fn an_authentication_shows_what_the_camera_sees() {
    let mut session = AuthSession::new("alice");
    assert_eq!(session.status, "Scanning face for alice...");
    assert!(session
        .handle(AuthEvent::Capture(CaptureStatus::TooClose))
        .is_none());
    assert_eq!(session.status, "Please back up...");
    assert_eq!(session.tone, Tone::Warn);
    session.handle(AuthEvent::Capture(CaptureStatus::Usable));
    assert_eq!(session.status, "Scanning face for alice...");
    session.handle(AuthEvent::Diagnostic("one".to_string()));
    session.handle(AuthEvent::Diagnostic("two".to_string()));
    assert_eq!(session.diagnostics, vec!["one", "two"]);
    session.handle(AuthEvent::Tick);
    assert_eq!(session.tick, 1);
    assert!(matches!(
        session.handle(AuthEvent::Cancel),
        Some(AuthEnd::Cancelled)
    ));
    assert!(matches!(
        session.handle(AuthEvent::StreamEnded),
        Some(AuthEnd::StreamEnded)
    ));
}

#[test]
fn an_unknown_user_has_no_faces() {
    assert_eq!(
        enrolled(&FacesReply::Faces(vec![(face("a"), 1, true, false)])),
        Enrolled::Yes
    );
    assert_eq!(enrolled(&FacesReply::Faces(Vec::new())), Enrolled::No);
    assert_eq!(
        enrolled(&FacesReply::Failed(bus_error("FileNotFound: x"))),
        Enrolled::No
    );
    assert_eq!(
        enrolled(&FacesReply::Failed(bus_error("busy"))),
        Enrolled::Unknown
    );
}

#[test]
fn faces_are_listed_in_order_with_their_counts() {
    let reply = FacesReply::Faces(vec![
        (face("home"), 1, true, false),
        (face("work"), 3, false, true),
    ]);
    match faces_report(&reply) {
        FacesReport::Listing {
            count,
            ending,
            faces,
        } => {
            assert_eq!((count, ending), (2, "s"));
            assert_eq!(faces[0].face, "home");
            assert_eq!(faces[0].captures_ending, "");
            assert!(faces[0].has_rgb && !faces[0].has_ir);
            assert_eq!((faces[1].captures, faces[1].captures_ending), (3, "s"));
        }
        other => panic!("{other:?}"),
    }
    assert!(matches!(
        faces_report(&FacesReply::Faces(Vec::new())),
        FacesReport::NoneFound
    ));
    assert!(matches!(
        faces_report(&FacesReply::Failed(bus_error("x.FileNotFound"))),
        FacesReport::NoneFound
    ));
    assert!(
        matches!(faces_report(&FacesReply::Failed(bus_error("org.x: denied "))), FacesReport::Failed(m) if m == "denied")
    );
    let faces = vec![
        (face("home"), 1, true, false),
        (face("work"), 1, true, false),
        (face("hotel"), 1, true, false),
    ];
    assert_eq!(matching_faces(&faces, "ho"), vec!["home", "hotel"]);
    assert_eq!(matching_faces(&faces, "x"), Vec::<String>::new());
}

#[test]
fn changes_are_reported() {
    let remove = Change::RemoveFace {
        user: "alice".to_string(),
        face: "work".to_string(),
    };
    assert_eq!(
        change_report(&remove, &ChangeReply::Changed(true)),
        (Tone::Good, "Face 'work' removed for 'alice'".to_string())
    );
    assert_eq!(
        change_report(&remove, &ChangeReply::Changed(false)),
        (Tone::Warn, "Face 'work' not found for 'alice'".to_string())
    );
    let rename = Change::RenameFace {
        user: "alice".to_string(),
        from: "work".to_string(),
        to: "home".to_string(),
    };
    assert_eq!(
        change_report(&rename, &ChangeReply::Changed(true)).1,
        "Face 'work' renamed to 'home' for 'alice'"
    );
    assert_eq!(
        change_report(&rename, &ChangeReply::Changed(false)).1,
        "Face 'work' not found for 'alice'"
    );
    let clear = Change::ClearUser {
        user: "alice".to_string(),
    };
    assert_eq!(
        change_report(&clear, &ChangeReply::Changed(true)).1,
        "All data cleared for 'alice'"
    );
    assert_eq!(
        change_report(&clear, &ChangeReply::Changed(false)).1,
        "No data found for 'alice'"
    );
    assert_eq!(
        change_report(&clear, &ChangeReply::Failed(bus_error("a: b"))),
        (Tone::Error, "Failed to clear user: b".to_string())
    );
    assert_eq!(
        change_report(&rename, &ChangeReply::Failed(bus_error("b"))).1,
        "Failed to rename face: b"
    );
}

#[test]
fn uninstall_plan_preserves_face_data_only_when_requested() {
    assert!(plan_has(
        &build_uninstall_plan(&NOTHING, false),
        "Remove enrolled face data"
    ));
    assert!(!plan_has(
        &build_uninstall_plan(&NOTHING, true),
        "Remove enrolled face data"
    ));
}

#[test]
fn uninstall_always_removes_unmanaged_development_artifacts() {
    let plan = build_uninstall_plan(&NOTHING, true);
    assert!(plan_has(&plan, "Remove unmanaged development links/files"));

    let command = remove_unmanaged_install_artifacts_cmd();
    for path in [
        "/usr/bin/gaze",
        "/usr/local/bin/gazed",
        "/usr/lib/security/pam_gaze.so",
        "/usr/share/gnome-shell/extensions/gaze@gundulabs.com/extension.js",
        "/usr/share/polkit-1/actions/com.gundulabs.gaze.policy",
        "/usr/local/share/gaze-dev",
    ] {
        assert!(command.contains(path), "missing cleanup for {path}");
    }
    assert!(command.contains("[ -L \"$p\" ] || ! owned_by_pkg \"$p\""));
    assert!(command.contains("sudo rm -rf /etc/systemd/system/gazed.service.d"));
}

#[test]
fn uninstall_plan_removes_per_user_extensions_and_core_dumps() {
    let plan = build_uninstall_plan(&NOTHING, true);
    assert!(plan_has(&plan, "Remove per-user GNOME extension copies"));
    assert!(plan_has(&plan, "Remove gaze core dumps"));

    let (_, cmd) = plan
        .iter()
        .find(|(desc, _)| *desc == "Remove per-user GNOME extension copies")
        .unwrap();
    assert!(cmd.contains("/home/*/.local/share/gnome-shell/extensions"));
    assert!(cmd.contains("/root/.local/share/gnome-shell/extensions"));

    let (_, cmd) = plan
        .iter()
        .find(|(desc, _)| *desc == "Remove gaze core dumps")
        .unwrap();
    assert!(cmd.contains("/var/lib/systemd/coredump"));
}

#[test]
fn pacman_removal_names_debug_split_packages_first() {
    let command = remove_pacman_packages_cmd();
    assert!(command.contains("gaze-bin"));
    assert!(command.contains("\"$base-debug\" \"$base\""));
}

#[test]
fn arch_pam_cleanup_handles_package_and_dev_link_markers() {
    let command = remove_arch_pam_configuration_cmd();
    assert!(command.contains("/etc/gaze/pam-arch.configured"));
    assert!(command.contains("/etc/gaze/pam-arch.dev-configured"));
    assert!(command.contains("sed -i '/pam_gaze/d'"));
    assert!(command.contains("/etc/pam.d/sudo"));
    assert!(command.contains("/etc/gaze/pam-arch.polkit-configured"));
    assert!(command.contains("/etc/gaze/pam-arch.polkit-dev-configured"));
    assert!(command.contains("rm -f"));
}

#[test]
fn the_plan_follows_the_installed_tools() {
    let plan = build_uninstall_plan(&NOTHING, true);
    let labels: Vec<&str> = plan.iter().map(|(label, _)| *label).collect();
    assert_eq!(
        labels,
        vec![
            "Reset GNOME lock/login settings",
            "Remove per-user GNOME extension copies",
            "Remove GDM dconf overrides",
            "Remove hyprlock pam_module references",
            "Stop and disable daemon",
            "Remove unmanaged development links/files",
            "Remove gaze core dumps",
            "Remove model cache",
            "Remove config",
            "Refresh GNOME system settings",
            "Reload systemd",
        ]
    );
    assert_eq!(plan[0].1, reset_gnome_user_settings_cmd());

    let arch = Tools {
        pacman: true,
        ..NOTHING
    };
    let plan = build_uninstall_plan(&arch, false);
    assert!(plan_has(&plan, "Remove Arch PAM configuration"));
    assert!(plan_has(&plan, "Remove pacman packages"));
    let mixed = Tools {
        pacman: true,
        apt_get: true,
        pam_auth_update: true,
        ..NOTHING
    };
    let plan = build_uninstall_plan(&mixed, false);
    assert!(!plan_has(&plan, "Remove Arch PAM configuration"));
    assert!(!plan_has(&plan, "Remove pacman packages"));
    assert!(plan_has(&plan, "Remove apt packages"));
    assert!(plan_has(&plan, "Remove Debian/Ubuntu PAM profile"));
    let fedora = Tools {
        dnf: true,
        authselect: true,
        semodule: true,
        gnome_extensions: true,
        ..NOTHING
    };
    let plan = build_uninstall_plan(&fedora, false);
    assert!(plan_has(&plan, "Remove dnf repo"));
    assert!(plan_has(&plan, "Restore authselect profile"));
    assert!(plan_has(&plan, "Remove SELinux policy"));
    assert_eq!(
        plan[0].0,
        "Disable and uninstall GNOME extension (best-effort)"
    );
}

#[test]
fn plans_repeat_no_label_and_name_the_faces_once() {
    for bits in 0..128u32 {
        let tools = Tools {
            gnome_extensions: bits & 1 != 0,
            pam_auth_update: bits & 2 != 0,
            authselect: bits & 4 != 0,
            pacman: bits & 8 != 0,
            apt_get: bits & 16 != 0,
            dnf: bits & 32 != 0,
            semodule: bits & 64 != 0,
        };
        for keep_data in [false, true] {
            let plan = build_uninstall_plan(&tools, keep_data);
            let mut labels: Vec<&str> = plan.iter().map(|step| step.0).collect();
            labels.sort();
            labels.dedup();
            assert_eq!(labels.len(), plan.len());
            let naming: Vec<&str> = plan
                .iter()
                .filter(|step| step.1.contains("/var/lib/gaze"))
                .map(|step| step.0)
                .collect();
            if keep_data {
                assert!(naming.is_empty());
            } else {
                assert_eq!(naming, ["Remove enrolled face data"]);
            }
        }
    }
}

#[test]
fn uninstalling_asks_first() {
    assert_eq!(after_plan(false, false), UninstallStep::Ask);
    assert_eq!(after_plan(true, false), UninstallStep::Run);
    assert_eq!(after_plan(true, true), UninstallStep::DryRun);
    assert_eq!(after_question(1), UninstallStep::Run);
    assert_eq!(after_question(0), UninstallStep::Cancelled);
    assert_eq!(
        data_notice(true),
        "/var/lib/gaze (enrolled faces) will be preserved."
    );
    assert_eq!(
        command_note(&CommandEnd::Exited { code: Some(0) }),
        (true, "done".to_string())
    );
    assert_eq!(
        command_note(&CommandEnd::Exited { code: Some(2) }).1,
        "step exited with 2 (continuing)"
    );
    assert_eq!(
        command_note(&CommandEnd::Exited { code: None }).1,
        "step exited with -1 (continuing)"
    );
    assert_eq!(
        command_note(&CommandEnd::Exited {
            code: Some(i32::MIN)
        })
        .1,
        format!("step exited with {} (continuing)", i32::MIN)
    );
    assert_eq!(
        command_note(&CommandEnd::NotStarted("no sh".to_string())),
        (false, "failed to spawn: no sh (continuing)".to_string())
    );
}

#[test]
fn steps_are_numbered_two_places_wide() {
    for n in [1usize, 9, 10, 99, 100] {
        assert_eq!(step_number(n), format!("{:>2}.", n));
    }
}

#[test]
fn sessions_that_do_not_start_say_why() {
    let taken = EnrollSetback::NotClaimed(bus_error("org.x: busy"));
    assert_eq!(
        enroll_setback(&taken),
        (false, false, "Failed to claim device: busy".to_string())
    );
    let refused = EnrollSetback::NotStarted(bus_error("org.x: no"));
    assert_eq!(
        enroll_setback(&refused),
        (true, true, "Failed to start enrollment: no".to_string())
    );
    let (release, said, code) = auth_setback(&AuthSetback::NoFaces, "alice", false);
    assert!(!release);
    assert_eq!(code, 1);
    assert_eq!(
        said,
        Some((
            Tone::Info,
            "No faces enrolled for alice. Run gaze add-face <name> to enroll a face.".to_string()
        ))
    );
    let claimed = AuthSetback::NotClaimed(bus_error("org.x: busy"));
    assert_eq!(
        auth_setback(&claimed, "alice", false).1,
        Some((Tone::Error, "Failed to claim device: busy".to_string()))
    );
    let started = AuthSetback::NotStarted(bus_error("org.x: no"));
    assert_eq!(
        auth_setback(&started, "alice", false),
        (
            true,
            Some((Tone::Error, "Daemon error: org.x: no".to_string())),
            1
        )
    );
    assert_eq!(auth_setback(&started, "alice", true), (true, None, 1));
}
