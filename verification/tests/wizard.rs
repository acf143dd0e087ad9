use gaze::config::Config;
use gaze::number::Double;
use gaze::wizard::{
    ensure_configured_source_listed, Answer, Complaint, Question, Step, Wizard,
};

fn double(x: f64) -> Double {
    Double { bits: x.to_bits() }
}

fn choice(name: &str, source: &str) -> (String, String) {
    (name.to_string(), source.to_string())
}

fn take(wizard: &mut Wizard, answers: Vec<Answer>) {
    for answer in answers {
        let step = wizard.step;
        assert_eq!(wizard.answer(answer), Ok(()), "{step:?}");
    }
}

fn rest(liveness: bool) -> Vec<Answer> {
    let mut answers = vec![
        Answer::Choice(0),
        Answer::Cameras(vec![choice("Primary Camera", "primary")]),
        Answer::Choice(0),
        Answer::Text("55".to_string()),
        Answer::Cameras(Vec::new()),
        Answer::Choice(0),
        Answer::Yes(true),
        Answer::Yes(false),
        Answer::Yes(true),
        Answer::Yes(false),
        Answer::Large(3000),
        Answer::Large(0),
        Answer::Small(8),
        Answer::Number(Some(double(0.05))),
        Answer::Yes(liveness),
    ];
    if liveness {
        answers.push(Answer::Number(Some(double(0.9))));
        answers.push(Answer::Small(25));
    }
    answers.push(Answer::Yes(true));
    answers
}

#[test]
fn a_preset_skips_the_custom_questions() {
    let mut wizard = Wizard::new(Config::default());
    assert!(
        matches!(wizard.question(), Question::Choose { prompt, items, default } if prompt == "Security level" && items.len() == 5 && default == 1)
    );
    take(&mut wizard, vec![Answer::Choice(3)]);
    assert_eq!(wizard.step, Step::Provider);
    take(&mut wizard, rest(false));
    assert_eq!(wizard.step, Step::Done);
    assert!(matches!(wizard.question(), Question::Finished));
    let config = wizard.config;
    assert_eq!(config.security.level, "maximum");
    assert_eq!(config.inference.device, "cpu");
    assert_eq!(config.cameras.rgb, "primary");
    assert_eq!(config.cameras.dark_luma_threshold, 55);
    assert_eq!(config.cameras.ir, "");
    assert!(!config.cameras.emitter_enabled);
    assert!(config.auth.abort_if_ssh && !config.auth.abort_if_lid_closed);
    assert!(config.auth.require_confirmation_lock_screen);
    assert_eq!(config.auth.resume_grace_ms, 3000);
    assert_eq!(config.enrollment.max_templates, 8);
    assert_eq!(config.enrollment.min_face_size_ratio, double(0.1));
    assert!(!config.liveness.enabled);
    assert!(config.storage.encrypt_templates);
    assert!(config.load_warnings().is_empty());
}

#[test]
fn a_custom_level_starts_from_the_preset() {
    let mut config = Config::default();
    config.security = gaze::security::SecurityLevel::high();
    let mut wizard = Wizard::new(config);
    take(&mut wizard, vec![Answer::Choice(4)]);
    assert!(matches!(
        wizard.question(),
        Question::Choose {
            prompt: "Custom detector level",
            default: 1,
            ..
        }
    ));
    take(&mut wizard, vec![Answer::Choice(0), Answer::Choice(1)]);
    assert!(
        matches!(wizard.question(), Question::Threshold { prompt: "Custom RGB threshold (0.1 - 0.99)", default } if default == double(0.5))
    );
    assert_eq!(
        wizard.answer(Answer::Number(None)),
        Err(Complaint::NotANumber)
    );
    assert_eq!(
        wizard.answer(Answer::Number(Some(double(1.0)))),
        Err(Complaint::SecurityRange)
    );
    assert_eq!(
        Complaint::SecurityRange.message(),
        "must be between 0.1 and 0.99"
    );
    take(
        &mut wizard,
        vec![
            Answer::Number(Some(double(0.61))),
            Answer::Number(Some(double(0.29))),
        ],
    );
    assert!(matches!(
        wizard.question(),
        Question::Choose {
            prompt: "Custom hybrid combining policy",
            default: 2,
            ..
        }
    ));
    take(&mut wizard, vec![Answer::Choice(3)]);
    take(&mut wizard, rest(true));
    let security = &wizard.config.security;
    assert_eq!(security.level, "custom");
    assert_eq!(security.detector, "standard");
    assert_eq!(security.recognizer, "accurate");
    assert_eq!(security.rgb_threshold, double(0.61));
    assert_eq!(security.ir_threshold, double(0.29));
    assert_eq!(security.hybrid_policy, "and");
    security.validate().unwrap();
    assert_eq!(wizard.config.liveness.threshold, double(0.9));
    assert_eq!(wizard.config.liveness.max_frames, 25);
}

#[test]
fn cameras_are_offered_with_the_configured_one() {
    let mut config = Config::default();
    config.cameras.rgb = "/dev/video7".to_string();
    config.cameras.ir = "usb:046d:085e".to_string();
    let mut wizard = Wizard::new(config);
    take(&mut wizard, vec![Answer::Choice(0), Answer::Choice(0)]);
    assert!(matches!(wizard.question(), Question::FindCameras));
    assert_eq!(
        wizard.answer(Answer::Cameras(Vec::new())),
        Err(Complaint::NoCameras)
    );
    assert_eq!(wizard.step, Step::FindCameras);
    take(
        &mut wizard,
        vec![Answer::Cameras(vec![choice("Primary Camera", "primary")])],
    );
    match wizard.question() {
        Question::Choose { items, default, .. } => {
            assert_eq!(items, vec!["Primary Camera", "/dev/video7 (configured)"]);
            assert_eq!(default, 1);
        }
        other => panic!("{other:?}"),
    }
    assert_eq!(wizard.answer(Answer::Choice(2)), Err(Complaint::WrongAnswer));
    take(&mut wizard, vec![Answer::Choice(1)]);
    assert!(
        matches!(wizard.question(), Question::Type { default, .. } if default == "20")
    );
    take(&mut wizard, vec![Answer::Text("256".to_string())]);
    assert_eq!(wizard.config.cameras.dark_luma_threshold, 30);
    take(
        &mut wizard,
        vec![Answer::Cameras(vec![choice("Mono", "pipewiresrc target-object=ir")])],
    );
    match wizard.question() {
        Question::Choose { items, default, .. } => {
            assert_eq!(items, vec!["None", "Mono", "usb:046d:085e (configured)"]);
            assert_eq!(default, 2);
        }
        other => panic!("{other:?}"),
    }
    take(&mut wizard, vec![Answer::Choice(1)]);
    assert_eq!(wizard.step, Step::Emitter);
    assert_eq!(wizard.config.cameras.ir, "pipewiresrc target-object=ir");
    take(&mut wizard, vec![Answer::Yes(true)]);
    assert!(wizard.config.cameras.emitter_enabled);
}

#[test]
fn inference_that_cannot_be_shown_is_kept() {
    let mut config = Config::default();
    config.inference.execution_provider = "openvino".to_string();
    config.inference.device = "npu".to_string();
    let mut wizard = Wizard::new(config);
    take(&mut wizard, vec![Answer::Choice(2)]);
    assert!(
        matches!(wizard.question(), Question::Notice(text) if text == "Keeping inference openvino/npu: this build cannot change it")
    );
    take(&mut wizard, vec![Answer::Seen]);
    assert_eq!(wizard.step, Step::FindCameras);
    assert_eq!(wizard.config.inference.device, "npu");
}

#[test]
fn a_start_delay_has_a_scope() {
    let mut wizard = Wizard::new(Config::default());
    wizard.step = Step::StartDelay;
    take(&mut wizard, vec![Answer::Large(1500)]);
    match wizard.question() {
        Question::Choose { items, default, .. } => {
            assert_eq!(
                items,
                vec!["Every face auth (including sudo)", "Screen lockers only"]
            );
            assert_eq!(default, 1);
        }
        other => panic!("{other:?}"),
    }
    take(&mut wizard, vec![Answer::Choice(0)]);
    assert_eq!(wizard.config.auth.start_delay_scope, "all");
    assert_eq!(wizard.step, Step::MaxTemplates);
}

#[test]
fn face_sizes_are_brought_into_range() {
    let ratio = |before: f64, typed: f64| {
        let mut config = Config::default();
        config.enrollment.min_face_size_ratio = double(before);
        let mut wizard = Wizard::new(config);
        wizard.step = Step::FaceSize;
        take(&mut wizard, vec![Answer::Number(Some(double(typed)))]);
        f64::from_bits(wizard.config.enrollment.min_face_size_ratio.bits)
    };
    assert_eq!(ratio(0.25, 0.3), 0.3);
    assert_eq!(ratio(0.25, 7.0), 0.75);
    assert_eq!(ratio(0.25, -7.0), 0.10);
    assert_eq!(ratio(0.2, f64::NAN), 0.2f64 as f32 as f64);
    assert_eq!(ratio(f64::NAN, f64::INFINITY), 0.25);
}

#[test]
fn configured_sources_are_listed_once() {
    let mut options = vec![choice("A", "a")];
    ensure_configured_source_listed(&mut options, " a ");
    assert_eq!(options, vec![choice("A", "a")]);
    ensure_configured_source_listed(&mut options, " ");
    assert_eq!(options.len(), 1);
    ensure_configured_source_listed(&mut options, " b ");
    ensure_configured_source_listed(&mut options, "b");
    assert_eq!(
        options,
        vec![choice("A", "a"), choice("b (configured)", "b")]
    );
}
