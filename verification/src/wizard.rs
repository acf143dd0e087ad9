//! The settings wizard: which question comes next, what it offers, and what an answer
//! does to the settings.

use crate::camera::{choice_models, has_source};
use crate::config::{
    allowed_ratios_by_pattern, effective_ratio_is_in_range, liveness_threshold_allowed,
    ratio_allowed, AuthConfig, Config, ConfigModel, EnrollmentConfig, InferenceConfig,
    LivenessConfig, INFERENCE_DEVICE_OPTIONS, INFERENCE_EXECUTION_PROVIDER_OPTIONS,
    MAX_ENROLLMENT_FACE_SIZE_RATIO, MIN_ENROLLMENT_FACE_SIZE_RATIO, START_DELAY_SCOPE_LABELS,
    START_DELAY_SCOPE_OPTIONS,
};
use crate::number::Double;
use crate::options::{index_in, lemma_first_listed, listed};
use crate::security::{
    level_names_are_distinct, preset_model, threshold_allowed, valid_settings, CustomSecurityForm,
    LevelKind, SecurityLevel, SecurityModel, HYBRID_POLICY_OPTIONS, MODEL_QUALITY_OPTIONS,
    SECURITY_LEVEL_OPTIONS,
};
use crate::text::{
    contains_text, decimal, decimal_text, joined, parse_unsigned, stands_at, str_eq, trim, trimmed,
    unsigned_value, written_numbers_read_back,
};
use vstd::prelude::*;
use vstd::string::*;

verus! {

/// The questions, in the order in which they come.
#[derive(Clone, Copy, Debug, PartialEq, Eq, Structural)]
pub enum Step {
    Level,
    Detector,
    Recognizer,
    RgbThreshold,
    IrThreshold,
    Policy,
    KeepInference,
    Provider,
    Device,
    FindCameras,
    RgbCamera,
    DarkLuma,
    FindIrCameras,
    IrCamera,
    Emitter,
    AbortSsh,
    AbortLid,
    ConfirmLockScreen,
    ConfirmElevation,
    ResumeGrace,
    StartDelay,
    DelayScope,
    MaxTemplates,
    FaceSize,
    Liveness,
    LivenessThreshold,
    LivenessFrames,
    Encrypt,
    Done,
}

/// An answer to a question.
#[derive(Clone, Debug)]
pub enum Answer {
    /// The option at a place of the list that was offered.
    Choice(usize),
    /// Yes or no.
    Yes(bool),
    /// A number, if what was typed is one.
    Number(Option<Double>),
    /// A count of up to 32 bits.
    Small(u32),
    /// A count of up to 64 bits.
    Large(u64),
    /// What was typed.
    Text(String),
    /// The cameras that were found: names and sources.
    Cameras(Vec<(String, String)>),
    /// A notice was seen.
    Seen,
}

/// An answer, its texts as sequences.
pub enum AnswerModel {
    Choice(usize),
    Yes(bool),
    Number(Option<Double>),
    Small(u32),
    Large(u64),
    Text(Seq<char>),
    Cameras(Seq<(Seq<char>, Seq<char>)>),
    Seen,
}

impl View for Answer {
    type V = AnswerModel;

    open spec fn view(&self) -> AnswerModel {
        match *self {
            Answer::Choice(i) => AnswerModel::Choice(i),
            Answer::Yes(b) => AnswerModel::Yes(b),
            Answer::Number(n) => AnswerModel::Number(n),
            Answer::Small(n) => AnswerModel::Small(n),
            Answer::Large(n) => AnswerModel::Large(n),
            Answer::Text(s) => AnswerModel::Text(s@),
            Answer::Cameras(v) => AnswerModel::Cameras(choice_models(v@)),
            Answer::Seen => AnswerModel::Seen,
        }
    }
}

/// Why an answer was not taken; the question stands.
#[derive(Clone, Copy, Debug, PartialEq, Eq, Structural)]
pub enum Complaint {
    /// No camera was found. The wizard cannot go on.
    NoCameras,
    /// What was typed is no number.
    NotANumber,
    /// The number is no security threshold.
    SecurityRange,
    /// The number is no liveness threshold.
    LivenessRange,
    /// The answer is not one to the question.
    WrongAnswer,
}

/// The wizard: the settings as they stand, the question that comes next, the custom level
/// that is being put together and the cameras that were offered.
pub struct Wizard {
    pub config: Config,
    pub step: Step,
    pub draft: CustomSecurityForm,
    pub rgb_choices: Vec<(String, String)>,
    pub ir_choices: Vec<(String, String)>,
}

/// The wizard, its texts as sequences.
#[verifier::ext_equal]
pub struct WizardModel {
    pub config: ConfigModel,
    pub step: Step,
    pub draft: SecurityModel,
    pub rgb_choices: Seq<(Seq<char>, Seq<char>)>,
    pub ir_choices: Seq<(Seq<char>, Seq<char>)>,
}

impl View for Wizard {
    type V = WizardModel;

    open spec fn view(&self) -> WizardModel {
        WizardModel {
            config: self.config@,
            step: self.step,
            draft: self.draft@,
            rgb_choices: choice_models(self.rgb_choices@),
            ir_choices: choice_models(self.ir_choices@),
        }
    }
}

// Camera choices

/// The choices, with the configured source among them: one that is set and not among them
/// is put last, marked as configured.
pub open spec fn with_configured(
    choices: Seq<(Seq<char>, Seq<char>)>,
    configured: Seq<char>,
) -> Seq<(Seq<char>, Seq<char>)> {
    let source = trimmed(configured);
    if source.len() == 0 || has_source(choices, source) {
        choices
    } else {
        choices.push((source + " (configured)"@, source))
    }
}

/// The place of the first choice for `source`, or zero.
pub open spec fn choice_index(choices: Seq<(Seq<char>, Seq<char>)>, source: Seq<char>) -> int
    decreases choices.len(),
{
    if choices.len() == 0 {
        0
    } else {
        let before = choice_index(choices.drop_last(), source);
        if choices.drop_last().len() > 0 && choices[before].1 == source {
            before
        } else if choices.last().1 == source {
            choices.len() - 1
        } else {
            0
        }
    }
}

/// Listing a configured source is enough to find it, changes nothing about the choices
/// that were there, and does nothing the second time.
pub proof fn configured_sources_are_listed(
    choices: Seq<(Seq<char>, Seq<char>)>,
    configured: Seq<char>,
)
    ensures
        trimmed(configured).len() > 0 ==> has_source(
            with_configured(choices, configured),
            trimmed(configured),
        ),
        with_configured(choices, configured).len() >= choices.len(),
        with_configured(choices, configured).subrange(0, choices.len() as int) == choices,
        with_configured(with_configured(choices, configured), configured) == with_configured(
            choices,
            configured,
        ),
{
    let listed = with_configured(choices, configured);
    let source = trimmed(configured);
    assert(listed.subrange(0, choices.len() as int) =~= choices);
    if source.len() > 0 && !has_source(choices, source) {
        assert(listed[choices.len() as int].1 == source);
        assert(has_source(listed, source));
    }
}

/// A configured source that is not among the choices becomes the last of them, shown as the
/// source itself with a mark that it is configured.
pub proof fn configured_sources_are_marked(
    choices: Seq<(Seq<char>, Seq<char>)>,
    configured: Seq<char>,
)
    ensures
        ({
            let listed = with_configured(choices, configured);
            let source = trimmed(configured);
            &&& listed.len() == choices.len() <==> source.len() == 0 || exists|i: int|
                0 <= i < choices.len() && (#[trigger] choices[i]).1 == source
            &&& listed.len() > choices.len() ==> {
                &&& listed.len() == choices.len() + 1
                &&& listed.last().1 == source
                &&& listed.last().0 == source + " (configured)"@
            }
        }),
{
}

/// Lists the configured source among the choices, if it is set and not there yet.
pub fn ensure_configured_source_listed(options: &mut Vec<(String, String)>, configured: &str)
    ensures
        choice_models(final(options)@) == with_configured(
            choice_models(old(options)@),
            configured@,
        ),
{
    let source: &str = trim(configured);
    if source.is_empty() {
        return ;
    }
    let mut i: usize = 0;
    while i < options.len()
        invariant
            *options == *old(options),
            source@ == trimmed(configured@),
            i <= options.len(),
            forall|j: int| 0 <= j < i ==> (#[trigger] choice_models(options@)[j]).1 != source@,
        decreases options.len() - i,
    {
        if str_eq(options[i].1.as_str(), source) {
            assert(choice_models(options@)[i as int].1 == source@);
            return ;
        }
        i = i + 1;
    }
    let choice: (String, String) = (joined(source, " (configured)"), source.to_owned());
    assert(choice_models(options@.push(choice)) =~= choice_models(options@).push(
        (choice.0@, choice.1@),
    ));
    options.push(choice);
}

proof fn lemma_choice_index(choices: Seq<(Seq<char>, Seq<char>)>, source: Seq<char>, i: int)
    requires
        0 <= i < choices.len(),
        choices[i].1 == source,
        forall|j: int| 0 <= j < i ==> (#[trigger] choices[j]).1 != source,
    ensures
        choice_index(choices, source) == i,
    decreases choices.len(),
{
    let rest = choices.drop_last();
    if i < rest.len() {
        assert(rest[i] == choices[i]);
        assert forall|j: int| 0 <= j < i implies (#[trigger] rest[j]).1 != source by {
            assert(rest[j] == choices[j]);
        }
        lemma_choice_index(rest, source, i);
    } else {
        lemma_choice_index_none(rest, source);
    }
}

proof fn lemma_choice_index_none(choices: Seq<(Seq<char>, Seq<char>)>, source: Seq<char>)
    requires
        forall|j: int| 0 <= j < choices.len() ==> (#[trigger] choices[j]).1 != source,
    ensures
        choice_index(choices, source) == 0,
    decreases choices.len(),
{
    if choices.len() > 0 {
        let rest = choices.drop_last();
        assert forall|j: int| 0 <= j < rest.len() implies (#[trigger] rest[j]).1 != source by {
            assert(rest[j] == choices[j]);
        }
        lemma_choice_index_none(rest, source);
        assert(choices[choices.len() - 1].1 != source);
    }
}

fn find_choice(choices: &Vec<(String, String)>, source: &str) -> (r: usize)
    ensures
        r == choice_index(choice_models(choices@), source@),
{
    let mut i: usize = 0;
    while i < choices.len()
        invariant
            i <= choices.len(),
            forall|j: int| 0 <= j < i ==> (#[trigger] choice_models(choices@)[j]).1 != source@,
        decreases choices.len() - i,
    {
        if str_eq(choices[i].1.as_str(), source) {
            proof {
                lemma_choice_index(choice_models(choices@), source@, i as int);
            }
            return i;
        }
        i = i + 1;
    }
    proof {
        lemma_choice_index_none(choice_models(choices@), source@);
    }
    0
}

// The transition

impl WizardModel {
    /// The step after the security settings.
    pub open spec fn after_security(self) -> WizardModel {
        WizardModel {
            step: if self.config.inference.representable() {
                Step::Provider
            } else {
                Step::KeepInference
            },
            ..self
        }
    }

    /// The wizard at another step.
    pub open spec fn at(self, step: Step) -> WizardModel {
        WizardModel { step, ..self }
    }

    /// The wizard with other settings, at another step.
    pub open spec fn set(self, config: ConfigModel, step: Step) -> WizardModel {
        WizardModel { config, step, ..self }
    }

    /// The wizard with another custom level in the making, at another step.
    pub open spec fn drafted(self, draft: SecurityModel, step: Step) -> WizardModel {
        WizardModel { draft, step, ..self }
    }

    /// What an answer about the security settings leads to.
    pub open spec fn security_answer(self, answer: AnswerModel) -> Option<WizardModel> {
        match (self.step, answer) {
            (Step::Level, AnswerModel::Choice(i)) => if i < 4 {
                let level = SECURITY_LEVEL_OPTIONS@[i as int]@;
                Some(
                    self.set(
                        ConfigModel { security: preset_model(level), ..self.config },
                        self.step,
                    ).after_security(),
                )
            } else if i == 4 {
                Some(self.drafted(self.config.security.form(), Step::Detector))
            } else {
                None
            },
            (Step::Detector, AnswerModel::Choice(i)) => if i < 2 {
                Some(
                    self.drafted(
                        SecurityModel {
                            detector: MODEL_QUALITY_OPTIONS@[i as int]@,
                            ..self.draft
                        },
                        Step::Recognizer,
                    ),
                )
            } else {
                None
            },
            (Step::Recognizer, AnswerModel::Choice(i)) => if i < 2 {
                Some(
                    self.drafted(
                        SecurityModel {
                            recognizer: MODEL_QUALITY_OPTIONS@[i as int]@,
                            ..self.draft
                        },
                        Step::RgbThreshold,
                    ),
                )
            } else {
                None
            },
            (Step::RgbThreshold, AnswerModel::Number(Some(t))) => if threshold_allowed(t) {
                Some(
                    self.drafted(SecurityModel { rgb_threshold: t, ..self.draft }, Step::IrThreshold),
                )
            } else {
                None
            },
            (Step::IrThreshold, AnswerModel::Number(Some(t))) => if threshold_allowed(t) {
                Some(self.drafted(SecurityModel { ir_threshold: t, ..self.draft }, Step::Policy))
            } else {
                None
            },
            (Step::Policy, AnswerModel::Choice(i)) => if i < 4 {
                let draft = SecurityModel {
                    hybrid_policy: HYBRID_POLICY_OPTIONS@[i as int]@,
                    ..self.draft
                };
                Some(
                    self.drafted(draft, self.step).set(
                        ConfigModel { security: draft, ..self.config },
                        self.step,
                    ).after_security(),
                )
            } else {
                None
            },
            _ => None,
        }
    }

    /// What an answer about where the models run leads to.
    pub open spec fn inference_answer(self, answer: AnswerModel) -> Option<WizardModel> {
        match (self.step, answer) {
            (Step::KeepInference, AnswerModel::Seen) => Some(self.at(Step::FindCameras)),
            (Step::Provider, AnswerModel::Choice(i)) => if i
                < INFERENCE_EXECUTION_PROVIDER_OPTIONS@.len() {
                let provider = INFERENCE_EXECUTION_PROVIDER_OPTIONS@[i as int]@;
                let inference = crate::config::InferenceModel {
                    execution_provider: provider,
                    device: if provider == "openvino"@ {
                        self.config.inference.device
                    } else {
                        "cpu"@
                    },
                };
                Some(
                    self.set(
                        ConfigModel { inference, ..self.config },
                        if provider == "openvino"@ {
                            Step::Device
                        } else {
                            Step::FindCameras
                        },
                    ),
                )
            } else {
                None
            },
            (Step::Device, AnswerModel::Choice(i)) => if i < INFERENCE_DEVICE_OPTIONS@.len() {
                let inference = crate::config::InferenceModel {
                    device: INFERENCE_DEVICE_OPTIONS@[i as int]@,
                    ..self.config.inference
                };
                Some(self.set(ConfigModel { inference, ..self.config }, Step::FindCameras))
            } else {
                None
            },
            _ => None,
        }
    }

    /// The wizard with other cameras, at another step.
    pub open spec fn with_cameras(
        self,
        cameras: crate::config::CameraModel,
        step: Step,
    ) -> WizardModel {
        self.set(ConfigModel { cameras, ..self.config }, step)
    }

    /// What an answer about the cameras leads to.
    pub open spec fn camera_answer(self, answer: AnswerModel) -> Option<WizardModel> {
        let cameras = self.config.cameras;
        match (self.step, answer) {
            (Step::FindCameras, AnswerModel::Cameras(found)) => if found.len() == 0 {
                None
            } else {
                Some(
                    WizardModel {
                        rgb_choices: with_configured(found, cameras.rgb),
                        step: Step::RgbCamera,
                        ..self
                    },
                )
            },
            (Step::RgbCamera, AnswerModel::Choice(i)) => if i < self.rgb_choices.len() {
                Some(
                    self.with_cameras(
                        crate::config::CameraModel {
                            rgb: self.rgb_choices[i as int].1,
                            ..cameras
                        },
                        Step::DarkLuma,
                    ),
                )
            } else {
                None
            },
            (Step::DarkLuma, AnswerModel::Text(typed)) => Some(
                self.with_cameras(
                    crate::config::CameraModel {
                        dark_luma_threshold: luma_typed(typed),
                        ..cameras
                    },
                    Step::FindIrCameras,
                ),
            ),
            (Step::FindIrCameras, AnswerModel::Cameras(found)) => Some(
                WizardModel {
                    ir_choices: with_configured(
                        seq![("None"@, Seq::<char>::empty())] + found,
                        cameras.ir,
                    ),
                    step: Step::IrCamera,
                    ..self
                },
            ),
            (Step::IrCamera, AnswerModel::Choice(i)) => if i < self.ir_choices.len() {
                let ir = self.ir_choices[i as int].1;
                Some(
                    self.with_cameras(
                        crate::config::CameraModel {
                            ir,
                            emitter_enabled: ir.len() > 0 && cameras.emitter_enabled,
                            ..cameras
                        },
                        if ir.len() == 0 {
                            Step::AbortSsh
                        } else {
                            Step::Emitter
                        },
                    ),
                )
            } else {
                None
            },
            (Step::Emitter, AnswerModel::Yes(on)) => Some(
                self.with_cameras(
                    crate::config::CameraModel { emitter_enabled: on, ..cameras },
                    Step::AbortSsh,
                ),
            ),
            _ => None,
        }
    }

    /// The wizard with other authentication settings, at another step.
    pub open spec fn with_auth(self, auth: crate::config::AuthModel, step: Step) -> WizardModel {
        self.set(ConfigModel { auth, ..self.config }, step)
    }

    /// What an answer about authentication leads to.
    pub open spec fn auth_answer(self, answer: AnswerModel) -> Option<WizardModel> {
        let auth = self.config.auth;
        match (self.step, answer) {
            (Step::AbortSsh, AnswerModel::Yes(b)) => Some(
                self.with_auth(
                    crate::config::AuthModel { abort_if_ssh: b, ..auth },
                    Step::AbortLid,
                ),
            ),
            (Step::AbortLid, AnswerModel::Yes(b)) => Some(
                self.with_auth(
                    crate::config::AuthModel { abort_if_lid_closed: b, ..auth },
                    Step::ConfirmLockScreen,
                ),
            ),
            (Step::ConfirmLockScreen, AnswerModel::Yes(b)) => Some(
                self.with_auth(
                    crate::config::AuthModel { require_confirmation_lock_screen: b, ..auth },
                    Step::ConfirmElevation,
                ),
            ),
            (Step::ConfirmElevation, AnswerModel::Yes(b)) => Some(
                self.with_auth(
                    crate::config::AuthModel { require_confirmation_elevation: b, ..auth },
                    Step::ResumeGrace,
                ),
            ),
            (Step::ResumeGrace, AnswerModel::Large(ms)) => Some(
                self.with_auth(
                    crate::config::AuthModel { resume_grace_ms: ms, ..auth },
                    Step::StartDelay,
                ),
            ),
            (Step::StartDelay, AnswerModel::Large(ms)) => Some(
                self.with_auth(
                    crate::config::AuthModel { start_delay_ms: ms, ..auth },
                    if ms > 0 {
                        Step::DelayScope
                    } else {
                        Step::MaxTemplates
                    },
                ),
            ),
            (Step::DelayScope, AnswerModel::Choice(i)) => if i < 2 {
                Some(
                    self.with_auth(
                        crate::config::AuthModel {
                            start_delay_scope: START_DELAY_SCOPE_OPTIONS@[i as int]@,
                            ..auth
                        },
                        Step::MaxTemplates,
                    ),
                )
            } else {
                None
            },
            _ => None,
        }
    }

    /// What an answer about enrollment, liveness and storage leads to.
    pub open spec fn template_answer(self, answer: AnswerModel) -> Option<WizardModel> {
        let config = self.config;
        match (self.step, answer) {
            (Step::MaxTemplates, AnswerModel::Small(n)) => Some(
                self.set(
                    ConfigModel {
                        enrollment: EnrollmentConfig { max_templates: n, ..config.enrollment },
                        ..config
                    },
                    Step::FaceSize,
                ),
            ),
            (Step::FaceSize, AnswerModel::Number(Some(ratio))) => Some(
                self.set(
                    ConfigModel {
                        enrollment: EnrollmentConfig {
                            min_face_size_ratio: ratio_typed(config.enrollment, ratio),
                            ..config.enrollment
                        },
                        ..config
                    },
                    Step::Liveness,
                ),
            ),
            (Step::Liveness, AnswerModel::Yes(on)) => Some(
                self.set(
                    ConfigModel {
                        liveness: LivenessConfig { enabled: on, ..config.liveness },
                        ..config
                    },
                    if on {
                        Step::LivenessThreshold
                    } else {
                        Step::Encrypt
                    },
                ),
            ),
            (Step::LivenessThreshold, AnswerModel::Number(Some(t))) => if liveness_threshold_allowed(
                t,
            ) {
                Some(
                    self.set(
                        ConfigModel {
                            liveness: LivenessConfig { threshold: t, ..config.liveness },
                            ..config
                        },
                        Step::LivenessFrames,
                    ),
                )
            } else {
                None
            },
            (Step::LivenessFrames, AnswerModel::Small(n)) => Some(
                self.set(
                    ConfigModel {
                        liveness: LivenessConfig { max_frames: n, ..config.liveness },
                        ..config
                    },
                    Step::Encrypt,
                ),
            ),
            (Step::Encrypt, AnswerModel::Yes(b)) => Some(
                self.set(
                    ConfigModel {
                        storage: crate::config::StorageConfig { encrypt_templates: b },
                        ..config
                    },
                    Step::Done,
                ),
            ),
            _ => None,
        }
    }

    /// What an answer leads to, if it is taken.
    pub open spec fn next(self, answer: AnswerModel) -> Option<WizardModel> {
        match self.step {
            Step::Level
            | Step::Detector
            | Step::Recognizer
            | Step::RgbThreshold
            | Step::IrThreshold
            | Step::Policy => self.security_answer(answer),
            Step::KeepInference | Step::Provider | Step::Device => self.inference_answer(answer),
            Step::FindCameras
            | Step::RgbCamera
            | Step::DarkLuma
            | Step::FindIrCameras
            | Step::IrCamera
            | Step::Emitter => self.camera_answer(answer),
            Step::AbortSsh
            | Step::AbortLid
            | Step::ConfirmLockScreen
            | Step::ConfirmElevation
            | Step::ResumeGrace
            | Step::StartDelay
            | Step::DelayScope => self.auth_answer(answer),
            _ => self.template_answer(answer),
        }
    }

    /// What is said about an answer that is not taken.
    pub open spec fn complaint(self, answer: AnswerModel) -> Complaint {
        match (self.step, answer) {
            (Step::FindCameras, AnswerModel::Cameras(_)) => Complaint::NoCameras,
            (Step::RgbThreshold, AnswerModel::Number(n)) => if n is None {
                Complaint::NotANumber
            } else {
                Complaint::SecurityRange
            },
            (Step::IrThreshold, AnswerModel::Number(n)) => if n is None {
                Complaint::NotANumber
            } else {
                Complaint::SecurityRange
            },
            (Step::LivenessThreshold, AnswerModel::Number(n)) => if n is None {
                Complaint::NotANumber
            } else {
                Complaint::LivenessRange
            },
            (Step::FaceSize, AnswerModel::Number(_)) => Complaint::NotANumber,
            _ => Complaint::WrongAnswer,
        }
    }
}

/// The darkness cutoff that was typed, or 30 where it is no number up to 255.
pub open spec fn luma_typed(typed: Seq<char>) -> u8 {
    match unsigned_value(typed, 10, 255) {
        Some(n) => n as u8,
        None => 30,
    }
}

/// The face-size ratio that was typed: brought into range, or what enrollment used so far
/// where it is not finite.
pub open spec fn ratio_typed(enrollment: EnrollmentConfig, ratio: Double) -> Double {
    if ratio.finite() {
        ratio.clamped(
            Double { bits: MIN_ENROLLMENT_FACE_SIZE_RATIO },
            Double { bits: MAX_ENROLLMENT_FACE_SIZE_RATIO },
        )
    } else {
        enrollment.ratio_used().widened()
    }
}

// The questions

/// A question, or something else to do before the next one.
#[derive(Clone, Debug)]
pub enum Question {
    /// Choose one of the items.
    Choose { prompt: &'static str, items: Vec<String>, default: usize },
    /// Answer yes or no.
    Confirm { prompt: &'static str, default: bool },
    /// Type a number in the range that the prompt names.
    Threshold { prompt: &'static str, default: Double },
    /// Type a number.
    Ratio { prompt: &'static str, default: Double },
    /// Type a text.
    Type { prompt: &'static str, default: String },
    /// Type a count of up to 32 bits.
    Small { prompt: &'static str, default: u32 },
    /// Type a count of up to 64 bits.
    Large { prompt: &'static str, default: u64 },
    /// Look for cameras.
    FindCameras,
    /// Look for infrared cameras.
    FindIrCameras,
    /// Read this.
    Notice(String),
    /// There are no more questions; the settings are ready.
    Finished,
}

/// A question, its texts as sequences.
#[verifier::ext_equal]
pub enum QuestionModel {
    Choose { prompt: Seq<char>, items: Seq<Seq<char>>, default: int },
    Confirm { prompt: Seq<char>, default: bool },
    Threshold { prompt: Seq<char>, default: Double },
    Ratio { prompt: Seq<char>, default: Double },
    Type { prompt: Seq<char>, default: Seq<char> },
    Small { prompt: Seq<char>, default: u32 },
    Large { prompt: Seq<char>, default: u64 },
    FindCameras,
    FindIrCameras,
    Notice(Seq<char>),
    Finished,
}

/// The items of a list, as text.
pub open spec fn item_models(items: Seq<String>) -> Seq<Seq<char>> {
    items.map_values(|s: String| s@)
}

/// The options of a list, as text.
pub open spec fn option_models(options: Seq<&str>) -> Seq<Seq<char>> {
    options.map_values(|s: &str| s@)
}

/// The names of choices.
pub open spec fn choice_names(choices: Seq<(Seq<char>, Seq<char>)>) -> Seq<Seq<char>> {
    choices.map_values(|c: (Seq<char>, Seq<char>)| c.0)
}

impl View for Question {
    type V = QuestionModel;

    open spec fn view(&self) -> QuestionModel {
        match *self {
            Question::Choose { prompt, items, default } => QuestionModel::Choose {
                prompt: prompt@,
                items: item_models(items@),
                default: default as int,
            },
            Question::Confirm { prompt, default } => QuestionModel::Confirm {
                prompt: prompt@,
                default,
            },
            Question::Threshold { prompt, default } => QuestionModel::Threshold {
                prompt: prompt@,
                default,
            },
            Question::Ratio { prompt, default } => QuestionModel::Ratio { prompt: prompt@, default },
            Question::Type { prompt, default } => QuestionModel::Type {
                prompt: prompt@,
                default: default@,
            },
            Question::Small { prompt, default } => QuestionModel::Small { prompt: prompt@, default },
            Question::Large { prompt, default } => QuestionModel::Large { prompt: prompt@, default },
            Question::FindCameras => QuestionModel::FindCameras,
            Question::FindIrCameras => QuestionModel::FindIrCameras,
            Question::Notice(text) => QuestionModel::Notice(text@),
            Question::Finished => QuestionModel::Finished,
        }
    }
}

impl WizardModel {
    /// The question of each step: the settings as they stand are its default.
    pub open spec fn question(self) -> QuestionModel {
        let config = self.config;
        match self.step {
            Step::Level => QuestionModel::Choose {
                prompt: "Security level"@,
                items: option_models(SECURITY_LEVEL_OPTIONS@),
                default: index_in(SECURITY_LEVEL_OPTIONS@, config.security.level, 1) as int,
            },
            Step::Detector => QuestionModel::Choose {
                prompt: "Custom detector level"@,
                items: option_models(MODEL_QUALITY_OPTIONS@),
                default: index_in(MODEL_QUALITY_OPTIONS@, self.draft.detector, 0) as int,
            },
            Step::Recognizer => QuestionModel::Choose {
                prompt: "Custom recognizer level"@,
                items: option_models(MODEL_QUALITY_OPTIONS@),
                default: index_in(MODEL_QUALITY_OPTIONS@, self.draft.recognizer, 0) as int,
            },
            Step::RgbThreshold => QuestionModel::Threshold {
                prompt: "Custom RGB threshold (0.1 - 0.99)"@,
                default: self.draft.rgb_threshold,
            },
            Step::IrThreshold => QuestionModel::Threshold {
                prompt: "Custom IR threshold (0.1 - 0.99)"@,
                default: self.draft.ir_threshold,
            },
            Step::Policy => QuestionModel::Choose {
                prompt: "Custom hybrid combining policy"@,
                items: option_models(HYBRID_POLICY_OPTIONS@),
                default: index_in(HYBRID_POLICY_OPTIONS@, self.draft.hybrid_policy, 0) as int,
            },
            Step::KeepInference => QuestionModel::Notice(
                "Keeping inference "@ + config.inference.execution_provider + "/"@
                    + config.inference.device + ": this build cannot change it"@,
            ),
            Step::Provider => QuestionModel::Choose {
                prompt: "Inference execution provider"@,
                items: option_models(INFERENCE_EXECUTION_PROVIDER_OPTIONS@),
                default: index_in(
                    INFERENCE_EXECUTION_PROVIDER_OPTIONS@,
                    config.inference.execution_provider,
                    0,
                ) as int,
            },
            Step::Device => QuestionModel::Choose {
                prompt: "OpenVINO inference device"@,
                items: option_models(INFERENCE_DEVICE_OPTIONS@),
                default: index_in(INFERENCE_DEVICE_OPTIONS@, config.inference.device, 0) as int,
            },
            Step::FindCameras => QuestionModel::FindCameras,
            Step::RgbCamera => QuestionModel::Choose {
                prompt: "RGB camera source"@,
                items: choice_names(self.rgb_choices),
                default: choice_index(self.rgb_choices, config.cameras.rgb),
            },
            Step::DarkLuma => QuestionModel::Type {
                prompt: "Darkness cutoff: reject frames below this mean brightness (0-255)"@,
                default: decimal_text(config.cameras.dark_luma_threshold as nat),
            },
            Step::FindIrCameras => QuestionModel::FindIrCameras,
            Step::IrCamera => QuestionModel::Choose {
                prompt: "IR camera source"@,
                items: choice_names(self.ir_choices),
                default: choice_index(self.ir_choices, config.cameras.ir),
            },
            Step::Emitter => QuestionModel::Confirm {
                prompt: "Force IR emitter override (only use if emitter stays off automatically)"@,
                default: config.cameras.emitter_enabled,
            },
            Step::AbortSsh => QuestionModel::Confirm {
                prompt: "Abort face auth for SSH sessions"@,
                default: config.auth.abort_if_ssh,
            },
            Step::AbortLid => QuestionModel::Confirm {
                prompt: "Abort face auth when laptop lid is closed"@,
                default: config.auth.abort_if_lid_closed,
            },
            Step::ConfirmLockScreen => QuestionModel::Confirm {
                prompt: "Require confirmation (press Enter/Authenticate/OK) on the lock screen after face matches"@,
                default: config.auth.require_confirmation_lock_screen,
            },
            Step::ConfirmElevation => QuestionModel::Confirm {
                prompt: "Require confirmation (press Enter/Authenticate/OK) for elevated auth (sudo, polkit, etc.) after face matches"@,
                default: config.auth.require_confirmation_elevation,
            },
            Step::ResumeGrace => QuestionModel::Large {
                prompt: "Resume grace period in milliseconds (delay auth after suspend)"@,
                default: config.auth.resume_grace_ms,
            },
            Step::StartDelay => QuestionModel::Large {
                prompt: "Start delay in milliseconds (0 disables)"@,
                default: config.auth.start_delay_ms,
            },
            Step::DelayScope => QuestionModel::Choose {
                prompt: "Apply the start delay to"@,
                items: option_models(START_DELAY_SCOPE_LABELS@),
                default: if config.auth.only_screen_lock() {
                    1
                } else {
                    0
                },
            },
            Step::MaxTemplates => QuestionModel::Small {
                prompt: "Max templates (sets of captures)"@,
                default: config.enrollment.max_templates,
            },
            Step::FaceSize => QuestionModel::Ratio {
                prompt: "Minimum enrollment face size ratio (0.10 - 0.75; lower allows more distance)"@,
                default: config.enrollment.min_face_size_ratio,
            },
            Step::Liveness => QuestionModel::Confirm {
                prompt: "Enable liveness anti-spoofing"@,
                default: config.liveness.enabled,
            },
            Step::LivenessThreshold => QuestionModel::Threshold {
                prompt: "Liveness threshold (0.1 - 1)"@,
                default: config.liveness.threshold,
            },
            Step::LivenessFrames => QuestionModel::Small {
                prompt: "Liveness max frames"@,
                default: config.liveness.max_frames,
            },
            Step::Encrypt => QuestionModel::Confirm {
                prompt: "Encrypt face templates at rest using TPM 2.0"@,
                default: config.storage.encrypt_templates,
            },
            Step::Done => QuestionModel::Finished,
        }
    }
}

fn owned_options(options: &[&str]) -> (r: Vec<String>)
    ensures
        item_models(r@) == option_models(options@),
{
    let mut items: Vec<String> = Vec::new();
    let mut i: usize = 0;
    assert(item_models(items@) =~= option_models(options@).subrange(0, 0));
    while i < options.len()
        invariant
            i <= options.len(),
            item_models(items@) == option_models(options@).subrange(0, i as int),
        decreases options.len() - i,
    {
        let item: String = options[i].to_owned();
        assert(item_models(items@.push(item)) =~= item_models(items@).push(item@));
        assert(option_models(options@).subrange(0, i as int).push(item@) =~= option_models(
            options@,
        ).subrange(0, i + 1));
        items.push(item);
        i = i + 1;
    }
    assert(option_models(options@).subrange(0, i as int) =~= option_models(options@));
    items
}

fn owned_names(choices: &Vec<(String, String)>) -> (r: Vec<String>)
    ensures
        item_models(r@) == choice_names(choice_models(choices@)),
{
    let mut items: Vec<String> = Vec::new();
    let mut i: usize = 0;
    let ghost names = choice_names(choice_models(choices@));
    assert(item_models(items@) =~= names.subrange(0, 0));
    while i < choices.len()
        invariant
            i <= choices.len(),
            names == choice_names(choice_models(choices@)),
            item_models(items@) == names.subrange(0, i as int),
        decreases choices.len() - i,
    {
        let item: String = choices[i].0.clone();
        assert(item_models(items@.push(item)) =~= item_models(items@).push(item@));
        assert(names.subrange(0, i as int).push(item@) =~= names.subrange(0, i + 1));
        items.push(item);
        i = i + 1;
    }
    assert(names.subrange(0, i as int) =~= names);
    items
}

proof fn lemma_scope_index()
    ensures
        index_in(START_DELAY_SCOPE_OPTIONS@, "screen_lock"@, 0) == 1,
        index_in(START_DELAY_SCOPE_OPTIONS@, "all"@, 0) == 0,
{
    reveal_strlit("all");
    reveal_strlit("screen_lock");
    let options = START_DELAY_SCOPE_OPTIONS@;
    assert(options[0]@ == "all"@ && options[1]@ == "screen_lock"@);
    assert("all"@.len() != "screen_lock"@.len());
    lemma_first_listed(options, "screen_lock"@, 1);
    lemma_first_listed(options, "all"@, 0);
}

fn typed_luma(typed: &str) -> (r: u8)
    ensures
        r == luma_typed(typed@),
{
    match parse_unsigned(typed, 10, 255) {
        Some(n) => n as u8,
        None => 30,
    }
}

fn typed_ratio(enrollment: &EnrollmentConfig, ratio: Double) -> (r: Double)
    ensures
        r == ratio_typed(*enrollment, ratio),
{
    if ratio.is_finite() {
        ratio.clamp(
            Double { bits: MIN_ENROLLMENT_FACE_SIZE_RATIO },
            Double { bits: MAX_ENROLLMENT_FACE_SIZE_RATIO },
        )
    } else {
        proof {
            effective_ratio_is_in_range(*enrollment);
        }
        enrollment.effective_min_face_size_ratio().widen()
    }
}

impl Complaint {
    /// The message that the complaint is shown with.
    pub open spec fn message_text(self) -> Seq<char> {
        match self {
            Complaint::NoCameras =>
                "No PipeWire cameras detected! Please ensure your video inputs are active."@,
            Complaint::NotANumber => "must be a number"@,
            Complaint::SecurityRange => "must be between 0.1 and 0.99"@,
            Complaint::LivenessRange => "must be between 0.1 and 1"@,
            Complaint::WrongAnswer => "not an answer to this question"@,
        }
    }

    /// The message that the complaint is shown with.
    pub fn message(self) -> (r: &'static str)
        ensures
            r@ == self.message_text(),
    {
        match self {
            Complaint::NoCameras =>
                "No PipeWire cameras detected! Please ensure your video inputs are active.",
            Complaint::NotANumber => "must be a number",
            Complaint::SecurityRange => "must be between 0.1 and 0.99",
            Complaint::LivenessRange => "must be between 0.1 and 1",
            Complaint::WrongAnswer => "not an answer to this question",
        }
    }
}

/// Complaints are told apart, and a missed range is told by its own end.
pub proof fn complaints_are_told_apart(a: Complaint, b: Complaint)
    ensures
        a.message_text() == b.message_text() <==> a == b,
        contains_text(Complaint::NoCameras.message_text(), "cameras"@),
        contains_text(Complaint::NotANumber.message_text(), "number"@),
        contains_text(Complaint::SecurityRange.message_text(), "0.1 and 0.99"@),
        contains_text(Complaint::LivenessRange.message_text(), "0.1 and 1"@),
{
    reveal_strlit("No PipeWire cameras detected! Please ensure your video inputs are active.");
    reveal_strlit("must be a number");
    reveal_strlit("must be between 0.1 and 0.99");
    reveal_strlit("must be between 0.1 and 1");
    reveal_strlit("not an answer to this question");
    reveal_strlit("cameras");
    reveal_strlit("number");
    reveal_strlit("0.1 and 0.99");
    reveal_strlit("0.1 and 1");
    let none = Complaint::NoCameras.message_text();
    let typed = Complaint::NotANumber.message_text();
    let security = Complaint::SecurityRange.message_text();
    let liveness = Complaint::LivenessRange.message_text();
    assert(none.len() == 73 && typed.len() == 16 && security.len() == 28 && liveness.len() == 25
        && Complaint::WrongAnswer.message_text().len() == 30);
    assert(none.subrange(12, 19) =~= "cameras"@);
    assert(stands_at(none, "cameras"@, 12));
    assert(typed.subrange(10, 16) =~= "number"@);
    assert(stands_at(typed, "number"@, 10));
    assert(security.subrange(16, 28) =~= "0.1 and 0.99"@);
    assert(stands_at(security, "0.1 and 0.99"@, 16));
    assert(liveness.subrange(16, 25) =~= "0.1 and 1"@);
    assert(stands_at(liveness, "0.1 and 1"@, 16));
}

/// What becomes of an answer: taken, or refused with a complaint and no change.
pub open spec fn answered(
    before: WizardModel,
    answer: AnswerModel,
    after: WizardModel,
    r: Result<(), Complaint>,
) -> bool {
    match before.next(answer) {
        Some(next) => r is Ok && after == next,
        None => r == Err::<(), Complaint>(before.complaint(answer)) && after == before,
    }
}

impl Wizard {
    /// A wizard for the given settings, at its first question.
    pub fn new(config: Config) -> (r: Wizard)
        ensures
            r@ == (WizardModel {
                config: config@,
                step: Step::Level,
                draft: config@.security.form(),
                rgb_choices: seq![],
                ir_choices: seq![],
            }),
    {
        let draft: CustomSecurityForm = config.security.custom_form();
        let r: Wizard = Wizard {
            config,
            step: Step::Level,
            draft,
            rgb_choices: Vec::new(),
            ir_choices: Vec::new(),
        };
        assert(r@.rgb_choices =~= seq![]);
        assert(r@.ir_choices =~= seq![]);
        r
    }

    /// The question to ask now.
    pub fn question(&self) -> (r: Question)
        ensures
            r@ == self@.question(),
    {
        match self.step {
            Step::Level => Question::Choose {
                prompt: "Security level",
                items: owned_options(SECURITY_LEVEL_OPTIONS.as_slice()),
                default: self.config.security.level_index() as usize,
            },
            Step::Detector => Question::Choose {
                prompt: "Custom detector level",
                items: owned_options(MODEL_QUALITY_OPTIONS.as_slice()),
                default: SecurityLevel::model_quality_index(self.draft.detector.as_str()) as usize,
            },
            Step::Recognizer => Question::Choose {
                prompt: "Custom recognizer level",
                items: owned_options(MODEL_QUALITY_OPTIONS.as_slice()),
                default: SecurityLevel::model_quality_index(
                    self.draft.recognizer.as_str(),
                ) as usize,
            },
            Step::RgbThreshold => Question::Threshold {
                prompt: "Custom RGB threshold (0.1 - 0.99)",
                default: self.draft.rgb_threshold,
            },
            Step::IrThreshold => Question::Threshold {
                prompt: "Custom IR threshold (0.1 - 0.99)",
                default: self.draft.ir_threshold,
            },
            Step::Policy => Question::Choose {
                prompt: "Custom hybrid combining policy",
                items: owned_options(HYBRID_POLICY_OPTIONS.as_slice()),
                default: SecurityLevel::hybrid_policy_index_for_value(
                    self.draft.hybrid_policy.as_str(),
                ) as usize,
            },
            Step::KeepInference => {
                let mut text: String = joined(
                    "Keeping inference ",
                    self.config.inference.execution_provider.as_str(),
                );
                text.append("/");
                text.append(self.config.inference.device.as_str());
                text.append(": this build cannot change it");
                Question::Notice(text)
            },
            Step::Provider => Question::Choose {
                prompt: "Inference execution provider",
                items: owned_options(INFERENCE_EXECUTION_PROVIDER_OPTIONS.as_slice()),
                default: self.config.inference.execution_provider_index() as usize,
            },
            Step::Device => Question::Choose {
                prompt: "OpenVINO inference device",
                items: owned_options(INFERENCE_DEVICE_OPTIONS.as_slice()),
                default: self.config.inference.device_index() as usize,
            },
            Step::FindCameras => Question::FindCameras,
            Step::RgbCamera => Question::Choose {
                prompt: "RGB camera source",
                items: owned_names(&self.rgb_choices),
                default: find_choice(&self.rgb_choices, self.config.cameras.rgb.as_str()),
            },
            Step::DarkLuma => Question::Type {
                prompt: "Darkness cutoff: reject frames below this mean brightness (0-255)",
                default: decimal(self.config.cameras.dark_luma_threshold as u64),
            },
            Step::FindIrCameras => Question::FindIrCameras,
            Step::IrCamera => Question::Choose {
                prompt: "IR camera source",
                items: owned_names(&self.ir_choices),
                default: find_choice(&self.ir_choices, self.config.cameras.ir.as_str()),
            },
            Step::Emitter => Question::Confirm {
                prompt: "Force IR emitter override (only use if emitter stays off automatically)",
                default: self.config.cameras.emitter_enabled,
            },
            Step::AbortSsh => Question::Confirm {
                prompt: "Abort face auth for SSH sessions",
                default: self.config.auth.abort_if_ssh,
            },
            Step::AbortLid => Question::Confirm {
                prompt: "Abort face auth when laptop lid is closed",
                default: self.config.auth.abort_if_lid_closed,
            },
            Step::ConfirmLockScreen => Question::Confirm {
                prompt:
                    "Require confirmation (press Enter/Authenticate/OK) on the lock screen after face matches",
                default: self.config.auth.require_confirmation_lock_screen,
            },
            Step::ConfirmElevation => Question::Confirm {
                prompt:
                    "Require confirmation (press Enter/Authenticate/OK) for elevated auth (sudo, polkit, etc.) after face matches",
                default: self.config.auth.require_confirmation_elevation,
            },
            Step::ResumeGrace => Question::Large {
                prompt: "Resume grace period in milliseconds (delay auth after suspend)",
                default: self.config.auth.resume_grace_ms,
            },
            Step::StartDelay => Question::Large {
                prompt: "Start delay in milliseconds (0 disables)",
                default: self.config.auth.start_delay_ms,
            },
            Step::DelayScope => {
                proof {
                    lemma_scope_index();
                }
                Question::Choose {
                    prompt: "Apply the start delay to",
                    items: owned_options(START_DELAY_SCOPE_LABELS.as_slice()),
                    default: AuthConfig::start_delay_scope_index_for_value(
                        self.config.auth.start_delay_scope(),
                    ) as usize,
                }
            },
            Step::MaxTemplates => Question::Small {
                prompt: "Max templates (sets of captures)",
                default: self.config.enrollment.max_templates,
            },
            Step::FaceSize => Question::Ratio {
                prompt:
                    "Minimum enrollment face size ratio (0.10 - 0.75; lower allows more distance)",
                default: self.config.enrollment.min_face_size_ratio,
            },
            Step::Liveness => Question::Confirm {
                prompt: "Enable liveness anti-spoofing",
                default: self.config.liveness.enabled,
            },
            Step::LivenessThreshold => Question::Threshold {
                prompt: "Liveness threshold (0.1 - 1)",
                default: self.config.liveness.threshold,
            },
            Step::LivenessFrames => Question::Small {
                prompt: "Liveness max frames",
                default: self.config.liveness.max_frames,
            },
            Step::Encrypt => Question::Confirm {
                prompt: "Encrypt face templates at rest using TPM 2.0",
                default: self.config.storage.encrypt_templates,
            },
            Step::Done => Question::Finished,
        }
    }

    fn leave_security(&mut self)
        ensures
            final(self)@ == old(self)@.after_security(),
    {
        if self.config.inference.is_representable() {
            self.step = Step::Provider;
        } else {
            self.step = Step::KeepInference;
        }
    }

    fn answer_security(&mut self, answer: Answer) -> (r: Result<(), Complaint>)
        requires
            old(self).step is Level || old(self).step is Detector || old(self).step is Recognizer
                || old(self).step is RgbThreshold || old(self).step is IrThreshold || old(
                self,
            ).step is Policy,
        ensures
            answered(old(self)@, answer@, final(self)@, r),
    {
        match (self.step, answer) {
            (Step::Level, Answer::Choice(i)) => {
                if i > 4 {
                    return Err(Complaint::WrongAnswer);
                }
                match SecurityLevel::preset_from_index(i) {
                    Some(level) => {
                        self.config.security = level;
                        self.leave_security();
                    },
                    None => {
                        self.draft = self.config.security.custom_form();
                        self.step = Step::Detector;
                    },
                }
                Ok(())
            },
            (Step::Detector, Answer::Choice(i)) => {
                if i >= 2 {
                    return Err(Complaint::WrongAnswer);
                }
                self.draft.detector = SecurityLevel::model_quality_from_index(i).to_owned();
                self.step = Step::Recognizer;
                Ok(())
            },
            (Step::Recognizer, Answer::Choice(i)) => {
                if i >= 2 {
                    return Err(Complaint::WrongAnswer);
                }
                self.draft.recognizer = SecurityLevel::model_quality_from_index(i).to_owned();
                self.step = Step::RgbThreshold;
                Ok(())
            },
            (Step::RgbThreshold, Answer::Number(n)) => {
                match n {
                    None => Err(Complaint::NotANumber),
                    Some(t) => {
                        if !SecurityLevel::threshold_in_range(t) {
                            return Err(Complaint::SecurityRange);
                        }
                        self.draft.rgb_threshold = t;
                        self.step = Step::IrThreshold;
                        Ok(())
                    },
                }
            },
            (Step::IrThreshold, Answer::Number(n)) => {
                match n {
                    None => Err(Complaint::NotANumber),
                    Some(t) => {
                        if !SecurityLevel::threshold_in_range(t) {
                            return Err(Complaint::SecurityRange);
                        }
                        self.draft.ir_threshold = t;
                        self.step = Step::Policy;
                        Ok(())
                    },
                }
            },
            (Step::Policy, Answer::Choice(i)) => {
                if i >= 4 {
                    return Err(Complaint::WrongAnswer);
                }
                self.draft.hybrid_policy = SecurityLevel::hybrid_policy_from_index(i);
                self.config.security = SecurityLevel::custom_with_thresholds(
                    self.draft.detector.clone(),
                    self.draft.recognizer.clone(),
                    self.draft.rgb_threshold,
                    self.draft.ir_threshold,
                    self.draft.hybrid_policy.clone(),
                );
                self.leave_security();
                Ok(())
            },
            _ => Err(Complaint::WrongAnswer),
        }
    }

    fn answer_inference(&mut self, answer: Answer) -> (r: Result<(), Complaint>)
        requires
            old(self).step is KeepInference || old(self).step is Provider || old(
                self,
            ).step is Device,
        ensures
            answered(old(self)@, answer@, final(self)@, r),
    {
        match (self.step, answer) {
            (Step::KeepInference, Answer::Seen) => {
                self.step = Step::FindCameras;
                Ok(())
            },
            (Step::Provider, Answer::Choice(i)) => {
                if i >= INFERENCE_EXECUTION_PROVIDER_OPTIONS.len() {
                    return Err(Complaint::WrongAnswer);
                }
                self.config.inference.execution_provider =
                InferenceConfig::execution_provider_from_index(i).to_owned();
                if str_eq(self.config.inference.execution_provider.as_str(), "openvino") {
                    self.step = Step::Device;
                } else {
                    self.config.inference.device = "cpu".to_owned();
                    self.step = Step::FindCameras;
                }
                Ok(())
            },
            (Step::Device, Answer::Choice(i)) => {
                if i >= INFERENCE_DEVICE_OPTIONS.len() {
                    return Err(Complaint::WrongAnswer);
                }
                self.config.inference.device = InferenceConfig::device_from_index(i).to_owned();
                self.step = Step::FindCameras;
                Ok(())
            },
            _ => Err(Complaint::WrongAnswer),
        }
    }

    fn answer_camera(&mut self, answer: Answer) -> (r: Result<(), Complaint>)
        requires
            old(self).step is FindCameras || old(self).step is RgbCamera || old(
                self,
            ).step is DarkLuma || old(self).step is FindIrCameras || old(self).step is IrCamera
                || old(self).step is Emitter,
        ensures
            answered(old(self)@, answer@, final(self)@, r),
    {
        match (self.step, answer) {
            (Step::FindCameras, Answer::Cameras(found)) => {
                if found.len() == 0 {
                    return Err(Complaint::NoCameras);
                }
                let mut choices: Vec<(String, String)> = found;
                ensure_configured_source_listed(&mut choices, self.config.cameras.rgb.as_str());
                self.rgb_choices = choices;
                self.step = Step::RgbCamera;
                Ok(())
            },
            (Step::RgbCamera, Answer::Choice(i)) => {
                if i >= self.rgb_choices.len() {
                    return Err(Complaint::WrongAnswer);
                }
                let source: String = self.rgb_choices[i].1.clone();
                self.config.cameras.rgb = source;
                self.step = Step::DarkLuma;
                Ok(())
            },
            (Step::DarkLuma, Answer::Text(typed)) => {
                self.config.cameras.dark_luma_threshold = typed_luma(typed.as_str());
                self.step = Step::FindIrCameras;
                Ok(())
            },
            (Step::FindIrCameras, Answer::Cameras(found)) => {
                let mut found: Vec<(String, String)> = found;
                let mut choices: Vec<(String, String)> = Vec::new();
                let none: (String, String) = ("None".to_owned(), String::new());
                assert(none.1@ =~= Seq::<char>::empty());
                choices.push(none);
                let ghost others = found@;
                choices.append(&mut found);
                assert(choice_models(choices@) =~= seq![("None"@, Seq::<char>::empty())]
                    + choice_models(others));
                ensure_configured_source_listed(&mut choices, self.config.cameras.ir.as_str());
                self.ir_choices = choices;
                self.step = Step::IrCamera;
                Ok(())
            },
            (Step::IrCamera, Answer::Choice(i)) => {
                if i >= self.ir_choices.len() {
                    return Err(Complaint::WrongAnswer);
                }
                let source: String = self.ir_choices[i].1.clone();
                let none: bool = source.as_str().is_empty();
                self.config.cameras.ir = source;
                if none {
                    self.config.cameras.emitter_enabled = false;
                    self.step = Step::AbortSsh;
                } else {
                    self.step = Step::Emitter;
                }
                Ok(())
            },
            (Step::Emitter, Answer::Yes(on)) => {
                self.config.cameras.emitter_enabled = on;
                self.step = Step::AbortSsh;
                Ok(())
            },
            _ => Err(Complaint::WrongAnswer),
        }
    }

    fn answer_auth(&mut self, answer: Answer) -> (r: Result<(), Complaint>)
        requires
            old(self).step is AbortSsh || old(self).step is AbortLid || old(
                self,
            ).step is ConfirmLockScreen || old(self).step is ConfirmElevation || old(
                self,
            ).step is ResumeGrace || old(self).step is StartDelay || old(self).step is DelayScope,
        ensures
            answered(old(self)@, answer@, final(self)@, r),
    {
        match (self.step, answer) {
            (Step::AbortSsh, Answer::Yes(b)) => {
                self.config.auth.abort_if_ssh = b;
                self.step = Step::AbortLid;
                Ok(())
            },
            (Step::AbortLid, Answer::Yes(b)) => {
                self.config.auth.abort_if_lid_closed = b;
                self.step = Step::ConfirmLockScreen;
                Ok(())
            },
            (Step::ConfirmLockScreen, Answer::Yes(b)) => {
                self.config.auth.require_confirmation_lock_screen = b;
                self.step = Step::ConfirmElevation;
                Ok(())
            },
            (Step::ConfirmElevation, Answer::Yes(b)) => {
                self.config.auth.require_confirmation_elevation = b;
                self.step = Step::ResumeGrace;
                Ok(())
            },
            (Step::ResumeGrace, Answer::Large(ms)) => {
                self.config.auth.resume_grace_ms = ms;
                self.step = Step::StartDelay;
                Ok(())
            },
            (Step::StartDelay, Answer::Large(ms)) => {
                self.config.auth.start_delay_ms = ms;
                if ms > 0 {
                    self.step = Step::DelayScope;
                } else {
                    self.step = Step::MaxTemplates;
                }
                Ok(())
            },
            (Step::DelayScope, Answer::Choice(i)) => {
                if i >= 2 {
                    return Err(Complaint::WrongAnswer);
                }
                self.config.auth.start_delay_scope = AuthConfig::start_delay_scope_from_index(i);
                self.step = Step::MaxTemplates;
                Ok(())
            },
            _ => Err(Complaint::WrongAnswer),
        }
    }

    fn answer_template(&mut self, answer: Answer) -> (r: Result<(), Complaint>)
        requires
            old(self).step is MaxTemplates || old(self).step is FaceSize || old(
                self,
            ).step is Liveness || old(self).step is LivenessThreshold || old(
                self,
            ).step is LivenessFrames || old(self).step is Encrypt || old(self).step is Done,
        ensures
            answered(old(self)@, answer@, final(self)@, r),
    {
        match (self.step, answer) {
            (Step::MaxTemplates, Answer::Small(n)) => {
                self.config.enrollment.max_templates = n;
                self.step = Step::FaceSize;
                Ok(())
            },
            (Step::FaceSize, Answer::Number(n)) => {
                match n {
                    None => Err(Complaint::NotANumber),
                    Some(ratio) => {
                        self.config.enrollment.min_face_size_ratio = typed_ratio(
                            &self.config.enrollment,
                            ratio,
                        );
                        self.step = Step::Liveness;
                        Ok(())
                    },
                }
            },
            (Step::Liveness, Answer::Yes(on)) => {
                self.config.liveness.enabled = on;
                if on {
                    self.step = Step::LivenessThreshold;
                } else {
                    self.step = Step::Encrypt;
                }
                Ok(())
            },
            (Step::LivenessThreshold, Answer::Number(n)) => {
                match n {
                    None => Err(Complaint::NotANumber),
                    Some(t) => {
                        if !LivenessConfig::threshold_in_range(t) {
                            return Err(Complaint::LivenessRange);
                        }
                        self.config.liveness.threshold = t;
                        self.step = Step::LivenessFrames;
                        Ok(())
                    },
                }
            },
            (Step::LivenessFrames, Answer::Small(n)) => {
                self.config.liveness.max_frames = n;
                self.step = Step::Encrypt;
                Ok(())
            },
            (Step::Encrypt, Answer::Yes(b)) => {
                self.config.storage.encrypt_templates = b;
                self.step = Step::Done;
                Ok(())
            },
            _ => Err(Complaint::WrongAnswer),
        }
    }

    /// Takes an answer to the question of this step, or refuses it and leaves everything
    /// as it is.
    pub fn answer(&mut self, answer: Answer) -> (r: Result<(), Complaint>)
        ensures
            answered(old(self)@, answer@, final(self)@, r),
            r is Err ==> final(self)@ == old(self)@,
            r is Ok <==> old(self)@.next(answer@) is Some,
            r is Ok ==> old(self)@.next(answer@) == Some(final(self)@),
            old(self).step is RgbCamera && r is Ok ==> (answer matches Answer::Choice(i) && i
                < old(self).rgb_choices@.len() && final(self).config.cameras.rgb@ == old(
                self,
            ).rgb_choices@[i as int].1@),
            old(self).step is IrCamera && r is Ok ==> (answer matches Answer::Choice(i) && i < old(
                self,
            ).ir_choices@.len() && final(self).config.cameras.ir@ == old(
                self,
            ).ir_choices@[i as int].1@),
    {
        match self.step {
            Step::Level
            | Step::Detector
            | Step::Recognizer
            | Step::RgbThreshold
            | Step::IrThreshold
            | Step::Policy => self.answer_security(answer),
            Step::KeepInference | Step::Provider | Step::Device => self.answer_inference(answer),
            Step::FindCameras
            | Step::RgbCamera
            | Step::DarkLuma
            | Step::FindIrCameras
            | Step::IrCamera
            | Step::Emitter => self.answer_camera(answer),
            Step::AbortSsh
            | Step::AbortLid
            | Step::ConfirmLockScreen
            | Step::ConfirmElevation
            | Step::ResumeGrace
            | Step::StartDelay
            | Step::DelayScope => self.answer_auth(answer),
            _ => self.answer_template(answer),
        }
    }
}

// What holds of every run

impl Step {
    /// How many questions are left at most.
    pub open spec fn rank(self) -> nat {
        match self {
            Step::Level => 28,
            Step::Detector => 27,
            Step::Recognizer => 26,
            Step::RgbThreshold => 25,
            Step::IrThreshold => 24,
            Step::Policy => 23,
            Step::KeepInference => 22,
            Step::Provider => 22,
            Step::Device => 21,
            Step::FindCameras => 20,
            Step::RgbCamera => 19,
            Step::DarkLuma => 18,
            Step::FindIrCameras => 17,
            Step::IrCamera => 16,
            Step::Emitter => 15,
            Step::AbortSsh => 14,
            Step::AbortLid => 13,
            Step::ConfirmLockScreen => 12,
            Step::ConfirmElevation => 11,
            Step::ResumeGrace => 10,
            Step::StartDelay => 9,
            Step::DelayScope => 8,
            Step::MaxTemplates => 7,
            Step::FaceSize => 6,
            Step::Liveness => 5,
            Step::LivenessThreshold => 4,
            Step::LivenessFrames => 3,
            Step::Encrypt => 2,
            Step::Done => 1,
        }
    }
}

impl WizardModel {
    /// What the answers so far have made sure of.
    pub open spec fn sound(self) -> bool {
        let left = self.step.rank();
        &&& left <= 27 && left >= 23 ==> self.draft.kind() == LevelKind::Custom
        &&& left <= 26 && left >= 23 ==> listed(MODEL_QUALITY_OPTIONS@, self.draft.detector)
        &&& left <= 25 && left >= 23 ==> listed(MODEL_QUALITY_OPTIONS@, self.draft.recognizer)
        &&& left <= 24 && left >= 23 ==> threshold_allowed(self.draft.rgb_threshold)
        &&& left == 23 ==> threshold_allowed(self.draft.ir_threshold)
        &&& left <= 22 ==> self.config.security.errors().len() == 0
        &&& left == 15 ==> self.config.cameras.ir.len() > 0
        &&& left <= 14 && self.config.cameras.ir.len() == 0 ==> !self.config.cameras.emitter_enabled
        &&& left <= 5 ==> ratio_allowed(self.config.enrollment.min_face_size_ratio)
        &&& left == 4 ==> self.config.liveness.enabled
        &&& left <= 3 && self.config.liveness.enabled ==> liveness_threshold_allowed(
            self.config.liveness.threshold,
        )
    }
}

/// An answer that is taken leads to a later question, so that the wizard ends; and it keeps
/// what the answers before have made sure of.
pub proof fn answers_lead_on(before: WizardModel, answer: AnswerModel)
    requires
        before.sound(),
        before.next(answer) is Some,
    ensures
        before.next(answer)->0.step.rank() < before.step.rank(),
        before.next(answer)->0.sound(),
{
    let left = before.step.rank();
    if left >= 23 {
        lemma_security_answers(before, answer);
    } else if left >= 21 {
        lemma_inference_answers(before, answer);
    } else if left >= 15 {
        lemma_camera_answers(before, answer);
    } else if left >= 8 {
        lemma_auth_answers(before, answer);
    } else {
        lemma_template_answers(before, answer);
    }
}

proof fn lemma_security_answers(before: WizardModel, answer: AnswerModel)
    requires
        before.sound(),
        before.step.rank() >= 23,
        before.security_answer(answer) is Some,
    ensures
        before.security_answer(answer)->0.step.rank() < before.step.rank(),
        before.security_answer(answer)->0.sound(),
{
    let after = before.security_answer(answer)->0;
    match (before.step, answer) {
        (Step::Level, AnswerModel::Choice(i)) => {
            level_names_are_distinct();
            if i < 4 {
                let options = SECURITY_LEVEL_OPTIONS@;
                assert(options[0]@ == "low"@ && options[1]@ == "medium"@ && options[2]@ == "high"@
                    && options[3]@ == "maximum"@);
                crate::security::presets_are_valid(preset_model(options[i as int]@));
                assert(after.config.security == preset_model(options[i as int]@));
            } else {
                crate::security::forms_keep_what_a_level_resolves_to(before.config.security);
                assert(after.draft == before.config.security.form());
            }
        },
        (Step::Detector, AnswerModel::Choice(i)) => {
            lemma_quality_listed(i as int);
        },
        (Step::Recognizer, AnswerModel::Choice(i)) => {
            lemma_quality_listed(i as int);
        },
        (Step::RgbThreshold, AnswerModel::Number(n)) => {},
        (Step::IrThreshold, AnswerModel::Number(n)) => {},
        (Step::Policy, AnswerModel::Choice(i)) => {
            let options = HYBRID_POLICY_OPTIONS@;
            assert(options[0]@ == "default"@ && options[1]@ == "or"@ && options[2]@
                == "fallback_on_dark"@ && options[3]@ == "and"@);
            crate::security::known_policies();
            assert(after.config.security.hybrid_policy == options[i as int]@);
            valid_settings(after.config.security);
        },
        _ => {},
    }
}

proof fn lemma_inference_answers(before: WizardModel, answer: AnswerModel)
    requires
        before.sound(),
        21 <= before.step.rank() <= 22,
        before.inference_answer(answer) is Some,
    ensures
        before.inference_answer(answer)->0.step.rank() < before.step.rank(),
        before.inference_answer(answer)->0.sound(),
{
    assert(before.inference_answer(answer)->0.config.security == before.config.security);
}

proof fn lemma_camera_answers(before: WizardModel, answer: AnswerModel)
    requires
        before.sound(),
        15 <= before.step.rank() <= 20,
        before.camera_answer(answer) is Some,
    ensures
        before.camera_answer(answer)->0.step.rank() < before.step.rank(),
        before.camera_answer(answer)->0.sound(),
{
    assert(before.camera_answer(answer)->0.config.security == before.config.security);
}

proof fn lemma_auth_answers(before: WizardModel, answer: AnswerModel)
    requires
        before.sound(),
        8 <= before.step.rank() <= 14,
        before.auth_answer(answer) is Some,
    ensures
        before.auth_answer(answer)->0.step.rank() < before.step.rank(),
        before.auth_answer(answer)->0.sound(),
{
    assert(before.auth_answer(answer)->0.config.security == before.config.security);
}

proof fn lemma_template_answers(before: WizardModel, answer: AnswerModel)
    requires
        before.sound(),
        before.step.rank() <= 7,
        before.template_answer(answer) is Some,
    ensures
        before.template_answer(answer)->0.step.rank() < before.step.rank(),
        before.template_answer(answer)->0.sound(),
{
    assert(before.template_answer(answer)->0.config.security == before.config.security);
    match (before.step, answer) {
        (Step::FaceSize, AnswerModel::Number(n)) => {
            lemma_typed_ratio_is_allowed(before.config.enrollment, n->0);
        },
        _ => {},
    }
}

proof fn lemma_quality_listed(i: int)
    requires
        0 <= i < 2,
    ensures
        listed(MODEL_QUALITY_OPTIONS@, MODEL_QUALITY_OPTIONS@[i]@),
{
    let options = MODEL_QUALITY_OPTIONS@;
    assert(options[0]@ == "standard"@ && options[1]@ == "accurate"@);
    crate::security::known_qualities();
}

proof fn lemma_typed_ratio_is_allowed(enrollment: EnrollmentConfig, ratio: Double)
    ensures
        ratio_allowed(ratio_typed(enrollment, ratio)),
{
    let typed = ratio_typed(enrollment, ratio);
    allowed_ratios_by_pattern(typed);
    allowed_ratios_by_pattern(ratio);
    allowed_ratios_by_pattern(Double { bits: MIN_ENROLLMENT_FACE_SIZE_RATIO });
    allowed_ratios_by_pattern(Double { bits: MAX_ENROLLMENT_FACE_SIZE_RATIO });
    effective_ratio_is_in_range(enrollment);
}

/// The settings that the wizard ends with can be saved: their security settings are valid,
/// the emitter is off without an infrared camera, the face-size ratio is in range, and so
/// is the liveness threshold where liveness is checked.
pub proof fn finished_settings_are_valid(wizard: WizardModel)
    requires
        wizard.sound(),
        wizard.step == Step::Done,
    ensures
        wizard.config.security.errors().len() == 0,
        wizard.config.cameras.ir.len() == 0 ==> !wizard.config.cameras.emitter_enabled,
        wizard.config.enrollment.problem() is None,
        wizard.config.liveness.enabled ==> liveness_threshold_allowed(
            wizard.config.liveness.threshold,
        ),
{
}

/// A wizard starts with nothing to make sure of.
pub proof fn new_wizards_are_sound(config: ConfigModel, draft: SecurityModel)
    ensures
        (WizardModel {
            config,
            step: Step::Level,
            draft,
            rgb_choices: seq![],
            ir_choices: seq![],
        }).sound(),
{
}

/// Answers about one table of the settings leave the others alone.
pub proof fn answers_change_one_table(before: WizardModel, answer: AnswerModel)
    requires
        before.next(answer) is Some,
    ensures
        ({
            let (old_config, config) = (before.config, before.next(answer)->0.config);
            let left = before.step.rank();
            &&& left < 23 ==> config.security == old_config.security
            &&& left >= 23 || left < 21 || before.step == Step::KeepInference ==> config.inference
                == old_config.inference
            &&& left >= 20 || left < 15 ==> config.cameras == old_config.cameras
            &&& left >= 15 || left < 8 ==> config.auth == old_config.auth
            &&& left >= 8 || left < 6 ==> config.enrollment == old_config.enrollment
            &&& left >= 6 || left < 3 ==> config.liveness == old_config.liveness
            &&& left >= 3 ==> config.storage == old_config.storage
        }),
{
}

/// An answer about the level, the models and where they run stands as it was given: a choice
/// as the value at its place, a threshold as it was typed. A preset is set at once; the parts
/// of a custom level are put together and set with the last of them.
#[verifier::spinoff_prover]
#[verifier::rlimit(60)]
pub proof fn security_answers_stand_as_given(before: WizardModel, answer: AnswerModel)
    requires
        before.next(answer) is Some,
    ensures
        ({
            let after = before.next(answer)->0;
            let (old_config, config) = (before.config, after.config);
            &&& before.step is Level ==> (answer matches AnswerModel::Choice(i) && (i < 4
                ==> config.security.level == SECURITY_LEVEL_OPTIONS@[i as int]@ && after.draft
                == before.draft) && (i == 4 ==> config.security == old_config.security
                && after.draft == old_config.security.form()))
            &&& before.step is Detector ==> (answer matches AnswerModel::Choice(i)
                && after.draft.detector == MODEL_QUALITY_OPTIONS@[i as int]@
                && after.draft.recognizer == before.draft.recognizer
                && after.draft.rgb_threshold == before.draft.rgb_threshold
                && after.draft.ir_threshold == before.draft.ir_threshold)
            &&& before.step is Recognizer ==> (answer matches AnswerModel::Choice(i)
                && after.draft.recognizer == MODEL_QUALITY_OPTIONS@[i as int]@
                && after.draft.detector == before.draft.detector && after.draft.rgb_threshold
                == before.draft.rgb_threshold && after.draft.ir_threshold
                == before.draft.ir_threshold)
            &&& before.step is RgbThreshold ==> (answer matches AnswerModel::Number(Some(t))
                && after.draft.rgb_threshold == t && after.draft.ir_threshold
                == before.draft.ir_threshold && after.draft.detector == before.draft.detector
                && after.draft.recognizer == before.draft.recognizer)
            &&& before.step is IrThreshold ==> (answer matches AnswerModel::Number(Some(t))
                && after.draft.ir_threshold == t && after.draft.rgb_threshold
                == before.draft.rgb_threshold && after.draft.detector == before.draft.detector
                && after.draft.recognizer == before.draft.recognizer)
            &&& before.step is Policy ==> (answer matches AnswerModel::Choice(i)
                && config.security.hybrid_policy == HYBRID_POLICY_OPTIONS@[i as int]@
                && config.security.detector == before.draft.detector && config.security.recognizer
                == before.draft.recognizer && config.security.rgb_threshold
                == before.draft.rgb_threshold && config.security.ir_threshold
                == before.draft.ir_threshold && config.security.level == before.draft.level)
            &&& before.step is Provider ==> (answer matches AnswerModel::Choice(i)
                && config.inference.execution_provider
                == INFERENCE_EXECUTION_PROVIDER_OPTIONS@[i as int]@)
            &&& before.step is Device ==> (answer matches AnswerModel::Choice(i)
                && config.inference.device == INFERENCE_DEVICE_OPTIONS@[i as int]@
                && config.inference.execution_provider == old_config.inference.execution_provider)
            &&& before.step is KeepInference ==> config == old_config
        }),
{
}

/// An answer about the cameras stands as it was given: a choice as the source at its place, a
/// switch as it was set. The cameras that were found are what is chosen from.
#[verifier::spinoff_prover]
#[verifier::rlimit(60)]
pub proof fn camera_answers_stand_as_given(before: WizardModel, answer: AnswerModel)
    requires
        before.next(answer) is Some,
    ensures
        ({
            let after = before.next(answer)->0;
            let (cameras, then) = (before.config.cameras, after.config.cameras);
            &&& before.step is FindCameras ==> after.config == before.config && (answer
                matches AnswerModel::Cameras(found) && found.len() > 0 && after.rgb_choices.subrange(
                0,
                found.len() as int,
            ) == found)
            &&& before.step is RgbCamera ==> (answer matches AnswerModel::Choice(i) && then.rgb
                == before.rgb_choices[i as int].1 && then.ir == cameras.ir && then.emitter_enabled
                == cameras.emitter_enabled && then.dark_luma_threshold
                == cameras.dark_luma_threshold)
            &&& before.step is DarkLuma ==> then.rgb == cameras.rgb && then.ir == cameras.ir
                && then.emitter_enabled == cameras.emitter_enabled
            &&& before.step is FindIrCameras ==> after.config == before.config && (answer
                matches AnswerModel::Cameras(found) && after.ir_choices[0].1.len() == 0
                && after.ir_choices.subrange(1, found.len() as int + 1) == found)
            &&& before.step is IrCamera ==> (answer matches AnswerModel::Choice(i) && then.ir
                == before.ir_choices[i as int].1 && then.rgb == cameras.rgb
                && then.dark_luma_threshold == cameras.dark_luma_threshold)
            &&& before.step is Emitter ==> (answer matches AnswerModel::Yes(on)
                && then.emitter_enabled == on && then.rgb == cameras.rgb && then.ir == cameras.ir
                && then.dark_luma_threshold == cameras.dark_luma_threshold)
        }),
{
    match (before.step, answer) {
        (Step::FindCameras, AnswerModel::Cameras(found)) => {
            configured_sources_are_listed(found, before.config.cameras.rgb);
        },
        (Step::FindIrCameras, AnswerModel::Cameras(found)) => {
            let all = seq![("None"@, Seq::<char>::empty())] + found;
            configured_sources_are_listed(all, before.config.cameras.ir);
            let choices = with_configured(all, before.config.cameras.ir);
            assert(choices.subrange(0, all.len() as int)[0] == all[0]);
            assert(choices.subrange(1, found.len() as int + 1) =~= choices.subrange(
                0,
                all.len() as int,
            ).subrange(1, found.len() as int + 1));
            assert(all.subrange(1, found.len() as int + 1) =~= found);
        },
        _ => {},
    }
}

/// An answer about authentication stands as it was given, and changes nothing else about it.
#[verifier::spinoff_prover]
#[verifier::rlimit(60)]
pub proof fn auth_answers_stand_as_given(before: WizardModel, answer: AnswerModel)
    requires
        before.next(answer) is Some,
    ensures
        ({
            let (auth, then) = (before.config.auth, before.next(answer)->0.config.auth);
            &&& before.step is AbortSsh ==> (answer matches AnswerModel::Yes(b) && then.abort_if_ssh
                == b)
            &&& before.step is AbortLid ==> (answer matches AnswerModel::Yes(b)
                && then.abort_if_lid_closed == b)
            &&& before.step is ConfirmLockScreen ==> (answer matches AnswerModel::Yes(b)
                && then.require_confirmation_lock_screen == b)
            &&& before.step is ConfirmElevation ==> (answer matches AnswerModel::Yes(b)
                && then.require_confirmation_elevation == b)
            &&& before.step is ResumeGrace ==> (answer matches AnswerModel::Large(ms)
                && then.resume_grace_ms == ms)
            &&& before.step is StartDelay ==> (answer matches AnswerModel::Large(ms)
                && then.start_delay_ms == ms)
            &&& before.step is DelayScope ==> (answer matches AnswerModel::Choice(i)
                && then.start_delay_scope == START_DELAY_SCOPE_OPTIONS@[i as int]@)
            &&& !(before.step is AbortSsh) ==> then.abort_if_ssh == auth.abort_if_ssh
            &&& !(before.step is AbortLid) ==> then.abort_if_lid_closed == auth.abort_if_lid_closed
            &&& !(before.step is ConfirmLockScreen) ==> then.require_confirmation_lock_screen
                == auth.require_confirmation_lock_screen
            &&& !(before.step is ConfirmElevation) ==> then.require_confirmation_elevation
                == auth.require_confirmation_elevation
            &&& !(before.step is ResumeGrace) ==> then.resume_grace_ms == auth.resume_grace_ms
            &&& !(before.step is StartDelay) ==> then.start_delay_ms == auth.start_delay_ms
            &&& !(before.step is DelayScope) ==> then.start_delay_scope == auth.start_delay_scope
        }),
{
}

/// An answer about enrollment, liveness and storage stands as it was given, and changes
/// nothing else about them.
#[verifier::spinoff_prover]
#[verifier::rlimit(60)]
pub proof fn template_answers_stand_as_given(before: WizardModel, answer: AnswerModel)
    requires
        before.next(answer) is Some,
    ensures
        ({
            let (old_config, config) = (before.config, before.next(answer)->0.config);
            &&& before.step is MaxTemplates ==> (answer matches AnswerModel::Small(n)
                && config.enrollment.max_templates == n)
            &&& before.step is Liveness ==> (answer matches AnswerModel::Yes(on)
                && config.liveness.enabled == on)
            &&& before.step is LivenessThreshold ==> (answer matches AnswerModel::Number(Some(t))
                && config.liveness.threshold == t)
            &&& before.step is LivenessFrames ==> (answer matches AnswerModel::Small(n)
                && config.liveness.max_frames == n)
            &&& before.step is Encrypt ==> (answer matches AnswerModel::Yes(b)
                && config.storage.encrypt_templates == b)
            &&& !(before.step is MaxTemplates) ==> config.enrollment.max_templates
                == old_config.enrollment.max_templates
            &&& !(before.step is FaceSize) ==> config.enrollment.min_face_size_ratio
                == old_config.enrollment.min_face_size_ratio
            &&& !(before.step is Liveness) ==> config.liveness.enabled
                == old_config.liveness.enabled
            &&& !(before.step is LivenessThreshold) ==> config.liveness.threshold
                == old_config.liveness.threshold
            &&& !(before.step is LivenessFrames) ==> config.liveness.max_frames
                == old_config.liveness.max_frames
        }),
{
}

/// Two answers to the question for a camera lead to the same settings exactly if they pick
/// the same source.
pub proof fn different_cameras_lead_to_different_settings(before: WizardModel, i: usize, j: usize)
    requires
        before.step is RgbCamera || before.step is IrCamera,
        before.next(AnswerModel::Choice(i)) is Some,
        before.next(AnswerModel::Choice(j)) is Some,
    ensures
        ({
            let choices = if before.step is RgbCamera {
                before.rgb_choices
            } else {
                before.ir_choices
            };
            before.next(AnswerModel::Choice(i))->0.config == before.next(
                AnswerModel::Choice(j),
            )->0.config <==> choices[i as int].1 == choices[j as int].1
        }),
{
    let (a, b) = (
        before.next(AnswerModel::Choice(i))->0.config.cameras,
        before.next(AnswerModel::Choice(j))->0.config.cameras,
    );
    if before.step is RgbCamera {
        assert(a.rgb == before.rgb_choices[i as int].1 && b.rgb == before.rgb_choices[j as int].1);
    } else {
        assert(a.ir == before.ir_choices[i as int].1 && b.ir == before.ir_choices[j as int].1);
    }
}

/// Without an infrared camera the emitter is switched off; choosing one leaves the switch as
/// it was.
pub proof fn the_emitter_goes_with_the_camera(before: WizardModel, i: usize)
    requires
        before.step is IrCamera,
        before.next(AnswerModel::Choice(i)) is Some,
    ensures
        ({
            let then = before.next(AnswerModel::Choice(i))->0.config.cameras;
            &&& then.ir.len() == 0 ==> !then.emitter_enabled
            &&& then.ir.len() > 0 ==> then.emitter_enabled == before.config.cameras.emitter_enabled
        }),
{
}

/// A brightness from 0 to 255 is kept as it was typed.
pub proof fn typed_brightness_is_kept(before: WizardModel, n: nat)
    requires
        before.step is DarkLuma,
    ensures
        before.next(AnswerModel::Text(decimal_text(n))) matches Some(after) && (n <= 255
            ==> after.config.cameras.dark_luma_threshold == n) && (n > 255
            ==> after.config.cameras.dark_luma_threshold == 30),
{
    written_numbers_read_back(n, 255);
}

/// Anything else that was typed as a brightness is taken for 30, and a ratio that is no
/// finite number for the one that was in use.
pub proof fn other_answers_have_a_stand_in(before: WizardModel, typed: Seq<char>, ratio: Double)
    ensures
        before.step is DarkLuma && unsigned_value(typed, 10, 255) is None ==> (before.next(
            AnswerModel::Text(typed),
        ) matches Some(after) && after.config.cameras.dark_luma_threshold == 30),
        before.step is FaceSize && !ratio.finite() ==> (before.next(
            AnswerModel::Number(Some(ratio)),
        ) matches Some(after) && after.config.enrollment.min_face_size_ratio
            == before.config.enrollment.ratio_used().widened()),
{
}

/// A face-size ratio that enrollment may use is kept as it was typed; any other becomes one
/// that it may use: the nearer end of the range where it is a finite number.
pub proof fn typed_ratios_are_brought_into_range(before: WizardModel, ratio: Double)
    requires
        before.step is FaceSize,
    ensures
        before.next(AnswerModel::Number(Some(ratio))) matches Some(after) && {
            let kept = after.config.enrollment.min_face_size_ratio;
            &&& ratio_allowed(kept)
            &&& ratio_allowed(ratio) ==> kept == ratio
            &&& ratio.finite() && !(Double { bits: MIN_ENROLLMENT_FACE_SIZE_RATIO }).at_most(ratio)
                ==> kept == (Double { bits: MIN_ENROLLMENT_FACE_SIZE_RATIO })
            &&& ratio.finite() && !ratio.at_most((Double { bits: MAX_ENROLLMENT_FACE_SIZE_RATIO }))
                ==> kept == (Double { bits: MAX_ENROLLMENT_FACE_SIZE_RATIO })
        },
{
    lemma_typed_ratio_is_allowed(before.config.enrollment, ratio);
    allowed_ratios_by_pattern(Double { bits: MIN_ENROLLMENT_FACE_SIZE_RATIO });
    allowed_ratios_by_pattern(Double { bits: MAX_ENROLLMENT_FACE_SIZE_RATIO });
}

/// Exactly the answers that a question offers are taken: a place in its list, yes or no, a
/// number in its range, what can be typed, the cameras that were found. Nothing is taken once
/// the wizard is done.
pub proof fn offered_answers_are_taken(wizard: WizardModel, answer: AnswerModel)
    ensures
        wizard.next(answer) is Some <==> match wizard.question() {
            QuestionModel::Choose { items, .. } => answer matches AnswerModel::Choice(i) && i
                < items.len(),
            QuestionModel::Confirm { .. } => answer is Yes,
            QuestionModel::Threshold { .. } => answer matches AnswerModel::Number(Some(t)) && if (
            wizard.step is LivenessThreshold) {
                liveness_threshold_allowed(t)
            } else {
                threshold_allowed(t)
            },
            QuestionModel::Ratio { .. } => answer matches AnswerModel::Number(Some(_)),
            QuestionModel::Type { .. } => answer is Text,
            QuestionModel::Small { .. } => answer is Small,
            QuestionModel::Large { .. } => answer is Large,
            QuestionModel::FindCameras => answer matches AnswerModel::Cameras(found) && found.len()
                > 0,
            QuestionModel::FindIrCameras => answer is Cameras,
            QuestionModel::Notice(_) => answer is Seen,
            QuestionModel::Finished => false,
        },
        wizard.question() is Finished <==> wizard.step is Done,
{
    assert(option_models(SECURITY_LEVEL_OPTIONS@).len() == 5);
    assert(option_models(MODEL_QUALITY_OPTIONS@).len() == 2);
    assert(option_models(HYBRID_POLICY_OPTIONS@).len() == 4);
    assert(option_models(START_DELAY_SCOPE_LABELS@).len() == 2);
}

/// An answer that is refused is refused for the reason that holds: no cameras where none
/// were found, no number where none was typed, and otherwise the range that was missed.
pub proof fn complaints_name_the_reason(wizard: WizardModel, answer: AnswerModel)
    requires
        wizard.next(answer) is None,
    ensures
        wizard.complaint(answer) is NoCameras <==> wizard.step is FindCameras && answer is Cameras,
        wizard.complaint(answer) is NotANumber <==> (wizard.question() is Threshold
            || wizard.question() is Ratio) && answer == AnswerModel::Number(None),
        wizard.complaint(answer) is SecurityRange <==> (wizard.step is RgbThreshold
            || wizard.step is IrThreshold) && (answer matches AnswerModel::Number(Some(_))),
        wizard.complaint(answer) is LivenessRange <==> wizard.step is LivenessThreshold && (answer
            matches AnswerModel::Number(Some(_))),
{
}

/// Questions come one after the other in the order of the steps. Only what an answer settles
/// is left out: the parts of a custom level after a preset, the device of a provider that has
/// but one, the emitter without an infrared camera, the scope of no delay, and the details of
/// a liveness check that is off.
pub proof fn questions_come_in_order(before: WizardModel, answer: AnswerModel)
    requires
        before.next(answer) is Some,
    ensures
        ({
            let after = before.next(answer)->0;
            let (left, then) = (before.step.rank(), after.step.rank());
            let leaves_security = before.step is Policy || (before.step is Level && answer
                != AnswerModel::Choice(4));
            &&& leaves_security ==> after.step == if before.config.inference.representable() {
                Step::Provider
            } else {
                Step::KeepInference
            }
            &&& before.step is KeepInference ==> after.step is FindCameras
            &&& before.step is Provider ==> after.step == if (
            after.config.inference.execution_provider == "openvino"@) {
                Step::Device
            } else {
                Step::FindCameras
            }
            &&& before.step is Provider && after.step is FindCameras
                ==> after.config.inference.device == "cpu"@
            &&& before.step is IrCamera ==> after.step == if after.config.cameras.ir.len() > 0 {
                Step::Emitter
            } else {
                Step::AbortSsh
            }
            &&& before.step is StartDelay ==> after.step == if after.config.auth.start_delay_ms > 0 {
                Step::DelayScope
            } else {
                Step::MaxTemplates
            }
            &&& before.step is Liveness ==> after.step == if after.config.liveness.enabled {
                Step::LivenessThreshold
            } else {
                Step::Encrypt
            }
            &&& !leaves_security && !(before.step is KeepInference) && !(before.step is Provider)
                && !(before.step is IrCamera) && !(before.step is StartDelay)
                && !(before.step is Liveness) ==> then == left - 1
        }),
{
}

/// The place that a choice for a source is found at holds the source, and none before it
/// does; without such a choice it is the first place.
pub proof fn choices_are_found_where_they_are(
    choices: Seq<(Seq<char>, Seq<char>)>,
    source: Seq<char>,
)
    ensures
        has_source(choices, source) ==> {
            let i = choice_index(choices, source);
            &&& 0 <= i < choices.len()
            &&& choices[i].1 == source
            &&& forall|j: int| 0 <= j < i ==> (#[trigger] choices[j]).1 != source
        },
        !has_source(choices, source) ==> choice_index(choices, source) == 0,
{
    if has_source(choices, source) {
        let some = choose|i: int| 0 <= i < choices.len() && (#[trigger] choices[i]).1 == source;
        let i = lemma_least_source(choices, source, some);
        lemma_choice_index(choices, source, i);
    } else {
        assert forall|j: int| 0 <= j < choices.len() implies (#[trigger] choices[j]).1 != source by {
        }
        lemma_choice_index_none(choices, source);
    }
}

proof fn lemma_least_source(
    choices: Seq<(Seq<char>, Seq<char>)>,
    source: Seq<char>,
    some: int,
) -> (i: int)
    requires
        0 <= some < choices.len(),
        choices[some].1 == source,
    ensures
        0 <= i <= some,
        choices[i].1 == source,
        forall|j: int| 0 <= j < i ==> (#[trigger] choices[j]).1 != source,
    decreases some,
{
    if exists|j: int| 0 <= j < some && (#[trigger] choices[j]).1 == source {
        let j = choose|j: int| 0 <= j < some && (#[trigger] choices[j]).1 == source;
        lemma_least_source(choices, source, j)
    } else {
        some
    }
}

impl QuestionModel {
    /// The prompt of a question, where it has one.
    pub open spec fn prompt(self) -> Seq<char> {
        match self {
            QuestionModel::Choose { prompt, .. } => prompt,
            QuestionModel::Confirm { prompt, .. } => prompt,
            QuestionModel::Threshold { prompt, .. } => prompt,
            QuestionModel::Ratio { prompt, .. } => prompt,
            QuestionModel::Type { prompt, .. } => prompt,
            QuestionModel::Small { prompt, .. } => prompt,
            QuestionModel::Large { prompt, .. } => prompt,
            _ => seq![],
        }
    }
}

/// Asked again, a question that was answered with yes or no offers that answer.
#[verifier::spinoff_prover]
pub proof fn asked_again_a_switch_stands_as_it_was_set(before: WizardModel, on: bool)
    requires
        before.next(AnswerModel::Yes(on)) is Some,
    ensures
        before.next(AnswerModel::Yes(on))->0.at(before.step).question()
            matches QuestionModel::Confirm { default, .. } && default == on,
{
}

/// Asked again, a question that was answered with a count offers that count.
#[verifier::spinoff_prover]
pub proof fn asked_again_a_count_stands_as_it_was_typed(before: WizardModel, small: u32, large: u64)
    ensures
        before.next(AnswerModel::Small(small)) matches Some(after) ==> (after.at(
            before.step,
        ).question() matches QuestionModel::Small { default, .. } && default == small),
        before.next(AnswerModel::Large(large)) matches Some(after) ==> (after.at(
            before.step,
        ).question() matches QuestionModel::Large { default, .. } && default == large),
{
}

/// Asked again, a question that was answered with a number offers that number, unless it is
/// a face-size ratio that had to be brought into range.
#[verifier::spinoff_prover]
pub proof fn asked_again_a_number_stands_as_it_was_typed(before: WizardModel, number: Double)
    requires
        before.next(AnswerModel::Number(Some(number))) is Some,
    ensures
        ({
            let again = before.next(AnswerModel::Number(Some(number)))->0.at(
                before.step,
            ).question();
            ||| again matches QuestionModel::Threshold { default, .. } && default == number
            ||| again matches QuestionModel::Ratio { default, .. } && (ratio_allowed(number)
                ==> default == number)
        }),
{
    if before.step is FaceSize {
        typed_ratios_are_brought_into_range(before, number);
    }
}

/// Asked again, a question with a list offers the place that was chosen. A camera that is
/// listed twice is found at the first place that has its source.
#[verifier::spinoff_prover]
#[verifier::rlimit(60)]
pub proof fn asked_again_a_choice_stands_as_it_was_made(before: WizardModel, answer: AnswerModel)
    requires
        answer is Choice,
        before.next(answer) is Some,
        !(before.step is Level && answer == AnswerModel::Choice(4)),
    ensures
        ({
            let i = answer->Choice_0;
            let again = before.next(answer)->0.at(before.step).question();
            &&& again matches QuestionModel::Choose { items, default, .. } && 0 <= default
                < items.len() && if before.step is RgbCamera {
                before.rgb_choices[default].1 == before.rgb_choices[i as int].1 && default <= i
            } else if before.step is IrCamera {
                before.ir_choices[default].1 == before.ir_choices[i as int].1 && default <= i
            } else {
                default == i
            }
        }),
{
    match (before.step, answer) {
        (Step::Level, AnswerModel::Choice(i)) => {
            if i < 4 {
                crate::security::presets_have_their_index(i as int);
            }
            assert(option_models(SECURITY_LEVEL_OPTIONS@).len() == 5);
        },
        (Step::Detector, AnswerModel::Choice(i)) => {
            lemma_qualities_have_their_index(i as int);
        },
        (Step::Recognizer, AnswerModel::Choice(i)) => {
            lemma_qualities_have_their_index(i as int);
        },
        (Step::Policy, AnswerModel::Choice(i)) => {
            lemma_policies_have_their_index(i as int);
        },
        (Step::Provider, AnswerModel::Choice(i)) => {
            lemma_first_listed(
                INFERENCE_EXECUTION_PROVIDER_OPTIONS@,
                INFERENCE_EXECUTION_PROVIDER_OPTIONS@[i as int]@,
                i as int,
            );
        },
        (Step::Device, AnswerModel::Choice(i)) => {
            lemma_first_listed(
                INFERENCE_DEVICE_OPTIONS@,
                INFERENCE_DEVICE_OPTIONS@[i as int]@,
                i as int,
            );
        },
        (Step::RgbCamera, AnswerModel::Choice(i)) => {
            assert(has_source(before.rgb_choices, before.rgb_choices[i as int].1));
            choices_are_found_where_they_are(
                before.rgb_choices,
                before.rgb_choices[i as int].1,
            );
        },
        (Step::IrCamera, AnswerModel::Choice(i)) => {
            assert(has_source(before.ir_choices, before.ir_choices[i as int].1));
            choices_are_found_where_they_are(before.ir_choices, before.ir_choices[i as int].1);
        },
        (Step::DelayScope, AnswerModel::Choice(i)) => {
            reveal_strlit("all");
            reveal_strlit("screen_lock");
            let options = START_DELAY_SCOPE_OPTIONS@;
            assert(options[0]@ == "all"@ && options[1]@ == "screen_lock"@);
            assert("all"@.len() != "screen_lock"@.len());
            assert(option_models(START_DELAY_SCOPE_LABELS@).len() == 2);
        },
        _ => {},
    }
}

proof fn lemma_qualities_have_their_index(i: int)
    requires
        0 <= i < 2,
    ensures
        index_in(MODEL_QUALITY_OPTIONS@, MODEL_QUALITY_OPTIONS@[i]@, 0) == i,
        option_models(MODEL_QUALITY_OPTIONS@).len() == 2,
{
    reveal_strlit("accurate");
    reveal_strlit("standard");
    assert("accurate"@[0] != "standard"@[0]);
    let options = MODEL_QUALITY_OPTIONS@;
    assert(options[0]@ == "standard"@ && options[1]@ == "accurate"@);
    lemma_first_listed(options, options[i]@, i);
}

proof fn lemma_policies_have_their_index(i: int)
    requires
        0 <= i < 4,
    ensures
        index_in(HYBRID_POLICY_OPTIONS@, HYBRID_POLICY_OPTIONS@[i]@, 0) == i,
        option_models(HYBRID_POLICY_OPTIONS@).len() == 4,
{
    reveal_strlit("default");
    reveal_strlit("or");
    reveal_strlit("and");
    reveal_strlit("fallback_on_dark");
    let options = HYBRID_POLICY_OPTIONS@;
    assert(options[0]@ == "default"@ && options[1]@ == "or"@ && options[2]@ == "fallback_on_dark"@
        && options[3]@ == "and"@);
    assert("default"@.len() == 7 && "or"@.len() == 2 && "fallback_on_dark"@.len() == 16
        && "and"@.len() == 3);
    lemma_first_listed(options, options[i]@, i);
}

/// The cameras stand in the list of a question under their names, in the order in which they
/// are stored under their sources; so do the options of the other lists.
pub proof fn lists_show_what_is_chosen_from(wizard: WizardModel, i: int)
    ensures
        wizard.question() matches QuestionModel::Choose { items, .. } && 0 <= i < items.len() ==> {
            let items = wizard.question()->items;
            &&& wizard.step is RgbCamera ==> items[i] == wizard.rgb_choices[i].0
            &&& wizard.step is IrCamera ==> items[i] == wizard.ir_choices[i].0
            &&& wizard.step is Level ==> items[i] == SECURITY_LEVEL_OPTIONS@[i]@
            &&& wizard.step is Detector || wizard.step is Recognizer ==> items[i]
                == MODEL_QUALITY_OPTIONS@[i]@
            &&& wizard.step is Policy ==> items[i] == HYBRID_POLICY_OPTIONS@[i]@
            &&& wizard.step is DelayScope ==> items[i] == START_DELAY_SCOPE_LABELS@[i]@
            &&& wizard.step is Provider ==> items[i] == INFERENCE_EXECUTION_PROVIDER_OPTIONS@[i]@
            &&& wizard.step is Device ==> items[i] == INFERENCE_DEVICE_OPTIONS@[i]@
        },
{
}

/// The notice about settings that are kept names the provider and, after a slash, the device.
pub proof fn notices_name_what_is_kept(wizard: WizardModel)
    requires
        wizard.step is KeepInference,
    ensures
        wizard.question() matches QuestionModel::Notice(text) && contains_text(
            text,
            wizard.config.inference.execution_provider + "/"@ + wizard.config.inference.device,
        ),
{
    let kept = wizard.config.inference.execution_provider + "/"@ + wizard.config.inference.device;
    let text = wizard.question()->Notice_0;
    let from = "Keeping inference "@.len() as int;
    assert(text.subrange(from, from + kept.len()) =~= kept);
    assert(stands_at(text, kept, from));
}

/// Every prompt names what it asks for.
pub proof fn prompts_name_what_they_ask_for(wizard: WizardModel)
    ensures
        wizard.step == Step::Level ==> contains_text(wizard.question().prompt(), "Security level"@),
        wizard.step == Step::Detector ==> contains_text(wizard.question().prompt(), "detector"@),
        wizard.step == Step::Recognizer ==> contains_text(wizard.question().prompt(), "recognizer"@),
        wizard.step == Step::RgbThreshold ==> contains_text(wizard.question().prompt(), "RGB threshold"@),
        wizard.step == Step::IrThreshold ==> contains_text(wizard.question().prompt(), "IR threshold"@),
        wizard.step == Step::Policy ==> contains_text(wizard.question().prompt(), "policy"@),
        wizard.step == Step::Provider ==> contains_text(wizard.question().prompt(), "provider"@),
        wizard.step == Step::Device ==> contains_text(wizard.question().prompt(), "device"@),
        wizard.step == Step::RgbCamera ==> contains_text(wizard.question().prompt(), "RGB camera"@),
        wizard.step == Step::DarkLuma ==> contains_text(wizard.question().prompt(), "Darkness"@),
        wizard.step == Step::IrCamera ==> contains_text(wizard.question().prompt(), "IR camera"@),
        wizard.step == Step::Emitter ==> contains_text(wizard.question().prompt(), "emitter"@),
        wizard.step == Step::AbortSsh ==> contains_text(wizard.question().prompt(), "SSH"@),
        wizard.step == Step::AbortLid ==> contains_text(wizard.question().prompt(), "lid"@),
        wizard.step == Step::ConfirmLockScreen ==> contains_text(wizard.question().prompt(), "on the lock screen"@),
        wizard.step == Step::ConfirmElevation ==> contains_text(wizard.question().prompt(), "elevated auth"@),
        wizard.step == Step::ResumeGrace ==> contains_text(wizard.question().prompt(), "Resume grace"@),
        wizard.step == Step::StartDelay ==> contains_text(wizard.question().prompt(), "Start delay"@),
        wizard.step == Step::DelayScope ==> contains_text(wizard.question().prompt(), "Apply the start delay"@),
        wizard.step == Step::MaxTemplates ==> contains_text(wizard.question().prompt(), "Max templates"@),
        wizard.step == Step::FaceSize ==> contains_text(wizard.question().prompt(), "face size"@),
        wizard.step == Step::Liveness ==> contains_text(wizard.question().prompt(), "Enable liveness"@),
        wizard.step == Step::LivenessThreshold ==> contains_text(wizard.question().prompt(), "Liveness threshold"@),
        wizard.step == Step::LivenessFrames ==> contains_text(wizard.question().prompt(), "Liveness max frames"@),
        wizard.step == Step::Encrypt ==> contains_text(wizard.question().prompt(), "Encrypt"@),
{
    let prompt = wizard.question().prompt();
    if wizard.step == Step::Level {
        reveal_strlit("Security level");
        reveal_strlit("Security level");
        assert(prompt.subrange(0, 14) =~= "Security level"@);
        assert(stands_at(prompt, "Security level"@, 0));
    }
    if wizard.step == Step::Detector {
        reveal_strlit("Custom detector level");
        reveal_strlit("detector");
        assert(prompt.subrange(7, 15) =~= "detector"@);
        assert(stands_at(prompt, "detector"@, 7));
    }
    if wizard.step == Step::Recognizer {
        reveal_strlit("Custom recognizer level");
        reveal_strlit("recognizer");
        assert(prompt.subrange(7, 17) =~= "recognizer"@);
        assert(stands_at(prompt, "recognizer"@, 7));
    }
    if wizard.step == Step::RgbThreshold {
        reveal_strlit("Custom RGB threshold (0.1 - 0.99)");
        reveal_strlit("RGB threshold");
        assert(prompt.subrange(7, 20) =~= "RGB threshold"@);
        assert(stands_at(prompt, "RGB threshold"@, 7));
    }
    if wizard.step == Step::IrThreshold {
        reveal_strlit("Custom IR threshold (0.1 - 0.99)");
        reveal_strlit("IR threshold");
        assert(prompt.subrange(7, 19) =~= "IR threshold"@);
        assert(stands_at(prompt, "IR threshold"@, 7));
    }
    if wizard.step == Step::Policy {
        reveal_strlit("Custom hybrid combining policy");
        reveal_strlit("policy");
        assert(prompt.subrange(24, 30) =~= "policy"@);
        assert(stands_at(prompt, "policy"@, 24));
    }
    if wizard.step == Step::Provider {
        reveal_strlit("Inference execution provider");
        reveal_strlit("provider");
        assert(prompt.subrange(20, 28) =~= "provider"@);
        assert(stands_at(prompt, "provider"@, 20));
    }
    if wizard.step == Step::Device {
        reveal_strlit("OpenVINO inference device");
        reveal_strlit("device");
        assert(prompt.subrange(19, 25) =~= "device"@);
        assert(stands_at(prompt, "device"@, 19));
    }
    if wizard.step == Step::RgbCamera {
        reveal_strlit("RGB camera source");
        reveal_strlit("RGB camera");
        assert(prompt.subrange(0, 10) =~= "RGB camera"@);
        assert(stands_at(prompt, "RGB camera"@, 0));
    }
    if wizard.step == Step::DarkLuma {
        reveal_strlit("Darkness cutoff: reject frames below this mean brightness (0-255)");
        reveal_strlit("Darkness");
        assert(prompt.subrange(0, 8) =~= "Darkness"@);
        assert(stands_at(prompt, "Darkness"@, 0));
    }
    if wizard.step == Step::IrCamera {
        reveal_strlit("IR camera source");
        reveal_strlit("IR camera");
        assert(prompt.subrange(0, 9) =~= "IR camera"@);
        assert(stands_at(prompt, "IR camera"@, 0));
    }
    if wizard.step == Step::Emitter {
        reveal_strlit("Force IR emitter override (only use if emitter stays off automatically)");
        reveal_strlit("emitter");
        assert(prompt.subrange(9, 16) =~= "emitter"@);
        assert(stands_at(prompt, "emitter"@, 9));
    }
    if wizard.step == Step::AbortSsh {
        reveal_strlit("Abort face auth for SSH sessions");
        reveal_strlit("SSH");
        assert(prompt.subrange(20, 23) =~= "SSH"@);
        assert(stands_at(prompt, "SSH"@, 20));
    }
    if wizard.step == Step::AbortLid {
        reveal_strlit("Abort face auth when laptop lid is closed");
        reveal_strlit("lid");
        assert(prompt.subrange(28, 31) =~= "lid"@);
        assert(stands_at(prompt, "lid"@, 28));
    }
    if wizard.step == Step::ConfirmLockScreen {
        reveal_strlit("Require confirmation (press Enter/Authenticate/OK) on the lock screen after face matches");
        reveal_strlit("on the lock screen");
        assert(prompt.subrange(51, 69) =~= "on the lock screen"@);
        assert(stands_at(prompt, "on the lock screen"@, 51));
    }
    if wizard.step == Step::ConfirmElevation {
        reveal_strlit("Require confirmation (press Enter/Authenticate/OK) for elevated auth (sudo, polkit, etc.) after face matches");
        reveal_strlit("elevated auth");
        assert(prompt.subrange(55, 68) =~= "elevated auth"@);
        assert(stands_at(prompt, "elevated auth"@, 55));
    }
    if wizard.step == Step::ResumeGrace {
        reveal_strlit("Resume grace period in milliseconds (delay auth after suspend)");
        reveal_strlit("Resume grace");
        assert(prompt.subrange(0, 12) =~= "Resume grace"@);
        assert(stands_at(prompt, "Resume grace"@, 0));
    }
    if wizard.step == Step::StartDelay {
        reveal_strlit("Start delay in milliseconds (0 disables)");
        reveal_strlit("Start delay");
        assert(prompt.subrange(0, 11) =~= "Start delay"@);
        assert(stands_at(prompt, "Start delay"@, 0));
    }
    if wizard.step == Step::DelayScope {
        reveal_strlit("Apply the start delay to");
        reveal_strlit("Apply the start delay");
        assert(prompt.subrange(0, 21) =~= "Apply the start delay"@);
        assert(stands_at(prompt, "Apply the start delay"@, 0));
    }
    if wizard.step == Step::MaxTemplates {
        reveal_strlit("Max templates (sets of captures)");
        reveal_strlit("Max templates");
        assert(prompt.subrange(0, 13) =~= "Max templates"@);
        assert(stands_at(prompt, "Max templates"@, 0));
    }
    if wizard.step == Step::FaceSize {
        reveal_strlit("Minimum enrollment face size ratio (0.10 - 0.75; lower allows more distance)");
        reveal_strlit("face size");
        assert(prompt.subrange(19, 28) =~= "face size"@);
        assert(stands_at(prompt, "face size"@, 19));
    }
    if wizard.step == Step::Liveness {
        reveal_strlit("Enable liveness anti-spoofing");
        reveal_strlit("Enable liveness");
        assert(prompt.subrange(0, 15) =~= "Enable liveness"@);
        assert(stands_at(prompt, "Enable liveness"@, 0));
    }
    if wizard.step == Step::LivenessThreshold {
        reveal_strlit("Liveness threshold (0.1 - 1)");
        reveal_strlit("Liveness threshold");
        assert(prompt.subrange(0, 18) =~= "Liveness threshold"@);
        assert(stands_at(prompt, "Liveness threshold"@, 0));
    }
    if wizard.step == Step::LivenessFrames {
        reveal_strlit("Liveness max frames");
        reveal_strlit("Liveness max frames");
        assert(prompt.subrange(0, 19) =~= "Liveness max frames"@);
        assert(stands_at(prompt, "Liveness max frames"@, 0));
    }
    if wizard.step == Step::Encrypt {
        reveal_strlit("Encrypt face templates at rest using TPM 2.0");
        reveal_strlit("Encrypt");
        assert(prompt.subrange(0, 7) =~= "Encrypt"@);
        assert(stands_at(prompt, "Encrypt"@, 0));
    }
}

} // verus!
