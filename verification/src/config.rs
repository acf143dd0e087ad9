//! The settings: inference, cameras, authentication, enrollment, liveness and storage,
//! their defaults, their rules, and what they resolve to.

use crate::number::{
    message_with, narrowed_by_parts, narrowing_is_monotone, patterns_order_numbers, shown_message,
    Double, Single,
};
use crate::options::{
    contains_option, index_in, index_of, lemma_first_listed, listed, listed_values_have_an_option,
    option_at, value_at,
};
use crate::security::{
    level_names_are_distinct, preset_model, presets_are_valid, SecurityLevel, SecurityModel,
};
use crate::text::{
    contains_text, decimal, decimal_text, joined, quoted, quoted_text, stands_at, starts, str_eq,
    written_numbers_differ,
};
use vstd::prelude::*;
use vstd::string::*;

verus! {

pub const CONFIG_PATH: &'static str = "/etc/gaze/config.toml";

pub const USERS_DIR: &'static str = "/var/lib/gaze/users";

pub const MODELS_DIR: &'static str = "/var/cache/gaze";

pub const DEFAULT_RGB_CAMERA: &'static str = "primary";

pub const START_DELAY_SCOPE_OPTIONS: [&'static str; 2] = ["all", "screen_lock"];

pub const START_DELAY_SCOPE_LABELS: [&'static str; 2] = [
    "Every face auth (including sudo)",
    "Screen lockers only",
];

pub const INFERENCE_EXECUTION_PROVIDER_OPTIONS: [&'static str; 1] = ["cpu"];

pub const INFERENCE_DEVICE_OPTIONS: [&'static str; 1] = ["cpu"];

/// 0.25, as the pattern of a binary64 number.
pub const DEFAULT_ENROLLMENT_MIN_FACE_SIZE_RATIO: u64 = 0x3fd0_0000_0000_0000;

/// 0.10, as the pattern of a binary64 number.
pub const MIN_ENROLLMENT_FACE_SIZE_RATIO: u64 = 0x3fb9_9999_9999_999a;

/// 0.75, as the pattern of a binary64 number.
pub const MAX_ENROLLMENT_FACE_SIZE_RATIO: u64 = 0x3fe8_0000_0000_0000;

/// 0.10, as the pattern of a binary64 number.
pub const MIN_LIVENESS_THRESHOLD: u64 = 0x3fb9_9999_9999_999a;

/// 1.0, as the pattern of a binary64 number.
pub const MAX_LIVENESS_THRESHOLD: u64 = 0x3ff0_0000_0000_0000;

/// 0.8, as the pattern of a binary64 number.
pub const DEFAULT_LIVENESS_THRESHOLD: u64 = 0x3fe9_9999_9999_999a;

pub const MIN_LIVENESS_MAX_FRAMES: u32 = 6;

pub const ELEVATION_SERVICES: [&'static str; 9] = [
    "sudo",
    "sudo-i",
    "su",
    "su-l",
    "doas",
    "run0",
    "systemd-run0",
    "polkit-1",
    "pkexec",
];

pub const LOGIN_SERVICES: [&'static str; 6] = [
    "login",
    "sddm",
    "lightdm",
    "greetd",
    "gdm-password",
    "gdm-launch-environment",
];

/// A problem with a setting: what is wrong and, where the problem is a number that is no
/// integer, the number that was got, with which the message ends.
#[derive(Clone, Debug)]
pub struct Problem {
    pub text: String,
    pub got: Option<Double>,
}

/// A problem, its text as a sequence.
#[verifier::ext_equal]
pub struct ProblemModel {
    pub text: Seq<char>,
    pub got: Option<Double>,
}

impl View for Problem {
    type V = ProblemModel;

    open spec fn view(&self) -> ProblemModel {
        ProblemModel { text: self.text@, got: self.got }
    }
}

impl Problem {
    /// The message that the problem is shown with. `show` writes the number in `got` as a
    /// decimal; without one it is not called.
    pub fn message<F>(&self, show: F) -> (message: String) where F: FnOnce(Double) -> String
        requires
            self.got matches Some(number) ==> call_requires(show, (number,)),
        ensures
            shown_message(self@.text, self@.got, show, message@),
    {
        message_with(self.text.as_str(), self.got, show)
    }
}

// Inference

/// Where the models run.
#[derive(Clone, Debug)]
pub struct InferenceConfig {
    pub execution_provider: String,
    pub device: String,
}

/// Where the models run, as text.
#[verifier::ext_equal]
pub struct InferenceModel {
    pub execution_provider: Seq<char>,
    pub device: Seq<char>,
}

impl View for InferenceConfig {
    type V = InferenceModel;

    open spec fn view(&self) -> InferenceModel {
        InferenceModel { execution_provider: self.execution_provider@, device: self.device@ }
    }
}

impl InferenceModel {
    /// The first rule that the settings break.
    pub open spec fn problem(self) -> Option<Seq<char>> {
        if self.execution_provider == "openvino"@ {
            Some(
                "this Gaze build does not include OpenVINO support; rebuild with the \"openvino\" Cargo feature"@,
            )
        } else if !listed(INFERENCE_EXECUTION_PROVIDER_OPTIONS@, self.execution_provider) {
            Some(
                "invalid inference.execution_provider "@ + quoted_text(self.execution_provider)
                    + ": expected one of [\"cpu\"]"@,
            )
        } else if !listed(INFERENCE_DEVICE_OPTIONS@, self.device) {
            Some(
                "invalid inference.device "@ + quoted_text(self.device)
                    + ": expected one of [\"cpu\"]"@,
            )
        } else if self.execution_provider == "cpu"@ && self.device != "cpu"@ {
            Some(
                "inference.device must be \"cpu\" when inference.execution_provider is \"cpu\""@,
            )
        } else {
            None
        }
    }

    /// Both values are among the options.
    pub open spec fn representable(self) -> bool {
        listed(INFERENCE_EXECUTION_PROVIDER_OPTIONS@, self.execution_provider) && listed(
            INFERENCE_DEVICE_OPTIONS@,
            self.device,
        )
    }
}

pub fn default_execution_provider() -> (r: String)
    ensures
        r@ == "cpu"@,
{
    "cpu".to_owned()
}

pub fn default_inference_device() -> (r: String)
    ensures
        r@ == "cpu"@,
{
    "cpu".to_owned()
}

impl Default for InferenceConfig {
    fn default() -> (r: InferenceConfig)
        ensures
            r@ == (InferenceModel { execution_provider: "cpu"@, device: "cpu"@ }),
    {
        InferenceConfig {
            execution_provider: default_execution_provider(),
            device: default_inference_device(),
        }
    }
}

impl InferenceConfig {
    /// Accepts the settings, or reports the first rule that they break.
    pub fn validate(&self) -> (r: Result<(), String>)
        ensures
            match r {
                Ok(_) => self@.problem() is None,
                Err(message) => self@.problem() == Some(message@),
            },
    {
        if str_eq(self.execution_provider.as_str(), "openvino") {
            return Err(
                "this Gaze build does not include OpenVINO support; rebuild with the \"openvino\" Cargo feature".to_owned(),
            );
        }
        if !contains_option(
            INFERENCE_EXECUTION_PROVIDER_OPTIONS.as_slice(),
            self.execution_provider.as_str(),
        ) {
            let shown: String = quoted(self.execution_provider.as_str());
            let mut message: String = joined(
                "invalid inference.execution_provider ",
                shown.as_str(),
            );
            message.append(": expected one of [\"cpu\"]");
            return Err(message);
        }
        if !contains_option(INFERENCE_DEVICE_OPTIONS.as_slice(), self.device.as_str()) {
            let shown: String = quoted(self.device.as_str());
            let mut message: String = joined("invalid inference.device ", shown.as_str());
            message.append(": expected one of [\"cpu\"]");
            return Err(message);
        }
        if str_eq(self.execution_provider.as_str(), "cpu") && !str_eq(self.device.as_str(), "cpu") {
            return Err(
                "inference.device must be \"cpu\" when inference.execution_provider is \"cpu\"".to_owned(),
            );
        }
        Ok(())
    }

    /// Whether both values are among the options, so that a form can show them.
    pub fn is_representable(&self) -> (r: bool)
        ensures
            r == self@.representable(),
    {
        contains_option(
            INFERENCE_EXECUTION_PROVIDER_OPTIONS.as_slice(),
            self.execution_provider.as_str(),
        ) && contains_option(INFERENCE_DEVICE_OPTIONS.as_slice(), self.device.as_str())
    }

    pub fn execution_provider_index(&self) -> (r: u32)
        ensures
            r == index_in(INFERENCE_EXECUTION_PROVIDER_OPTIONS@, self@.execution_provider, 0),
    {
        index_of(
            INFERENCE_EXECUTION_PROVIDER_OPTIONS.as_slice(),
            self.execution_provider.as_str(),
            0,
        )
    }

    pub fn device_index(&self) -> (r: u32)
        ensures
            r == index_in(INFERENCE_DEVICE_OPTIONS@, self@.device, 0),
    {
        index_of(INFERENCE_DEVICE_OPTIONS.as_slice(), self.device.as_str(), 0)
    }

    pub fn execution_provider_from_index(index: usize) -> (r: &'static str)
        ensures
            r@ == option_at(INFERENCE_EXECUTION_PROVIDER_OPTIONS@, index as int, "cpu"@),
    {
        value_at(INFERENCE_EXECUTION_PROVIDER_OPTIONS.as_slice(), index, "cpu")
    }

    pub fn device_from_index(index: usize) -> (r: &'static str)
        ensures
            r@ == option_at(INFERENCE_DEVICE_OPTIONS@, index as int, "cpu"@),
    {
        value_at(INFERENCE_DEVICE_OPTIONS.as_slice(), index, "cpu")
    }
}

/// Inference settings are accepted exactly if a form can show them: the only provider and
/// the only device of this build.
pub proof fn representable_settings_are_the_valid_ones(model: InferenceModel)
    ensures
        model.problem() is None <==> model.representable(),
        model.representable() <==> model.execution_provider == "cpu"@ && model.device == "cpu"@,
{
    reveal_strlit("cpu");
    reveal_strlit("openvino");
    assert("cpu"@.len() != "openvino"@.len());
    only_cpu_is_listed(INFERENCE_EXECUTION_PROVIDER_OPTIONS@, model.execution_provider);
    only_cpu_is_listed(INFERENCE_DEVICE_OPTIONS@, model.device);
}

/// A provider that this build lacks is told by name; any other unknown provider is shown, and
/// an unknown device is shown where the provider is known.
pub proof fn inference_complaints_show_the_value(model: InferenceModel)
    ensures
        model.execution_provider == "openvino"@ ==> (model.problem() matches Some(text)
            && contains_text(text, "OpenVINO"@)),
        model.execution_provider != "openvino"@ && model.execution_provider != "cpu"@ ==> (
        model.problem() matches Some(text) && contains_text(
            text,
            quoted_text(model.execution_provider),
        ) && starts(text, "invalid inference.execution_provider"@)),
        model.execution_provider == "cpu"@ && model.device != "cpu"@ ==> (model.problem()
            matches Some(text) && contains_text(text, quoted_text(model.device)) && starts(
            text,
            "invalid inference.device"@,
        )),
{
    reveal_strlit("cpu");
    reveal_strlit("openvino");
    assert("cpu"@.len() != "openvino"@.len());
    only_cpu_is_listed(INFERENCE_EXECUTION_PROVIDER_OPTIONS@, model.execution_provider);
    only_cpu_is_listed(INFERENCE_DEVICE_OPTIONS@, model.device);
    if model.execution_provider == "openvino"@ {
        reveal_strlit(
            "this Gaze build does not include OpenVINO support; rebuild with the \"openvino\" Cargo feature",
        );
        reveal_strlit("OpenVINO");
        let text = model.problem()->0;
        assert(text.subrange(33, 41) =~= "OpenVINO"@);
        assert(stands_at(text, "OpenVINO"@, 33));
    } else if model.execution_provider != "cpu"@ {
        reveal_strlit("invalid inference.execution_provider ");
        reveal_strlit("invalid inference.execution_provider");
        let text = model.problem()->0;
        let shown = quoted_text(model.execution_provider);
        assert(text.subrange(37, 37 + shown.len() as int) =~= shown);
        assert(stands_at(text, shown, 37));
        assert(text.subrange(0, 36) =~= "invalid inference.execution_provider"@);
    } else if model.device != "cpu"@ {
        reveal_strlit("invalid inference.device ");
        reveal_strlit("invalid inference.device");
        let text = model.problem()->0;
        let shown = quoted_text(model.device);
        assert(text.subrange(25, 25 + shown.len() as int) =~= shown);
        assert(stands_at(text, shown, 25));
        assert(text.subrange(0, 24) =~= "invalid inference.device"@);
    }
}

proof fn only_cpu_is_listed(options: Seq<&str>, value: Seq<char>)
    requires
        options.len() == 1,
        options[0]@ == "cpu"@,
    ensures
        listed(options, value) <==> value == "cpu"@,
{
    lemma_first_listed(options, value, if value == "cpu"@ { 0 } else { 1 });
}

// Storage

/// How face templates are stored. Its own table: a security preset replaces the security
/// settings wholesale and would reset it.
#[derive(Clone, Copy, Debug, PartialEq, Eq, Structural)]
pub struct StorageConfig {
    pub encrypt_templates: bool,
}

impl Default for StorageConfig {
    fn default() -> (r: StorageConfig)
        ensures
            r == (StorageConfig { encrypt_templates: false }),
    {
        StorageConfig { encrypt_templates: default_false() }
    }
}

// Liveness

/// The liveness check.
#[derive(Clone, Copy, Debug, PartialEq, Eq, Structural)]
pub struct LivenessConfig {
    pub enabled: bool,
    pub threshold: Double,
    pub max_frames: u32,
}

pub fn default_liveness_enabled() -> (r: bool)
    ensures
        r,
{
    true
}

pub fn default_liveness_threshold() -> (r: Double)
    ensures
        r == (Double { bits: DEFAULT_LIVENESS_THRESHOLD }),
{
    Double { bits: DEFAULT_LIVENESS_THRESHOLD }
}

pub fn default_max_frames() -> (r: u32)
    ensures
        r == 40,
{
    40
}

/// A threshold that the liveness check may use.
pub open spec fn liveness_threshold_allowed(threshold: Double) -> bool {
    threshold.finite() && threshold.between(
        Double { bits: MIN_LIVENESS_THRESHOLD },
        Double { bits: MAX_LIVENESS_THRESHOLD },
    )
}

impl Default for LivenessConfig {
    fn default() -> (r: LivenessConfig)
        ensures
            r == (LivenessConfig {
                enabled: true,
                threshold: Double { bits: DEFAULT_LIVENESS_THRESHOLD },
                max_frames: 40,
            }),
    {
        LivenessConfig {
            enabled: default_liveness_enabled(),
            threshold: default_liveness_threshold(),
            max_frames: default_max_frames(),
        }
    }
}

impl LivenessConfig {
    /// The first rule that the settings break.
    pub open spec fn problem(self) -> Option<ProblemModel> {
        if !liveness_threshold_allowed(self.threshold) {
            Some(
                ProblemModel {
                    text: "liveness.threshold must be between 0.1 and 1, got "@,
                    got: Some(self.threshold),
                },
            )
        } else if self.max_frames < MIN_LIVENESS_MAX_FRAMES {
            Some(
                ProblemModel {
                    text: "liveness.max_frames must be at least 6, got "@ + decimal_text(
                        self.max_frames as nat,
                    ),
                    got: None,
                },
            )
        } else {
            None
        }
    }

    /// Accepts the settings, or reports the first rule that they break.
    pub fn validate(&self) -> (r: Result<(), Problem>)
        ensures
            match r {
                Ok(_) => self.problem() is None,
                Err(p) => self.problem() == Some(p@),
            },
    {
        if !Self::threshold_in_range(self.threshold) {
            return Err(
                Problem {
                    text: "liveness.threshold must be between 0.1 and 1, got ".to_owned(),
                    got: Some(self.threshold),
                },
            );
        }
        if self.max_frames < MIN_LIVENESS_MAX_FRAMES {
            let shown: String = decimal(self.max_frames as u64);
            return Err(
                Problem {
                    text: joined(
                        "liveness.max_frames must be at least 6, got ",
                        shown.as_str(),
                    ),
                    got: None,
                },
            );
        }
        Ok(())
    }

    /// Whether the liveness check may use a threshold.
    pub fn threshold_in_range(threshold: Double) -> (r: bool)
        ensures
            r == liveness_threshold_allowed(threshold),
    {
        threshold.is_finite() && Double { bits: MIN_LIVENESS_THRESHOLD }.le(threshold)
            && threshold.le(Double { bits: MAX_LIVENESS_THRESHOLD })
    }

    /// The threshold, or the default one where it is out of range.
    pub open spec fn threshold_used(self) -> Double {
        if liveness_threshold_allowed(self.threshold) {
            self.threshold
        } else {
            Double { bits: DEFAULT_LIVENESS_THRESHOLD }
        }
    }

    /// The frame budget, or the default one where it is too small.
    pub open spec fn max_frames_used(self) -> u32 {
        if self.max_frames >= MIN_LIVENESS_MAX_FRAMES {
            self.max_frames
        } else {
            40
        }
    }

    /// The threshold that the check uses.
    pub fn effective_threshold(&self) -> (r: Double)
        ensures
            r == self.threshold_used(),
    {
        if Self::threshold_in_range(self.threshold) {
            self.threshold
        } else {
            default_liveness_threshold()
        }
    }

    /// The frame budget that the check uses.
    pub fn effective_max_frames(&self) -> (r: u32)
        ensures
            r == self.max_frames_used(),
    {
        if self.max_frames >= MIN_LIVENESS_MAX_FRAMES {
            self.max_frames
        } else {
            default_max_frames()
        }
    }
}

/// What the liveness check uses always obeys its own rules, and valid settings are used
/// as they are.
pub proof fn effective_liveness_is_valid(config: LivenessConfig)
    ensures
        (LivenessConfig {
            enabled: config.enabled,
            threshold: config.threshold_used(),
            max_frames: config.max_frames_used(),
        }).problem() is None,
        config.problem() is None ==> config.threshold_used() == config.threshold
            && config.max_frames_used() == config.max_frames,
{
    liveness_thresholds_by_pattern(Double { bits: DEFAULT_LIVENESS_THRESHOLD });
}

/// The liveness thresholds that may be used are a range of patterns.
pub proof fn liveness_thresholds_by_pattern(threshold: Double)
    ensures
        liveness_threshold_allowed(threshold) <==> MIN_LIVENESS_THRESHOLD <= threshold.bits
            <= MAX_LIVENESS_THRESHOLD,
{
    patterns_order_numbers(
        Double { bits: MIN_LIVENESS_THRESHOLD },
        threshold,
        Double { bits: MAX_LIVENESS_THRESHOLD },
    );
}

/// A liveness setting out of range is replaced by its own default, and a setting in range is
/// used whatever the other one holds.
pub proof fn liveness_settings_are_replaced_one_by_one(
    config: LivenessConfig,
    other: LivenessConfig,
)
    ensures
        MIN_LIVENESS_THRESHOLD <= config.threshold.bits <= MAX_LIVENESS_THRESHOLD
            ==> config.threshold_used() == config.threshold,
        !(MIN_LIVENESS_THRESHOLD <= config.threshold.bits <= MAX_LIVENESS_THRESHOLD)
            ==> config.threshold_used().bits == DEFAULT_LIVENESS_THRESHOLD,
        config.max_frames >= 6 ==> config.max_frames_used() == config.max_frames,
        config.max_frames < 6 ==> config.max_frames_used() == 40,
        config.threshold == other.threshold ==> config.threshold_used() == other.threshold_used(),
        config.max_frames == other.max_frames ==> config.max_frames_used()
            == other.max_frames_used(),
{
    liveness_thresholds_by_pattern(config.threshold);
}

/// A complaint about the liveness settings is about the threshold exactly if that is out of
/// range, and shows it then; otherwise it is about too few frames, and shows their number.
pub proof fn liveness_complaints_show_the_value(config: LivenessConfig)
    ensures
        config.problem() is None <==> MIN_LIVENESS_THRESHOLD <= config.threshold.bits
            <= MAX_LIVENESS_THRESHOLD && config.max_frames >= 6,
        config.problem() matches Some(p) ==> (p.got is Some <==> !(MIN_LIVENESS_THRESHOLD
            <= config.threshold.bits <= MAX_LIVENESS_THRESHOLD)),
        config.problem() matches Some(p) ==> (p.got matches Some(got) ==> got == config.threshold
            && starts(p.text, "liveness.threshold"@)),
        config.problem() matches Some(p) ==> (p.got is None ==> starts(
            p.text,
            "liveness.max_frames"@,
        ) && stands_at(
            p.text,
            decimal_text(config.max_frames as nat),
            p.text.len() - decimal_text(config.max_frames as nat).len(),
        )),
{
    liveness_thresholds_by_pattern(config.threshold);
    reveal_strlit("liveness.threshold must be between 0.1 and 1, got ");
    reveal_strlit("liveness.threshold");
    reveal_strlit("liveness.max_frames must be at least 6, got ");
    reveal_strlit("liveness.max_frames");
    let about = "liveness.threshold must be between 0.1 and 1, got "@;
    assert(about.subrange(0, 18) =~= "liveness.threshold"@);
    let shown = decimal_text(config.max_frames as nat);
    let text = "liveness.max_frames must be at least 6, got "@ + shown;
    assert(text.subrange(0, 19) =~= "liveness.max_frames"@);
    assert(text.subrange(text.len() - shown.len(), text.len() as int) =~= shown);
}

// Cameras

/// Which cameras are used.
#[derive(Clone, Debug)]
pub struct CameraConfig {
    pub rgb: String,
    pub ir: String,
    pub emitter_enabled: bool,
    pub dark_luma_threshold: u8,
}

/// Which cameras are used, as text.
#[verifier::ext_equal]
pub struct CameraModel {
    pub rgb: Seq<char>,
    pub ir: Seq<char>,
    pub emitter_enabled: bool,
    pub dark_luma_threshold: u8,
}

impl View for CameraConfig {
    type V = CameraModel;

    open spec fn view(&self) -> CameraModel {
        CameraModel {
            rgb: self.rgb@,
            ir: self.ir@,
            emitter_enabled: self.emitter_enabled,
            dark_luma_threshold: self.dark_luma_threshold,
        }
    }
}

/// The cameras that are used where none are set.
pub open spec fn default_cameras() -> CameraModel {
    CameraModel {
        rgb: DEFAULT_RGB_CAMERA@,
        ir: seq![],
        emitter_enabled: false,
        dark_luma_threshold: 20,
    }
}

pub fn default_rgb_device() -> (r: String)
    ensures
        r@ == DEFAULT_RGB_CAMERA@,
{
    DEFAULT_RGB_CAMERA.to_owned()
}

pub fn default_dark_luma_threshold() -> (r: u8)
    ensures
        r == 20,
{
    20
}

impl Default for CameraConfig {
    fn default() -> (r: CameraConfig)
        ensures
            r@ == default_cameras(),
    {
        let r: CameraConfig = CameraConfig {
            rgb: default_rgb_device(),
            ir: String::new(),
            emitter_enabled: false,
            dark_luma_threshold: default_dark_luma_threshold(),
        };
        assert(r@ =~= default_cameras());
        r
    }
}

// Authentication

/// What kind of prompt asks for authentication.
#[derive(Clone, Copy, Debug, PartialEq, Eq, Structural)]
pub enum AuthSurface {
    ScreenLock,
    Elevation,
    Login,
    /// No PAM prompt at all: the command line, a test button, anything that calls the
    /// daemon directly. There is no locker to step away from.
    Direct,
}

/// The kind of prompt that a PAM service shows.
pub open spec fn surface_of(service: Option<Seq<char>>) -> AuthSurface {
    match service {
        None => AuthSurface::Direct,
        Some(name) => if name.len() == 0 {
            AuthSurface::Direct
        } else if listed(ELEVATION_SERVICES@, name) {
            AuthSurface::Elevation
        } else if listed(LOGIN_SERVICES@, name) {
            AuthSurface::Login
        } else {
            AuthSurface::ScreenLock
        },
    }
}

/// Tells which kind of prompt a PAM service shows: an unnamed one is no prompt at all, and
/// one that is not known is taken for a screen lock.
pub fn classify_pam_service(service: Option<&str>) -> (r: AuthSurface)
    ensures
        r == surface_of(crate::text::opt_view(service)),
{
    match service {
        None => AuthSurface::Direct,
        Some(name) => {
            if name.is_empty() {
                AuthSurface::Direct
            } else if contains_option(ELEVATION_SERVICES.as_slice(), name) {
                AuthSurface::Elevation
            } else if contains_option(LOGIN_SERVICES.as_slice(), name) {
                AuthSurface::Login
            } else {
                AuthSurface::ScreenLock
            }
        },
    }
}

/// The services that raise privileges and those that log a user in are known by name. A
/// service without a name shows no prompt, and every other one locks the screen.
pub proof fn services_show_their_prompt(name: Seq<char>)
    ensures
        surface_of(None) == AuthSurface::Direct,
        surface_of(Some(name)) == AuthSurface::Direct <==> name.len() == 0,
        surface_of(Some(name)) == AuthSurface::Elevation <==> (name == "sudo"@ || name
            == "sudo-i"@ || name == "su"@ || name == "su-l"@ || name == "doas"@ || name == "run0"@
            || name == "systemd-run0"@ || name == "polkit-1"@ || name == "pkexec"@),
        surface_of(Some(name)) == AuthSurface::Login <==> (name == "login"@ || name == "sddm"@
            || name == "lightdm"@ || name == "greetd"@ || name == "gdm-password"@ || name
            == "gdm-launch-environment"@),
{
    let raising = ELEVATION_SERVICES@;
    let entering = LOGIN_SERVICES@;
    listed_values_have_an_option(raising, name, 0, 0, name);
    listed_values_have_an_option(entering, name, 0, 0, name);
    assert(raising.len() == 9 && entering.len() == 6);
    assert(raising[0]@ == "sudo"@ && raising[1]@ == "sudo-i"@ && raising[2]@ == "su"@ && raising[3]@
        == "su-l"@ && raising[4]@ == "doas"@ && raising[5]@ == "run0"@ && raising[6]@
        == "systemd-run0"@ && raising[7]@ == "polkit-1"@ && raising[8]@ == "pkexec"@);
    assert(entering[0]@ == "login"@ && entering[1]@ == "sddm"@ && entering[2]@ == "lightdm"@
        && entering[3]@ == "greetd"@ && entering[4]@ == "gdm-password"@ && entering[5]@
        == "gdm-launch-environment"@);
    reveal_strlit("sudo");
    reveal_strlit("sudo-i");
    reveal_strlit("su");
    reveal_strlit("su-l");
    reveal_strlit("doas");
    reveal_strlit("run0");
    reveal_strlit("systemd-run0");
    reveal_strlit("polkit-1");
    reveal_strlit("pkexec");
    reveal_strlit("login");
    reveal_strlit("sddm");
    reveal_strlit("lightdm");
    reveal_strlit("greetd");
    reveal_strlit("gdm-password");
    reveal_strlit("gdm-launch-environment");
    assert("sudo"@[1] == 'u' && "sudo-i"@[0] == 's' && "su"@[0] == 's' && "su-l"@[0] == 's'
        && "su-l"@[1] == 'u' && "doas"@[0] == 'd' && "run0"@[0] == 'r' && "systemd-run0"@[0] == 's'
        && "polkit-1"@[0] == 'p' && "pkexec"@[0] == 'p');
    assert("login"@[0] == 'l' && "sddm"@[0] == 's' && "sddm"@[1] == 'd' && "lightdm"@[0] == 'l'
        && "greetd"@[0] == 'g' && "gdm-password"@[0] == 'g' && "gdm-launch-environment"@[0] == 'g');
    assert("sudo"@.len() == 4 && "sddm"@.len() == 4 && "sudo-i"@.len() == 6 && "greetd"@.len() == 6
        && "systemd-run0"@.len() == 12 && "gdm-password"@.len() == 12 && "su"@.len() == 2);
}

pub fn default_start_delay_scope() -> (r: String)
    ensures
        r@ == "screen_lock"@,
{
    "screen_lock".to_owned()
}

pub fn default_true() -> (r: bool)
    ensures
        r,
{
    true
}

pub fn default_false() -> (r: bool)
    ensures
        !r,
{
    false
}

pub fn default_resume_grace_ms() -> (r: u64)
    ensures
        r == 0,
{
    0
}

pub fn default_start_delay_ms() -> (r: u64)
    ensures
        r == 0,
{
    0
}

/// When and how authentication starts.
#[derive(Clone, Debug)]
pub struct AuthConfig {
    pub abort_if_ssh: bool,
    pub abort_if_lid_closed: bool,
    pub require_confirmation_lock_screen: bool,
    pub require_confirmation_elevation: bool,
    pub resume_grace_ms: u64,
    pub start_delay_ms: u64,
    pub start_delay_scope: String,
}

/// When and how authentication starts, its texts as sequences.
#[verifier::ext_equal]
pub struct AuthModel {
    pub abort_if_ssh: bool,
    pub abort_if_lid_closed: bool,
    pub require_confirmation_lock_screen: bool,
    pub require_confirmation_elevation: bool,
    pub resume_grace_ms: u64,
    pub start_delay_ms: u64,
    pub start_delay_scope: Seq<char>,
}

impl View for AuthConfig {
    type V = AuthModel;

    open spec fn view(&self) -> AuthModel {
        AuthModel {
            abort_if_ssh: self.abort_if_ssh,
            abort_if_lid_closed: self.abort_if_lid_closed,
            require_confirmation_lock_screen: self.require_confirmation_lock_screen,
            require_confirmation_elevation: self.require_confirmation_elevation,
            resume_grace_ms: self.resume_grace_ms,
            start_delay_ms: self.start_delay_ms,
            start_delay_scope: self.start_delay_scope@,
        }
    }
}

/// The authentication settings that are used where none are set.
pub open spec fn default_auth() -> AuthModel {
    AuthModel {
        abort_if_ssh: true,
        abort_if_lid_closed: true,
        require_confirmation_lock_screen: false,
        require_confirmation_elevation: false,
        resume_grace_ms: 0,
        start_delay_ms: 0,
        start_delay_scope: "screen_lock"@,
    }
}

impl Default for AuthConfig {
    fn default() -> (r: AuthConfig)
        ensures
            r@ == default_auth(),
    {
        AuthConfig {
            abort_if_ssh: true,
            abort_if_lid_closed: true,
            require_confirmation_lock_screen: false,
            require_confirmation_elevation: false,
            resume_grace_ms: default_resume_grace_ms(),
            start_delay_ms: default_start_delay_ms(),
            start_delay_scope: default_start_delay_scope(),
        }
    }
}

impl AuthModel {
    /// A match at this kind of prompt has to be confirmed.
    pub open spec fn confirms(self, surface: AuthSurface) -> bool {
        match surface {
            AuthSurface::Elevation => self.require_confirmation_elevation,
            AuthSurface::ScreenLock | AuthSurface::Login => self.require_confirmation_lock_screen,
            AuthSurface::Direct => false,
        }
    }

    /// The start delay is for screen locks only.
    pub open spec fn only_screen_lock(self) -> bool {
        self.start_delay_scope == "screen_lock"@
    }

    /// The start delay counts at this kind of prompt.
    pub open spec fn delays(self, surface: AuthSurface) -> bool {
        surface != AuthSurface::Direct && (self.only_screen_lock() ==> surface
            == AuthSurface::ScreenLock)
    }

    /// What is left of the start delay when the lock was engaged `elapsed` ago.
    pub open spec fn start_delay_left(self, surface: AuthSurface, elapsed: Option<u64>) -> u64 {
        if !self.delays(surface) {
            0
        } else {
            match elapsed {
                None => self.start_delay_ms,
                Some(ms) => if ms >= self.start_delay_ms {
                    0
                } else {
                    (self.start_delay_ms - ms) as u64
                },
            }
        }
    }

    /// The wait before verification: what is left of the start delay, and after a resume
    /// no less than the resume grace.
    pub open spec fn wait(self, resumed: bool, surface: AuthSurface, elapsed: Option<u64>) -> u64 {
        let start = self.start_delay_left(surface, elapsed);
        if resumed && self.resume_grace_ms > start {
            self.resume_grace_ms
        } else {
            start
        }
    }
}

impl AuthConfig {
    /// Whether a match at this kind of prompt has to be confirmed.
    pub fn requires_confirmation(&self, surface: AuthSurface) -> (r: bool)
        ensures
            r == self@.confirms(surface),
    {
        match surface {
            AuthSurface::Elevation => self.require_confirmation_elevation,
            AuthSurface::ScreenLock | AuthSurface::Login => self.require_confirmation_lock_screen,
            AuthSurface::Direct => false,
        }
    }

    /// The scope of the start delay: "screen_lock", or "all" for anything else.
    pub fn start_delay_scope(&self) -> (r: &'static str)
        ensures
            r@ == (if self@.only_screen_lock() {
                "screen_lock"@
            } else {
                "all"@
            }),
    {
        if str_eq(self.start_delay_scope.as_str(), "screen_lock") {
            "screen_lock"
        } else {
            "all"
        }
    }

    /// Whether the start delay counts at this kind of prompt.
    pub fn start_delay_applies_to(&self, surface: AuthSurface) -> (r: bool)
        ensures
            r == self@.delays(surface),
    {
        if surface == AuthSurface::Direct {
            return false;
        }
        proof {
            reveal_strlit("screen_lock");
            reveal_strlit("all");
            assert("screen_lock"@.len() != "all"@.len());
        }
        if str_eq(self.start_delay_scope(), "screen_lock") {
            surface == AuthSurface::ScreenLock
        } else {
            true
        }
    }

    /// Milliseconds to wait before face verification begins.
    pub fn effective_start_delay_ms(&self, resumed: bool, surface: AuthSurface) -> (r: u64)
        ensures
            r == self@.wait(resumed, surface, None),
    {
        self.start_delay_after_lock_ms(resumed, surface, None)
    }

    /// Milliseconds still owed on the start delay, measured from the lock.
    pub fn start_delay_after_lock_ms(
        &self,
        resumed: bool,
        surface: AuthSurface,
        lock_elapsed_ms: Option<u64>,
    ) -> (r: u64)
        ensures
            r == self@.wait(resumed, surface, lock_elapsed_ms),
    {
        let start: u64 = if self.start_delay_applies_to(surface) {
            match lock_elapsed_ms {
                Some(elapsed) => {
                    if elapsed >= self.start_delay_ms {
                        0
                    } else {
                        self.start_delay_ms - elapsed
                    }
                },
                None => self.start_delay_ms,
            }
        } else {
            0
        };
        if resumed && self.resume_grace_ms > start {
            self.resume_grace_ms
        } else {
            start
        }
    }

    pub fn start_delay_scope_index_for_value(value: &str) -> (r: u32)
        ensures
            r == index_in(START_DELAY_SCOPE_OPTIONS@, value@, 0),
    {
        index_of(START_DELAY_SCOPE_OPTIONS.as_slice(), value, 0)
    }

    pub fn start_delay_scope_from_index(index: usize) -> (r: String)
        ensures
            r@ == option_at(START_DELAY_SCOPE_OPTIONS@, index as int, "all"@),
    {
        value_at(START_DELAY_SCOPE_OPTIONS.as_slice(), index, "all").to_owned()
    }
}

/// The start delay and the resume grace do not add up: the wait is never longer than the
/// longer of the two.
pub proof fn delays_do_not_stack(
    model: AuthModel,
    resumed: bool,
    surface: AuthSurface,
    elapsed: Option<u64>,
)
    ensures
        model.wait(resumed, surface, elapsed) <= model.start_delay_ms || model.wait(
            resumed,
            surface,
            elapsed,
        ) == model.resume_grace_ms,
        !resumed ==> model.wait(resumed, surface, elapsed) <= model.start_delay_ms,
{
}

/// After a resume the whole grace is waited at every kind of prompt, whatever the scope of
/// the start delay and however long ago the lock was engaged.
pub proof fn resume_grace_is_always_waited(
    model: AuthModel,
    surface: AuthSurface,
    elapsed: Option<u64>,
)
    ensures
        model.wait(true, surface, elapsed) >= model.resume_grace_ms,
        model.wait(true, surface, elapsed) >= model.wait(false, surface, elapsed),
{
}

/// The longer ago the lock was engaged, the shorter the wait; a start delay that has run
/// out owes nothing more.
pub proof fn waiting_shrinks_with_time_since_the_lock(
    model: AuthModel,
    resumed: bool,
    surface: AuthSurface,
    earlier: u64,
    later: u64,
)
    requires
        earlier <= later,
    ensures
        model.wait(resumed, surface, Some(later)) <= model.wait(resumed, surface, Some(earlier)),
        model.wait(resumed, surface, Some(earlier)) <= model.wait(resumed, surface, None),
        later >= model.start_delay_ms ==> model.wait(false, surface, Some(later)) == 0,
{
}

/// A direct caller never waits on the start delay and never has to confirm.
pub proof fn direct_callers_are_not_held_up(model: AuthModel, elapsed: Option<u64>)
    ensures
        model.wait(false, AuthSurface::Direct, elapsed) == 0,
        model.wait(true, AuthSurface::Direct, elapsed) == model.resume_grace_ms,
        !model.confirms(AuthSurface::Direct),
{
}

/// A screen lock waits until the start delay is over, counted from the moment of the lock and
/// not from the moment of asking: asking later ends the wait at the same time. Without a
/// known moment the whole delay is waited.
pub proof fn locks_wait_out_the_start_delay(model: AuthModel, elapsed: u64)
    ensures
        elapsed <= model.start_delay_ms ==> elapsed + model.wait(
            false,
            AuthSurface::ScreenLock,
            Some(elapsed),
        ) == model.start_delay_ms,
        elapsed >= model.start_delay_ms ==> model.wait(
            false,
            AuthSurface::ScreenLock,
            Some(elapsed),
        ) == 0,
        model.wait(false, AuthSurface::ScreenLock, None) == model.start_delay_ms,
{
}

/// Under a scope other than that of screen locks, every prompt waits as a screen lock does.
pub proof fn wider_scopes_hold_every_prompt(
    model: AuthModel,
    resumed: bool,
    surface: AuthSurface,
    elapsed: Option<u64>,
)
    requires
        model.start_delay_scope != "screen_lock"@,
        surface != AuthSurface::Direct,
    ensures
        model.wait(resumed, surface, elapsed) == model.wait(
            resumed,
            AuthSurface::ScreenLock,
            elapsed,
        ),
{
}

/// After a resume the wait is the longer of the grace and of what is left of the start
/// delay; without one the grace has no say.
pub proof fn resumed_waits_are_the_longer(
    model: AuthModel,
    other: AuthModel,
    surface: AuthSurface,
    elapsed: Option<u64>,
)
    ensures
        model.wait(true, surface, elapsed) == model.resume_grace_ms || model.wait(
            true,
            surface,
            elapsed,
        ) == model.wait(false, surface, elapsed),
        model.start_delay_ms == other.start_delay_ms && model.start_delay_scope
            == other.start_delay_scope ==> model.wait(false, surface, elapsed) == other.wait(
            false,
            surface,
            elapsed,
        ),
{
}

/// Raising privileges goes by its own setting; locking the screen and logging in go by the
/// other one, and alike.
pub proof fn confirmations_follow_their_setting(model: AuthModel)
    ensures
        model.confirms(AuthSurface::Elevation) == model.require_confirmation_elevation,
        model.confirms(AuthSurface::ScreenLock) == model.require_confirmation_lock_screen,
        model.confirms(AuthSurface::Login) == model.confirms(AuthSurface::ScreenLock),
{
}

/// Under the default scope only screen locks wait on the start delay.
pub proof fn default_scope_spares_other_prompts(
    model: AuthModel,
    surface: AuthSurface,
    elapsed: Option<u64>,
)
    requires
        model.start_delay_scope == default_auth().start_delay_scope,
        surface != AuthSurface::ScreenLock,
    ensures
        model.wait(false, surface, elapsed) == 0,
{
}

// Enrollment

/// How faces are enrolled.
#[derive(Clone, Copy, Debug, PartialEq, Eq, Structural)]
pub struct EnrollmentConfig {
    pub max_templates: u32,
    pub min_face_size_ratio: Double,
}

pub fn default_max_templates() -> (r: u32)
    ensures
        r == 2,
{
    2
}

pub fn default_enrollment_min_face_size_ratio() -> (r: Double)
    ensures
        r == (Double { bits: DEFAULT_ENROLLMENT_MIN_FACE_SIZE_RATIO }),
{
    Double { bits: DEFAULT_ENROLLMENT_MIN_FACE_SIZE_RATIO }
}

/// A face-size ratio that enrollment may use.
pub open spec fn ratio_allowed(ratio: Double) -> bool {
    ratio.finite() && ratio.between(
        Double { bits: MIN_ENROLLMENT_FACE_SIZE_RATIO },
        Double { bits: MAX_ENROLLMENT_FACE_SIZE_RATIO },
    )
}

impl EnrollmentConfig {
    /// The rule that the settings break.
    pub open spec fn problem(self) -> Option<ProblemModel> {
        if ratio_allowed(self.min_face_size_ratio) {
            None
        } else {
            Some(
                ProblemModel {
                    text: "enrollment.min_face_size_ratio must be between 0.1 and 0.75, got "@,
                    got: Some(self.min_face_size_ratio),
                },
            )
        }
    }

    /// The ratio that enrollment uses: the one that is set, or the default where that is
    /// out of range.
    pub open spec fn ratio_used(self) -> Single {
        if ratio_allowed(self.min_face_size_ratio) {
            self.min_face_size_ratio.narrowed()
        } else {
            Single { bits: 0x3e80_0000 }
        }
    }

    /// Accepts the settings, or reports the rule that they break.
    pub fn validate(&self) -> (r: Result<(), Problem>)
        ensures
            match r {
                Ok(_) => self.problem() is None,
                Err(p) => self.problem() == Some(p@),
            },
    {
        if Self::ratio_in_range(self.min_face_size_ratio) {
            Ok(())
        } else {
            Err(
                Problem {
                    text:
                        "enrollment.min_face_size_ratio must be between 0.1 and 0.75, got ".to_owned(),
                    got: Some(self.min_face_size_ratio),
                },
            )
        }
    }

    /// Whether enrollment may use a ratio.
    pub fn ratio_in_range(ratio: Double) -> (r: bool)
        ensures
            r == ratio_allowed(ratio),
    {
        ratio.is_finite() && Double { bits: MIN_ENROLLMENT_FACE_SIZE_RATIO }.le(ratio) && ratio.le(
            Double { bits: MAX_ENROLLMENT_FACE_SIZE_RATIO },
        )
    }

    /// The ratio that enrollment uses.
    pub fn effective_min_face_size_ratio(&self) -> (r: Single)
        ensures
            r == self.ratio_used(),
    {
        match self.validate() {
            Ok(_) => {
                proof {
                    allowed_ratios_by_pattern(self.min_face_size_ratio);
                }
                self.min_face_size_ratio.narrow()
            },
            Err(_) => {
                proof {
                    narrowed_by_parts(
                        Double { bits: DEFAULT_ENROLLMENT_MIN_FACE_SIZE_RATIO },
                        0x3e80_0000,
                        0,
                    );
                }
                Double { bits: DEFAULT_ENROLLMENT_MIN_FACE_SIZE_RATIO }.narrow()
            },
        }
    }
}

/// The ratios that may be used are a range of patterns.
pub proof fn allowed_ratios_by_pattern(ratio: Double)
    ensures
        ratio_allowed(ratio) <==> MIN_ENROLLMENT_FACE_SIZE_RATIO <= ratio.bits
            <= MAX_ENROLLMENT_FACE_SIZE_RATIO,
{
    patterns_order_numbers(
        Double { bits: MIN_ENROLLMENT_FACE_SIZE_RATIO },
        ratio,
        Double { bits: MAX_ENROLLMENT_FACE_SIZE_RATIO },
    );
}

/// Whatever is set, enrollment uses a ratio from 0.1 to 0.75.
pub proof fn effective_ratio_is_in_range(config: EnrollmentConfig)
    ensures
        0x3dcc_cccd <= config.ratio_used().bits <= 0x3f40_0000,
{
    allowed_ratios_by_pattern(config.min_face_size_ratio);
    narrowed_by_parts(Double { bits: MIN_ENROLLMENT_FACE_SIZE_RATIO }, 0x3dcc_cccc, 0x1999_999a);
    narrowed_by_parts(Double { bits: MAX_ENROLLMENT_FACE_SIZE_RATIO }, 0x3f40_0000, 0);
    if ratio_allowed(config.min_face_size_ratio) {
        narrowing_is_monotone(
            Double { bits: MIN_ENROLLMENT_FACE_SIZE_RATIO },
            config.min_face_size_ratio,
        );
        narrowing_is_monotone(
            config.min_face_size_ratio,
            Double { bits: MAX_ENROLLMENT_FACE_SIZE_RATIO },
        );
    }
}

/// A ratio in range is used as the nearest of its narrower kind, and one out of range is
/// replaced by a quarter; the complaint comes exactly in the second case and shows it.
pub proof fn ratios_out_of_range_are_replaced(config: EnrollmentConfig)
    ensures
        MIN_ENROLLMENT_FACE_SIZE_RATIO <= config.min_face_size_ratio.bits
            <= MAX_ENROLLMENT_FACE_SIZE_RATIO <==> config.problem() is None,
        config.problem() is None ==> config.ratio_used() == config.min_face_size_ratio.narrowed(),
        config.problem() is Some ==> config.ratio_used() == (Double {
            bits: 0x3fd0_0000_0000_0000,
        }).narrowed(),
        config.problem() matches Some(p) ==> p.got == Some(config.min_face_size_ratio) && starts(
            p.text,
            "enrollment.min_face_size_ratio"@,
        ),
{
    allowed_ratios_by_pattern(config.min_face_size_ratio);
    narrowed_by_parts(Double { bits: 0x3fd0_0000_0000_0000 }, 0x3e80_0000, 0);
    reveal_strlit("enrollment.min_face_size_ratio must be between 0.1 and 0.75, got ");
    reveal_strlit("enrollment.min_face_size_ratio");
    assert("enrollment.min_face_size_ratio must be between 0.1 and 0.75, got "@.subrange(0, 30)
        =~= "enrollment.min_face_size_ratio"@);
}

impl Default for EnrollmentConfig {
    fn default() -> (r: EnrollmentConfig)
        ensures
            r == (EnrollmentConfig {
                max_templates: 2,
                min_face_size_ratio: Double { bits: DEFAULT_ENROLLMENT_MIN_FACE_SIZE_RATIO },
            }),
    {
        EnrollmentConfig {
            max_templates: default_max_templates(),
            min_face_size_ratio: default_enrollment_min_face_size_ratio(),
        }
    }
}

// The whole

/// All settings.
#[derive(Clone, Debug)]
pub struct Config {
    pub inference: InferenceConfig,
    pub security: SecurityLevel,
    pub cameras: CameraConfig,
    pub auth: AuthConfig,
    pub enrollment: EnrollmentConfig,
    pub liveness: LivenessConfig,
    pub storage: StorageConfig,
}

/// All settings, their texts as sequences.
#[verifier::ext_equal]
pub struct ConfigModel {
    pub inference: InferenceModel,
    pub security: SecurityModel,
    pub cameras: CameraModel,
    pub auth: AuthModel,
    pub enrollment: EnrollmentConfig,
    pub liveness: LivenessConfig,
    pub storage: StorageConfig,
}

impl View for Config {
    type V = ConfigModel;

    open spec fn view(&self) -> ConfigModel {
        ConfigModel {
            inference: self.inference@,
            security: self.security@,
            cameras: self.cameras@,
            auth: self.auth@,
            enrollment: self.enrollment,
            liveness: self.liveness,
            storage: self.storage,
        }
    }
}

/// The settings that are used where none are set.
pub open spec fn default_config() -> ConfigModel {
    ConfigModel {
        inference: InferenceModel { execution_provider: "cpu"@, device: "cpu"@ },
        security: preset_model("medium"@),
        cameras: default_cameras(),
        auth: default_auth(),
        enrollment: EnrollmentConfig {
            max_templates: 2,
            min_face_size_ratio: Double { bits: DEFAULT_ENROLLMENT_MIN_FACE_SIZE_RATIO },
        },
        liveness: LivenessConfig {
            enabled: true,
            threshold: Double { bits: DEFAULT_LIVENESS_THRESHOLD },
            max_frames: 40,
        },
        storage: StorageConfig { encrypt_templates: false },
    }
}

impl Default for Config {
    fn default() -> (r: Config)
        ensures
            r@ == default_config(),
    {
        Config {
            inference: InferenceConfig::default(),
            security: SecurityLevel::default(),
            cameras: CameraConfig::default(),
            auth: AuthConfig::default(),
            enrollment: EnrollmentConfig::default(),
            liveness: LivenessConfig::default(),
            storage: StorageConfig::default(),
        }
    }
}

/// The table of the settings that a warning is about, and with it what is used instead.
#[derive(Clone, Copy, Debug, PartialEq, Eq, Structural)]
pub enum Table {
    Security,
    Enrollment,
    Inference,
    Liveness,
}

impl Table {
    /// What is said to be used instead of a bad value.
    pub open spec fn fallback_text(self) -> Seq<char> {
        match self {
            Table::Security => "using safe fallbacks for invalid security fields"@,
            Table::Enrollment => "using the default enrollment face-size ratio"@,
            Table::Inference => "inference configuration will be checked when models load"@,
            Table::Liveness => "using the default liveness settings"@,
        }
    }

    /// What is said to be used instead of a bad value.
    pub fn fallback(self) -> (r: &'static str)
        ensures
            r@ == self.fallback_text(),
    {
        match self {
            Table::Security => "using safe fallbacks for invalid security fields",
            Table::Enrollment => "using the default enrollment face-size ratio",
            Table::Inference => "inference configuration will be checked when models load",
            Table::Liveness => "using the default liveness settings",
        }
    }
}

/// What is said to be used instead names what it stands in for.
pub proof fn fallbacks_name_their_table(table: Table)
    ensures
        table == Table::Security ==> contains_text(table.fallback_text(), "security"@),
        table == Table::Enrollment ==> contains_text(table.fallback_text(), "enrollment"@),
        table == Table::Inference ==> contains_text(table.fallback_text(), "inference"@),
        table == Table::Liveness ==> contains_text(table.fallback_text(), "liveness"@),
{
    reveal_strlit("using safe fallbacks for invalid security fields");
    reveal_strlit("using the default enrollment face-size ratio");
    reveal_strlit("inference configuration will be checked when models load");
    reveal_strlit("using the default liveness settings");
    reveal_strlit("security");
    reveal_strlit("enrollment");
    reveal_strlit("inference");
    reveal_strlit("liveness");
    let text = table.fallback_text();
    match table {
        Table::Security => {
            assert(text.subrange(33, 41) =~= "security"@);
            assert(stands_at(text, "security"@, 33));
        },
        Table::Enrollment => {
            assert(text.subrange(18, 28) =~= "enrollment"@);
            assert(stands_at(text, "enrollment"@, 18));
        },
        Table::Inference => {
            assert(text.subrange(0, 9) =~= "inference"@);
            assert(stands_at(text, "inference"@, 0));
        },
        Table::Liveness => {
            assert(text.subrange(18, 26) =~= "liveness"@);
            assert(stands_at(text, "liveness"@, 18));
        },
    }
}

/// A warning about a loaded table.
#[derive(Clone, Debug)]
pub struct LoadWarning {
    pub table: Table,
    pub problem: Problem,
}

/// A warning, its texts as sequences.
#[verifier::ext_equal]
pub struct WarningModel {
    pub table: Table,
    pub problem: ProblemModel,
}

impl View for LoadWarning {
    type V = WarningModel;

    open spec fn view(&self) -> WarningModel {
        WarningModel { table: self.table, problem: self.problem@ }
    }
}

/// One warning or none.
pub open spec fn warning_for(table: Table, problem: Option<ProblemModel>) -> Seq<WarningModel> {
    match problem {
        None => seq![],
        Some(problem) => seq![WarningModel { table, problem }],
    }
}

impl ConfigModel {
    /// The first problem of the security settings.
    pub open spec fn security_problem(self) -> Option<ProblemModel> {
        if self.security.errors().len() == 0 {
            None
        } else {
            let e = self.security.errors()[0];
            Some(ProblemModel { text: e.text, got: e.got })
        }
    }

    /// The problem of the inference settings.
    pub open spec fn inference_problem(self) -> Option<ProblemModel> {
        match self.inference.problem() {
            None => None,
            Some(text) => Some(ProblemModel { text, got: None }),
        }
    }

    /// The warnings that loading the settings gives: the first problem of each table.
    pub open spec fn warnings(self) -> Seq<WarningModel> {
        warning_for(Table::Security, self.security_problem()) + warning_for(
            Table::Enrollment,
            self.enrollment.problem(),
        ) + warning_for(Table::Inference, self.inference_problem()) + warning_for(
            Table::Liveness,
            self.liveness.problem(),
        )
    }
}

/// The problem of the settings of one table.
pub open spec fn table_problem(config: ConfigModel, table: Table) -> Option<ProblemModel> {
    match table {
        Table::Security => config.security_problem(),
        Table::Enrollment => config.enrollment.problem(),
        Table::Inference => config.inference_problem(),
        Table::Liveness => config.liveness.problem(),
    }
}

/// A table is warned about exactly if its settings have a problem, once, and with that
/// problem.
pub proof fn tables_with_problems_are_warned_about(config: ConfigModel, table: Table)
    ensures
        table_problem(config, table) is Some <==> exists|i: int|
            0 <= i < config.warnings().len() && (#[trigger] config.warnings()[i]).table == table,
        forall|i: int|
            0 <= i < config.warnings().len() && (#[trigger] config.warnings()[i]).table == table
                ==> table_problem(config, table) == Some(config.warnings()[i].problem),
        forall|i: int, j: int|
            0 <= i < j < config.warnings().len() ==> (#[trigger] config.warnings()[i]).table != (
            #[trigger] config.warnings()[j]).table,
{
    let first = warning_for(Table::Security, config.security_problem());
    let second = warning_for(Table::Enrollment, config.enrollment.problem());
    let third = warning_for(Table::Inference, config.inference_problem());
    let fourth = warning_for(Table::Liveness, config.liveness.problem());
    let warnings = config.warnings();
    assert(warnings =~= first + second + third + fourth);
    match table {
        Table::Security => {
            if config.security_problem() is Some {
                assert(warnings[0] == first[0]);
            }
        },
        Table::Enrollment => {
            if config.enrollment.problem() is Some {
                assert(warnings[first.len() as int] == second[0]);
            }
        },
        Table::Inference => {
            if config.inference_problem() is Some {
                assert(warnings[first.len() + second.len() as int] == third[0]);
            }
        },
        Table::Liveness => {
            if config.liveness.problem() is Some {
                assert(warnings[first.len() + second.len() + third.len() as int] == fourth[0]);
            }
        },
    }
}

/// The settings that are used where none are set give no warning and wait for nothing at
/// any prompt, and no match has to be confirmed.
pub proof fn default_settings_are_valid(
    resumed: bool,
    surface: AuthSurface,
    elapsed: Option<u64>,
)
    ensures
        default_config().warnings().len() == 0,
        default_auth().wait(resumed, surface, elapsed) == 0,
        !default_auth().confirms(surface),
        default_auth().abort_if_ssh,
        default_auth().abort_if_lid_closed,
{
    representable_settings_are_the_valid_ones(default_config().inference);
    level_names_are_distinct();
    presets_are_valid(default_config().security);
    liveness_thresholds_by_pattern(default_config().liveness.threshold);
    allowed_ratios_by_pattern(default_config().enrollment.min_face_size_ratio);
}

/// The warnings of a list, their texts as sequences.
pub open spec fn warning_models(warnings: Seq<LoadWarning>) -> Seq<WarningModel> {
    warnings.map_values(|w: LoadWarning| w@)
}

fn warn_about(table: Table, problem: Option<Problem>, warnings: &mut Vec<LoadWarning>)
    ensures
        warning_models(final(warnings)@) == warning_models(old(warnings)@) + warning_for(
            table,
            match problem {
                None => None,
                Some(p) => Some(p@),
            },
        ),
{
    match problem {
        None => {
            assert(warning_models(warnings@) + Seq::<WarningModel>::empty() =~= warning_models(
                warnings@,
            ));
        },
        Some(problem) => {
            let warning: LoadWarning = LoadWarning { table, problem };
            assert(warning_models(warnings@.push(warning)) =~= warning_models(warnings@)
                + seq![warning@]);
            warnings.push(warning);
        },
    }
}

impl Config {
    /// What to warn about after loading: bad values are not refused then, the accessors
    /// fall back instead.
    pub fn load_warnings(&self) -> (r: Vec<LoadWarning>)
        ensures
            warning_models(r@) == self@.warnings(),
    {
        let mut warnings: Vec<LoadWarning> = Vec::new();
        assert(warning_models(warnings@) =~= seq![]);
        let security: Option<Problem> = match self.security.validate() {
            Ok(_) => None,
            Err(e) => Some(Problem { text: e.text, got: e.got }),
        };
        let enrollment: Option<Problem> = match self.enrollment.validate() {
            Ok(_) => None,
            Err(p) => Some(p),
        };
        let inference: Option<Problem> = match self.inference.validate() {
            Ok(_) => None,
            Err(text) => Some(Problem { text, got: None }),
        };
        let liveness: Option<Problem> = match self.liveness.validate() {
            Ok(_) => None,
            Err(p) => Some(p),
        };
        warn_about(Table::Security, security, &mut warnings);
        warn_about(Table::Enrollment, enrollment, &mut warnings);
        warn_about(Table::Inference, inference, &mut warnings);
        warn_about(Table::Liveness, liveness, &mut warnings);
        assert(warning_models(warnings@) =~= self@.warnings());
        warnings
    }
}

/// The name of the file that settings are written to before they replace the old ones.
pub open spec fn temporary_name_text(file_name: Seq<char>, pid: u32) -> Seq<char> {
    "."@ + file_name + "."@ + decimal_text(pid as nat) + ".tmp"@
}

/// Settings are written to a hidden file that is never the one they replace, and two
/// processes write to two files.
pub proof fn temporary_names_are_apart(file_name: Seq<char>, pid: u32, other: u32)
    ensures
        starts(temporary_name_text(file_name, pid), "."@ + file_name),
        temporary_name_text(file_name, pid) != file_name,
        temporary_name_text(file_name, pid) == temporary_name_text(file_name, other) ==> pid
            == other,
        stands_at(
            temporary_name_text(file_name, pid),
            ".tmp"@,
            temporary_name_text(file_name, pid).len() - 4,
        ),
{
    reveal_strlit(".");
    reveal_strlit(".tmp");
    let name = temporary_name_text(file_name, pid);
    assert(name.subrange(0, 1 + file_name.len() as int) =~= "."@ + file_name);
    assert(name.len() > file_name.len());
    assert(name.subrange(name.len() - 4, name.len() as int) =~= ".tmp"@);
    if name == temporary_name_text(file_name, other) {
        let start = 2 + file_name.len() as int;
        let theirs = temporary_name_text(file_name, other);
        assert(name.subrange(start, name.len() - 4) =~= decimal_text(pid as nat));
        assert(theirs.subrange(start, theirs.len() - 4) =~= decimal_text(other as nat));
        written_numbers_differ(pid as nat, other as nat);
    }
}

/// The name of the file that settings are written to before they replace the old ones.
pub fn temporary_name(file_name: &str, pid: u32) -> (r: String)
    ensures
        r@ == temporary_name_text(file_name@, pid),
{
    let mut name: String = joined(".", file_name);
    name.append(".");
    let shown: String = decimal(pid as u64);
    name.append(shown.as_str());
    name.append(".tmp");
    name
}

} // verus!
