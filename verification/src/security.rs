//! Security levels: the presets, the custom values and what each of them resolves to.

use crate::number::{
    lemma_magnitude_increases, message_with, narrowed_by_parts, narrowing_is_monotone,
    patterns_order_numbers, shown_message, Double, Single,
};
use crate::options::{
    contains_option, index_in, index_of, lemma_first_listed, listed, option_at, value_at,
};
use crate::text::{contains_text, joined, quoted, quoted_text, stands_at, str_eq};
use vstd::prelude::*;
use vstd::string::*;

verus! {

pub const SECURITY_LEVEL_OPTIONS: [&'static str; 5] = [
    "low",
    "medium",
    "high",
    "maximum",
    "custom",
];

pub const SECURITY_LEVEL_LABELS: [&'static str; 5] = [
    "Low",
    "Medium",
    "High",
    "Maximum",
    "Custom",
];

pub const MODEL_QUALITY_OPTIONS: [&'static str; 2] = ["standard", "accurate"];

pub const MODEL_QUALITY_LABELS: [&'static str; 2] = ["Standard", "Accurate"];

pub const HYBRID_POLICY_OPTIONS: [&'static str; 4] = ["default", "or", "fallback_on_dark", "and"];

pub const HYBRID_POLICY_LABELS: [&'static str; 4] = ["Default", "Or", "Fallback on Dark", "And"];

/// 0.4, as the pattern of a binary64 number.
pub const DEFAULT_SECURITY_THRESHOLD: u64 = 0x3fd9_9999_9999_999a;

/// 0.10, as the pattern of a binary64 number.
pub const MIN_SECURITY_THRESHOLD: u64 = 0x3fb9_9999_9999_999a;

/// 0.99, as the pattern of a binary64 number.
pub const MAX_SECURITY_THRESHOLD: u64 = 0x3fef_ae14_7ae1_47ae;

/// Which part of the security settings a validation error came from, so a caller can
/// offer the fix that matches instead of one message for the whole table.
#[derive(Clone, Copy, Debug, PartialEq, Eq, Structural)]
pub enum SecurityField {
    Level,
    ModelQuality,
    Threshold,
    HybridPolicy,
}

/// A problem with the security settings: what is wrong and, where the problem is a number,
/// the number that was got, with which the message ends.
#[derive(Clone, Debug, PartialEq)]
pub struct SecurityValidationError {
    pub field: SecurityField,
    pub text: String,
    pub got: Option<Double>,
}

/// A validation error, its text as a sequence.
#[verifier::ext_equal]
pub struct SecurityErrorModel {
    pub field: SecurityField,
    pub text: Seq<char>,
    pub got: Option<Double>,
}

impl View for SecurityValidationError {
    type V = SecurityErrorModel;

    open spec fn view(&self) -> SecurityErrorModel {
        SecurityErrorModel { field: self.field, text: self.text@, got: self.got }
    }
}

impl SecurityValidationError {
    /// The message that the problem is shown with. `show` writes the number in `got` as a
    /// decimal; without one it is not called.
    pub fn message<F>(&self, show: F) -> (message: String) where F: FnOnce(Double) -> String
        requires
            self.got matches Some(number) ==> call_requires(show, (number,)),
        ensures
            shown_message(self@.text, self@.got, show, message@),
    {
        message_with(self.text.as_str(), self.got, show)
    }
}

/// The values the custom security rows should show for a given level: either the
/// stored custom values, or the values the selected preset actually resolves to.
#[derive(Clone, Debug, PartialEq)]
pub struct CustomSecurityForm {
    pub detector: String,
    pub recognizer: String,
    pub rgb_threshold: Double,
    pub ir_threshold: Double,
    pub hybrid_policy: String,
}

/// The security settings. All but the level count for the level "custom" only.
#[derive(Clone, Debug)]
pub struct SecurityLevel {
    pub level: String,
    pub detector: String,
    pub recognizer: String,
    pub rgb_threshold: Double,
    pub ir_threshold: Double,
    pub hybrid_policy: String,
}

/// The security settings, their texts as sequences.
#[verifier::ext_equal]
pub struct SecurityModel {
    pub level: Seq<char>,
    pub detector: Seq<char>,
    pub recognizer: Seq<char>,
    pub rgb_threshold: Double,
    pub ir_threshold: Double,
    pub hybrid_policy: Seq<char>,
}

impl View for SecurityLevel {
    type V = SecurityModel;

    open spec fn view(&self) -> SecurityModel {
        SecurityModel {
            level: self.level@,
            detector: self.detector@,
            recognizer: self.recognizer@,
            rgb_threshold: self.rgb_threshold,
            ir_threshold: self.ir_threshold,
            hybrid_policy: self.hybrid_policy@,
        }
    }
}

impl View for CustomSecurityForm {
    type V = SecurityModel;

    /// The form as the custom level it describes.
    open spec fn view(&self) -> SecurityModel {
        SecurityModel {
            level: "custom"@,
            detector: self.detector@,
            recognizer: self.recognizer@,
            rgb_threshold: self.rgb_threshold,
            ir_threshold: self.ir_threshold,
            hybrid_policy: self.hybrid_policy@,
        }
    }
}

/// The security table of a settings file. `threshold` is an older key that both
/// thresholds fall back to.
#[derive(Clone, Debug)]
pub struct SecurityLevelFile {
    pub level: Option<String>,
    pub detector: Option<String>,
    pub recognizer: Option<String>,
    pub threshold: Option<Double>,
    pub rgb_threshold: Option<Double>,
    pub ir_threshold: Option<Double>,
    pub hybrid_policy: Option<String>,
}

/// What a level's name stands for.
#[derive(Clone, Copy, Debug, PartialEq, Eq, Structural)]
pub enum LevelKind {
    Low,
    Medium,
    High,
    Maximum,
    Custom,
    Unknown,
}

/// The kind that a level's name stands for.
pub open spec fn kind_of(level: Seq<char>) -> LevelKind {
    if level == "low"@ {
        LevelKind::Low
    } else if level == "medium"@ {
        LevelKind::Medium
    } else if level == "high"@ {
        LevelKind::High
    } else if level == "maximum"@ {
        LevelKind::Maximum
    } else if level == "custom"@ {
        LevelKind::Custom
    } else {
        LevelKind::Unknown
    }
}

/// A preset: a level's name and nothing else set.
pub open spec fn preset_model(level: Seq<char>) -> SecurityModel {
    SecurityModel {
        level,
        detector: seq![],
        recognizer: seq![],
        rgb_threshold: Double { bits: 0 },
        ir_threshold: Double { bits: 0 },
        hybrid_policy: seq![],
    }
}

/// A threshold that the custom level may use.
pub open spec fn threshold_allowed(threshold: Double) -> bool {
    threshold.finite() && threshold.between(
        Double { bits: MIN_SECURITY_THRESHOLD },
        Double { bits: MAX_SECURITY_THRESHOLD },
    )
}

/// What is said of a threshold out of range before the number itself.
pub open spec fn threshold_text(name: Seq<char>) -> Seq<char> {
    "security."@ + name + " must be between 0.1 and 0.99, got "@
}

/// The message for an unknown model quality.
pub open spec fn quality_message(name: Seq<char>, quality: Seq<char>) -> Seq<char> {
    "invalid "@ + name + " level "@ + quoted_text(quality)
        + ": expected \"standard\" or \"accurate\""@
}

impl SecurityModel {
    /// The level's kind.
    pub open spec fn kind(self) -> LevelKind {
        kind_of(self.level)
    }

    /// The level resolves to the accurate detector.
    pub open spec fn accurate_detector(self) -> bool {
        match self.kind() {
            LevelKind::High | LevelKind::Maximum => true,
            LevelKind::Custom => self.detector == "accurate"@,
            _ => false,
        }
    }

    /// The level resolves to the accurate recognizer.
    pub open spec fn accurate_recognizer(self) -> bool {
        match self.kind() {
            LevelKind::High | LevelKind::Maximum => true,
            LevelKind::Custom => self.recognizer == "accurate"@,
            _ => false,
        }
    }

    /// The threshold a level matches at, given the stored custom one.
    pub open spec fn threshold_for(self, custom: Double) -> Single {
        match self.kind() {
            LevelKind::Low => Single { bits: 0x3e99_999a },
            LevelKind::High => Single { bits: 0x3f00_0000 },
            LevelKind::Maximum => Single { bits: 0x3f19_999a },
            LevelKind::Custom => if threshold_allowed(custom) {
                custom.narrowed()
            } else {
                Single { bits: 0x3ecc_cccd }
            },
            _ => Single { bits: 0x3ecc_cccd },
        }
    }

    /// The threshold of a preset as a form shows it.
    pub open spec fn shown_threshold(self) -> Double {
        match self.kind() {
            LevelKind::Low => Double { bits: 0x3fd3_3333_3333_3333 },
            LevelKind::High => Double { bits: 0x3fe0_0000_0000_0000 },
            LevelKind::Maximum => Double { bits: 0x3fe3_3333_3333_3333 },
            _ => Double { bits: DEFAULT_SECURITY_THRESHOLD },
        }
    }

    /// The policy for combining the two cameras.
    pub open spec fn policy(self) -> Seq<char> {
        match self.kind() {
            LevelKind::Low => "or"@,
            LevelKind::Maximum => "and"@,
            LevelKind::Custom => if self.hybrid_policy.len() == 0 {
                "fallback_on_dark"@
            } else {
                self.hybrid_policy
            },
            _ => "fallback_on_dark"@,
        }
    }

    /// The custom level that a form for this level describes.
    pub open spec fn form(self) -> SecurityModel {
        if self.kind() == LevelKind::Custom {
            self
        } else {
            SecurityModel {
                level: "custom"@,
                detector: quality_name(self.accurate_detector()),
                recognizer: quality_name(self.accurate_recognizer()),
                rgb_threshold: self.shown_threshold(),
                ir_threshold: self.shown_threshold(),
                hybrid_policy: self.policy(),
            }
        }
    }

    /// The complaint about an unknown level.
    pub open spec fn level_errors(self) -> Seq<SecurityErrorModel> {
        if listed(SECURITY_LEVEL_OPTIONS@, self.level) {
            seq![]
        } else {
            seq![
                SecurityErrorModel {
                    field: SecurityField::Level,
                    text: "invalid security level "@ + quoted_text(self.level)
                        + ": expected one of [\"low\", \"medium\", \"high\", \"maximum\", \"custom\"]"@,
                    got: None,
                },
            ]
        }
    }

    /// The complaint about a hybrid policy that is neither empty nor known.
    pub open spec fn policy_errors(self) -> Seq<SecurityErrorModel> {
        if self.hybrid_policy.len() == 0 || listed(HYBRID_POLICY_OPTIONS@, self.hybrid_policy) {
            seq![]
        } else {
            seq![
                SecurityErrorModel {
                    field: SecurityField::HybridPolicy,
                    text: "invalid security.hybrid_policy "@ + quoted_text(self.hybrid_policy)
                        + ": expected one of [\"default\", \"or\", \"fallback_on_dark\", \"and\"]"@,
                    got: None,
                },
            ]
        }
    }

    /// Every problem with the settings, in the order in which they are reported.
    pub open spec fn errors(self) -> Seq<SecurityErrorModel> {
        if !listed(SECURITY_LEVEL_OPTIONS@, self.level) {
            self.level_errors()
        } else if self.kind() != LevelKind::Custom {
            seq![]
        } else {
            quality_errors("detector"@, self.detector) + quality_errors(
                "recognizer"@,
                self.recognizer,
            ) + threshold_errors("rgb_threshold"@, self.rgb_threshold) + threshold_errors(
                "ir_threshold"@,
                self.ir_threshold,
            ) + self.policy_errors()
        }
    }
}

/// The name of a model quality.
pub open spec fn quality_name(accurate: bool) -> Seq<char> {
    if accurate {
        "accurate"@
    } else {
        "standard"@
    }
}

/// The complaint about a model quality that is not known.
pub open spec fn quality_errors(name: Seq<char>, quality: Seq<char>) -> Seq<SecurityErrorModel> {
    if listed(MODEL_QUALITY_OPTIONS@, quality) {
        seq![]
    } else {
        seq![
            SecurityErrorModel {
                field: SecurityField::ModelQuality,
                text: quality_message(name, quality),
                got: None,
            },
        ]
    }
}

/// The complaint about a threshold out of range.
pub open spec fn threshold_errors(name: Seq<char>, threshold: Double) -> Seq<SecurityErrorModel> {
    if threshold_allowed(threshold) {
        seq![]
    } else {
        seq![
            SecurityErrorModel {
                field: SecurityField::Threshold,
                text: threshold_text(name),
                got: Some(threshold),
            },
        ]
    }
}

/// The errors of a list, their messages as text.
pub open spec fn error_models(errors: Seq<SecurityValidationError>) -> Seq<SecurityErrorModel> {
    errors.map_values(|e: SecurityValidationError| e@)
}

proof fn lemma_push_error(
    errors: Seq<SecurityValidationError>,
    error: SecurityValidationError,
)
    ensures
        error_models(errors.push(error)) == error_models(errors) + seq![error@],
{
    assert(error_models(errors.push(error)) =~= error_models(errors) + seq![error@]);
}

fn quality_check(name: &str, quality: &str, errors: &mut Vec<SecurityValidationError>)
    ensures
        error_models(final(errors)@) == error_models(old(errors)@) + quality_errors(
            name@,
            quality@,
        ),
{
    if !contains_option(MODEL_QUALITY_OPTIONS.as_slice(), quality) {
        let mut message: String = joined("invalid ", name);
        message.append(" level ");
        let shown: String = quoted(quality);
        message.append(shown.as_str());
        message.append(": expected \"standard\" or \"accurate\"");
        let error: SecurityValidationError = SecurityValidationError {
            field: SecurityField::ModelQuality,
            text: message,
            got: None,
        };
        proof {
            lemma_push_error(errors@, error);
        }
        errors.push(error);
    } else {
        assert(error_models(errors@) + Seq::<SecurityErrorModel>::empty() =~= error_models(
            errors@,
        ));
    }
}

fn threshold_check(name: &str, threshold: Double, errors: &mut Vec<SecurityValidationError>)
    ensures
        error_models(final(errors)@) == error_models(old(errors)@) + threshold_errors(
            name@,
            threshold,
        ),
{
    if !SecurityLevel::threshold_in_range(threshold) {
        let mut message: String = joined("security.", name);
        message.append(" must be between 0.1 and 0.99, got ");
        let error: SecurityValidationError = SecurityValidationError {
            field: SecurityField::Threshold,
            text: message,
            got: Some(threshold),
        };
        proof {
            lemma_push_error(errors@, error);
        }
        errors.push(error);
    } else {
        assert(error_models(errors@) + Seq::<SecurityErrorModel>::empty() =~= error_models(
            errors@,
        ));
    }
}

fn quality_text(accurate: bool) -> (r: &'static str)
    ensures
        r@ == quality_name(accurate),
{
    if accurate {
        "accurate"
    } else {
        "standard"
    }
}

/// The level that is used where none is set.
pub fn default_level() -> (r: String)
    ensures
        r@ == "medium"@,
{
    "medium".to_owned()
}

/// A text, or an empty one.
pub open spec fn text_or_empty(s: Option<String>) -> Seq<char> {
    match s {
        Some(t) => t@,
        None => seq![],
    }
}

fn or_empty(s: Option<String>) -> (r: String)
    ensures
        r@ == text_or_empty(s),
{
    match s {
        Some(t) => t,
        None => {
            let r: String = String::new();
            assert(r@ =~= seq![]);
            r
        },
    }
}

/// The first threshold that is set, or zero.
pub open spec fn first_threshold(own: Option<Double>, shared: Option<Double>) -> Double {
    match own {
        Some(t) => t,
        None => match shared {
            Some(t) => t,
            None => Double { bits: 0 },
        },
    }
}

fn choose_threshold(own: Option<Double>, shared: Option<Double>) -> (r: Double)
    ensures
        r == first_threshold(own, shared),
{
    match own {
        Some(t) => t,
        None => {
            match shared {
                Some(t) => t,
                None => Double { bits: 0 },
            }
        },
    }
}

impl SecurityLevelFile {
    /// The settings that the table stands for: the level "medium" if none is named, empty
    /// texts, and for each threshold its own key, else the older key, else zero.
    pub fn resolve(self) -> (r: SecurityLevel)
        ensures
            r@.level == match self.level {
                Some(level) => level@,
                None => "medium"@,
            },
            r@.detector == text_or_empty(self.detector),
            r@.recognizer == text_or_empty(self.recognizer),
            r@.rgb_threshold == first_threshold(self.rgb_threshold, self.threshold),
            r@.ir_threshold == first_threshold(self.ir_threshold, self.threshold),
            r@.hybrid_policy == text_or_empty(self.hybrid_policy),
    {
        let level: String = match self.level {
            Some(level) => level,
            None => default_level(),
        };
        SecurityLevel {
            level,
            detector: or_empty(self.detector),
            recognizer: or_empty(self.recognizer),
            rgb_threshold: choose_threshold(self.rgb_threshold, self.threshold),
            ir_threshold: choose_threshold(self.ir_threshold, self.threshold),
            hybrid_policy: or_empty(self.hybrid_policy),
        }
    }
}

impl Default for SecurityLevel {
    fn default() -> (r: SecurityLevel)
        ensures
            r@ == preset_model("medium"@),
    {
        SecurityLevel::medium()
    }
}

impl SecurityLevel {
    /// The place of "custom" among the levels.
    pub const CUSTOM_LEVEL_INDEX: u32 = 4;

    fn preset(level: &str) -> (r: SecurityLevel)
        ensures
            r@ == preset_model(level@),
    {
        let r: SecurityLevel = SecurityLevel {
            level: level.to_owned(),
            detector: String::new(),
            recognizer: String::new(),
            rgb_threshold: Double { bits: 0 },
            ir_threshold: Double { bits: 0 },
            hybrid_policy: String::new(),
        };
        assert(r@ =~= preset_model(level@));
        r
    }

    pub fn low() -> (r: SecurityLevel)
        ensures
            r@ == preset_model("low"@),
    {
        Self::preset("low")
    }

    pub fn medium() -> (r: SecurityLevel)
        ensures
            r@ == preset_model("medium"@),
    {
        Self::preset("medium")
    }

    pub fn high() -> (r: SecurityLevel)
        ensures
            r@ == preset_model("high"@),
    {
        Self::preset("high")
    }

    pub fn maximum() -> (r: SecurityLevel)
        ensures
            r@ == preset_model("maximum"@),
    {
        Self::preset("maximum")
    }

    /// A custom level with one threshold for both cameras.
    pub fn custom(
        detector: String,
        recognizer: String,
        threshold: Double,
        hybrid_policy: String,
    ) -> (r: SecurityLevel)
        ensures
            r@ == (SecurityModel {
                level: "custom"@,
                detector: detector@,
                recognizer: recognizer@,
                rgb_threshold: threshold,
                ir_threshold: threshold,
                hybrid_policy: hybrid_policy@,
            }),
    {
        Self::custom_with_thresholds(detector, recognizer, threshold, threshold, hybrid_policy)
    }

    /// A custom level.
    pub fn custom_with_thresholds(
        detector: String,
        recognizer: String,
        rgb_threshold: Double,
        ir_threshold: Double,
        hybrid_policy: String,
    ) -> (r: SecurityLevel)
        ensures
            r@ == (SecurityModel {
                level: "custom"@,
                detector: detector@,
                recognizer: recognizer@,
                rgb_threshold,
                ir_threshold,
                hybrid_policy: hybrid_policy@,
            }),
    {
        SecurityLevel {
            level: "custom".to_owned(),
            detector,
            recognizer,
            rgb_threshold,
            ir_threshold,
            hybrid_policy,
        }
    }

    /// The preset at an index of the level list; "custom" is none.
    pub fn preset_from_index(index: usize) -> (r: Option<SecurityLevel>)
        ensures
            index < 4 ==> (r matches Some(level) && level@ == preset_model(
                SECURITY_LEVEL_OPTIONS@[index as int]@,
            )),
            index >= 4 ==> r is None,
    {
        if index < 4 {
            Some(Self::preset(SECURITY_LEVEL_OPTIONS[index]))
        } else {
            None
        }
    }

    /// The level's place in the level list; that of "medium" for an unknown one.
    pub fn level_index(&self) -> (r: u32)
        ensures
            r == index_in(SECURITY_LEVEL_OPTIONS@, self@.level, 1),
    {
        index_of(SECURITY_LEVEL_OPTIONS.as_slice(), self.level.as_str(), 1)
    }

    pub fn model_quality_index(value: &str) -> (r: u32)
        ensures
            r == index_in(MODEL_QUALITY_OPTIONS@, value@, 0),
    {
        index_of(MODEL_QUALITY_OPTIONS.as_slice(), value, 0)
    }

    pub fn model_quality_from_index(index: usize) -> (r: &'static str)
        ensures
            r@ == option_at(MODEL_QUALITY_OPTIONS@, index as int, "standard"@),
    {
        value_at(MODEL_QUALITY_OPTIONS.as_slice(), index, "standard")
    }

    pub fn hybrid_policy_index_for_value(value: &str) -> (r: u32)
        ensures
            r == index_in(HYBRID_POLICY_OPTIONS@, value@, 0),
    {
        index_of(HYBRID_POLICY_OPTIONS.as_slice(), value, 0)
    }

    pub fn hybrid_policy_from_index(index: usize) -> (r: String)
        ensures
            r@ == option_at(HYBRID_POLICY_OPTIONS@, index as int, "default"@),
    {
        value_at(HYBRID_POLICY_OPTIONS.as_slice(), index, "default").to_owned()
    }

    /// What the level's name stands for.
    pub fn kind(&self) -> (r: LevelKind)
        ensures
            r == self@.kind(),
    {
        let level: &str = self.level.as_str();
        if str_eq(level, "low") {
            LevelKind::Low
        } else if str_eq(level, "medium") {
            LevelKind::Medium
        } else if str_eq(level, "high") {
            LevelKind::High
        } else if str_eq(level, "maximum") {
            LevelKind::Maximum
        } else if str_eq(level, "custom") {
            LevelKind::Custom
        } else {
            LevelKind::Unknown
        }
    }

    /// Seeds the custom rows so switching a preset to "custom" starts from what
    /// the preset resolved to, instead of resetting to an unrelated default.
    pub fn custom_form(&self) -> (r: CustomSecurityForm)
        ensures
            r@ == self@.form(),
    {
        match self.kind() {
            LevelKind::Custom => CustomSecurityForm {
                detector: self.detector.clone(),
                recognizer: self.recognizer.clone(),
                rgb_threshold: self.rgb_threshold,
                ir_threshold: self.ir_threshold,
                hybrid_policy: self.hybrid_policy.clone(),
            },
            _ => CustomSecurityForm {
                detector: self.effective_detector_quality().to_owned(),
                recognizer: self.effective_recognizer_quality().to_owned(),
                rgb_threshold: self.preset_threshold(),
                ir_threshold: self.preset_threshold(),
                hybrid_policy: self.hybrid_policy().to_owned(),
            },
        }
    }

    fn preset_threshold(&self) -> (r: Double)
        ensures
            r == self@.shown_threshold(),
    {
        match self.kind() {
            LevelKind::Low => Double { bits: 0x3fd3_3333_3333_3333 },
            LevelKind::High => Double { bits: 0x3fe0_0000_0000_0000 },
            LevelKind::Maximum => Double { bits: 0x3fe3_3333_3333_3333 },
            _ => Double { bits: DEFAULT_SECURITY_THRESHOLD },
        }
    }

    /// The detector model. An unknown level falls back to the medium models; bad input is
    /// rejected up front by `validate`.
    pub fn detector(&self) -> (r: &'static str)
        ensures
            r@ == (if self@.accurate_detector() {
                "det_10g.onnx"@
            } else {
                "det_500m.onnx"@
            }),
    {
        let accurate: bool = match self.kind() {
            LevelKind::High | LevelKind::Maximum => true,
            LevelKind::Custom => str_eq(self.detector.as_str(), "accurate"),
            _ => false,
        };
        if accurate {
            "det_10g.onnx"
        } else {
            "det_500m.onnx"
        }
    }

    /// The recognizer model, with the same fallback.
    pub fn recognizer(&self) -> (r: &'static str)
        ensures
            r@ == (if self@.accurate_recognizer() {
                "w600k_r50.onnx"@
            } else {
                "w600k_mbf.onnx"@
            }),
    {
        let accurate: bool = match self.kind() {
            LevelKind::High | LevelKind::Maximum => true,
            LevelKind::Custom => str_eq(self.recognizer.as_str(), "accurate"),
            _ => false,
        };
        if accurate {
            "w600k_r50.onnx"
        } else {
            "w600k_mbf.onnx"
        }
    }

    /// The quality that the detector resolves to. Derived from the model, so that a form
    /// filled in from a preset cannot drift from what is loaded.
    pub fn effective_detector_quality(&self) -> (r: &'static str)
        ensures
            r@ == quality_name(self@.accurate_detector()),
    {
        proof {
            reveal_strlit("det_10g.onnx");
            reveal_strlit("det_500m.onnx");
            assert("det_10g.onnx"@.len() != "det_500m.onnx"@.len());
        }
        quality_text(str_eq(self.detector(), "det_10g.onnx"))
    }

    /// The quality that the recognizer resolves to.
    pub fn effective_recognizer_quality(&self) -> (r: &'static str)
        ensures
            r@ == quality_name(self@.accurate_recognizer()),
    {
        proof {
            reveal_strlit("w600k_r50.onnx");
            reveal_strlit("w600k_mbf.onnx");
            assert("w600k_r50.onnx"@[6] != "w600k_mbf.onnx"@[6]);
        }
        quality_text(str_eq(self.recognizer(), "w600k_r50.onnx"))
    }

    /// Every problem with the current values. `validate` reports only the first.
    pub fn validation_errors(&self) -> (r: Vec<SecurityValidationError>)
        ensures
            error_models(r@) == self@.errors(),
    {
        let mut errors: Vec<SecurityValidationError> = Vec::new();
        assert(error_models(errors@) =~= seq![]);
        if !contains_option(SECURITY_LEVEL_OPTIONS.as_slice(), self.level.as_str()) {
            let shown: String = quoted(self.level.as_str());
            let mut message: String = joined("invalid security level ", shown.as_str());
            message.append(
                ": expected one of [\"low\", \"medium\", \"high\", \"maximum\", \"custom\"]",
            );
            let error: SecurityValidationError = SecurityValidationError {
                field: SecurityField::Level,
                text: message,
                got: None,
            };
            proof {
                lemma_push_error(errors@, error);
                assert(error_models(errors@) + seq![error@] =~= seq![error@]);
            }
            errors.push(error);
            return errors;
        }
        match self.kind() {
            LevelKind::Custom => {},
            _ => {
                return errors;
            },
        }
        quality_check("detector", self.detector.as_str(), &mut errors);
        quality_check("recognizer", self.recognizer.as_str(), &mut errors);
        threshold_check("rgb_threshold", self.rgb_threshold, &mut errors);
        threshold_check("ir_threshold", self.ir_threshold, &mut errors);
        let ghost before = error_models(errors@);
        assert(before =~= quality_errors("detector"@, self@.detector) + quality_errors(
            "recognizer"@,
            self@.recognizer,
        ) + threshold_errors("rgb_threshold"@, self@.rgb_threshold) + threshold_errors(
            "ir_threshold"@,
            self@.ir_threshold,
        ));
        if !self.hybrid_policy.as_str().is_empty() && !contains_option(
            HYBRID_POLICY_OPTIONS.as_slice(),
            self.hybrid_policy.as_str(),
        ) {
            let shown: String = quoted(self.hybrid_policy.as_str());
            let mut message: String = joined("invalid security.hybrid_policy ", shown.as_str());
            message.append(
                ": expected one of [\"default\", \"or\", \"fallback_on_dark\", \"and\"]",
            );
            let error: SecurityValidationError = SecurityValidationError {
                field: SecurityField::HybridPolicy,
                text: message,
                got: None,
            };
            proof {
                lemma_push_error(errors@, error);
            }
            errors.push(error);
        } else {
            assert(before + Seq::<SecurityErrorModel>::empty() =~= before);
        }
        errors
    }

    /// Accepts the settings, or reports their first problem.
    pub fn validate(&self) -> (r: Result<(), SecurityValidationError>)
        ensures
            match r {
                Ok(_) => self@.errors().len() == 0,
                Err(e) => self@.errors().len() > 0 && e@ == self@.errors()[0],
            },
    {
        let mut errors: Vec<SecurityValidationError> = self.validation_errors();
        let ghost all = errors@;
        if errors.len() == 0 {
            Ok(())
        } else {
            let e: SecurityValidationError = errors.remove(0);
            assert(error_models(all)[0] == all[0]@);
            Err(e)
        }
    }

    /// Whether a custom threshold may be used.
    pub fn threshold_in_range(threshold: Double) -> (r: bool)
        ensures
            r == threshold_allowed(threshold),
    {
        threshold.is_finite() && Double { bits: MIN_SECURITY_THRESHOLD }.le(threshold)
            && threshold.le(Double { bits: MAX_SECURITY_THRESHOLD })
    }

    /// Alias of `rgb_threshold`. An infrared path that used this would match against the
    /// RGB value.
    pub fn threshold(&self) -> (r: Single)
        ensures
            r == self@.threshold_for(self@.rgb_threshold),
    {
        self.rgb_threshold()
    }

    /// The score from which an RGB match counts.
    pub fn rgb_threshold(&self) -> (r: Single)
        ensures
            r == self@.threshold_for(self@.rgb_threshold),
    {
        self.threshold_for(self.rgb_threshold)
    }

    /// The score from which an infrared match counts.
    pub fn ir_threshold(&self) -> (r: Single)
        ensures
            r == self@.threshold_for(self@.ir_threshold),
    {
        self.threshold_for(self.ir_threshold)
    }

    fn threshold_for(&self, custom: Double) -> (r: Single)
        ensures
            r == self@.threshold_for(custom),
    {
        match self.kind() {
            LevelKind::Low => Single { bits: 0x3e99_999a },
            LevelKind::High => Single { bits: 0x3f00_0000 },
            LevelKind::Maximum => Single { bits: 0x3f19_999a },
            LevelKind::Custom => {
                if Self::threshold_in_range(custom) {
                    proof {
                        allowed_thresholds_by_pattern(custom);
                    }
                    custom.narrow()
                } else {
                    proof {
                        narrowed_by_parts(
                            Double { bits: DEFAULT_SECURITY_THRESHOLD },
                            0x3ecc_cccc,
                            0x1999_999a,
                        );
                    }
                    Double { bits: DEFAULT_SECURITY_THRESHOLD }.narrow()
                }
            },
            _ => Single { bits: 0x3ecc_cccd },
        }
    }

    /// The policy for combining the two cameras.
    pub fn hybrid_policy(&self) -> (r: &str)
        ensures
            r@ == self@.policy(),
    {
        match self.kind() {
            LevelKind::Low => "or",
            LevelKind::Maximum => "and",
            LevelKind::Custom => {
                if self.hybrid_policy.as_str().is_empty() {
                    "fallback_on_dark"
                } else {
                    self.hybrid_policy.as_str()
                }
            },
            _ => "fallback_on_dark",
        }
    }
}

/// The names of the levels differ from each other.
pub proof fn level_names_are_distinct()
    ensures
        kind_of("low"@) == LevelKind::Low,
        kind_of("medium"@) == LevelKind::Medium,
        kind_of("high"@) == LevelKind::High,
        kind_of("maximum"@) == LevelKind::Maximum,
        kind_of("custom"@) == LevelKind::Custom,
{
    reveal_strlit("low");
    reveal_strlit("medium");
    reveal_strlit("high");
    reveal_strlit("maximum");
    reveal_strlit("custom");
    assert("low"@.len() == 3 && "medium"@.len() == 6 && "high"@.len() == 4 && "maximum"@.len() == 7
        && "custom"@.len() == 6);
    assert("medium"@[0] != "custom"@[0]);
}

/// A level is known exactly if its name stands for a kind, and its index finds it.
pub proof fn known_levels(level: Seq<char>)
    ensures
        listed(SECURITY_LEVEL_OPTIONS@, level) <==> kind_of(level) != LevelKind::Unknown,
        index_in(SECURITY_LEVEL_OPTIONS@, level, 1) == match kind_of(level) {
            LevelKind::Low => 0u32,
            LevelKind::Medium => 1u32,
            LevelKind::High => 2u32,
            LevelKind::Maximum => 3u32,
            LevelKind::Custom => SecurityLevel::CUSTOM_LEVEL_INDEX,
            LevelKind::Unknown => 1u32,
        },
{
    level_names_are_distinct();
    let options = SECURITY_LEVEL_OPTIONS@;
    assert(options[0]@ == "low"@ && options[1]@ == "medium"@ && options[2]@ == "high"@
        && options[3]@ == "maximum"@ && options[4]@ == "custom"@);
    let place: int = match kind_of(level) {
        LevelKind::Low => 0,
        LevelKind::Medium => 1,
        LevelKind::High => 2,
        LevelKind::Maximum => 3,
        LevelKind::Custom => 4,
        LevelKind::Unknown => 5,
    };
    lemma_first_listed(options, level, place);
}

/// The preset at an index has that index.
pub proof fn presets_have_their_index(index: int)
    requires
        0 <= index < 4,
    ensures
        index_in(SECURITY_LEVEL_OPTIONS@, preset_model(SECURITY_LEVEL_OPTIONS@[index]@).level, 1)
            == index,
{
    level_names_are_distinct();
    known_levels(SECURITY_LEVEL_OPTIONS@[index]@);
}

/// A known level other than "custom" has no errors, whatever its other fields hold.
pub proof fn presets_are_valid(model: SecurityModel)
    requires
        model.kind() != LevelKind::Unknown,
        model.kind() != LevelKind::Custom,
    ensures
        model.errors().len() == 0,
{
    known_levels(model.level);
}

/// Settings are valid exactly if the level is known and, for the custom level, both
/// qualities are known, both thresholds are in range and the policy is empty or known.
pub proof fn valid_settings(model: SecurityModel)
    ensures
        model.errors().len() == 0 <==> {
            &&& model.kind() != LevelKind::Unknown
            &&& model.kind() == LevelKind::Custom ==> {
                &&& listed(MODEL_QUALITY_OPTIONS@, model.detector)
                &&& listed(MODEL_QUALITY_OPTIONS@, model.recognizer)
                &&& threshold_allowed(model.rgb_threshold)
                &&& threshold_allowed(model.ir_threshold)
                &&& model.hybrid_policy.len() == 0 || listed(
                    HYBRID_POLICY_OPTIONS@,
                    model.hybrid_policy,
                )
            }
        },
{
    known_levels(model.level);
}

/// What a level other than "custom" resolves to depends on its name alone: stored custom
/// values never leak into a preset.
pub proof fn presets_ignore_custom_values(a: SecurityModel, b: SecurityModel)
    requires
        a.level == b.level,
        a.kind() != LevelKind::Custom,
    ensures
        a.accurate_detector() == b.accurate_detector(),
        a.accurate_recognizer() == b.accurate_recognizer(),
        a.threshold_for(a.rgb_threshold) == b.threshold_for(b.rgb_threshold),
        a.threshold_for(a.ir_threshold) == b.threshold_for(b.ir_threshold),
        a.policy() == b.policy(),
{
}

/// The custom level seeded from a level resolves to what that level resolved to: the same
/// models, the same thresholds and the same policy.
pub proof fn forms_keep_what_a_level_resolves_to(model: SecurityModel)
    ensures
        model.form().kind() == LevelKind::Custom,
        model.form().accurate_detector() == model.accurate_detector(),
        model.form().accurate_recognizer() == model.accurate_recognizer(),
        model.form().threshold_for(model.form().rgb_threshold) == model.threshold_for(
            model.rgb_threshold,
        ),
        model.form().threshold_for(model.form().ir_threshold) == model.threshold_for(
            model.ir_threshold,
        ),
        model.form().policy() == model.policy(),
{
    level_names_are_distinct();
    reveal_strlit("accurate");
    reveal_strlit("standard");
    assert("accurate"@[0] != "standard"@[0]);
    reveal_strlit("or");
    reveal_strlit("and");
    reveal_strlit("fallback_on_dark");
    allowed_thresholds_by_pattern(model.shown_threshold());
    narrowed_by_parts(Double { bits: 0x3fd3_3333_3333_3333 }, 0x3e99_9999, 0x1333_3333);
    narrowed_by_parts(Double { bits: DEFAULT_SECURITY_THRESHOLD }, 0x3ecc_cccc, 0x1999_999a);
    narrowed_by_parts(Double { bits: 0x3fe0_0000_0000_0000 }, 0x3f00_0000, 0);
    narrowed_by_parts(Double { bits: 0x3fe3_3333_3333_3333 }, 0x3f19_9999, 0x1333_3333);
}

/// The custom level seeded from a valid level is valid.
pub proof fn forms_of_valid_levels_are_valid(model: SecurityModel)
    requires
        model.errors().len() == 0,
    ensures
        model.form().errors().len() == 0,
{
    level_names_are_distinct();
    valid_settings(model);
    valid_settings(model.form());
    if model.kind() != LevelKind::Custom {
        known_qualities();
        known_policies();
        allowed_thresholds_by_pattern(model.shown_threshold());
    }
}

/// The two model qualities are listed.
pub proof fn known_qualities()
    ensures
        listed(MODEL_QUALITY_OPTIONS@, "standard"@),
        listed(MODEL_QUALITY_OPTIONS@, "accurate"@),
{
    reveal_strlit("accurate");
    reveal_strlit("standard");
    assert("accurate"@[0] != "standard"@[0]);
    let options = MODEL_QUALITY_OPTIONS@;
    assert(options[0]@ == "standard"@ && options[1]@ == "accurate"@);
    lemma_first_listed(options, "standard"@, 0);
    lemma_first_listed(options, "accurate"@, 1);
}

/// The policies that levels resolve to are listed.
pub proof fn known_policies()
    ensures
        listed(HYBRID_POLICY_OPTIONS@, "default"@),
        listed(HYBRID_POLICY_OPTIONS@, "or"@),
        listed(HYBRID_POLICY_OPTIONS@, "fallback_on_dark"@),
        listed(HYBRID_POLICY_OPTIONS@, "and"@),
{
    reveal_strlit("default");
    reveal_strlit("or");
    reveal_strlit("and");
    reveal_strlit("fallback_on_dark");
    let options = HYBRID_POLICY_OPTIONS@;
    assert(options[0]@ == "default"@ && options[1]@ == "or"@ && options[2]@ == "fallback_on_dark"@
        && options[3]@ == "and"@);
    assert("default"@.len() == 7 && "or"@.len() == 2 && "fallback_on_dark"@.len() == 16
        && "and"@.len() == 3);
    lemma_first_listed(options, "default"@, 0);
    lemma_first_listed(options, "or"@, 1);
    lemma_first_listed(options, "fallback_on_dark"@, 2);
    lemma_first_listed(options, "and"@, 3);
}

/// Whatever the settings hold, the matcher gets a threshold from 0.1 up and below one: a
/// bad custom value never reaches it, and a perfect score always passes it.
pub proof fn thresholds_can_be_matched(model: SecurityModel, custom: Double)
    ensures
        (Single { bits: 0x3dcc_cccd }).at_most(model.threshold_for(custom)),
        model.threshold_for(custom).below((Single { bits: 0x3f80_0000 })),
{
    allowed_thresholds_by_pattern(custom);
    narrowed_by_parts(Double { bits: MIN_SECURITY_THRESHOLD }, 0x3dcc_cccc, 0x1999_999a);
    narrowed_by_parts(Double { bits: MAX_SECURITY_THRESHOLD }, 0x3f7d_70a3, 0x1ae1_47ae);
    let t = model.threshold_for(custom);
    if threshold_allowed(custom) {
        narrowing_is_monotone(Double { bits: MIN_SECURITY_THRESHOLD }, custom);
        narrowing_is_monotone(custom, Double { bits: MAX_SECURITY_THRESHOLD });
    }
    assert(0x3dcc_cccd <= t.bits <= 0x3f7d_70a4);
    if t.bits > 0x3dcc_cccd {
        lemma_magnitude_increases(0x3dcc_cccd, t.bits as nat, 0x80_0000);
    }
    lemma_magnitude_increases(t.bits as nat, 0x3f80_0000, 0x80_0000);
}

/// A higher preset asks for more: each of them matches at a higher threshold than the one
/// before it, and so does the level for unknown names than the lowest.
pub proof fn higher_levels_ask_for_more(
    low: SecurityModel,
    medium: SecurityModel,
    high: SecurityModel,
    maximum: SecurityModel,
    custom: Double,
)
    requires
        low.level == "low"@,
        medium.level == "medium"@,
        high.level == "high"@,
        maximum.level == "maximum"@,
    ensures
        low.threshold_for(custom).below(medium.threshold_for(custom)),
        medium.threshold_for(custom).below(high.threshold_for(custom)),
        high.threshold_for(custom).below(maximum.threshold_for(custom)),
        !low.accurate_detector() && !medium.accurate_detector(),
        high.accurate_detector() && maximum.accurate_detector(),
        !low.accurate_recognizer() && !medium.accurate_recognizer(),
        high.accurate_recognizer() && maximum.accurate_recognizer(),
        low.policy() == "or"@,
        medium.policy() == "fallback_on_dark"@,
        high.policy() == "fallback_on_dark"@,
        maximum.policy() == "and"@,
{
    level_names_are_distinct();
    lemma_magnitude_increases(0x3e99_999a, 0x3ecc_cccd, 0x80_0000);
    lemma_magnitude_increases(0x3ecc_cccd, 0x3f00_0000, 0x80_0000);
    lemma_magnitude_increases(0x3f00_0000, 0x3f19_999a, 0x80_0000);
}

/// A preset matches at the number that a form shows for it: 0.3, 0.4, 0.5 and 0.6.
pub proof fn presets_match_at_what_is_shown(model: SecurityModel, custom: Double)
    requires
        model.kind() != LevelKind::Custom,
    ensures
        model.threshold_for(custom) == model.shown_threshold().narrowed(),
{
    narrowed_by_parts(Double { bits: 0x3fd3_3333_3333_3333 }, 0x3e99_9999, 0x1333_3333);
    narrowed_by_parts(Double { bits: DEFAULT_SECURITY_THRESHOLD }, 0x3ecc_cccc, 0x1999_999a);
    narrowed_by_parts(Double { bits: 0x3fe0_0000_0000_0000 }, 0x3f00_0000, 0);
    narrowed_by_parts(Double { bits: 0x3fe3_3333_3333_3333 }, 0x3f19_9999, 0x1333_3333);
}

/// An unknown level is taken for "medium".
pub proof fn unknown_levels_are_medium(model: SecurityModel, medium: SecurityModel, custom: Double)
    requires
        model.kind() == LevelKind::Unknown,
        medium.level == "medium"@,
    ensures
        model.threshold_for(custom) == medium.threshold_for(custom),
        model.accurate_detector() == medium.accurate_detector(),
        model.accurate_recognizer() == medium.accurate_recognizer(),
        model.policy() == medium.policy(),
{
    level_names_are_distinct();
}

/// The custom level uses each stored value for itself: the detector goes by the detector's
/// quality and the recognizer by its own, a threshold in range is used and one out of range
/// is replaced by 0.4, a policy is used if one is set.
pub proof fn custom_levels_use_what_is_stored(model: SecurityModel, custom: Double)
    requires
        model.level == "custom"@,
    ensures
        model.accurate_detector() <==> model.detector == "accurate"@,
        model.accurate_recognizer() <==> model.recognizer == "accurate"@,
        MIN_SECURITY_THRESHOLD <= custom.bits <= MAX_SECURITY_THRESHOLD ==> model.threshold_for(
            custom,
        ) == custom.narrowed(),
        !(MIN_SECURITY_THRESHOLD <= custom.bits <= MAX_SECURITY_THRESHOLD)
            ==> model.threshold_for(custom) == (Double {
            bits: DEFAULT_SECURITY_THRESHOLD,
        }).narrowed(),
        model.hybrid_policy.len() > 0 ==> model.policy() == model.hybrid_policy,
        model.hybrid_policy.len() == 0 ==> model.policy() == "fallback_on_dark"@,
        model.form() == model,
{
    level_names_are_distinct();
    allowed_thresholds_by_pattern(custom);
    narrowed_by_parts(Double { bits: DEFAULT_SECURITY_THRESHOLD }, 0x3ecc_cccc, 0x1999_999a);
}

/// An unknown level is the only complaint about its settings, and is shown in it.
pub proof fn unknown_levels_are_shown(model: SecurityModel)
    requires
        model.kind() == LevelKind::Unknown,
    ensures
        model.errors().len() == 1,
        model.errors()[0].field == SecurityField::Level,
        model.errors()[0].got is None,
        contains_text(model.errors()[0].text, quoted_text(model.level)),
{
    known_levels(model.level);
    let text = model.errors()[0].text;
    let from = "invalid security level "@.len() as int;
    let shown = quoted_text(model.level);
    assert(text.subrange(from, from + shown.len()) =~= shown);
    assert(stands_at(text, shown, from));
}

/// A threshold goes by its own key wherever that is set, by the older key where only that
/// is, and is zero, which is out of range, where neither is.
pub proof fn own_thresholds_go_first(own: Double, shared: Double, either: Option<Double>)
    ensures
        first_threshold(Some(own), either) == own,
        first_threshold(None, Some(shared)) == shared,
        first_threshold(None, None).scaled() == 0,
        !threshold_allowed(first_threshold(None, None)),
{
    allowed_thresholds_by_pattern(first_threshold(None, None));
}

/// How many of five things hold.
pub open spec fn how_many(a: bool, b: bool, c: bool, d: bool, e: bool) -> int {
    (if a { 1int } else { 0 }) + (if b { 1int } else { 0 }) + (if c { 1int } else { 0 }) + (if d {
        1int
    } else {
        0
    }) + (if e { 1int } else { 0 })
}

/// The custom level has one complaint for each value that is wrong and no other: each shows
/// that value and says whose it is.
pub proof fn complaints_are_about_what_is_wrong(model: SecurityModel)
    requires
        model.level == "custom"@,
    ensures
        ({
            let errors = model.errors();
            let detector = !listed(MODEL_QUALITY_OPTIONS@, model.detector);
            let recognizer = !listed(MODEL_QUALITY_OPTIONS@, model.recognizer);
            let rgb = !threshold_allowed(model.rgb_threshold);
            let ir = !threshold_allowed(model.ir_threshold);
            let policy = model.hybrid_policy.len() > 0 && !listed(
                HYBRID_POLICY_OPTIONS@,
                model.hybrid_policy,
            );
            &&& errors.len() == how_many(detector, recognizer, rgb, ir, policy)
            &&& detector ==> exists|i: int|
                0 <= i < errors.len() && (#[trigger] errors[i]).field == SecurityField::ModelQuality
                    && contains_text(errors[i].text, "detector"@) && contains_text(
                    errors[i].text,
                    quoted_text(model.detector),
                )
            &&& recognizer ==> exists|i: int|
                0 <= i < errors.len() && (#[trigger] errors[i]).field == SecurityField::ModelQuality
                    && contains_text(errors[i].text, "recognizer"@) && contains_text(
                    errors[i].text,
                    quoted_text(model.recognizer),
                )
            &&& rgb ==> exists|i: int|
                0 <= i < errors.len() && (#[trigger] errors[i]).field == SecurityField::Threshold
                    && errors[i].got == Some(model.rgb_threshold) && contains_text(
                    errors[i].text,
                    "rgb_threshold"@,
                )
            &&& ir ==> exists|i: int|
                0 <= i < errors.len() && (#[trigger] errors[i]).field == SecurityField::Threshold
                    && errors[i].got == Some(model.ir_threshold) && contains_text(
                    errors[i].text,
                    "ir_threshold"@,
                )
            &&& policy ==> exists|i: int|
                0 <= i < errors.len() && (#[trigger] errors[i]).field == SecurityField::HybridPolicy
                    && contains_text(errors[i].text, quoted_text(model.hybrid_policy))
        }),
{
    level_names_are_distinct();
    known_levels(model.level);
    let errors = model.errors();
    let first = quality_errors("detector"@, model.detector);
    let second = quality_errors("recognizer"@, model.recognizer);
    let third = threshold_errors("rgb_threshold"@, model.rgb_threshold);
    let fourth = threshold_errors("ir_threshold"@, model.ir_threshold);
    let fifth = model.policy_errors();
    assert(errors =~= first + second + third + fourth + fifth);
    let a = first.len() as int;
    let b = a + second.len();
    let c = b + third.len();
    let d = c + fourth.len();
    if first.len() > 0 {
        assert(errors[0] == first[0]);
        lemma_quality_message("detector"@, model.detector);
    }
    if second.len() > 0 {
        assert(errors[a] == second[0]);
        lemma_quality_message("recognizer"@, model.recognizer);
    }
    if third.len() > 0 {
        assert(errors[b] == third[0]);
        lemma_threshold_text("rgb_threshold"@);
    }
    if fourth.len() > 0 {
        assert(errors[c] == fourth[0]);
        lemma_threshold_text("ir_threshold"@);
    }
    if fifth.len() > 0 {
        assert(errors[d] == fifth[0]);
        let start = "invalid security.hybrid_policy "@;
        let text = fifth[0].text;
        let shown = quoted_text(model.hybrid_policy);
        assert(text.subrange(start.len() as int, start.len() + shown.len() as int) =~= shown);
        assert(stands_at(text, shown, start.len() as int));
    }
}

proof fn lemma_quality_message(name: Seq<char>, quality: Seq<char>)
    ensures
        contains_text(quality_message(name, quality), name),
        contains_text(quality_message(name, quality), quoted_text(quality)),
{
    let text = quality_message(name, quality);
    let from = "invalid "@.len() as int;
    assert(text.subrange(from, from + name.len()) =~= name);
    assert(stands_at(text, name, from));
    let shown = quoted_text(quality);
    let next = from + name.len() + " level "@.len();
    assert(text.subrange(next, next + shown.len()) =~= shown);
    assert(stands_at(text, shown, next));
}

proof fn lemma_threshold_text(name: Seq<char>)
    ensures
        contains_text(threshold_text(name), name),
{
    let text = threshold_text(name);
    let from = "security."@.len() as int;
    assert(text.subrange(from, from + name.len()) =~= name);
    assert(stands_at(text, name, from));
}

/// The thresholds that may be used are a range of patterns.
pub proof fn allowed_thresholds_by_pattern(threshold: Double)
    ensures
        threshold_allowed(threshold) <==> MIN_SECURITY_THRESHOLD <= threshold.bits
            <= MAX_SECURITY_THRESHOLD,
{
    patterns_order_numbers(
        Double { bits: MIN_SECURITY_THRESHOLD },
        threshold,
        Double { bits: MAX_SECURITY_THRESHOLD },
    );
}

} // verus!
