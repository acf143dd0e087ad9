//! The PAM side: codes, prompts and confirmation, and the decisions between a face match
//! and the password.

use crate::dbus::{BusError, CaptureStatus, VerifyResult};
use crate::text::{
    contains, contains_text, digit_run, digits_end_where_they_end, leading_digits, opt_string, opt_view, stands_at, starts,
    str_eq, trim, trimmed,
};
use vstd::prelude::*;
use vstd::string::*;

verus! {

pub const PAM_SUCCESS: i32 = 0;

pub const PAM_AUTH_ERR: i32 = 7;

pub const PAM_SERVICE_ERR: i32 = 3;

pub const PAM_CONV: i32 = 5;

pub const PAM_SERVICE: i32 = 1;

pub const PAM_AUTHTOK: i32 = 6;

pub const PAM_TEXT_INFO: i32 = 4;

pub const PAM_PROMPT_ECHO_OFF: i32 = 1;

pub const PAM_PROMPT_ECHO_ON: i32 = 2;

pub const PAM_AUTHINFO_UNAVAIL: i32 = 9;

pub const PAM_IGNORE: i32 = 25;

pub const CAMERA_AUTH_TIMEOUT_SECS: u64 = 12;

pub const CONFIRMATION_PROMPT: &'static str =
    "Face Verified. Press Enter to confirm, Esc to cancel.";

pub const CONFIRMATION_REQUEST: &'static str = "GAZE_CONFIRMATION_REQUEST";

pub const CONFIRMATION_ACK: &'static str = "CONFIRM";

/// What users of the old module are told.
pub const DEPRECATION_NOTICE: &'static str =
    "\x1b[1;33m[Gaze Notice]\x1b[0m pam_gaze_grosshack.so is deprecated and will be removed in a future release.\nPlease update your PAM configuration to use: pam_gaze.so simultaneous\nRun 'gaze doctor' to check your configuration.\n";

// Confirmation

/// Whether a key that was pressed at the terminal confirms a match: only the two that
/// Enter can send do.
pub fn key_confirms(key: u8) -> (r: bool)
    ensures
        r == (key == 10 || key == 13),
        key as int == '\n' as int ==> r,
        key as int == '\r' as int ==> r,
        r ==> key as int == '\n' as int || key as int == '\r' as int,
{
    key == 10 || key == 13
}

/// How a match is confirmed.
#[derive(Clone, Copy, Debug, PartialEq, Eq, Structural)]
pub enum ConfirmStep {
    /// It is confirmed, or not.
    Done(bool),
    /// Ask through the conversation.
    Converse,
}

/// The terminal's answer decides where there is a terminal; otherwise the conversation
/// has to.
pub fn after_terminal(answer: Option<bool>) -> (r: ConfirmStep)
    ensures
        r == (match answer {
            Some(confirmed) => ConfirmStep::Done(confirmed),
            None => ConfirmStep::Converse,
        }),
        r == ConfirmStep::Converse <==> answer is None,
        r == ConfirmStep::Done(true) <==> answer == Some(true),
        r == ConfirmStep::Done(false) <==> answer == Some(false),
{
    match answer {
        Some(confirmed) => ConfirmStep::Done(confirmed),
        None => ConfirmStep::Converse,
    }
}

/// Whether the answer of a conversation confirms a match: an empty one does, no answer
/// does not.
pub fn conversation_confirms(response: Option<&str>) -> (r: bool)
    ensures
        r == (opt_view(response) matches Some(text) && text.len() == 0),
{
    match response {
        Some(text) => text.is_empty(),
        None => false,
    }
}

/// Whether an answer is the one with which the extension confirms.
pub fn confirmation_accepted(response: Option<&str>) -> (r: bool)
    ensures
        r == (opt_view(response) == Some(CONFIRMATION_ACK@)),
{
    match response {
        Some(text) => str_eq(text, CONFIRMATION_ACK),
        None => false,
    }
}

// The password prompt

/// A password prompt that runs next to face recognition.
pub struct AuthState {
    pub password: Option<String>,
    pub started: bool,
    pub finished: bool,
}

impl AuthState {
    /// A prompt that was not shown yet.
    pub fn new() -> (r: AuthState)
        ensures
            r.password is None,
            !r.started,
            !r.finished,
    {
        AuthState { password: None, started: false, finished: false }
    }

    /// The prompt is shown.
    pub fn prompt_started(&mut self)
        ensures
            final(self).started,
            final(self).password == old(self).password,
            final(self).finished == old(self).finished,
    {
        self.started = true;
    }

    /// The prompt was answered, or closed without an answer; an answer from before stays.
    pub fn prompt_finished(&mut self, answer: Option<String>)
        ensures
            final(self).finished,
            final(self).started == old(self).started,
            final(self).password == (if answer is Some {
                answer
            } else {
                old(self).password
            }),
    {
        match answer {
            Some(password) => {
                self.password = Some(password);
            },
            None => {},
        }
        self.finished = true;
    }

    /// What was typed, once the prompt is over.
    pub fn response(&self) -> (r: Option<Option<String>>)
        ensures
            match r {
                None => !self.finished,
                Some(typed) => self.finished && opt_string(typed) == opt_string(self.password),
            },
    {
        if !self.finished {
            return None;
        }
        match &self.password {
            Some(password) => Some(Some(password.clone())),
            None => Some(None),
        }
    }
}

/// What a module returns, and the password that it leaves for the next one.
#[derive(Clone, Debug)]
pub struct PamReturn {
    pub code: i32,
    pub stash: Option<String>,
}

/// A password that can be handed on as a C string.
pub open spec fn no_nul(text: Seq<char>) -> bool {
    !text.contains('\0')
}

/// What becomes of a typed password: it is left for the next module, which then decides;
/// one with a zero character is refused.
pub open spec fn password_return(r: PamReturn, password: Seq<char>) -> bool {
    if no_nul(password) {
        r.code == PAM_AUTHINFO_UNAVAIL && opt_string(r.stash) == Some(password)
    } else {
        r.code == PAM_AUTH_ERR && r.stash is None
    }
}

fn has_nul(text: &str) -> (r: bool)
    ensures
        r == !no_nul(text@),
{
    let v: Vec<char> = crate::text::chars_of(text);
    let mut i: usize = 0;
    while i < v.len()
        invariant
            v@ == text@,
            i <= v.len(),
            forall|j: int| 0 <= j < i ==> v@[j] != '\0',
        decreases v.len() - i,
    {
        if v[i] == '\0' {
            assert(text@[i as int] == '\0');
            return true;
        }
        i = i + 1;
    }
    false
}

/// A typed password never succeeds by itself. It is handed on unchanged exactly if no
/// character of it is zero, and only then the next module is to decide.
pub proof fn passwords_are_left_to_the_next_module(r: PamReturn, password: Seq<char>)
    requires
        password_return(r, password),
    ensures
        r.code != PAM_SUCCESS,
        r.code == PAM_AUTHINFO_UNAVAIL <==> r.stash is Some,
        r.stash is Some <==> forall|i: int| 0 <= i < password.len() ==> #[trigger] password[i]
            != '\0',
        r.stash matches Some(text) ==> text@ == password,
        r.stash is None ==> r.code == PAM_AUTH_ERR,
{
    if no_nul(password) {
        assert forall|i: int| 0 <= i < password.len() implies #[trigger] password[i] != '\0' by {
            assert(password.contains(password[i]));
        }
    }
}

/// Leaves a typed password for the next module.
pub fn stash_password_and_fallback(password: &str) -> (r: PamReturn)
    ensures
        password_return(r, password@),
{
    if has_nul(password) {
        PamReturn { code: PAM_AUTH_ERR, stash: None }
    } else {
        PamReturn { code: PAM_AUTHINFO_UNAVAIL, stash: Some(password.to_owned()) }
    }
}

/// What a finished password prompt leads to, without a face match: the password goes on
/// to the next module, and no password is a failure. None while the prompt is open.
pub fn password_fallback(state: &AuthState) -> (r: Option<PamReturn>)
    ensures
        match r {
            None => !state.finished,
            Some(ret) => state.finished && match opt_string(state.password) {
                Some(password) => password_return(ret, password),
                None => ret.code == PAM_AUTH_ERR && ret.stash is None,
            },
        },
{
    if !state.finished {
        return None;
    }
    match &state.password {
        Some(password) => Some(stash_password_and_fallback(password.as_str())),
        None => Some(PamReturn { code: PAM_AUTH_ERR, stash: None }),
    }
}

// Graphical confirmation

/// What a graphical prompt says after a match.
pub open spec fn confirm_text(de: Seq<char>) -> Seq<char> {
    if de == "GNOME"@ {
        CONFIRMATION_REQUEST@
    } else if de == "KDE"@ || de == "LXQt"@ {
        "Face Verified. Press OK to confirm."@
    } else if de == "Hyprland"@ {
        "Face Verified. Press Authenticate to confirm."@
    } else {
        "Face Verified. Press Enter to confirm."@
    }
}

/// A graphical prompt names what has to be pressed on the desktop at hand: OK on KDE and
/// LXQt, Authenticate on Hyprland, Enter on a desktop that is none of these. Only the
/// request to the GNOME extension is no sentence for a user.
pub proof fn prompts_name_the_right_button(de: Seq<char>)
    ensures
        de == "KDE"@ || de == "LXQt"@ <==> contains_text(confirm_text(de), "OK"@),
        de == "Hyprland"@ <==> contains_text(confirm_text(de), "Authenticate"@),
        de != "GNOME"@ <==> starts(confirm_text(de), "Face Verified."@),
        de != "GNOME"@ && de != "KDE"@ && de != "LXQt"@ && de != "Hyprland"@ <==> contains_text(
            confirm_text(de),
            "Enter"@,
        ),
        de == "GNOME"@ <==> confirm_text(de) == CONFIRMATION_REQUEST@,
{
    reveal_strlit("GNOME");
    reveal_strlit("KDE");
    reveal_strlit("LXQt");
    reveal_strlit("Hyprland");
    assert("GNOME"@[0] == 'G' && "KDE"@[0] == 'K' && "LXQt"@[0] == 'L' && "Hyprland"@[0] == 'H');
    reveal_strlit("GAZE_CONFIRMATION_REQUEST");
    reveal_strlit("Face Verified. Press OK to confirm.");
    reveal_strlit("Face Verified. Press Authenticate to confirm.");
    reveal_strlit("Face Verified. Press Enter to confirm.");
    reveal_strlit("Face Verified.");
    reveal_strlit("OK");
    reveal_strlit("Authenticate");
    reveal_strlit("Enter");
    let ok = "Face Verified. Press OK to confirm."@;
    let authenticate = "Face Verified. Press Authenticate to confirm."@;
    let enter = "Face Verified. Press Enter to confirm."@;
    let request = CONFIRMATION_REQUEST@;
    assert(ok.subrange(21, 23) =~= "OK"@);
    assert(stands_at(ok, "OK"@, 21));
    assert(authenticate.subrange(21, 33) =~= "Authenticate"@);
    assert(stands_at(authenticate, "Authenticate"@, 21));
    assert(enter.subrange(21, 26) =~= "Enter"@);
    assert(stands_at(enter, "Enter"@, 21));
    assert(ok.subrange(0, 14) =~= "Face Verified."@);
    assert(authenticate.subrange(0, 14) =~= "Face Verified."@);
    assert(enter.subrange(0, 14) =~= "Face Verified."@);
    assert("Face Verified."@[0] == 'F' && request[0] == 'G');
    assert(request.subrange(0, 14)[0] == 'G');
    lemma_missing(request, "OK"@, 1);
    lemma_missing(authenticate, "OK"@, 1);
    lemma_missing(enter, "OK"@, 1);
    lemma_missing(request, "Authenticate"@, 1);
    lemma_missing(ok, "Authenticate"@, 0);
    lemma_missing(enter, "Authenticate"@, 0);
    lemma_missing(request, "Enter"@, 1);
    lemma_missing(ok, "Enter"@, 0);
    lemma_missing(authenticate, "Enter"@, 0);
}

/// A text without some character of another does not hold that other text.
proof fn lemma_missing(s: Seq<char>, needle: Seq<char>, k: int)
    requires
        0 <= k < needle.len(),
        forall|i: int| 0 <= i < s.len() ==> #[trigger] s[i] != needle[k],
    ensures
        !contains_text(s, needle),
{
    assert forall|i: int| !stands_at(s, needle, i) by {
        if stands_at(s, needle, i) {
            assert(s.subrange(i, i + needle.len())[k] == s[i + k]);
        }
    }
}

/// What a graphical prompt says after a match: the extension's request on GNOME, a
/// sentence that names the right button elsewhere.
pub fn polkit_confirm_message(de: &str) -> (r: &'static str)
    ensures
        r@ == confirm_text(de@),
{
    if str_eq(de, "GNOME") {
        CONFIRMATION_REQUEST
    } else if str_eq(de, "KDE") || str_eq(de, "LXQt") {
        "Face Verified. Press OK to confirm."
    } else if str_eq(de, "Hyprland") {
        "Face Verified. Press Authenticate to confirm."
    } else {
        "Face Verified. Press Enter to confirm."
    }
}

/// How a graphical confirmation goes on after a match.
#[derive(Clone, Debug)]
pub enum PolkitStep {
    /// There is nothing to confirm with: wait for the password.
    WaitForPassword,
    /// Say this, then wait for the prompt's answer.
    Say(&'static str),
}

/// Starts a graphical confirmation: GNOME needs its extension for it.
pub fn start_polkit_confirmation(de: &str, extension_active: bool) -> (r: PolkitStep)
    ensures
        match r {
            PolkitStep::WaitForPassword => de@ == "GNOME"@ && !extension_active,
            PolkitStep::Say(text) => !(de@ == "GNOME"@ && !extension_active) && text@
                == confirm_text(de@),
        },
{
    if str_eq(de, "GNOME") && !extension_active {
        PolkitStep::WaitForPassword
    } else {
        PolkitStep::Say(polkit_confirm_message(de))
    }
}

/// The answer of a graphical prompt confirms a match: the extension's acknowledgement on
/// GNOME, an empty answer elsewhere.
pub open spec fn confirms(de: Seq<char>, response: Seq<char>) -> bool {
    if de == "GNOME"@ {
        response == CONFIRMATION_ACK@
    } else {
        response.len() == 0
    }
}

/// Doing nothing but pressing the button confirms everywhere but on GNOME, where the
/// extension's word alone does; whatever else was typed is no confirmation anywhere.
pub proof fn answers_confirm_in_one_way(de: Seq<char>, response: Seq<char>)
    ensures
        confirms(de, seq![]) <==> de != "GNOME"@,
        confirms(de, "CONFIRM"@) <==> de == "GNOME"@,
        confirms(de, response) ==> response == Seq::<char>::empty() || response == "CONFIRM"@,
{
    reveal_strlit("CONFIRM");
    assert("CONFIRM"@.len() == 7);
    if response.len() == 0 {
        assert(response =~= Seq::<char>::empty());
    }
}

/// Ends a graphical confirmation: a confirmed match is a success, any other answer is a
/// password for the next module, and no answer is a failure.
pub fn finish_polkit_confirmation(de: &str, response: Option<String>) -> (r: PamReturn)
    ensures
        match opt_string(response) {
            None => r.code == PAM_AUTH_ERR && r.stash is None,
            Some(text) => if confirms(de@, text) {
                r.code == PAM_SUCCESS && r.stash is None
            } else {
                password_return(r, text)
            },
        },
        r.code == PAM_SUCCESS <==> (opt_string(response) matches Some(text) && (de@ == "GNOME"@
            && text == "CONFIRM"@ || de@ != "GNOME"@ && text.len() == 0)),
        r.stash is Some ==> r.code == PAM_AUTHINFO_UNAVAIL && opt_string(r.stash) == opt_string(
            response,
        ),
{
    match response {
        None => PamReturn { code: PAM_AUTH_ERR, stash: None },
        Some(text) => {
            let confirmed: bool = if str_eq(de, "GNOME") {
                str_eq(text.as_str(), CONFIRMATION_ACK)
            } else {
                text.as_str().is_empty()
            };
            if confirmed {
                PamReturn { code: PAM_SUCCESS, stash: None }
            } else {
                stash_password_and_fallback(text.as_str())
            }
        },
    }
}

/// How a match is confirmed where there is no terminal.
#[derive(Clone, Copy, Debug, PartialEq, Eq, Structural)]
pub enum GraphicalConfirm {
    GnomeExtension,
    FailClosed,
}

/// How a match is confirmed where there is no terminal.
pub open spec fn confirm_decision(
    de: Seq<char>,
    extension_active: bool,
    is_greeter: bool,
) -> GraphicalConfirm {
    if extension_active && (is_greeter || de == "GNOME"@) {
        GraphicalConfirm::GnomeExtension
    } else {
        GraphicalConfirm::FailClosed
    }
}

/// Without the extension no match is confirmed, whatever the desktop and the session.
pub proof fn no_channel_fails_closed(de: Seq<char>, is_greeter: bool)
    ensures
        confirm_decision(de, false, is_greeter) == GraphicalConfirm::FailClosed,
{
}

/// In a greeter the extension confirms on every desktop; elsewhere it does on GNOME and on
/// no other.
pub proof fn greeters_do_not_go_by_the_desktop(de: Seq<char>, other: Seq<char>, active: bool)
    ensures
        confirm_decision(de, active, true) == confirm_decision(other, active, true),
        confirm_decision(de, true, true) == GraphicalConfirm::GnomeExtension,
        confirm_decision(de, true, false) == GraphicalConfirm::GnomeExtension <==> de == "GNOME"@,
        confirm_decision(de, active, true) == GraphicalConfirm::GnomeExtension <==> active,
{
}

/// Decides how a match is confirmed where there is no terminal: through the extension on
/// GNOME and in a greeter, whose desktop cannot be told reliably; not at all elsewhere.
pub fn graphical_confirm_decision(de: &str, extension_active: bool, is_greeter: bool) -> (r:
    GraphicalConfirm)
    ensures
        r == confirm_decision(de@, extension_active, is_greeter),
{
    if is_greeter {
        return if extension_active {
            GraphicalConfirm::GnomeExtension
        } else {
            GraphicalConfirm::FailClosed
        };
    }
    if str_eq(de, "GNOME") && extension_active {
        GraphicalConfirm::GnomeExtension
    } else {
        GraphicalConfirm::FailClosed
    }
}

/// Whom to confirm with: the user of the active session and whether it is a greeter, or
/// the user to authenticate where there is no session.
pub fn confirm_target(session: Option<(u32, String)>, user: Option<u32>) -> (r: (Option<u32>, bool))
    ensures
        r == (match session {
            Some(active) => (Some(active.0), active.1@ == "greeter"@),
            None => (user, false),
        }),
        session matches Some(active) ==> r.0 == Some(active.0),
        session is None ==> r.0 == user,
        r.1 ==> session is Some,
{
    match session {
        Some(active) => (Some(active.0), str_eq(active.1.as_str(), "greeter")),
        None => (user, false),
    }
}

// Before and after recognition

/// What the enrollment of a user leads to.
#[derive(Clone, Copy, Debug, PartialEq, Eq, Structural)]
pub enum EnrollmentDisposition {
    Continue,
    Ignore,
    Unavailable,
}

/// Decides what the enrollment of a user leads to: a user without faces is passed over, and
/// an error is no reason to pass a user over.
pub fn enrollment_disposition<E>(result: Result<bool, E>) -> (r: EnrollmentDisposition)
    ensures
        r == (match result {
            Ok(enrolled) => if enrolled {
                EnrollmentDisposition::Continue
            } else {
                EnrollmentDisposition::Ignore
            },
            Err(_) => EnrollmentDisposition::Unavailable,
        }),
{
    match result {
        Ok(enrolled) => {
            if enrolled {
                EnrollmentDisposition::Continue
            } else {
                EnrollmentDisposition::Ignore
            }
        },
        Err(_) => EnrollmentDisposition::Unavailable,
    }
}

/// The outcome of face recognition.
#[derive(Clone, Copy, Debug, PartialEq, Eq, Structural)]
pub enum AuthOutcome {
    Match,
    NoMatch,
    Unavailable,
}

/// The outcome of face recognition.
pub open spec fn outcome_of(result: VerifyResult, last: Option<CaptureStatus>) -> AuthOutcome {
    match result {
        VerifyResult::VerifyMatch => AuthOutcome::Match,
        VerifyResult::VerifyNoMatch => if last == Some(CaptureStatus::TooDark) || last == Some(
            CaptureStatus::NoFace,
        ) {
            AuthOutcome::Unavailable
        } else {
            AuthOutcome::NoMatch
        },
    }
}

/// The daemon's match is a match whatever the camera saw. No match is held against the user
/// unless the camera last saw no face or too little light, which tells nothing of the user.
pub proof fn unseen_faces_do_not_count(last: Option<CaptureStatus>)
    ensures
        outcome_of(VerifyResult::VerifyMatch, last) == AuthOutcome::Match,
        outcome_of(VerifyResult::VerifyNoMatch, last) == AuthOutcome::Unavailable <==> (last
            matches Some(status) && (status == CaptureStatus::TooDark || status
            == CaptureStatus::NoFace)),
        outcome_of(VerifyResult::VerifyNoMatch, last) != AuthOutcome::Match,
{
}

/// The outcome of face recognition: no match counts against the user only if there was a
/// face to be seen.
pub fn auth_outcome(result: VerifyResult, last_status: Option<CaptureStatus>) -> (r: AuthOutcome)
    ensures
        r == outcome_of(result, last_status),
{
    match result {
        VerifyResult::VerifyMatch => AuthOutcome::Match,
        VerifyResult::VerifyNoMatch => {
            match last_status {
                Some(CaptureStatus::TooDark) | Some(CaptureStatus::NoFace) =>
                    AuthOutcome::Unavailable,
                _ => AuthOutcome::NoMatch,
            }
        },
    }
}

/// What can happen during face recognition.
#[derive(Clone, Copy, Debug, PartialEq, Eq, Structural)]
pub enum BiometricEvent {
    /// The daemon has a result.
    Verified(VerifyResult),
    /// The daemon reported on the camera.
    Status(CaptureStatus),
    /// Every report of the daemon ended.
    StreamsEnded,
}

/// Face recognition as it runs: what the camera saw last.
#[derive(Clone, Copy, Debug, PartialEq, Eq, Structural)]
pub struct Biometric {
    pub last_status: Option<CaptureStatus>,
}

impl Biometric {
    /// What an event makes of the recognition, and the outcome that it brings.
    pub open spec fn after(self, event: BiometricEvent) -> (Biometric, Option<AuthOutcome>) {
        match event {
            BiometricEvent::Verified(result) => (self, Some(outcome_of(result, self.last_status))),
            BiometricEvent::Status(status) => (Biometric { last_status: Some(status) }, None),
            BiometricEvent::StreamsEnded => (self, Some(AuthOutcome::Unavailable)),
        }
    }

    /// Recognition that has just started.
    pub fn new() -> (r: Biometric)
        ensures
            r == (Biometric { last_status: None }),
    {
        Biometric { last_status: None }
    }

    /// Takes an event; tells the outcome, once there is one.
    pub fn handle(&mut self, event: BiometricEvent) -> (r: Option<AuthOutcome>)
        ensures
            (*final(self), r) == old(self).after(event),
    {
        match event {
            BiometricEvent::Verified(result) => Some(auth_outcome(result, self.last_status)),
            BiometricEvent::Status(status) => {
                self.last_status = Some(status);
                None
            },
            BiometricEvent::StreamsEnded => Some(AuthOutcome::Unavailable),
        }
    }
}

/// Recognition ends in a match only on the daemon's word.
pub proof fn only_the_daemon_matches(recognition: Biometric, event: BiometricEvent)
    ensures
        recognition.after(event).1 == Some(AuthOutcome::Match) <==> event
            == BiometricEvent::Verified(VerifyResult::VerifyMatch),
{
}

/// Of all the reports of the camera only the last one has a say in the outcome, and a
/// report is no outcome. The end of the reports without a result makes recognition
/// unavailable.
pub proof fn recognition_goes_by_the_last_report(
    recognition: Biometric,
    earlier: Biometric,
    status: CaptureStatus,
    result: VerifyResult,
)
    ensures
        recognition.after(BiometricEvent::Status(status)).1 is None,
        recognition.after(BiometricEvent::Status(status)).0 == earlier.after(
            BiometricEvent::Status(status),
        ).0,
        recognition.after(BiometricEvent::Status(status)).0.after(
            BiometricEvent::Verified(result),
        ).1 == Some(
            if result == VerifyResult::VerifyMatch {
                AuthOutcome::Match
            } else if status == CaptureStatus::TooDark || status == CaptureStatus::NoFace {
                AuthOutcome::Unavailable
            } else {
                AuthOutcome::NoMatch
            },
        ),
        recognition.after(BiometricEvent::StreamsEnded).1 == Some(AuthOutcome::Unavailable),
        recognition.after(BiometricEvent::Verified(result)).1 is Some,
{
}

/// The error says that trying again may help.
pub open spec fn says_retryable(text: Seq<char>) -> bool {
    contains_text(text, "RETRYABLE:"@)
}

/// That trying again may help counts wherever in the text it stands; a text without a colon
/// does not say it.
pub proof fn retrying_may_help_wherever_it_stands(
    before: Seq<char>,
    after: Seq<char>,
    text: Seq<char>,
)
    ensures
        says_retryable(before + "RETRYABLE:"@ + after),
        !text.contains(':') ==> !says_retryable(text),
        !text.contains('R') ==> !says_retryable(text),
{
    reveal_strlit("RETRYABLE:");
    let n = before.len() as int;
    let said = before + "RETRYABLE:"@ + after;
    assert(said.subrange(n, n + 10) =~= "RETRYABLE:"@);
    assert(stands_at(said, "RETRYABLE:"@, n));
    assert forall|i: int| stands_at(text, "RETRYABLE:"@, i) implies text.contains(':')
        && text.contains('R') by {
        assert(text.subrange(i, i + 10)[9] == text[i + 9]);
        assert(text.subrange(i, i + 10)[0] == text[i]);
    }
}

/// Whether a bus error says that trying again may help.
pub fn is_retryable(err: &BusError) -> (r: bool)
    ensures
        r == says_retryable(err.text@),
{
    contains(err.text.as_str(), "RETRYABLE:")
}

// The desktop

/// Whether an entry of the process directory is a process of the user: a directory of that
/// user named by a number.
pub fn is_process_of(is_dir: bool, name: &str, owner: u32, uid: u32) -> (r: bool)
    ensures
        r == (is_dir && digit_run(name@) == name@.len() && owner == uid),
        r ==> is_dir && owner == uid,
        r ==> forall|i: int| 0 <= i < name@.len() ==> '0' <= #[trigger] name@[i] <= '9',
        is_dir && owner == uid && !r ==> exists|i: int|
            0 <= i < name@.len() && !('0' <= #[trigger] name@[i] <= '9'),
{
    proof {
        digits_end_where_they_end(name@);
    }
    is_dir && leading_digits(name) == name.unicode_len() && owner == uid
}

/// A process that belongs to KDE, or to a desktop that confirms in the same way.
pub open spec fn kde_process(comm: Seq<char>) -> bool {
    let name = trimmed(comm);
    ||| name == "plasmashell"@
    ||| name == "kwin_wayland"@
    ||| name == "kwin_x11"@
    ||| name == "lxqt-policykit-agent"@
    ||| name == "lxqt-policykit"@
}

/// A process that belongs to Hyprland.
pub open spec fn hyprland_process(comm: Seq<char>) -> bool {
    trimmed(comm) == "hyprland"@ || trimmed(comm) == "Hyprland"@
}

/// A process that belongs to GNOME.
pub open spec fn gnome_process(comm: Seq<char>) -> bool {
    trimmed(comm) == "gnome-shell"@
}

/// The desktop that a user's processes show. Of several, KDE comes before Hyprland and
/// Hyprland before GNOME; the order of the processes does not matter.
pub open spec fn desktop_of(comms: Seq<String>) -> Seq<char> {
    if exists|i: int| 0 <= i < comms.len() && kde_process((#[trigger] comms[i])@) {
        "KDE"@
    } else if exists|i: int| 0 <= i < comms.len() && hyprland_process((#[trigger] comms[i])@) {
        "Hyprland"@
    } else if exists|i: int| 0 <= i < comms.len() && gnome_process((#[trigger] comms[i])@) {
        "GNOME"@
    } else {
        "Other"@
    }
}

fn is_kde(comm: &str) -> (r: bool)
    ensures
        r == kde_process(comm@),
{
    let name: &str = trim(comm);
    str_eq(name, "plasmashell") || str_eq(name, "kwin_wayland") || str_eq(name, "kwin_x11")
        || str_eq(name, "lxqt-policykit-agent") || str_eq(name, "lxqt-policykit")
}

proof fn lemma_one_desktop_per_process(comm: Seq<char>)
    ensures
        !(kde_process(comm) && hyprland_process(comm)),
        !(kde_process(comm) && gnome_process(comm)),
        !(hyprland_process(comm) && gnome_process(comm)),
{
    reveal_strlit("plasmashell");
    reveal_strlit("kwin_wayland");
    reveal_strlit("kwin_x11");
    reveal_strlit("lxqt-policykit-agent");
    reveal_strlit("lxqt-policykit");
    reveal_strlit("hyprland");
    reveal_strlit("Hyprland");
    reveal_strlit("gnome-shell");
    let name = trimmed(comm);
    assert("plasmashell"@[0] == 'p' && "kwin_wayland"@[0] == 'k' && "kwin_x11"@[0] == 'k'
        && "lxqt-policykit-agent"@[0] == 'l' && "lxqt-policykit"@[0] == 'l' && "hyprland"@[0] == 'h'
        && "Hyprland"@[0] == 'H' && "gnome-shell"@[0] == 'g');
    if kde_process(comm) {
        assert(name[0] == 'p' || name[0] == 'k' || name[0] == 'l');
    }
    if hyprland_process(comm) {
        assert(name[0] == 'h' || name[0] == 'H');
    }
    if gnome_process(comm) {
        assert(name[0] == 'g');
    }
}

/// What one process says of the desktop: its name without the space around it, as KDE, LXQt,
/// Hyprland and GNOME name theirs. KDE and LXQt are never overruled, Hyprland only by them,
/// and GNOME by all of these.
pub proof fn processes_tell_the_desktop(comms: Seq<String>, i: int)
    requires
        0 <= i < comms.len(),
    ensures
        ({
            let name = trimmed(comms[i]@);
            &&& name == "plasmashell"@ || name == "kwin_wayland"@ || name == "kwin_x11"@ || name
                == "lxqt-policykit-agent"@ || name == "lxqt-policykit"@ ==> desktop_of(comms)
                == "KDE"@
            &&& name == "hyprland"@ || name == "Hyprland"@ ==> desktop_of(comms) == "KDE"@
                || desktop_of(comms) == "Hyprland"@
            &&& name == "gnome-shell"@ ==> desktop_of(comms) != "Other"@
        }),
{
    lemma_desktops_differ();
    assert(kde_process(comms[i]@) || !kde_process(comms[i]@));
    assert(hyprland_process(comms[i]@) || !hyprland_process(comms[i]@));
    assert(gnome_process(comms[i]@) || !gnome_process(comms[i]@));
}

/// No desktop is told without a process that belongs to it.
pub proof fn desktops_have_a_process(comms: Seq<String>)
    ensures
        desktop_of(comms) == "KDE"@ ==> exists|i: int|
            0 <= i < comms.len() && (trimmed((#[trigger] comms[i])@) == "plasmashell"@ || trimmed(
                comms[i]@,
            ) == "kwin_wayland"@ || trimmed(comms[i]@) == "kwin_x11"@ || trimmed(comms[i]@)
                == "lxqt-policykit-agent"@ || trimmed(comms[i]@) == "lxqt-policykit"@),
        desktop_of(comms) == "Hyprland"@ ==> exists|i: int|
            0 <= i < comms.len() && (trimmed((#[trigger] comms[i])@) == "hyprland"@ || trimmed(
                comms[i]@,
            ) == "Hyprland"@),
        desktop_of(comms) == "GNOME"@ ==> exists|i: int|
            0 <= i < comms.len() && trimmed((#[trigger] comms[i])@) == "gnome-shell"@,
        desktop_of(comms) == "KDE"@ || desktop_of(comms) == "Hyprland"@ || desktop_of(comms)
            == "GNOME"@ || desktop_of(comms) == "Other"@,
{
    lemma_desktops_differ();
}

/// The order in which a user's processes are found does not matter.
pub proof fn desktops_do_not_go_by_the_order(comms: Seq<String>, others: Seq<String>)
    requires
        forall|i: int| 0 <= i < comms.len() ==> others.contains(#[trigger] comms[i]),
        forall|i: int| 0 <= i < others.len() ==> comms.contains(#[trigger] others[i]),
    ensures
        desktop_of(comms) == desktop_of(others),
{
    assert forall|i: int| 0 <= i < comms.len() implies exists|j: int|
        0 <= j < others.len() && others[j] == #[trigger] comms[i] by {
        assert(others.contains(comms[i]));
    }
    assert forall|i: int| 0 <= i < others.len() implies exists|j: int|
        0 <= j < comms.len() && comms[j] == #[trigger] others[i] by {
        assert(comms.contains(others[i]));
    }
}

proof fn lemma_desktops_differ()
    ensures
        "KDE"@ != "Hyprland"@,
        "KDE"@ != "GNOME"@,
        "KDE"@ != "Other"@,
        "Hyprland"@ != "GNOME"@,
        "Hyprland"@ != "Other"@,
        "GNOME"@ != "Other"@,
{
    reveal_strlit("KDE");
    reveal_strlit("Hyprland");
    reveal_strlit("GNOME");
    reveal_strlit("Other");
    assert("KDE"@[0] == 'K' && "Hyprland"@[0] == 'H' && "GNOME"@[0] == 'G' && "Other"@[0] == 'O');
}

/// Tells the desktop from the names of a user's processes.
pub fn detect_desktop_environment(comms: &Vec<String>) -> (r: &'static str)
    ensures
        r@ == desktop_of(comms@),
{
    let mut kde: bool = false;
    let mut hyprland: bool = false;
    let mut gnome: bool = false;
    let mut i: usize = 0;
    while i < comms.len()
        invariant
            i <= comms.len(),
            kde <==> exists|j: int| 0 <= j < i && kde_process((#[trigger] comms@[j])@),
            hyprland <==> exists|j: int| 0 <= j < i && hyprland_process((#[trigger] comms@[j])@),
            gnome <==> exists|j: int| 0 <= j < i && gnome_process((#[trigger] comms@[j])@),
        decreases comms.len() - i,
    {
        let comm: &str = comms[i].as_str();
        let name: &str = trim(comm);
        proof {
            lemma_one_desktop_per_process(comm@);
        }
        if is_kde(comm) {
            assert(kde_process(comms@[i as int]@));
            kde = true;
        } else if str_eq(name, "hyprland") || str_eq(name, "Hyprland") {
            assert(hyprland_process(comms@[i as int]@));
            hyprland = true;
        } else if str_eq(name, "gnome-shell") {
            assert(gnome_process(comms@[i as int]@));
            gnome = true;
        }
        i = i + 1;
    }
    if kde {
        "KDE"
    } else if hyprland {
        "Hyprland"
    } else if gnome {
        "GNOME"
    } else {
        "Other"
    }
}

} // verus!
