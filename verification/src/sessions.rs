//! Running sessions with the daemon: enrolling a face and authenticating, from the events
//! that arrive to how the session ends and what is said about it.

use crate::dbus::{
    dbus_error_message, dbus_is_file_not_found, says_file_not_found, user_message, BusError,
    CaptureStatus,
    EnrollPrompt, VerifyResult,
};
use crate::number::Double;
use crate::text::{joined, stands_at};
use vstd::prelude::*;
use vstd::string::*;

verus! {

/// How a message is meant.
#[derive(Clone, Copy, Debug, PartialEq, Eq, Structural)]
pub enum Tone {
    Info,
    Good,
    Warn,
    Error,
}

/// How a capture status is meant.
pub open spec fn tone_of(status: CaptureStatus) -> Tone {
    match status {
        CaptureStatus::Ready | CaptureStatus::Usable => Tone::Good,
        CaptureStatus::Unused | CaptureStatus::NoFace => Tone::Error,
        CaptureStatus::TooDark
        | CaptureStatus::Clipped
        | CaptureStatus::NotCentered
        | CaptureStatus::TooFar
        | CaptureStatus::TooClose => Tone::Warn,
    }
}

/// How a capture status is meant.
pub fn capture_tone(status: CaptureStatus) -> (r: Tone)
    ensures
        r == tone_of(status),
{
    match status {
        CaptureStatus::Ready | CaptureStatus::Usable => Tone::Good,
        CaptureStatus::Unused | CaptureStatus::NoFace => Tone::Error,
        CaptureStatus::TooDark
        | CaptureStatus::Clipped
        | CaptureStatus::NotCentered
        | CaptureStatus::TooFar
        | CaptureStatus::TooClose => Tone::Warn,
    }
}

/// The next tick of a screen's animation; it starts over after the last one.
pub open spec fn next_tick(tick: u64) -> u64 {
    if tick == u64::MAX {
        0
    } else {
        (tick + 1) as u64
    }
}

/// The tone of a status goes by how much the status says about the face: a frame that can
/// be used is good, a camera without a face is an error, and a face that can be put right is
/// a warning.
pub proof fn tones_follow_the_priority(status: CaptureStatus)
    ensures
        tone_of(status) == Tone::Good <==> status.rank() >= 4,
        tone_of(status) == Tone::Error <==> status.rank() <= 1,
        tone_of(status) == Tone::Warn <==> 2 <= status.rank() <= 3,
{
}

/// Ticks count up by one, modulo what 64 bits hold.
pub proof fn ticks_count_up(tick: u64)
    ensures
        next_tick(tick) == (tick + 1) % 0x1_0000_0000_0000_0000,
{
}

// Enrolling

/// What the daemon says of an enrollment.
#[derive(Clone, Copy, Debug, PartialEq, Eq, Structural)]
pub struct EnrollUpdate {
    pub progress: u32,
    pub max: u32,
    pub is_done: bool,
    pub prompt: EnrollPrompt,
    pub time_remaining: Double,
}

/// What can happen while a face is enrolled.
#[derive(Clone, Copy, Debug, PartialEq, Eq, Structural)]
pub enum EnrollEvent {
    /// The daemon reported on the enrollment.
    Update(EnrollUpdate),
    /// The daemon reported on the camera.
    Capture(CaptureStatus),
    /// The daemon's reports ended.
    StreamEnded,
    /// The user cancelled and confirmed it.
    CancelConfirmed,
    /// Some time passed.
    Tick,
}

/// How an enrollment ended.
#[derive(Clone, Copy, Debug, PartialEq, Eq, Structural)]
pub enum EnrollEnd {
    Cancelled,
    Completed,
    Failed,
}

/// An enrollment as the screen shows it.
#[derive(Clone, Debug)]
pub struct EnrollSession {
    pub prompt: String,
    pub capture: String,
    pub capture_tone: Tone,
    pub progress: u32,
    pub max: u32,
    pub time_remaining: Option<Double>,
    pub tick: u64,
}

/// An enrollment, its texts as sequences.
#[verifier::ext_equal]
pub struct EnrollModel {
    pub prompt: Seq<char>,
    pub capture: Seq<char>,
    pub capture_tone: Tone,
    pub progress: u32,
    pub max: u32,
    pub time_remaining: Option<Double>,
    pub tick: u64,
}

impl View for EnrollSession {
    type V = EnrollModel;

    open spec fn view(&self) -> EnrollModel {
        EnrollModel {
            prompt: self.prompt@,
            capture: self.capture@,
            capture_tone: self.capture_tone,
            progress: self.progress,
            max: self.max,
            time_remaining: self.time_remaining,
            tick: self.tick,
        }
    }
}

/// The remaining time, if there is any.
pub open spec fn time_left(time: Double) -> Option<Double> {
    if !time.is_nan() && time.scaled() > 0 {
        Some(time)
    } else {
        None
    }
}

impl EnrollUpdate {
    /// How the update ends the enrollment: a failure always does, anything else only when
    /// the daemon is done, and only its completion is a success.
    pub open spec fn ends(self) -> Option<EnrollEnd> {
        match self.prompt {
            EnrollPrompt::DbFailed | EnrollPrompt::CameraFailed | EnrollPrompt::Cancelled => Some(
                EnrollEnd::Failed,
            ),
            EnrollPrompt::Completed => if self.is_done {
                Some(EnrollEnd::Completed)
            } else {
                None
            },
            _ => if self.is_done {
                Some(EnrollEnd::Failed)
            } else {
                None
            },
        }
    }
}

impl EnrollModel {
    /// What an event makes of the enrollment, and how it ends it.
    pub open spec fn after(self, event: EnrollEvent) -> (EnrollModel, Option<EnrollEnd>) {
        match event {
            EnrollEvent::Update(update) => (
                EnrollModel {
                    prompt: update.prompt.message_text(),
                    progress: update.progress,
                    max: update.max,
                    time_remaining: time_left(update.time_remaining),
                    ..self
                },
                update.ends(),
            ),
            EnrollEvent::Capture(status) => (
                EnrollModel {
                    capture: status.message_text(),
                    capture_tone: tone_of(status),
                    ..self
                },
                None,
            ),
            EnrollEvent::StreamEnded => (self, Some(EnrollEnd::Failed)),
            EnrollEvent::CancelConfirmed => (self, Some(EnrollEnd::Cancelled)),
            EnrollEvent::Tick => (EnrollModel { tick: next_tick(self.tick), ..self }, None),
        }
    }
}

/// An enrollment completes only on the daemon's word that it is done and completed.
pub proof fn only_the_daemon_completes_an_enrollment(session: EnrollModel, event: EnrollEvent)
    ensures
        session.after(event).1 == Some(EnrollEnd::Completed) <==> (event
            matches EnrollEvent::Update(update) && update.is_done && update.prompt
            == EnrollPrompt::Completed),
        session.after(event).1 == Some(EnrollEnd::Cancelled) <==> event
            == EnrollEvent::CancelConfirmed,
{
}

/// An update that is done ends an enrollment, always. One that is not done ends it exactly
/// for the three prompts that report a failure, and then as failed. Besides updates, the end
/// of the reports fails it and a confirmed cancellation cancels it; nothing else ends it.
pub proof fn enrollments_end_when_they_have_to(session: EnrollModel, event: EnrollEvent)
    ensures
        event matches EnrollEvent::Update(update) ==> {
            let end = session.after(event).1;
            let failure = update.prompt is DbFailed || update.prompt is CameraFailed
                || update.prompt is Cancelled;
            &&& update.is_done ==> end is Some
            &&& failure ==> end == Some(EnrollEnd::Failed)
            &&& !update.is_done && !failure ==> end is None
            &&& update.is_done && !(update.prompt is Completed) ==> end == Some(EnrollEnd::Failed)
            &&& update.is_done && update.prompt is Completed ==> end == Some(EnrollEnd::Completed)
        },
        event is StreamEnded ==> session.after(event).1 == Some(EnrollEnd::Failed),
        event is CancelConfirmed ==> session.after(event).1 == Some(EnrollEnd::Cancelled),
        event is Capture || event is Tick ==> session.after(event).1 is None,
{
}

/// How an event ends an enrollment does not depend on what came before it.
pub proof fn enrollments_end_by_the_last_event(
    first: EnrollModel,
    second: EnrollModel,
    event: EnrollEvent,
)
    ensures
        first.after(event).1 == second.after(event).1,
{
}

/// The screen shows the last update: its prompt, progress and limit, and the time that is
/// left if that is above zero. What the camera sees is shown beside it, and neither kind of
/// report touches what the other shows.
pub proof fn enrollment_screens_show_the_last_reports(
    session: EnrollModel,
    update: EnrollUpdate,
    status: CaptureStatus,
)
    ensures
        ({
            let updated = session.after(EnrollEvent::Update(update)).0;
            let seen = session.after(EnrollEvent::Capture(status)).0;
            &&& updated.prompt == update.prompt.message_text()
            &&& updated.progress == update.progress
            &&& updated.max == update.max
            &&& updated.time_remaining is Some <==> !update.time_remaining.is_nan()
                && update.time_remaining.scaled() > 0
            &&& updated.time_remaining matches Some(left) ==> left == update.time_remaining
            &&& updated.capture == session.capture
            &&& updated.capture_tone == session.capture_tone
            &&& updated.tick == session.tick
            &&& seen.capture == status.message_text()
            &&& seen.capture_tone == tone_of(status)
            &&& seen.prompt == session.prompt
            &&& seen.progress == session.progress
            &&& seen.max == session.max
            &&& seen.time_remaining == session.time_remaining
            &&& seen.tick == session.tick
            &&& updated.after(EnrollEvent::Capture(status)).0 == seen.after(
                EnrollEvent::Update(update),
            ).0
        }),
{
    let updated = session.after(EnrollEvent::Update(update)).0;
    let seen = session.after(EnrollEvent::Capture(status)).0;
    assert(updated.after(EnrollEvent::Capture(status)).0 =~= seen.after(
        EnrollEvent::Update(update),
    ).0);
}

/// Time passing, the end of the reports and a cancellation leave what is shown as it is;
/// time passing moves the animation on by one tick.
pub proof fn enrollment_screens_keep_what_they_show(session: EnrollModel, event: EnrollEvent)
    requires
        event is StreamEnded || event is CancelConfirmed || event is Tick,
    ensures
        ({
            let after = session.after(event).0;
            &&& after.prompt == session.prompt
            &&& after.capture == session.capture
            &&& after.capture_tone == session.capture_tone
            &&& after.progress == session.progress
            &&& after.max == session.max
            &&& after.time_remaining == session.time_remaining
            &&& event is Tick ==> after.tick == (session.tick + 1) % 0x1_0000_0000_0000_0000
            &&& !(event is Tick) ==> after.tick == session.tick
        }),
{
}

impl EnrollSession {
    /// An enrollment that has just started.
    pub fn new() -> (r: EnrollSession)
        ensures
            r@ == (EnrollModel {
                prompt: "Waiting for capture prompt"@,
                capture: "Waiting for face..."@,
                capture_tone: Tone::Info,
                progress: 0,
                max: 100,
                time_remaining: None,
                tick: 0,
            }),
    {
        EnrollSession {
            prompt: "Waiting for capture prompt".to_owned(),
            capture: "Waiting for face...".to_owned(),
            capture_tone: Tone::Info,
            progress: 0,
            max: 100,
            time_remaining: None,
            tick: 0,
        }
    }

    /// Takes an event; tells how the enrollment ended, if it did.
    pub fn handle(&mut self, event: EnrollEvent) -> (r: Option<EnrollEnd>)
        ensures
            (final(self)@, r) == old(self)@.after(event),
            event is Capture || event is Tick ==> r is None,
            event is StreamEnded ==> r == Some(EnrollEnd::Failed),
            event is CancelConfirmed ==> r == Some(EnrollEnd::Cancelled),
            event matches EnrollEvent::Update(update) ==> {
                &&& r is Some <==> update.is_done || update.prompt is DbFailed
                    || update.prompt is CameraFailed || update.prompt is Cancelled
                &&& r is Some ==> r == Some(
                    if update.is_done && update.prompt is Completed {
                        EnrollEnd::Completed
                    } else {
                        EnrollEnd::Failed
                    },
                )
                &&& final(self).prompt@ == update.prompt.message_text()
                &&& final(self).progress == update.progress
                &&& final(self).max == update.max
            },
    {
        match event {
            EnrollEvent::Update(update) => {
                self.progress = update.progress;
                self.max = update.max;
                self.prompt = update.prompt.to_string();
                let some_left: bool = Double { bits: 0 }.lt(update.time_remaining);
                proof {
                    lemma_zero();
                }
                if some_left {
                    self.time_remaining = Some(update.time_remaining);
                } else {
                    self.time_remaining = None;
                }
                match update.prompt {
                    EnrollPrompt::DbFailed
                    | EnrollPrompt::CameraFailed
                    | EnrollPrompt::Cancelled => Some(EnrollEnd::Failed),
                    EnrollPrompt::Completed => {
                        if update.is_done {
                            Some(EnrollEnd::Completed)
                        } else {
                            None
                        }
                    },
                    _ => {
                        if update.is_done {
                            Some(EnrollEnd::Failed)
                        } else {
                            None
                        }
                    },
                }
            },
            EnrollEvent::Capture(status) => {
                self.capture = status.to_string();
                self.capture_tone = capture_tone(status);
                None
            },
            EnrollEvent::StreamEnded => Some(EnrollEnd::Failed),
            EnrollEvent::CancelConfirmed => Some(EnrollEnd::Cancelled),
            EnrollEvent::Tick => {
                self.tick = if self.tick == u64::MAX {
                    0
                } else {
                    self.tick + 1
                };
                None
            },
        }
    }
}

proof fn lemma_zero()
    ensures
        (Double { bits: 0 }).scaled() == 0,
        !(Double { bits: 0 }).is_nan(),
{
}

/// What is left to do and to say when an enrollment has ended.
#[derive(Clone, Debug)]
pub struct EnrollClosing {
    /// Tell the daemon to stop.
    pub stop: bool,
    /// What to say.
    pub message: String,
    /// Leave the process with this code.
    pub exit_code: Option<i32>,
}

/// What is said when an enrollment has ended.
pub open spec fn enroll_message(
    end: EnrollEnd,
    user: Seq<char>,
    face: Seq<char>,
    prompt: Seq<char>,
) -> Seq<char> {
    match end {
        EnrollEnd::Cancelled => "Enrollment cancelled"@,
        EnrollEnd::Completed => "Captures saved for "@ + user + "/"@ + face + "!"@,
        EnrollEnd::Failed => "Enrollment failed: "@ + prompt,
    }
}

/// A completed enrollment is reported with its user and, after a slash, its face; a failed
/// one ends with the last prompt; a cancelled one speaks of neither.
pub proof fn enrollment_messages_say_what_happened(
    user: Seq<char>,
    face: Seq<char>,
    prompt: Seq<char>,
    other: Seq<char>,
)
    ensures
        ({
            let saved = enroll_message(EnrollEnd::Completed, user, face, prompt);
            let failed = enroll_message(EnrollEnd::Failed, user, face, prompt);
            let n = user.len() as int;
            &&& stands_at(saved, "Captures saved for "@, 0)
            &&& stands_at(saved, user, 19)
            &&& saved[19 + n] == '/'
            &&& stands_at(saved, face, 20 + n)
            &&& saved.len() == 21 + n + face.len()
            &&& saved.last() == '!'
            &&& stands_at(failed, "Enrollment failed: "@, 0)
            &&& stands_at(failed, prompt, 19)
            &&& failed.len() == 19 + prompt.len()
            &&& enroll_message(EnrollEnd::Cancelled, user, face, prompt) == "Enrollment cancelled"@
            &&& saved == enroll_message(EnrollEnd::Completed, user, face, other)
        }),
{
    reveal_strlit("Captures saved for ");
    reveal_strlit("/");
    reveal_strlit("!");
    reveal_strlit("Enrollment failed: ");
    let saved = enroll_message(EnrollEnd::Completed, user, face, prompt);
    let failed = enroll_message(EnrollEnd::Failed, user, face, prompt);
    let n = user.len() as int;
    assert(saved.subrange(0, 19) =~= "Captures saved for "@);
    assert(saved.subrange(19, 19 + n) =~= user);
    assert(saved.subrange(20 + n, 20 + n + face.len()) =~= face);
    assert(failed.subrange(0, 19) =~= "Enrollment failed: "@);
    assert(failed.subrange(19, 19 + prompt.len() as int) =~= prompt);
}

/// Tells what is left to do and to say: only a cancelled enrollment has to be stopped, and
/// only it leaves the process, with the code of an interrupt.
pub fn close_enrollment(end: EnrollEnd, user: &str, face: &str, session: &EnrollSession) -> (r:
    EnrollClosing)
    ensures
        r.stop == (end == EnrollEnd::Cancelled),
        r.exit_code == (if end == EnrollEnd::Cancelled {
            Some(130i32)
        } else {
            None
        }),
        r.message@ == enroll_message(end, user@, face@, session@.prompt),
        r.stop <==> end is Cancelled,
        r.stop <==> r.exit_code is Some,
        end is Completed ==> stands_at(r.message@, user@, 19) && stands_at(
            r.message@,
            face@,
            20 + user@.len() as int,
        ),
        end is Failed ==> stands_at(r.message@, session.prompt@, 19),
{
    proof {
        enrollment_messages_say_what_happened(user@, face@, session@.prompt, user@);
    }
    match end {
        EnrollEnd::Cancelled => EnrollClosing {
            stop: true,
            message: "Enrollment cancelled".to_owned(),
            exit_code: Some(130),
        },
        EnrollEnd::Completed => {
            let mut message: String = joined("Captures saved for ", user);
            message.append("/");
            message.append(face);
            message.append("!");
            EnrollClosing { stop: false, message, exit_code: None }
        },
        EnrollEnd::Failed => EnrollClosing {
            stop: false,
            message: joined("Enrollment failed: ", session.prompt.as_str()),
            exit_code: None,
        },
    }
}

/// Why an enrollment does not start.
#[derive(Clone, Debug)]
pub enum EnrollSetback {
    /// The camera is taken.
    NotClaimed(BusError),
    /// The daemon refused.
    NotStarted(BusError),
}

/// What is said about an enrollment that does not start.
pub open spec fn enroll_setback_text(setback: EnrollSetback) -> Seq<char> {
    match setback {
        EnrollSetback::NotClaimed(err) => "Failed to claim device: "@ + user_message(err.text@),
        EnrollSetback::NotStarted(err) => "Failed to start enrollment: "@ + user_message(
            err.text@,
        ),
    }
}

/// What is said about an enrollment that does not start ends with the part of the error that
/// is meant for the user, and tells a taken camera from a refusal.
pub proof fn enroll_setbacks_end_with_the_error(err: BusError)
    ensures
        ({
            let claim = enroll_setback_text(EnrollSetback::NotClaimed(err));
            let start = enroll_setback_text(EnrollSetback::NotStarted(err));
            let message = user_message(err.text@);
            &&& stands_at(claim, "Failed to claim device: "@, 0)
            &&& stands_at(claim, message, 24)
            &&& claim.len() == 24 + message.len()
            &&& stands_at(start, "Failed to start enrollment: "@, 0)
            &&& stands_at(start, message, 28)
            &&& start.len() == 28 + message.len()
        }),
{
    reveal_strlit("Failed to claim device: ");
    reveal_strlit("Failed to start enrollment: ");
    let claim = enroll_setback_text(EnrollSetback::NotClaimed(err));
    let start = enroll_setback_text(EnrollSetback::NotStarted(err));
    let message = user_message(err.text@);
    assert(claim.subrange(0, 24) =~= "Failed to claim device: "@);
    assert(claim.subrange(24, 24 + message.len() as int) =~= message);
    assert(start.subrange(0, 28) =~= "Failed to start enrollment: "@);
    assert(start.subrange(28, 28 + message.len() as int) =~= message);
}

/// Tells what is left to do about an enrollment that does not start: whether the camera has
/// to be given back, whether it is an error, and what to say. A camera that is taken is no
/// error.
pub fn enroll_setback(setback: &EnrollSetback) -> (r: (bool, bool, String))
    ensures
        r.0 == (setback is NotStarted),
        r.1 == (setback is NotStarted),
        r.2@ == enroll_setback_text(*setback),
{
    match setback {
        EnrollSetback::NotClaimed(err) => {
            let message: String = dbus_error_message(err);
            (false, false, joined("Failed to claim device: ", message.as_str()))
        },
        EnrollSetback::NotStarted(err) => {
            let message: String = dbus_error_message(err);
            (true, true, joined("Failed to start enrollment: ", message.as_str()))
        },
    }
}

// Authenticating

/// How one face compared.
#[derive(Clone, Debug)]
pub struct FaceScore {
    pub name: String,
    pub rgb_similarity: Double,
    pub rgb_percent: Double,
    pub rgb_passed: bool,
    pub ir_similarity: Double,
    pub ir_percent: Double,
    pub ir_passed: bool,
}

/// What the daemon says of a verification.
#[derive(Clone, Debug)]
pub struct Verification {
    pub result: VerifyResult,
    pub faces: Vec<FaceScore>,
    pub rgb_status: CaptureStatus,
    pub ir_status: CaptureStatus,
}

/// What can happen while a user is authenticated.
#[derive(Clone, Debug)]
pub enum AuthEvent {
    /// The daemon has a result.
    Verified(Verification),
    /// The daemon reported on the camera.
    Capture(CaptureStatus),
    /// The daemon explained something.
    Diagnostic(String),
    /// The daemon's reports ended.
    StreamEnded,
    /// The user cancelled.
    Cancel,
    /// Some time passed.
    Tick,
}

/// How an authentication ended.
#[derive(Clone, Debug)]
pub enum AuthEnd {
    Cancelled,
    Verified(Verification),
    StreamEnded,
}

/// An authentication as the screen shows it.
#[derive(Clone, Debug)]
pub struct AuthSession {
    pub user: String,
    pub status: String,
    pub tone: Tone,
    pub tick: u64,
    pub diagnostics: Vec<String>,
}

/// An authentication, its texts as sequences.
#[verifier::ext_equal]
pub struct AuthSessionModel {
    pub user: Seq<char>,
    pub status: Seq<char>,
    pub tone: Tone,
    pub tick: u64,
    pub diagnostics: Seq<Seq<char>>,
}

/// The texts of a list.
pub open spec fn text_models(texts: Seq<String>) -> Seq<Seq<char>> {
    texts.map_values(|s: String| s@)
}

impl View for AuthSession {
    type V = AuthSessionModel;

    open spec fn view(&self) -> AuthSessionModel {
        AuthSessionModel {
            user: self.user@,
            status: self.status@,
            tone: self.tone,
            tick: self.tick,
            diagnostics: text_models(self.diagnostics@),
        }
    }
}

/// What is said while a face is looked for.
pub open spec fn scanning_text(user: Seq<char>) -> Seq<char> {
    "Scanning face for "@ + user + "..."@
}

fn scanning(user: &str) -> (r: String)
    ensures
        r@ == scanning_text(user@),
{
    let mut text: String = joined("Scanning face for ", user);
    text.append("...");
    text
}

impl AuthSessionModel {
    /// What an event makes of the authentication.
    pub open spec fn after(self, event: AuthEvent) -> AuthSessionModel {
        match event {
            AuthEvent::Capture(status) => AuthSessionModel {
                tone: tone_of(status),
                status: match status {
                    CaptureStatus::Ready | CaptureStatus::Usable => scanning_text(self.user),
                    other => other.message_text(),
                },
                ..self
            },
            AuthEvent::Diagnostic(message) => AuthSessionModel {
                diagnostics: self.diagnostics.push(message@),
                ..self
            },
            AuthEvent::Tick => AuthSessionModel { tick: next_tick(self.tick), ..self },
            _ => self,
        }
    }
}

/// How an event ends the authentication.
pub open spec fn auth_end(event: AuthEvent) -> Option<AuthEnd> {
    match event {
        AuthEvent::Verified(verification) => Some(AuthEnd::Verified(verification)),
        AuthEvent::StreamEnded => Some(AuthEnd::StreamEnded),
        AuthEvent::Cancel => Some(AuthEnd::Cancelled),
        _ => None,
    }
}

/// A result of the daemon ends an authentication, whatever it is, and is handed on as it
/// came; so do the end of the reports and a cancellation. Nothing else ends it: it goes on
/// exactly while the camera and the daemon report and time passes.
pub proof fn results_end_an_authentication(event: AuthEvent)
    ensures
        event matches AuthEvent::Verified(verification) ==> auth_end(event) == Some(
            AuthEnd::Verified(verification),
        ),
        event is StreamEnded <==> auth_end(event) == Some(AuthEnd::StreamEnded),
        event is Cancel <==> auth_end(event) == Some(AuthEnd::Cancelled),
        auth_end(event) is None <==> event is Capture || event is Diagnostic || event is Tick,
{
}

/// The screen of an authentication shows what the camera saw last, in its tone: that the
/// user's face is being scanned while the frame can be used, what to do about it otherwise.
/// Explanations are collected in their order, and the user never changes.
pub proof fn authentication_screens_show_the_last_reports(
    session: AuthSessionModel,
    status: CaptureStatus,
    message: String,
    event: AuthEvent,
)
    ensures
        ({
            let seen = session.after(AuthEvent::Capture(status));
            let told = session.after(AuthEvent::Diagnostic(message));
            &&& session.after(event).user == session.user
            &&& seen.tone == tone_of(status)
            &&& status.rank() >= 4 ==> seen.status == scanning_text(session.user)
            &&& status.rank() < 4 ==> seen.status == status.message_text()
            &&& seen.diagnostics == session.diagnostics
            &&& seen.tick == session.tick
            &&& told.diagnostics.len() == session.diagnostics.len() + 1
            &&& told.diagnostics.last() == message@
            &&& told.diagnostics.drop_last() == session.diagnostics
            &&& told.status == session.status
            &&& told.tone == session.tone
            &&& told.tick == session.tick
            &&& !(event is Capture) ==> session.after(event).status == session.status
                && session.after(event).tone == session.tone
            &&& !(event is Diagnostic) ==> session.after(event).diagnostics == session.diagnostics
            &&& event is Tick ==> session.after(event).tick == (session.tick + 1)
                % 0x1_0000_0000_0000_0000
            &&& !(event is Tick) ==> session.after(event).tick == session.tick
        }),
{
    let told = session.after(AuthEvent::Diagnostic(message));
    assert(told.diagnostics.drop_last() =~= session.diagnostics);
}

/// What is said while a face is looked for names the user.
pub proof fn scanning_names_the_user(user: Seq<char>)
    ensures
        stands_at(scanning_text(user), "Scanning face for "@, 0),
        stands_at(scanning_text(user), user, 18),
        stands_at(scanning_text(user), "..."@, 18 + user.len() as int),
        scanning_text(user).len() == 21 + user.len(),
{
    reveal_strlit("Scanning face for ");
    reveal_strlit("...");
    let text = scanning_text(user);
    let n = user.len() as int;
    assert(text.subrange(0, 18) =~= "Scanning face for "@);
    assert(text.subrange(18, 18 + n) =~= user);
    assert(text.subrange(18 + n, 21 + n) =~= "..."@);
}

impl AuthSession {
    /// An authentication that has just started.
    pub fn new(user: &str) -> (r: AuthSession)
        ensures
            r@ == (AuthSessionModel {
                user: user@,
                status: scanning_text(user@),
                tone: Tone::Info,
                tick: 0,
                diagnostics: seq![],
            }),
    {
        let r: AuthSession = AuthSession {
            user: user.to_owned(),
            status: scanning(user),
            tone: Tone::Info,
            tick: 0,
            diagnostics: Vec::new(),
        };
        assert(r@.diagnostics =~= seq![]);
        r
    }

    /// Takes an event; tells how the authentication ended, if it did.
    pub fn handle(&mut self, event: AuthEvent) -> (r: Option<AuthEnd>)
        ensures
            final(self)@ == old(self)@.after(event),
            r == auth_end(event),
            event matches AuthEvent::Verified(verification) ==> r == Some(
                AuthEnd::Verified(verification),
            ),
            event is StreamEnded ==> r == Some(AuthEnd::StreamEnded),
            event is Cancel ==> r == Some(AuthEnd::Cancelled),
            r is None <==> event is Capture || event is Diagnostic || event is Tick,
            final(self).user@ == old(self).user@,
            event matches AuthEvent::Diagnostic(message) ==> final(self).diagnostics@.len()
                == old(self).diagnostics@.len() + 1 && final(self).diagnostics@.last()@
                == message@,
    {
        match event {
            AuthEvent::Verified(verification) => Some(AuthEnd::Verified(verification)),
            AuthEvent::StreamEnded => Some(AuthEnd::StreamEnded),
            AuthEvent::Cancel => Some(AuthEnd::Cancelled),
            AuthEvent::Capture(status) => {
                self.tone = capture_tone(status);
                self.status = match status {
                    CaptureStatus::Ready | CaptureStatus::Usable => scanning(self.user.as_str()),
                    other => other.to_string(),
                };
                None
            },
            AuthEvent::Diagnostic(message) => {
                assert(text_models(self.diagnostics@.push(message)) =~= text_models(
                    self.diagnostics@,
                ).push(message@));
                self.diagnostics.push(message);
                None
            },
            AuthEvent::Tick => {
                self.tick = if self.tick == u64::MAX {
                    0
                } else {
                    self.tick + 1
                };
                None
            },
        }
    }
}

/// The place of the first face that passed on either camera, or the number of faces.
pub open spec fn first_passed(faces: Seq<FaceScore>) -> int
    decreases faces.len(),
{
    if faces.len() == 0 || faces[0].rgb_passed || faces[0].ir_passed {
        0
    } else {
        1 + first_passed(faces.drop_first())
    }
}

proof fn lemma_first_passed(faces: Seq<FaceScore>, i: int)
    requires
        0 <= i <= faces.len(),
        forall|j: int| 0 <= j < i ==> !(#[trigger] faces[j]).rgb_passed && !faces[j].ir_passed,
        i < faces.len() ==> faces[i].rgb_passed || faces[i].ir_passed,
    ensures
        first_passed(faces) == i,
    decreases faces.len(),
{
    if faces.len() > 0 && i > 0 {
        let rest = faces.drop_first();
        assert forall|j: int| 0 <= j < i - 1 implies !(#[trigger] rest[j]).rgb_passed
            && !rest[j].ir_passed by {
            assert(rest[j] == faces[j + 1]);
        }
        assert(!faces[0].rgb_passed && !faces[0].ir_passed);
        lemma_first_passed(rest, i - 1);
    }
}

/// The first face that passed is the one with no face before it that passed on either
/// camera, if any did.
pub proof fn the_first_passed_face_is_first(faces: Seq<FaceScore>)
    ensures
        0 <= first_passed(faces) <= faces.len(),
        first_passed(faces) < faces.len() ==> faces[first_passed(faces)].rgb_passed
            || faces[first_passed(faces)].ir_passed,
        forall|j: int|
            0 <= j < first_passed(faces) ==> !(#[trigger] faces[j]).rgb_passed
                && !faces[j].ir_passed,
    decreases faces.len(),
{
    if faces.len() > 0 && !faces[0].rgb_passed && !faces[0].ir_passed {
        let rest = faces.drop_first();
        the_first_passed_face_is_first(rest);
        assert forall|j: int| 0 <= j < first_passed(faces) implies !(#[trigger] faces[j]).rgb_passed
            && !faces[j].ir_passed by {
            if j > 0 {
                assert(rest[j - 1] == faces[j]);
            }
        }
        assert(first_passed(rest) < rest.len() ==> rest[first_passed(rest)]
            == faces[first_passed(faces)]);
    }
}

/// How sure a match is: the larger of the shares that passed.
pub open spec fn match_percent(face: FaceScore) -> Double {
    if face.rgb_passed && face.ir_passed {
        face.rgb_percent.larger(face.ir_percent)
    } else if face.rgb_passed {
        face.rgb_percent
    } else {
        face.ir_percent
    }
}

/// A match is as sure as the camera that passed says, or, where both passed, as the surer of
/// the two: never less than a share that passed, and never a share that did not pass.
pub proof fn matches_are_as_sure_as_the_surer_camera(face: FaceScore)
    requires
        face.rgb_passed || face.ir_passed,
    ensures
        match_percent(face) == face.rgb_percent && face.rgb_passed || match_percent(face)
            == face.ir_percent && face.ir_passed,
        face.rgb_passed && face.ir_passed && !face.rgb_percent.is_nan()
            && !face.ir_percent.is_nan() ==> face.rgb_percent.at_most(match_percent(face))
            && face.ir_percent.at_most(match_percent(face)),
{
}

/// What is said about an authentication.
#[derive(Clone, Debug)]
pub enum AuthLine {
    /// The user was recognized by this face.
    Face { face: String, percent: Double },
    /// The user was recognized.
    User,
    /// The user was not recognized.
    Failed,
}

/// What is left to do and to say when an authentication has ended.
#[derive(Clone, Debug)]
pub struct AuthClosing {
    /// Tell the daemon to stop.
    pub stop: bool,
    /// What to say, if anything.
    pub line: Option<AuthLine>,
    /// The code that the process reports.
    pub exit_code: i32,
}

/// The end is a match.
pub open spec fn is_match(end: AuthEnd) -> bool {
    end matches AuthEnd::Verified(verification) && verification.result == VerifyResult::VerifyMatch
}

/// What is said about an end that was not cancelled.
pub open spec fn line_for(end: AuthEnd, line: AuthLine) -> bool {
    if !is_match(end) {
        line == AuthLine::Failed
    } else {
        let faces = end->Verified_0.faces@;
        let i = first_passed(faces);
        if i < faces.len() {
            line matches AuthLine::Face { face, percent } && face@ == faces[i].name@ && percent
                == match_percent(faces[i])
        } else {
            line == AuthLine::User
        }
    }
}

/// Only a match names a face or the user, and it always does: the face that it names passed
/// on a camera, and none before it did; the user alone is named where no face passed.
pub proof fn lines_name_who_was_recognized(end: AuthEnd, line: AuthLine)
    requires
        line_for(end, line),
    ensures
        line is Failed <==> !(end matches AuthEnd::Verified(verification) && verification.result
            == VerifyResult::VerifyMatch),
        line is User ==> forall|i: int|
            0 <= i < end->Verified_0.faces@.len() ==> !(
            #[trigger] end->Verified_0.faces@[i]).rgb_passed && !end->Verified_0.faces@[i].ir_passed,
        line matches AuthLine::Face { face, percent } ==> exists|i: int|
            {
                &&& 0 <= i < end->Verified_0.faces@.len()
                &&& face@ == (#[trigger] end->Verified_0.faces@[i]).name@
                &&& percent == match_percent(end->Verified_0.faces@[i])
                &&& end->Verified_0.faces@[i].rgb_passed || end->Verified_0.faces@[i].ir_passed
                &&& forall|j: int|
                    0 <= j < i ==> !(#[trigger] end->Verified_0.faces@[j]).rgb_passed
                        && !end->Verified_0.faces@[j].ir_passed
            },
{
    if is_match(end) {
        let faces = end->Verified_0.faces@;
        the_first_passed_face_is_first(faces);
        let i = first_passed(faces);
        if i < faces.len() {
            assert(faces[i].rgb_passed || faces[i].ir_passed);
        }
    }
}

/// Tells what is left to do and to say: a cancelled authentication is stopped and reported
/// as an interrupt without a word, a match is a success, anything else a failure; a silent
/// one says nothing.
pub fn close_authentication(end: &AuthEnd, silent: bool) -> (r: AuthClosing)
    ensures
        r.stop == (end is Cancelled),
        r.exit_code == (if end is Cancelled {
            130i32
        } else if is_match(*end) {
            0i32
        } else {
            1i32
        }),
        end is Cancelled || silent ==> r.line is None,
        !(end is Cancelled) && !silent ==> (r.line matches Some(line) && line_for(*end, line)),
        r.exit_code == 0 <==> (*end matches AuthEnd::Verified(verification) && verification.result
            == VerifyResult::VerifyMatch),
        r.stop <==> r.exit_code == 130,
        r.line is Some <==> !silent && !r.stop,
        r.line matches Some(line) ==> (line is Failed <==> r.exit_code != 0),
{
    match end {
        AuthEnd::Cancelled => AuthClosing { stop: true, line: None, exit_code: 130 },
        AuthEnd::StreamEnded => AuthClosing {
            stop: false,
            line: if silent {
                None
            } else {
                Some(AuthLine::Failed)
            },
            exit_code: 1,
        },
        AuthEnd::Verified(verification) => {
            if verification.result != VerifyResult::VerifyMatch {
                return AuthClosing {
                    stop: false,
                    line: if silent {
                        None
                    } else {
                        Some(AuthLine::Failed)
                    },
                    exit_code: 1,
                };
            }
            if silent {
                return AuthClosing { stop: false, line: None, exit_code: 0 };
            }
            let line: AuthLine = match_line(&verification.faces);
            AuthClosing { stop: false, line: Some(line), exit_code: 0 }
        },
    }
}

fn match_line(faces: &Vec<FaceScore>) -> (line: AuthLine)
    ensures
        ({
            let i = first_passed(faces@);
            if i < faces@.len() {
                line matches AuthLine::Face { face, percent } && face@ == faces@[i].name@ && percent
                    == match_percent(faces@[i])
            } else {
                line == AuthLine::User
            }
        }),
{
    let mut i: usize = 0;
    while i < faces.len()
        invariant
            i <= faces.len(),
            forall|j: int|
                0 <= j < i ==> !(#[trigger] faces@[j]).rgb_passed && !faces@[j].ir_passed,
        decreases faces.len() - i,
    {
        if faces[i].rgb_passed || faces[i].ir_passed {
            proof {
                lemma_first_passed(faces@, i as int);
            }
            let percent: Double = if faces[i].rgb_passed && faces[i].ir_passed {
                faces[i].rgb_percent.max(faces[i].ir_percent)
            } else if faces[i].rgb_passed {
                faces[i].rgb_percent
            } else {
                faces[i].ir_percent
            };
            return AuthLine::Face { face: faces[i].name.clone(), percent };
        }
        i = i + 1;
    }
    proof {
        lemma_first_passed(faces@, i as int);
    }
    AuthLine::User
}

/// A process reports success only for a match, whatever else happened.
pub proof fn only_a_match_authenticates(event: AuthEvent)
    ensures
        (auth_end(event) matches Some(end) && is_match(end)) <==> (event
            matches AuthEvent::Verified(v) && v.result == VerifyResult::VerifyMatch),
        event matches AuthEvent::Verified(v) ==> auth_end(event) is Some,
{
}

/// What the daemon answered when it was asked for the faces of a user.
#[derive(Clone, Debug)]
pub enum FacesReply {
    /// The faces: name, captures, whether there are RGB and infrared captures.
    Faces(Vec<(String, u32, bool, bool)>),
    /// The call failed.
    Failed(BusError),
}

/// Whether a user can be authenticated.
#[derive(Clone, Copy, Debug, PartialEq, Eq, Structural)]
pub enum Enrolled {
    Yes,
    No,
    /// It could not be found out.
    Unknown,
}

/// Whether a user has faces: an unknown user has none.
pub fn enrolled(reply: &FacesReply) -> (r: Enrolled)
    ensures
        r == (match *reply {
            FacesReply::Faces(faces) => if faces@.len() > 0 {
                Enrolled::Yes
            } else {
                Enrolled::No
            },
            FacesReply::Failed(err) => if says_file_not_found(err.text@) {
                Enrolled::No
            } else {
                Enrolled::Unknown
            },
        }),
{
    match reply {
        FacesReply::Faces(faces) => {
            if faces.len() > 0 {
                Enrolled::Yes
            } else {
                Enrolled::No
            }
        },
        FacesReply::Failed(err) => {
            if dbus_is_file_not_found(err) {
                Enrolled::No
            } else {
                Enrolled::Unknown
            }
        },
    }
}

/// Why an authentication does not start.
#[derive(Clone, Debug)]
pub enum AuthSetback {
    /// The user has no faces.
    NoFaces,
    /// The camera is taken.
    NotClaimed(BusError),
    /// The daemon refused.
    NotStarted(BusError),
}

/// What is said about an authentication that does not start.
pub open spec fn auth_setback_text(setback: AuthSetback, user: Seq<char>) -> (Tone, Seq<char>) {
    match setback {
        AuthSetback::NoFaces => (
            Tone::Info,
            "No faces enrolled for "@ + user
                + ". Run gaze add-face <name> to enroll a face."@,
        ),
        AuthSetback::NotClaimed(err) => (
            Tone::Error,
            "Failed to claim device: "@ + user_message(err.text@),
        ),
        AuthSetback::NotStarted(err) => (Tone::Error, "Daemon error: "@ + err.text@),
    }
}

/// What is said about an authentication that does not start: a user without faces is named
/// and told how to enroll one, and is no error; a failure ends with the error.
pub proof fn auth_setbacks_say_what_is_wrong(err: BusError, user: Seq<char>)
    ensures
        ({
            let none = auth_setback_text(AuthSetback::NoFaces, user);
            let claim = auth_setback_text(AuthSetback::NotClaimed(err), user);
            let start = auth_setback_text(AuthSetback::NotStarted(err), user);
            let message = user_message(err.text@);
            &&& none.0 == Tone::Info
            &&& stands_at(none.1, "No faces enrolled for "@, 0)
            &&& stands_at(none.1, user, 22)
            &&& stands_at(
                none.1,
                ". Run gaze add-face <name> to enroll a face."@,
                22 + user.len() as int,
            )
            &&& claim.0 == Tone::Error && start.0 == Tone::Error
            &&& stands_at(claim.1, "Failed to claim device: "@, 0)
            &&& stands_at(claim.1, message, 24)
            &&& claim.1.len() == 24 + message.len()
            &&& stands_at(start.1, "Daemon error: "@, 0)
            &&& stands_at(start.1, err.text@, 14)
            &&& start.1.len() == 14 + err.text@.len()
        }),
{
    reveal_strlit("No faces enrolled for ");
    reveal_strlit(". Run gaze add-face <name> to enroll a face.");
    reveal_strlit("Failed to claim device: ");
    reveal_strlit("Daemon error: ");
    let none = auth_setback_text(AuthSetback::NoFaces, user).1;
    let claim = auth_setback_text(AuthSetback::NotClaimed(err), user).1;
    let start = auth_setback_text(AuthSetback::NotStarted(err), user).1;
    let message = user_message(err.text@);
    let n = user.len() as int;
    assert(none.subrange(0, 22) =~= "No faces enrolled for "@);
    assert(none.subrange(22, 22 + n) =~= user);
    assert(none.subrange(22 + n, none.len() as int)
        =~= ". Run gaze add-face <name> to enroll a face."@);
    assert(claim.subrange(0, 24) =~= "Failed to claim device: "@);
    assert(claim.subrange(24, 24 + message.len() as int) =~= message);
    assert(start.subrange(0, 14) =~= "Daemon error: "@);
    assert(start.subrange(14, 14 + err.text@.len() as int) =~= err.text@);
}

/// Tells what is left to do about an authentication that does not start: whether the camera
/// has to be given back, and what to say, which is nothing for a silent one. The process
/// reports a failure in any case.
pub fn auth_setback(setback: &AuthSetback, user: &str, silent: bool) -> (r: (
    bool,
    Option<(Tone, String)>,
    i32,
))
    ensures
        r.0 == (setback is NotStarted),
        silent ==> r.1 is None,
        !silent ==> (r.1 matches Some(said) && (said.0, said.1@) == auth_setback_text(
            *setback,
            user@,
        )),
        r.2 == 1,
{
    let release: bool = matches!(setback, AuthSetback::NotStarted(_));
    if silent {
        return (release, None, 1);
    }
    match setback {
        AuthSetback::NoFaces => {
            let mut text: String = joined("No faces enrolled for ", user);
            text.append(". Run gaze add-face <name> to enroll a face.");
            (release, Some((Tone::Info, text)), 1)
        },
        AuthSetback::NotClaimed(error) => {
            let message: String = dbus_error_message(error);
            let text: String = joined("Failed to claim device: ", message.as_str());
            (release, Some((Tone::Error, text)), 1)
        },
        AuthSetback::NotStarted(error) => {
            (release, Some((Tone::Error, joined("Daemon error: ", error.text.as_str()))), 1)
        },
    }
}

} // verus!
