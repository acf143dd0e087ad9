//! What travels over the bus: status values with their messages and names, benchmark
//! results, and the reading of bus errors.

use crate::number::Double;
use crate::text::{
    contains, contains_text, lemma_first_at, split_at_first, split_once, splitting_is_at_the_first,
    stands_at, str_eq, trim, trimmed,
};
use vstd::prelude::*;
use vstd::string::*;

verus! {

/// What the camera sees of a face.
#[derive(Clone, Copy, Debug, PartialEq, Eq, Structural)]
pub enum CaptureStatus {
    Unused,
    NoFace,
    TooDark,
    Clipped,
    NotCentered,
    TooFar,
    TooClose,
    Ready,
    Usable,
}

impl CaptureStatus {
    /// What the user is shown.
    pub open spec fn message_text(self) -> Seq<char> {
        match self {
            CaptureStatus::Unused => "Camera is not in use..."@,
            CaptureStatus::NoFace => "Please look at the camera..."@,
            CaptureStatus::TooDark => "Need more light..."@,
            CaptureStatus::Clipped => "Face is clipped. Please move back..."@,
            CaptureStatus::NotCentered => "Please center your face..."@,
            CaptureStatus::TooFar => "Please come closer..."@,
            CaptureStatus::TooClose => "Please back up..."@,
            CaptureStatus::Ready => "Hold still..."@,
            CaptureStatus::Usable => "Hold still..."@,
        }
    }

    /// What the user is shown.
    pub fn as_ref(&self) -> (r: &'static str)
        ensures
            r@ == self.message_text(),
    {
        match self {
            CaptureStatus::Unused => "Camera is not in use...",
            CaptureStatus::NoFace => "Please look at the camera...",
            CaptureStatus::TooDark => "Need more light...",
            CaptureStatus::Clipped => "Face is clipped. Please move back...",
            CaptureStatus::NotCentered => "Please center your face...",
            CaptureStatus::TooFar => "Please come closer...",
            CaptureStatus::TooClose => "Please back up...",
            CaptureStatus::Ready => "Hold still...",
            CaptureStatus::Usable => "Hold still...",
        }
    }

    /// What the user is shown, as an owned text.
    pub fn to_string(&self) -> (r: String)
        ensures
            r@ == self.message_text(),
    {
        self.as_ref().to_owned()
    }

    /// The name that stands for the value on the bus.
    pub open spec fn wire_text(self) -> Seq<char> {
        match self {
            CaptureStatus::Unused => "unused"@,
            CaptureStatus::NoFace => "no-face"@,
            CaptureStatus::TooDark => "too-dark"@,
            CaptureStatus::Clipped => "clipped"@,
            CaptureStatus::NotCentered => "not-centered"@,
            CaptureStatus::TooFar => "too-far"@,
            CaptureStatus::TooClose => "too-close"@,
            CaptureStatus::Ready => "ready"@,
            CaptureStatus::Usable => "usable"@,
        }
    }

    /// The name that stands for the value on the bus.
    pub fn wire_name(&self) -> (r: &'static str)
        ensures
            r@ == self.wire_text(),
    {
        match self {
            CaptureStatus::Unused => "unused",
            CaptureStatus::NoFace => "no-face",
            CaptureStatus::TooDark => "too-dark",
            CaptureStatus::Clipped => "clipped",
            CaptureStatus::NotCentered => "not-centered",
            CaptureStatus::TooFar => "too-far",
            CaptureStatus::TooClose => "too-close",
            CaptureStatus::Ready => "ready",
            CaptureStatus::Usable => "usable",
        }
    }

    /// The value that a name on the bus stands for.
    pub fn from_wire_name(name: &str) -> (r: Option<CaptureStatus>)
        ensures
            match r {
                Some(value) => name@ == value.wire_text(),
                None => forall|value: CaptureStatus| name@ != value.wire_text(),
            },
    {
        if str_eq(name, "unused") {
            Some(CaptureStatus::Unused)
        } else if str_eq(name, "no-face") {
            Some(CaptureStatus::NoFace)
        } else if str_eq(name, "too-dark") {
            Some(CaptureStatus::TooDark)
        } else if str_eq(name, "clipped") {
            Some(CaptureStatus::Clipped)
        } else if str_eq(name, "not-centered") {
            Some(CaptureStatus::NotCentered)
        } else if str_eq(name, "too-far") {
            Some(CaptureStatus::TooFar)
        } else if str_eq(name, "too-close") {
            Some(CaptureStatus::TooClose)
        } else if str_eq(name, "ready") {
            Some(CaptureStatus::Ready)
        } else if str_eq(name, "usable") {
            Some(CaptureStatus::Usable)
        } else {
            None
        }
    }
}

/// No two values of `CaptureStatus` share a name on the bus, so that a name that was sent reads
/// back as the value it was sent for.
pub proof fn capture_status_names_are_distinct(a: CaptureStatus, b: CaptureStatus)
    requires
        a.wire_text() == b.wire_text(),
    ensures
        a == b,
{
    reveal_strlit("unused");
    reveal_strlit("no-face");
    reveal_strlit("too-dark");
    reveal_strlit("clipped");
    reveal_strlit("not-centered");
    reveal_strlit("too-far");
    reveal_strlit("too-close");
    reveal_strlit("ready");
    reveal_strlit("usable");
    assert("unused"@[1] != "usable"@[1]);
    assert("no-face"@[0] != "clipped"@[0]);
    assert("no-face"@[0] != "too-far"@[0]);
    assert("clipped"@[0] != "too-far"@[0]);
    assert("unused"@.len() == 6);
    assert("no-face"@.len() == 7);
    assert("too-dark"@.len() == 8);
    assert("clipped"@.len() == 7);
    assert("not-centered"@.len() == 12);
    assert("too-far"@.len() == 7);
    assert("too-close"@.len() == 9);
    assert("ready"@.len() == 5);
    assert("usable"@.len() == 6);
}

/// Statuses that ask something different of the user are shown differently: only the two
/// that ask to hold still share their message.
pub proof fn status_messages_are_distinct(a: CaptureStatus, b: CaptureStatus)
    requires
        a.message_text() == b.message_text(),
    ensures
        a == b || (a == CaptureStatus::Ready || a == CaptureStatus::Usable) && (b
            == CaptureStatus::Ready || b == CaptureStatus::Usable),
{
    reveal_strlit("Camera is not in use...");
    reveal_strlit("Please look at the camera...");
    reveal_strlit("Need more light...");
    reveal_strlit("Face is clipped. Please move back...");
    reveal_strlit("Please center your face...");
    reveal_strlit("Please come closer...");
    reveal_strlit("Please back up...");
    reveal_strlit("Hold still...");
    assert("Camera is not in use..."@.len() == 23);
    assert("Please look at the camera..."@.len() == 28);
    assert("Need more light..."@.len() == 18);
    assert("Face is clipped. Please move back..."@.len() == 36);
    assert("Please center your face..."@.len() == 26);
    assert("Please come closer..."@.len() == 21);
    assert("Please back up..."@.len() == 17);
    assert("Hold still..."@.len() == 13);
}

/// A status message tells the user what to do about the status: to move back where the
/// face is too close or cut off, to come closer where it is too far, to center it where it
/// is off center, to see to more light where it is too dark, to look at the camera where no
/// face is seen, and to hold still where the face can be used.
pub proof fn status_messages_help(status: CaptureStatus)
    ensures
        status == CaptureStatus::NoFace ==> contains_text(status.message_text(), "look"@),
        status == CaptureStatus::TooDark ==> contains_text(status.message_text(), "light"@),
        status == CaptureStatus::Clipped ==> contains_text(status.message_text(), "clipped"@)
            && contains_text(status.message_text(), "back"@),
        status == CaptureStatus::NotCentered ==> contains_text(status.message_text(), "center"@),
        status == CaptureStatus::TooFar ==> contains_text(status.message_text(), "closer"@),
        status == CaptureStatus::TooClose ==> contains_text(status.message_text(), "back"@),
        status == CaptureStatus::Ready || status == CaptureStatus::Usable ==> contains_text(
            status.message_text(),
            "still"@,
        ),
        status == CaptureStatus::Unused ==> contains_text(status.message_text(), "not in use"@),
{
    reveal_strlit("Camera is not in use...");
    reveal_strlit("Please look at the camera...");
    reveal_strlit("Need more light...");
    reveal_strlit("Face is clipped. Please move back...");
    reveal_strlit("Please center your face...");
    reveal_strlit("Please come closer...");
    reveal_strlit("Please back up...");
    reveal_strlit("Hold still...");
    reveal_strlit("look");
    reveal_strlit("light");
    reveal_strlit("clipped");
    reveal_strlit("back");
    reveal_strlit("center");
    reveal_strlit("closer");
    reveal_strlit("still");
    reveal_strlit("not in use");
    let shown = status.message_text();
    match status {
        CaptureStatus::Unused => {
            assert(shown.subrange(10, 20) =~= "not in use"@);
            assert(stands_at(shown, "not in use"@, 10));
        },
        CaptureStatus::NoFace => {
            assert(shown.subrange(7, 11) =~= "look"@);
            assert(stands_at(shown, "look"@, 7));
        },
        CaptureStatus::TooDark => {
            assert(shown.subrange(10, 15) =~= "light"@);
            assert(stands_at(shown, "light"@, 10));
        },
        CaptureStatus::Clipped => {
            assert(shown.subrange(8, 15) =~= "clipped"@);
            assert(stands_at(shown, "clipped"@, 8));
            assert(shown.subrange(29, 33) =~= "back"@);
            assert(stands_at(shown, "back"@, 29));
        },
        CaptureStatus::NotCentered => {
            assert(shown.subrange(7, 13) =~= "center"@);
            assert(stands_at(shown, "center"@, 7));
        },
        CaptureStatus::TooFar => {
            assert(shown.subrange(12, 18) =~= "closer"@);
            assert(stands_at(shown, "closer"@, 12));
        },
        CaptureStatus::TooClose => {
            assert(shown.subrange(7, 11) =~= "back"@);
            assert(stands_at(shown, "back"@, 7));
        },
        CaptureStatus::Ready => {
            assert(shown.subrange(5, 10) =~= "still"@);
            assert(stands_at(shown, "still"@, 5));
        },
        CaptureStatus::Usable => {
            assert(shown.subrange(5, 10) =~= "still"@);
            assert(stands_at(shown, "still"@, 5));
        },
    }
}

/// The name of a status on the bus says what the status is.
pub proof fn status_names_say_what_they_are(status: CaptureStatus)
    ensures
        status == CaptureStatus::Unused ==> contains_text(status.wire_text(), "unused"@),
        status == CaptureStatus::NoFace ==> contains_text(status.wire_text(), "face"@),
        status == CaptureStatus::TooDark ==> contains_text(status.wire_text(), "dark"@),
        status == CaptureStatus::Clipped ==> contains_text(status.wire_text(), "clipped"@),
        status == CaptureStatus::NotCentered ==> contains_text(status.wire_text(), "centered"@),
        status == CaptureStatus::TooFar ==> contains_text(status.wire_text(), "far"@),
        status == CaptureStatus::TooClose ==> contains_text(status.wire_text(), "close"@),
        status == CaptureStatus::Ready ==> contains_text(status.wire_text(), "ready"@),
        status == CaptureStatus::Usable ==> contains_text(status.wire_text(), "usable"@),
{
    reveal_strlit("unused");
    reveal_strlit("no-face");
    reveal_strlit("too-dark");
    reveal_strlit("clipped");
    reveal_strlit("not-centered");
    reveal_strlit("too-far");
    reveal_strlit("too-close");
    reveal_strlit("ready");
    reveal_strlit("usable");
    reveal_strlit("face");
    reveal_strlit("dark");
    reveal_strlit("centered");
    reveal_strlit("far");
    reveal_strlit("close");
    let sent = status.wire_text();
    match status {
        CaptureStatus::Unused => {
            assert(sent.subrange(0, 6) =~= "unused"@);
            assert(stands_at(sent, "unused"@, 0));
        },
        CaptureStatus::NoFace => {
            assert(sent.subrange(3, 7) =~= "face"@);
            assert(stands_at(sent, "face"@, 3));
        },
        CaptureStatus::TooDark => {
            assert(sent.subrange(4, 8) =~= "dark"@);
            assert(stands_at(sent, "dark"@, 4));
        },
        CaptureStatus::Clipped => {
            assert(sent.subrange(0, 7) =~= "clipped"@);
            assert(stands_at(sent, "clipped"@, 0));
        },
        CaptureStatus::NotCentered => {
            assert(sent.subrange(4, 12) =~= "centered"@);
            assert(stands_at(sent, "centered"@, 4));
        },
        CaptureStatus::TooFar => {
            assert(sent.subrange(4, 7) =~= "far"@);
            assert(stands_at(sent, "far"@, 4));
        },
        CaptureStatus::TooClose => {
            assert(sent.subrange(4, 9) =~= "close"@);
            assert(stands_at(sent, "close"@, 4));
        },
        CaptureStatus::Ready => {
            assert(sent.subrange(0, 5) =~= "ready"@);
            assert(stands_at(sent, "ready"@, 0));
        },
        CaptureStatus::Usable => {
            assert(sent.subrange(0, 6) =~= "usable"@);
            assert(stands_at(sent, "usable"@, 0));
        },
    }
}

/// What enrollment asks for or reports.
#[derive(Clone, Copy, Debug, PartialEq, Eq, Structural)]
pub enum EnrollPrompt {
    LookStraight,
    LookUp,
    LookDown,
    LookLeft,
    LookRight,
    DbFailed,
    CameraFailed,
    Cancelled,
    Captured,
    Completed,
}

impl EnrollPrompt {
    /// What the user is shown.
    pub open spec fn message_text(self) -> Seq<char> {
        match self {
            EnrollPrompt::LookStraight => "Face the camera"@,
            EnrollPrompt::LookUp => "Tilt your face slightly up"@,
            EnrollPrompt::LookDown => "Tilt your face slightly down"@,
            EnrollPrompt::LookLeft => "Turn your face slightly left"@,
            EnrollPrompt::LookRight => "Turn your face slightly right"@,
            EnrollPrompt::DbFailed => "Database error during enrollment"@,
            EnrollPrompt::CameraFailed => "Camera error during enrollment"@,
            EnrollPrompt::Cancelled => "Enrollment cancelled"@,
            EnrollPrompt::Captured => "Captured"@,
            EnrollPrompt::Completed => "Completed"@,
        }
    }

    /// What the user is shown.
    pub fn as_ref(&self) -> (r: &'static str)
        ensures
            r@ == self.message_text(),
    {
        match self {
            EnrollPrompt::LookStraight => "Face the camera",
            EnrollPrompt::LookUp => "Tilt your face slightly up",
            EnrollPrompt::LookDown => "Tilt your face slightly down",
            EnrollPrompt::LookLeft => "Turn your face slightly left",
            EnrollPrompt::LookRight => "Turn your face slightly right",
            EnrollPrompt::DbFailed => "Database error during enrollment",
            EnrollPrompt::CameraFailed => "Camera error during enrollment",
            EnrollPrompt::Cancelled => "Enrollment cancelled",
            EnrollPrompt::Captured => "Captured",
            EnrollPrompt::Completed => "Completed",
        }
    }

    /// What the user is shown, as an owned text.
    pub fn to_string(&self) -> (r: String)
        ensures
            r@ == self.message_text(),
    {
        self.as_ref().to_owned()
    }

    /// The name that stands for the value on the bus.
    pub open spec fn wire_text(self) -> Seq<char> {
        match self {
            EnrollPrompt::LookStraight => "look-straight"@,
            EnrollPrompt::LookUp => "look-up"@,
            EnrollPrompt::LookDown => "look-down"@,
            EnrollPrompt::LookLeft => "look-left"@,
            EnrollPrompt::LookRight => "look-right"@,
            EnrollPrompt::DbFailed => "db-failed"@,
            EnrollPrompt::CameraFailed => "camera-failed"@,
            EnrollPrompt::Cancelled => "cancelled"@,
            EnrollPrompt::Captured => "captured"@,
            EnrollPrompt::Completed => "completed"@,
        }
    }

    /// The name that stands for the value on the bus.
    pub fn wire_name(&self) -> (r: &'static str)
        ensures
            r@ == self.wire_text(),
    {
        match self {
            EnrollPrompt::LookStraight => "look-straight",
            EnrollPrompt::LookUp => "look-up",
            EnrollPrompt::LookDown => "look-down",
            EnrollPrompt::LookLeft => "look-left",
            EnrollPrompt::LookRight => "look-right",
            EnrollPrompt::DbFailed => "db-failed",
            EnrollPrompt::CameraFailed => "camera-failed",
            EnrollPrompt::Cancelled => "cancelled",
            EnrollPrompt::Captured => "captured",
            EnrollPrompt::Completed => "completed",
        }
    }

    /// The value that a name on the bus stands for.
    pub fn from_wire_name(name: &str) -> (r: Option<EnrollPrompt>)
        ensures
            match r {
                Some(value) => name@ == value.wire_text(),
                None => forall|value: EnrollPrompt| name@ != value.wire_text(),
            },
    {
        if str_eq(name, "look-straight") {
            Some(EnrollPrompt::LookStraight)
        } else if str_eq(name, "look-up") {
            Some(EnrollPrompt::LookUp)
        } else if str_eq(name, "look-down") {
            Some(EnrollPrompt::LookDown)
        } else if str_eq(name, "look-left") {
            Some(EnrollPrompt::LookLeft)
        } else if str_eq(name, "look-right") {
            Some(EnrollPrompt::LookRight)
        } else if str_eq(name, "db-failed") {
            Some(EnrollPrompt::DbFailed)
        } else if str_eq(name, "camera-failed") {
            Some(EnrollPrompt::CameraFailed)
        } else if str_eq(name, "cancelled") {
            Some(EnrollPrompt::Cancelled)
        } else if str_eq(name, "captured") {
            Some(EnrollPrompt::Captured)
        } else if str_eq(name, "completed") {
            Some(EnrollPrompt::Completed)
        } else {
            None
        }
    }
}

/// No two values of `EnrollPrompt` share a name on the bus, so that a name that was sent reads
/// back as the value it was sent for.
pub proof fn enroll_prompt_names_are_distinct(a: EnrollPrompt, b: EnrollPrompt)
    requires
        a.wire_text() == b.wire_text(),
    ensures
        a == b,
{
    reveal_strlit("look-straight");
    reveal_strlit("look-up");
    reveal_strlit("look-down");
    reveal_strlit("look-left");
    reveal_strlit("look-right");
    reveal_strlit("db-failed");
    reveal_strlit("camera-failed");
    reveal_strlit("cancelled");
    reveal_strlit("captured");
    reveal_strlit("completed");
    assert("look-straight"@[0] != "camera-failed"@[0]);
    assert("look-down"@[5] != "look-left"@[5]);
    assert("look-down"@[0] != "db-failed"@[0]);
    assert("look-down"@[0] != "cancelled"@[0]);
    assert("look-down"@[0] != "completed"@[0]);
    assert("look-left"@[0] != "db-failed"@[0]);
    assert("look-left"@[0] != "cancelled"@[0]);
    assert("look-left"@[0] != "completed"@[0]);
    assert("db-failed"@[0] != "cancelled"@[0]);
    assert("db-failed"@[0] != "completed"@[0]);
    assert("cancelled"@[1] != "completed"@[1]);
    assert("look-straight"@.len() == 13);
    assert("look-up"@.len() == 7);
    assert("look-down"@.len() == 9);
    assert("look-left"@.len() == 9);
    assert("look-right"@.len() == 10);
    assert("db-failed"@.len() == 9);
    assert("camera-failed"@.len() == 13);
    assert("cancelled"@.len() == 9);
    assert("captured"@.len() == 8);
    assert("completed"@.len() == 9);
}

/// The way in which a prompt asks to turn or tilt the face.
pub open spec fn asked_direction(prompt: EnrollPrompt) -> Option<Seq<char>> {
    match prompt {
        EnrollPrompt::LookUp => Some("up"@),
        EnrollPrompt::LookDown => Some("down"@),
        EnrollPrompt::LookLeft => Some("left"@),
        EnrollPrompt::LookRight => Some("right"@),
        _ => None,
    }
}

/// A prompt for a direction names that direction, to the user and on the bus; the others
/// say what happened.
pub proof fn prompts_name_their_direction(prompt: EnrollPrompt)
    ensures
        asked_direction(prompt) matches Some(direction) ==> contains_text(
            prompt.message_text(),
            direction,
        ) && contains_text(prompt.wire_text(), direction),
        prompt == EnrollPrompt::LookStraight ==> contains_text(prompt.message_text(), "camera"@)
            && contains_text(prompt.wire_text(), "straight"@),
        prompt == EnrollPrompt::DbFailed ==> contains_text(prompt.message_text(), "Database error"@),
        prompt == EnrollPrompt::CameraFailed ==> contains_text(
            prompt.message_text(),
            "Camera error"@,
        ),
        prompt == EnrollPrompt::Cancelled ==> contains_text(prompt.message_text(), "cancelled"@),
        prompt == EnrollPrompt::Captured ==> prompt.message_text() == "Captured"@,
        prompt == EnrollPrompt::Completed ==> prompt.message_text() == "Completed"@,
{
    reveal_strlit("Face the camera");
    reveal_strlit("Tilt your face slightly up");
    reveal_strlit("Tilt your face slightly down");
    reveal_strlit("Turn your face slightly left");
    reveal_strlit("Turn your face slightly right");
    reveal_strlit("Database error during enrollment");
    reveal_strlit("Camera error during enrollment");
    reveal_strlit("Enrollment cancelled");
    reveal_strlit("look-straight");
    reveal_strlit("look-up");
    reveal_strlit("look-down");
    reveal_strlit("look-left");
    reveal_strlit("look-right");
    reveal_strlit("up");
    reveal_strlit("down");
    reveal_strlit("left");
    reveal_strlit("right");
    reveal_strlit("camera");
    reveal_strlit("straight");
    reveal_strlit("Database error");
    reveal_strlit("Camera error");
    reveal_strlit("cancelled");
    let shown = prompt.message_text();
    let sent = prompt.wire_text();
    match prompt {
        EnrollPrompt::LookUp => {
            assert(shown.subrange(24, 26) =~= "up"@);
            assert(stands_at(shown, "up"@, 24));
            assert(sent.subrange(5, 7) =~= "up"@);
            assert(stands_at(sent, "up"@, 5));
        },
        EnrollPrompt::LookDown => {
            assert(shown.subrange(24, 28) =~= "down"@);
            assert(stands_at(shown, "down"@, 24));
            assert(sent.subrange(5, 9) =~= "down"@);
            assert(stands_at(sent, "down"@, 5));
        },
        EnrollPrompt::LookLeft => {
            assert(shown.subrange(24, 28) =~= "left"@);
            assert(stands_at(shown, "left"@, 24));
            assert(sent.subrange(5, 9) =~= "left"@);
            assert(stands_at(sent, "left"@, 5));
        },
        EnrollPrompt::LookRight => {
            assert(shown.subrange(24, 29) =~= "right"@);
            assert(stands_at(shown, "right"@, 24));
            assert(sent.subrange(5, 10) =~= "right"@);
            assert(stands_at(sent, "right"@, 5));
        },
        EnrollPrompt::LookStraight => {
            assert(shown.subrange(9, 15) =~= "camera"@);
            assert(stands_at(shown, "camera"@, 9));
            assert(sent.subrange(5, 13) =~= "straight"@);
            assert(stands_at(sent, "straight"@, 5));
        },
        EnrollPrompt::DbFailed => {
            assert(shown.subrange(0, 14) =~= "Database error"@);
            assert(stands_at(shown, "Database error"@, 0));
        },
        EnrollPrompt::CameraFailed => {
            assert(shown.subrange(0, 12) =~= "Camera error"@);
            assert(stands_at(shown, "Camera error"@, 0));
        },
        EnrollPrompt::Cancelled => {
            assert(shown.subrange(11, 20) =~= "cancelled"@);
            assert(stands_at(shown, "cancelled"@, 11));
        },
        _ => {},
    }
}

/// The name of a report on the bus says what happened.
pub proof fn prompt_names_say_what_happened(prompt: EnrollPrompt)
    ensures
        prompt == EnrollPrompt::DbFailed ==> contains_text(prompt.wire_text(), "db"@),
        prompt == EnrollPrompt::CameraFailed ==> contains_text(prompt.wire_text(), "camera"@),
        prompt == EnrollPrompt::Cancelled ==> contains_text(prompt.wire_text(), "cancelled"@),
        prompt == EnrollPrompt::Captured ==> contains_text(prompt.wire_text(), "captured"@),
        prompt == EnrollPrompt::Completed ==> contains_text(prompt.wire_text(), "completed"@),
{
    reveal_strlit("db-failed");
    reveal_strlit("camera-failed");
    reveal_strlit("cancelled");
    reveal_strlit("captured");
    reveal_strlit("completed");
    reveal_strlit("db");
    reveal_strlit("camera");
    let sent = prompt.wire_text();
    match prompt {
        EnrollPrompt::DbFailed => {
            assert(sent.subrange(0, 2) =~= "db"@);
            assert(stands_at(sent, "db"@, 0));
        },
        EnrollPrompt::CameraFailed => {
            assert(sent.subrange(0, 6) =~= "camera"@);
            assert(stands_at(sent, "camera"@, 0));
        },
        EnrollPrompt::Cancelled => {
            assert(sent.subrange(0, 9) =~= "cancelled"@);
            assert(stands_at(sent, "cancelled"@, 0));
        },
        EnrollPrompt::Captured => {
            assert(sent.subrange(0, 8) =~= "captured"@);
            assert(stands_at(sent, "captured"@, 0));
        },
        EnrollPrompt::Completed => {
            assert(sent.subrange(0, 9) =~= "completed"@);
            assert(stands_at(sent, "completed"@, 0));
        },
        _ => {},
    }
}

/// The outcome of one verification.
#[derive(Clone, Copy, Debug, PartialEq, Eq, Structural)]
pub enum VerifyResult {
    VerifyMatch,
    VerifyNoMatch,
}

impl VerifyResult {
    /// What the user is shown.
    pub open spec fn message_text(self) -> Seq<char> {
        match self {
            VerifyResult::VerifyMatch => "VerifyMatch"@,
            VerifyResult::VerifyNoMatch => "VerifyNoMatch"@,
        }
    }

    /// What the user is shown.
    pub fn as_ref(&self) -> (r: &'static str)
        ensures
            r@ == self.message_text(),
    {
        match self {
            VerifyResult::VerifyMatch => "VerifyMatch",
            VerifyResult::VerifyNoMatch => "VerifyNoMatch",
        }
    }

    /// What the user is shown, as an owned text.
    pub fn to_string(&self) -> (r: String)
        ensures
            r@ == self.message_text(),
    {
        self.as_ref().to_owned()
    }

    /// The name that stands for the value on the bus.
    pub open spec fn wire_text(self) -> Seq<char> {
        match self {
            VerifyResult::VerifyMatch => "verify-match"@,
            VerifyResult::VerifyNoMatch => "verify-no-match"@,
        }
    }

    /// The name that stands for the value on the bus.
    pub fn wire_name(&self) -> (r: &'static str)
        ensures
            r@ == self.wire_text(),
    {
        match self {
            VerifyResult::VerifyMatch => "verify-match",
            VerifyResult::VerifyNoMatch => "verify-no-match",
        }
    }

    /// The value that a name on the bus stands for.
    pub fn from_wire_name(name: &str) -> (r: Option<VerifyResult>)
        ensures
            match r {
                Some(value) => name@ == value.wire_text(),
                None => forall|value: VerifyResult| name@ != value.wire_text(),
            },
    {
        if str_eq(name, "verify-match") {
            Some(VerifyResult::VerifyMatch)
        } else if str_eq(name, "verify-no-match") {
            Some(VerifyResult::VerifyNoMatch)
        } else {
            None
        }
    }
}

/// No two values of `VerifyResult` share a name on the bus, so that a name that was sent reads
/// back as the value it was sent for.
pub proof fn verify_result_names_are_distinct(a: VerifyResult, b: VerifyResult)
    requires
        a.wire_text() == b.wire_text(),
    ensures
        a == b,
{
    reveal_strlit("verify-match");
    reveal_strlit("verify-no-match");
    assert("verify-match"@.len() == 12);
    assert("verify-no-match"@.len() == 15);
}

/// Only the name of a mismatch has a "no" in it, on the bus and for the user.
pub proof fn mismatches_say_no(result: VerifyResult)
    ensures
        result == VerifyResult::VerifyNoMatch <==> contains_text(result.wire_text(), "no"@),
        result == VerifyResult::VerifyNoMatch <==> contains_text(result.message_text(), "No"@),
{
    reveal_strlit("verify-match");
    reveal_strlit("verify-no-match");
    reveal_strlit("VerifyMatch");
    reveal_strlit("VerifyNoMatch");
    reveal_strlit("no");
    reveal_strlit("No");
    let sent = "verify-no-match"@;
    assert(sent.subrange(7, 9) =~= "no"@);
    assert(stands_at(sent, "no"@, 7));
    let shown = "VerifyNoMatch"@;
    assert(shown.subrange(6, 8) =~= "No"@);
    assert(stands_at(shown, "No"@, 6));
    assert forall|i: int| !stands_at("verify-match"@, "no"@, i) by {
        if stands_at("verify-match"@, "no"@, i) {
            assert("verify-match"@.subrange(i, i + 2)[0] == "verify-match"@[i]);
        }
    }
    assert forall|i: int| !stands_at("VerifyMatch"@, "No"@, i) by {
        if stands_at("VerifyMatch"@, "No"@, i) {
            assert("VerifyMatch"@.subrange(i, i + 2)[0] == "VerifyMatch"@[i]);
        }
    }
}

impl CaptureStatus {
    /// How much a status says about the face: of two cameras' statuses the one with the
    /// higher priority is shown.
    pub open spec fn rank(self) -> u8 {
        match self {
            CaptureStatus::Usable => 5,
            CaptureStatus::Ready => 4,
            CaptureStatus::NotCentered
            | CaptureStatus::TooFar
            | CaptureStatus::TooClose
            | CaptureStatus::Clipped => 3,
            CaptureStatus::TooDark => 2,
            CaptureStatus::NoFace => 1,
            CaptureStatus::Unused => 0,
        }
    }

    /// How much a status says about the face.
    pub fn priority(self) -> (r: u8)
        ensures
            r == self.rank(),
    {
        match self {
            CaptureStatus::Usable => 5,
            CaptureStatus::Ready => 4,
            CaptureStatus::NotCentered
            | CaptureStatus::TooFar
            | CaptureStatus::TooClose
            | CaptureStatus::Clipped => 3,
            CaptureStatus::TooDark => 2,
            CaptureStatus::NoFace => 1,
            CaptureStatus::Unused => 0,
        }
    }
}

/// A face that can be used says more than one that is nearly there, that says more than a
/// face in the wrong place, that more than darkness, and that more than no face at all; a
/// camera that is not in use says the least. All the wrong places say as much.
pub proof fn statuses_are_ranked(a: CaptureStatus, b: CaptureStatus)
    ensures
        b != CaptureStatus::Usable ==> b.rank() < CaptureStatus::Usable.rank(),
        b != CaptureStatus::Usable && b != CaptureStatus::Ready ==> b.rank()
            < CaptureStatus::Ready.rank(),
        b != CaptureStatus::Unused ==> CaptureStatus::Unused.rank() < b.rank(),
        b != CaptureStatus::Unused && b != CaptureStatus::NoFace ==> CaptureStatus::NoFace.rank()
            < b.rank(),
        a == CaptureStatus::NotCentered || a == CaptureStatus::TooFar || a
            == CaptureStatus::TooClose || a == CaptureStatus::Clipped ==> {
            &&& CaptureStatus::TooDark.rank() < a.rank() < CaptureStatus::Ready.rank()
            &&& a.rank() == b.rank() <==> b == CaptureStatus::NotCentered || b
                == CaptureStatus::TooFar || b == CaptureStatus::TooClose || b
                == CaptureStatus::Clipped
        },
{
}

/// How one component performed, and where it ran against where it was meant to.
#[derive(Clone, Debug)]
pub struct BenchmarkResult {
    pub component: String,
    pub execution_provider: String,
    pub device: String,
    pub requested_execution_provider: String,
    pub requested_device: String,
    pub fallback_reason: String,
    pub mean_ms: Double,
    pub p95_ms: Double,
    pub min_ms: Double,
    pub fps: Double,
}

impl BenchmarkResult {
    /// Whether the component ran where it was configured to: without a fallback, on the
    /// provider and the device that were asked for.
    pub fn ran_as_configured(&self) -> (r: bool)
        ensures
            r == (self.fallback_reason@.len() == 0 && self.execution_provider@
                == self.requested_execution_provider@ && self.device@ == self.requested_device@),
        r ==> self.device@ == self.requested_device@,
        r ==> self.execution_provider@ == self.requested_execution_provider@,
        self.fallback_reason@.len() > 0 ==> !r,
    {
        self.fallback_reason.as_str().is_empty() && str_eq(
            self.execution_provider.as_str(),
            self.requested_execution_provider.as_str(),
        ) && str_eq(self.device.as_str(), self.requested_device.as_str())
    }
}

/// Why a call on the bus failed, in the words that the error is shown with.
#[derive(Clone, Debug)]
pub struct BusError {
    pub text: String,
}

/// The part of an error's text that is meant for the user: what follows the first colon,
/// trimmed, or all of it where there is no colon.
pub open spec fn user_message(text: Seq<char>) -> Seq<char> {
    match split_at_first(text, ':') {
        Some(parts) => trimmed(parts.1),
        None => text,
    }
}

/// An error of the form "name: message" is told by its message without the space around it,
/// also where that holds colons; a text without a colon is told as it is.
pub proof fn users_are_told_the_message(name: Seq<char>, message: Seq<char>)
    requires
        !name.contains(':'),
    ensures
        user_message(name + seq![':'] + message) == trimmed(message),
        user_message(name) == name,
{
    splitting_is_at_the_first(name, ':');
    let text = name + seq![':'] + message;
    assert(text[name.len() as int] == ':');
    assert forall|j: int| 0 <= j < name.len() implies text[j] != ':' by {
        assert(name.contains(name[j]));
    }
    lemma_first_at(text, ':', name.len() as int);
    assert(text.subrange(name.len() as int + 1, text.len() as int) =~= message);
}

/// The error says that a file was not found.
pub open spec fn says_file_not_found(text: Seq<char>) -> bool {
    contains_text(text, "FileNotFound"@)
}

/// The error says that the daemon cannot be started.
pub open spec fn says_not_activatable(text: Seq<char>) -> bool {
    contains_text(text, "not activatable"@) || contains_text(text, "ServiceUnknown"@)
}

/// What an error says counts wherever in its text it stands, and nothing that is too short to
/// hold the words says it.
pub proof fn errors_say_it_anywhere(before: Seq<char>, after: Seq<char>, text: Seq<char>)
    ensures
        says_file_not_found(before + "FileNotFound"@ + after),
        says_not_activatable(before + "not activatable"@ + after),
        says_not_activatable(before + "ServiceUnknown"@ + after),
        text.len() < 12 ==> !says_file_not_found(text),
        text.len() < 14 ==> !says_not_activatable(text),
        !text.contains('F') ==> !says_file_not_found(text),
        !text.contains('n') ==> !says_not_activatable(text),
{
    reveal_strlit("FileNotFound");
    reveal_strlit("not activatable");
    reveal_strlit("ServiceUnknown");
    let n = before.len() as int;
    let missing = before + "FileNotFound"@ + after;
    assert(missing.subrange(n, n + 12) =~= "FileNotFound"@);
    assert(stands_at(missing, "FileNotFound"@, n));
    let stopped = before + "not activatable"@ + after;
    assert(stopped.subrange(n, n + 15) =~= "not activatable"@);
    assert(stands_at(stopped, "not activatable"@, n));
    let unknown = before + "ServiceUnknown"@ + after;
    assert(unknown.subrange(n, n + 14) =~= "ServiceUnknown"@);
    assert(stands_at(unknown, "ServiceUnknown"@, n));
    assert forall|i: int| stands_at(text, "FileNotFound"@, i) implies text.contains('F') by {
        assert(text.subrange(i, i + 12)[0] == text[i]);
    }
    assert forall|i: int| stands_at(text, "not activatable"@, i) implies text.contains('n') by {
        assert(text.subrange(i, i + 15)[0] == text[i]);
    }
    assert forall|i: int| stands_at(text, "ServiceUnknown"@, i) implies text.contains('n') by {
        assert(text.subrange(i, i + 14)[8] == text[i + 8]);
    }
}

/// The part of a bus error that is meant for the user.
pub fn dbus_error_message(err: &BusError) -> (r: String)
    ensures
        r@ == user_message(err.text@),
{
    match split_once(err.text.as_str(), ':') {
        Some(parts) => trim(parts.1).to_owned(),
        None => err.text.as_str().to_owned(),
    }
}

/// Whether a bus error says that a file was not found.
pub fn dbus_is_file_not_found(err: &BusError) -> (r: bool)
    ensures
        r == says_file_not_found(err.text@),
{
    contains(err.text.as_str(), "FileNotFound")
}

/// Whether a bus error says that the daemon cannot be started.
pub fn dbus_is_not_activatable(err: &BusError) -> (r: bool)
    ensures
        r == says_not_activatable(err.text@),
{
    contains(err.text.as_str(), "not activatable") || contains(err.text.as_str(), "ServiceUnknown")
}

} // verus!
