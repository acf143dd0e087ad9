//! What is said about the faces of a user: lists and the outcome of changes.

use crate::dbus::{
    dbus_error_message, dbus_is_file_not_found, says_file_not_found, user_message, BusError,
};
use crate::sessions::{FacesReply, Tone};
use crate::text::{joined, stands_at, starts, starts_with};
use vstd::prelude::*;
use vstd::string::*;

verus! {

/// The ending of a noun after a count.
pub open spec fn plural(count: int) -> Seq<char> {
    if count == 1 {
        ""@
    } else {
        "s"@
    }
}

/// A noun has its ending exactly if it is not said of one thing.
pub proof fn one_thing_has_no_ending(count: int, other: int)
    ensures
        plural(count).len() == 0 <==> count == 1,
        count != 1 ==> plural(count) == "s"@,
{
    reveal_strlit("");
    reveal_strlit("s");
}

/// A face in a list.
#[derive(Clone, Debug)]
pub struct FaceLine {
    pub face: String,
    pub captures: u32,
    pub captures_ending: &'static str,
    pub has_rgb: bool,
    pub has_ir: bool,
}

/// A list of faces.
#[derive(Clone, Debug)]
pub enum FacesReport {
    /// There are none.
    NoneFound,
    /// These are there.
    Listing { count: usize, ending: &'static str, faces: Vec<FaceLine> },
    /// They could not be fetched.
    Failed(String),
}

/// A line says what the daemon said of a face.
pub open spec fn line_of(line: FaceLine, face: (String, u32, bool, bool)) -> bool {
    &&& line.face@ == face.0@
    &&& line.captures == face.1
    &&& line.captures_ending@ == plural(face.1 as int)
    &&& line.has_rgb == face.2
    &&& line.has_ir == face.3
}

/// A line is that of one face alone: its name, the number of its captures, and for each
/// camera whether it has captures from it.
pub proof fn lines_tell_faces_apart(
    line: FaceLine,
    face: (String, u32, bool, bool),
    other: (String, u32, bool, bool),
)
    requires
        line_of(line, face),
    ensures
        line.face@ == face.0@,
        line.captures == face.1,
        line.captures_ending@.len() == 0 <==> face.1 == 1,
        line.has_rgb == face.2,
        line.has_ir == face.3,
        line_of(line, other) <==> other.0@ == face.0@ && other.1 == face.1 && other.2 == face.2
            && other.3 == face.3,
{
    one_thing_has_no_ending(face.1 as int, 0);
}

fn ending(count: usize) -> (r: &'static str)
    ensures
        r@ == plural(count as int),
{
    if count == 1 {
        ""
    } else {
        "s"
    }
}

/// The list of a user's faces: all of them in their order; none is no error, nor is an
/// unknown user.
pub fn faces_report(reply: &FacesReply) -> (r: FacesReport)
    ensures
        match *reply {
            FacesReply::Faces(faces) => if faces@.len() == 0 {
                r is NoneFound
            } else {
                r matches FacesReport::Listing { count, ending, faces: lines } && count
                    == faces@.len() && ending@ == plural(count as int) && lines@.len()
                    == faces@.len() && forall|i: int|
                    0 <= i < faces@.len() ==> line_of(#[trigger] lines@[i], faces@[i])
            },
            FacesReply::Failed(err) => if says_file_not_found(err.text@) {
                r is NoneFound
            } else {
                r matches FacesReport::Failed(message) && message@ == user_message(err.text@)
            },
        },
        r is Failed ==> reply is Failed,
        r matches FacesReport::Listing { count, ending, faces: lines } ==> (reply
            matches FacesReply::Faces(faces) && count == lines@.len() && (ending@.len() == 0
            <==> lines@.len() == 1) && forall|i: int|
            0 <= i < lines@.len() ==> (#[trigger] lines@[i]).face@ == faces@[i].0@
                && lines@[i].captures == faces@[i].1 && lines@[i].has_rgb == faces@[i].2
                && lines@[i].has_ir == faces@[i].3),
{
    proof {
        reveal_strlit("");
        reveal_strlit("s");
    }
    match reply {
        FacesReply::Faces(faces) => {
            if faces.len() == 0 {
                return FacesReport::NoneFound;
            }
            let mut lines: Vec<FaceLine> = Vec::new();
            let mut i: usize = 0;
            while i < faces.len()
                invariant
                    i <= faces.len(),
                    lines@.len() == i,
                    forall|j: int| 0 <= j < i ==> line_of(#[trigger] lines@[j], faces@[j]),
                decreases faces.len() - i,
            {
                let line: FaceLine = FaceLine {
                    face: faces[i].0.clone(),
                    captures: faces[i].1,
                    captures_ending: if faces[i].1 == 1 {
                        ""
                    } else {
                        "s"
                    },
                    has_rgb: faces[i].2,
                    has_ir: faces[i].3,
                };
                lines.push(line);
                i = i + 1;
            }
            FacesReport::Listing { count: faces.len(), ending: ending(faces.len()), faces: lines }
        },
        FacesReply::Failed(err) => {
            if dbus_is_file_not_found(err) {
                FacesReport::NoneFound
            } else {
                FacesReport::Failed(dbus_error_message(err))
            }
        },
    }
}

/// A change that was asked of the daemon.
#[derive(Clone, Debug)]
pub enum Change {
    RemoveFace { user: String, face: String },
    RenameFace { user: String, from: String, to: String },
    ClearUser { user: String },
}

/// What the daemon answered.
#[derive(Clone, Debug)]
pub enum ChangeReply {
    /// Whether there was anything to change.
    Changed(bool),
    /// The call failed.
    Failed(BusError),
}

/// What is said about a change.
pub open spec fn change_text(change: Change, reply: ChangeReply) -> (Tone, Seq<char>) {
    match reply {
        ChangeReply::Changed(found) => if found {
            (
                Tone::Good,
                match change {
                    Change::RemoveFace { user, face } => "Face '"@ + face@ + "' removed for '"@
                        + user@ + "'"@,
                    Change::RenameFace { user, from, to } => "Face '"@ + from@ + "' renamed to '"@
                        + to@ + "' for '"@ + user@ + "'"@,
                    Change::ClearUser { user } => "All data cleared for '"@ + user@ + "'"@,
                },
            )
        } else {
            (
                Tone::Warn,
                match change {
                    Change::RemoveFace { user, face } => "Face '"@ + face@ + "' not found for '"@
                        + user@ + "'"@,
                    Change::RenameFace { user, from, .. } => "Face '"@ + from@
                        + "' not found for '"@ + user@ + "'"@,
                    Change::ClearUser { user } => "No data found for '"@ + user@ + "'"@,
                },
            )
        },
        ChangeReply::Failed(err) => (
            Tone::Error,
            match change {
                Change::RemoveFace { .. } => "Failed to remove face: "@ + user_message(err.text@),
                Change::RenameFace { .. } => "Failed to rename face: "@ + user_message(err.text@),
                Change::ClearUser { .. } => "Failed to clear user: "@ + user_message(err.text@),
            },
        ),
    }
}

/// A change is told as a success exactly if something was changed, as a warning exactly if
/// there was nothing to change, and as an error exactly if the call failed.
pub proof fn changes_are_told_by_their_outcome(change: Change, reply: ChangeReply)
    ensures
        change_text(change, reply).0 == Tone::Good <==> reply == ChangeReply::Changed(true),
        change_text(change, reply).0 == Tone::Warn <==> reply == ChangeReply::Changed(false),
        change_text(change, reply).0 == Tone::Error <==> reply is Failed,
{
}

/// The faces and the user of a change are told in their places: the face first, a new name
/// after the old one, the user last. Nothing else of the text depends on them.
pub proof fn changes_name_the_face_and_the_user(
    user: String,
    face: String,
    other: String,
    found: bool,
)
    ensures
        ({
            let text = change_text(
                Change::RemoveFace { user, face },
                ChangeReply::Changed(found),
            ).1;
            &&& stands_at(text, face@, 6)
            &&& stands_at(text, user@, text.len() - 1 - user@.len())
            &&& stands_at(text, if found { "removed"@ } else { "not found"@ }, 8int + face@.len())
        }),
        ({
            let text = change_text(
                Change::RenameFace { user, from: face, to: other },
                ChangeReply::Changed(found),
            ).1;
            &&& stands_at(text, face@, 6)
            &&& found ==> stands_at(text, other@, 20int + face@.len())
            &&& stands_at(text, user@, text.len() - 1 - user@.len())
            &&& stands_at(text, if found { "renamed to"@ } else { "not found"@ }, 8int + face@.len())
        }),
        ({
            let text = change_text(Change::ClearUser { user }, ChangeReply::Changed(found)).1;
            &&& stands_at(text, user@, text.len() - 1 - user@.len())
            &&& starts(text, if found { "All data cleared"@ } else { "No data found"@ })
        }),
{
    reveal_strlit("Face '");
    reveal_strlit("' removed for '");
    reveal_strlit("' not found for '");
    reveal_strlit("' renamed to '");
    reveal_strlit("' for '");
    reveal_strlit("'");
    reveal_strlit("All data cleared for '");
    reveal_strlit("No data found for '");
    reveal_strlit("removed");
    reveal_strlit("not found");
    reveal_strlit("renamed to");
    reveal_strlit("All data cleared");
    reveal_strlit("No data found");
    let reply = ChangeReply::Changed(found);
    let removed = change_text(Change::RemoveFace { user, face }, reply).1;
    assert(removed.subrange(6, 6int + face@.len()) =~= face@);
    assert(removed.subrange(removed.len() - 1 - user@.len(), removed.len() - 1) =~= user@);
    let word = if found { "removed"@ } else { "not found"@ };
    assert(removed.subrange(8int + face@.len(), 8int + face@.len() + word.len()) =~= word);
    let renamed = change_text(Change::RenameFace { user, from: face, to: other }, reply).1;
    assert(renamed.subrange(6, 6int + face@.len()) =~= face@);
    assert(renamed.subrange(renamed.len() - 1 - user@.len(), renamed.len() - 1) =~= user@);
    if found {
        assert(renamed.subrange(20int + face@.len(), 20int + face@.len() + other@.len()) =~= other@);
    }
    let word = if found { "renamed to"@ } else { "not found"@ };
    assert(renamed.subrange(8int + face@.len(), 8int + face@.len() + word.len()) =~= word);
    let cleared = change_text(Change::ClearUser { user }, reply).1;
    assert(cleared.subrange(cleared.len() - 1 - user@.len(), cleared.len() - 1) =~= user@);
    let word = if found { "All data cleared"@ } else { "No data found"@ };
    assert(cleared.subrange(0, word.len() as int) =~= word);
}

/// A failed change is told by what was tried and by the daemon's message, whoever and
/// whatever it was about.
pub proof fn failed_changes_end_with_the_message(change: Change, err: BusError)
    ensures
        ({
            let text = change_text(change, ChangeReply::Failed(err)).1;
            let message = user_message(err.text@);
            &&& stands_at(text, message, text.len() - message.len())
            &&& starts(
                text,
                match change {
                    Change::RemoveFace { .. } => "Failed to remove"@,
                    Change::RenameFace { .. } => "Failed to rename"@,
                    Change::ClearUser { .. } => "Failed to clear"@,
                },
            )
        }),
{
    reveal_strlit("Failed to remove face: ");
    reveal_strlit("Failed to rename face: ");
    reveal_strlit("Failed to clear user: ");
    reveal_strlit("Failed to remove");
    reveal_strlit("Failed to rename");
    reveal_strlit("Failed to clear");
    let text = change_text(change, ChangeReply::Failed(err)).1;
    let message = user_message(err.text@);
    assert(text.subrange(text.len() - message.len(), text.len() as int) =~= message);
    match change {
        Change::RemoveFace { .. } => {
            assert(text.subrange(0, 16) =~= "Failed to remove"@);
        },
        Change::RenameFace { .. } => {
            assert(text.subrange(0, 16) =~= "Failed to rename"@);
        },
        Change::ClearUser { .. } => {
            assert(text.subrange(0, 15) =~= "Failed to clear"@);
        },
    }
}

fn sentence(start: &str, subject: &str, middle: &str, user: &str) -> (r: String)
    ensures
        r@ == start@ + subject@ + middle@ + user@ + "'"@,
{
    let mut text: String = joined(start, subject);
    text.append(middle);
    text.append(user);
    text.append("'");
    text
}

/// Tells how a change went.
pub fn change_report(change: &Change, reply: &ChangeReply) -> (r: (Tone, String))
    ensures
        (r.0, r.1@) == change_text(*change, *reply),
{
    match reply {
        ChangeReply::Changed(found) => {
            if *found {
                let text: String = match change {
                    Change::RemoveFace { user, face } => sentence(
                        "Face '",
                        face.as_str(),
                        "' removed for '",
                        user.as_str(),
                    ),
                    Change::RenameFace { user, from, to } => {
                        let mut text: String = joined("Face '", from.as_str());
                        text.append("' renamed to '");
                        text.append(to.as_str());
                        text.append("' for '");
                        text.append(user.as_str());
                        text.append("'");
                        text
                    },
                    Change::ClearUser { user } => {
                        let mut text: String = joined("All data cleared for '", user.as_str());
                        text.append("'");
                        text
                    },
                };
                (Tone::Good, text)
            } else {
                let text: String = match change {
                    Change::RemoveFace { user, face } => sentence(
                        "Face '",
                        face.as_str(),
                        "' not found for '",
                        user.as_str(),
                    ),
                    Change::RenameFace { user, from, .. } => sentence(
                        "Face '",
                        from.as_str(),
                        "' not found for '",
                        user.as_str(),
                    ),
                    Change::ClearUser { user } => {
                        let mut text: String = joined("No data found for '", user.as_str());
                        text.append("'");
                        text
                    },
                };
                (Tone::Warn, text)
            }
        },
        ChangeReply::Failed(err) => {
            let message: String = dbus_error_message(err);
            let start: &str = match change {
                Change::RemoveFace { .. } => "Failed to remove face: ",
                Change::RenameFace { .. } => "Failed to rename face: ",
                Change::ClearUser { .. } => "Failed to clear user: ",
            };
            (Tone::Error, joined(start, message.as_str()))
        },
    }
}

/// The names that start with what was typed, in their order.
pub open spec fn completions(faces: Seq<(String, u32, bool, bool)>, typed: Seq<char>) -> Seq<
    Seq<char>,
>
    decreases faces.len(),
{
    if faces.len() == 0 {
        seq![]
    } else {
        let before = completions(faces.drop_last(), typed);
        if starts(faces.last().0@, typed) {
            before.push(faces.last().0@)
        } else {
            before
        }
    }
}

/// A name is a completion exactly if a face has it and it starts with what was typed.
pub proof fn completions_are_the_matching_names(
    faces: Seq<(String, u32, bool, bool)>,
    typed: Seq<char>,
    name: Seq<char>,
)
    ensures
        completions(faces, typed).contains(name) <==> starts(name, typed) && exists|i: int|
            0 <= i < faces.len() && (#[trigger] faces[i]).0@ == name,
        completions(faces, typed).len() <= faces.len(),
    decreases faces.len(),
{
    let found = completions(faces, typed);
    if faces.len() > 0 {
        let rest = faces.drop_last();
        let before = completions(rest, typed);
        completions_are_the_matching_names(rest, typed, name);
        assert forall|i: int| 0 <= i < rest.len() implies #[trigger] rest[i] == faces[i] by {}
        assert(faces[faces.len() - 1] == faces.last());
        if before.contains(name) {
            let k = choose|k: int| 0 <= k < before.len() && before[k] == name;
            assert(found[k] == name);
            let i = choose|i: int| 0 <= i < rest.len() && (#[trigger] rest[i]).0@ == name;
            assert(faces[i].0@ == name);
        }
        if starts(faces.last().0@, typed) {
            assert(found[before.len() as int] == faces.last().0@);
            if found.contains(name) {
                let k = choose|k: int| 0 <= k < found.len() && found[k] == name;
                if k < before.len() {
                    assert(before[k] == name);
                }
            }
        }
        if exists|i: int| 0 <= i < faces.len() && (#[trigger] faces[i]).0@ == name {
            let i = choose|i: int| 0 <= i < faces.len() && (#[trigger] faces[i]).0@ == name;
            if i < rest.len() {
                assert(rest[i].0@ == name);
            }
        }
    }
}

/// Completions come in the order of the faces: those of a list are those of its first part,
/// then those of the rest. Nothing typed is completed by every name.
pub proof fn completions_keep_the_order(
    first: Seq<(String, u32, bool, bool)>,
    rest: Seq<(String, u32, bool, bool)>,
    typed: Seq<char>,
)
    ensures
        completions(first + rest, typed) == completions(first, typed) + completions(rest, typed),
        completions(first, seq![]) == first.map_values(|f: (String, u32, bool, bool)| f.0@),
    decreases first.len() + rest.len(),
{
    if rest.len() == 0 {
        assert(first + rest =~= first);
        assert(completions(rest, typed) =~= seq![]);
        assert(completions(first, typed) + completions(rest, typed) =~= completions(first, typed));
        if first.len() > 0 {
            completions_keep_the_order(first.drop_last(), rest, typed);
            assert(starts(first.last().0@, seq![])) by {
                assert(first.last().0@.subrange(0, 0) =~= seq![]);
            }
        }
        assert(completions(first, seq![]) =~= first.map_values(
            |f: (String, u32, bool, bool)| f.0@,
        ));
    } else {
        assert((first + rest).drop_last() =~= first + rest.drop_last());
        completions_keep_the_order(first, rest.drop_last(), typed);
        assert((first + rest).last() == rest.last());
        assert(completions(first + rest, typed) =~= completions(first, typed) + completions(
            rest,
            typed,
        ));
    }
}

/// The names of faces that complete what was typed.
pub fn matching_faces(faces: &Vec<(String, u32, bool, bool)>, typed: &str) -> (r: Vec<String>)
    ensures
        crate::sessions::text_models(r@) == completions(faces@, typed@),
{
    let mut names: Vec<String> = Vec::new();
    let mut i: usize = 0;
    assert(faces@.subrange(0, 0) =~= seq![]);
    assert(crate::sessions::text_models(names@) =~= seq![]);
    while i < faces.len()
        invariant
            i <= faces.len(),
            crate::sessions::text_models(names@) == completions(
                faces@.subrange(0, i as int),
                typed@,
            ),
        decreases faces.len() - i,
    {
        let ghost next = faces@.subrange(0, i + 1);
        assert(next.drop_last() =~= faces@.subrange(0, i as int));
        if starts_with(faces[i].0.as_str(), typed) {
            let name: String = faces[i].0.clone();
            assert(crate::sessions::text_models(names@.push(name))
                =~= crate::sessions::text_models(names@).push(name@));
            names.push(name);
        }
        i = i + 1;
    }
    assert(faces@.subrange(0, i as int) =~= faces@);
    names
}

} // verus!
