//! The commands of the command line: who may run them, for whom, and what they become.

use crate::config::{Config, ConfigModel};
use crate::number::{Double, Single};
use crate::text::{
    contains_text, decimal, decimal_text, joined, opt_string, opt_view, stands_at, str_eq,
};
use vstd::prelude::*;
use vstd::string::*;

verus! {

/// The variable that marks a process that was started again as root.
pub const ESCALATION_MARKER: &'static str = "GAZE_ESCALATED";

/// The variable that such a process keeps from its caller.
pub const ESCALATION_PRESERVED_ENV: &'static str = "XDG_RUNTIME_DIR";

/// A command as it was typed.
#[derive(Clone, Debug)]
pub enum Commands {
    /// Authenticate a user.
    Auth { user: Option<String>, verbose: bool, silent: bool },
    /// Capture a new face.
    AddFace { user: Option<String>, face: String },
    /// Add captures to a face.
    RefineFace { user: Option<String>, face: String },
    /// List the faces of a user.
    ListFaces { user: Option<String> },
    /// Remove a face.
    RemoveFace { user: Option<String>, face: String },
    /// Rename a face.
    RenameFace { user: Option<String>, from: String, to: String },
    /// Remove all data of a user.
    ClearUser { user: Option<String> },
    /// Show or edit the settings.
    Config { show: bool },
    /// Check the installation.
    Doctor { user: Option<String>, benchmark: bool },
    /// Store or forget the keyring password of a user.
    Keyring { user: Option<String>, forget: bool },
    /// Uninstall.
    Uninstall { yes: bool, keep_data: bool, dry_run: bool },
}

/// The name under which a command asks for root.
pub open spec fn root_name(command: Commands) -> Option<Seq<char>> {
    match command {
        Commands::AddFace { .. } => Some("add-face"@),
        Commands::RefineFace { .. } => Some("refine-face"@),
        Commands::RemoveFace { .. } => Some("remove-face"@),
        Commands::RenameFace { .. } => Some("rename-face"@),
        Commands::ClearUser { .. } => Some("clear-user"@),
        Commands::Keyring { .. } => Some("keyring"@),
        Commands::Config { show } => if show {
            None
        } else {
            Some("config"@)
        },
        Commands::Auth { .. }
        | Commands::ListFaces { .. }
        | Commands::Doctor { .. }
        | Commands::Uninstall { .. } => None,
    }
}

/// The user that a command reads about, where one is named.
pub open spec fn target_user(command: Commands) -> Option<Seq<char>> {
    match command {
        Commands::Auth { user, .. } => opt_string(user),
        Commands::ListFaces { user } => opt_string(user),
        Commands::Doctor { user, .. } => opt_string(user),
        _ => None,
    }
}

/// The command authenticates without output.
pub open spec fn silent_auth(command: Commands) -> bool {
    command matches Commands::Auth { silent, .. } && silent
}

/// The first of two names that is set and not empty, or root.
pub open spec fn first_user(sudo_user: Option<Seq<char>>, user: Option<Seq<char>>) -> Seq<char> {
    if sudo_user matches Some(name) && name.len() > 0 {
        sudo_user->0
    } else if user matches Some(name) && name.len() > 0 {
        user->0
    } else {
        "root"@
    }
}

/// The user behind a process: the one who called sudo, else the one logged in, else root.
pub fn resolve_current_user(sudo_user: Option<String>, user: Option<String>) -> (r: String)
    ensures
        r@ == first_user(opt_string(sudo_user), opt_string(user)),
{
    match sudo_user {
        Some(name) => {
            if !name.as_str().is_empty() {
                return name;
            }
        },
        None => {},
    }
    match user {
        Some(name) => {
            if !name.as_str().is_empty() {
                return name;
            }
        },
        None => {},
    }
    "root".to_owned()
}

/// The user behind a process. Only root can have been reached through sudo.
pub fn current_user(is_root: bool, sudo_user: Option<String>, user: Option<String>) -> (r: String)
    ensures
        r@ == first_user(
            if is_root {
                opt_string(sudo_user)
            } else {
                None
            },
            opt_string(user),
        ),
{
    let through_sudo: Option<String> = if is_root {
        sudo_user
    } else {
        None
    };
    resolve_current_user(through_sudo, user)
}

/// The name of a command that needs root: those that write faces, credentials or settings.
pub fn command_requires_root(command: &Commands) -> (r: Option<&'static str>)
    ensures
        opt_view(r) == root_name(*command),
{
    match command {
        Commands::AddFace { .. } => Some("add-face"),
        Commands::RefineFace { .. } => Some("refine-face"),
        Commands::RemoveFace { .. } => Some("remove-face"),
        Commands::RenameFace { .. } => Some("rename-face"),
        Commands::ClearUser { .. } => Some("clear-user"),
        Commands::Keyring { .. } => Some("keyring"),
        Commands::Config { show } => {
            if *show {
                None
            } else {
                Some("config")
            }
        },
        Commands::Auth { .. }
        | Commands::ListFaces { .. }
        | Commands::Doctor { .. }
        | Commands::Uninstall { .. } => None,
    }
}

fn as_text(s: &Option<String>) -> (r: Option<&str>)
    ensures
        opt_view(r) == opt_string(*s),
{
    match s {
        Some(t) => Some(t.as_str()),
        None => None,
    }
}

/// The user that a command reads about, where one is named.
pub fn command_target_user(command: &Commands) -> (r: Option<&str>)
    ensures
        opt_view(r) == target_user(*command),
{
    match command {
        Commands::Auth { user, .. } => as_text(user),
        Commands::ListFaces { user } => as_text(user),
        Commands::Doctor { user, .. } => as_text(user),
        _ => None,
    }
}

/// The daemon may ask for authorization: somebody other than root reads about another
/// user.
pub open spec fn challenged(command: Commands, is_root: bool, current: Seq<char>) -> bool {
    !is_root && (target_user(command) matches Some(user) && user != current)
}

/// Whether the daemon may ask for authorization.
pub fn command_may_be_challenged(command: &Commands, is_root: bool, current: &str) -> (r: bool)
    ensures
        r == challenged(*command, is_root, current@),
{
    if is_root {
        return false;
    }
    match command_target_user(command) {
        Some(user) => !str_eq(user, current),
        None => false,
    }
}

/// A command that needs root never runs an agent for authorization, and a command about
/// the caller's own faces is never challenged.
pub proof fn only_cross_user_reads_are_challenged(
    command: Commands,
    is_root: bool,
    current: Seq<char>,
)
    ensures
        challenged(command, is_root, current) ==> root_name(command) is None && !is_root,
        target_user(command) == Some(current) || target_user(command) is None ==> !challenged(
            command,
            is_root,
            current,
        ),
{
}

/// A command asks for root under the name that it was typed by: writing faces, credentials
/// and settings needs root, reading them does not.
pub proof fn commands_ask_for_root_by_name(command: Commands)
    ensures
        command is AddFace <==> root_name(command) == Some("add-face"@),
        command is RefineFace <==> root_name(command) == Some("refine-face"@),
        command is RemoveFace <==> root_name(command) == Some("remove-face"@),
        command is RenameFace <==> root_name(command) == Some("rename-face"@),
        command is ClearUser <==> root_name(command) == Some("clear-user"@),
        command is Keyring <==> root_name(command) == Some("keyring"@),
        command == (Commands::Config { show: false }) <==> root_name(command) == Some("config"@),
        command is Auth || command is ListFaces || command is Doctor || command is Uninstall
            || command == (Commands::Config { show: true }) <==> root_name(command) is None,
{
    reveal_strlit("add-face");
    reveal_strlit("refine-face");
    reveal_strlit("remove-face");
    reveal_strlit("rename-face");
    reveal_strlit("clear-user");
    reveal_strlit("keyring");
    reveal_strlit("config");
    assert("add-face"@.len() == 8 && "refine-face"@.len() == 11 && "remove-face"@.len() == 11
        && "rename-face"@.len() == 11 && "clear-user"@.len() == 10 && "keyring"@.len() == 7
        && "config"@.len() == 6);
    assert("refine-face"@[2] == 'f' && "remove-face"@[2] == 'm' && "rename-face"@[2] == 'n');
}

/// The three commands that read about a user are about the user that they name; no other
/// command is challenged for whom it is about, and none but an authentication is silent.
pub proof fn reading_is_about_the_named_user(command: Commands)
    ensures
        command matches Commands::Auth { user, silent, .. } ==> target_user(command) == opt_string(
            user,
        ) && silent_auth(command) == silent,
        command matches Commands::ListFaces { user } ==> target_user(command) == opt_string(user),
        command matches Commands::Doctor { user, .. } ==> target_user(command) == opt_string(user),
        !(command is Auth) && !(command is ListFaces) && !(command is Doctor) ==> target_user(
            command,
        ) is None,
        !(command is Auth) ==> !silent_auth(command),
{
}

/// How a command starts.
#[derive(Clone, Debug)]
pub struct Startup {
    /// The command has to be run again as root, under this name.
    pub escalate: Option<&'static str>,
    /// An agent has to answer the daemon's request for authorization.
    pub agent: bool,
    /// Nothing is printed; failures only show in the exit code.
    pub silent: bool,
}

/// Tells how a command starts.
pub fn startup(command: &Commands, is_root: bool, current: &str) -> (r: Startup)
    ensures
        opt_view(r.escalate) == (if is_root {
            None
        } else {
            root_name(*command)
        }),
        r.agent == (challenged(*command, is_root, current@) && !silent_auth(*command)),
        r.silent == silent_auth(*command),
        is_root ==> r.escalate is None && !r.agent,
        r.escalate is Some ==> !r.agent,
        r.agent ==> !r.silent && !is_root,
        r.silent ==> command is Auth,
{
    let escalate: Option<&'static str> = if is_root {
        None
    } else {
        command_requires_root(command)
    };
    let silent: bool = match command {
        Commands::Auth { silent, .. } => *silent,
        _ => false,
    };
    Startup {
        escalate,
        agent: command_may_be_challenged(command, is_root, current) && !silent,
        silent,
    }
}

/// What stops a command from being run again as root, or how it is run: the arguments that
/// stand before the environment and the command itself.
pub fn escalation(name: &str, marked: bool, sudo_found: bool) -> (r: Result<Vec<String>, String>)
    ensures
        match r {
            Err(message) => {
                &&& marked || !sudo_found
                &&& message@ == "gaze "@ + name@ + (if marked {
                    " re-ran itself but did not gain root privileges"@
                } else {
                    " needs root privileges, but sudo was not found"@
                })
            },
            Ok(args) => {
                &&& !marked && sudo_found
                &&& args@.len() == 3
                &&& args@[0]@ == "--"@
                &&& args@[1]@ == "env"@
                &&& args@[2]@ == ESCALATION_MARKER@ + "=1"@
            },
        },
{
    if marked {
        let mut message: String = joined("gaze ", name);
        message.append(" re-ran itself but did not gain root privileges");
        return Err(message);
    }
    if !sudo_found {
        let mut message: String = joined("gaze ", name);
        message.append(" needs root privileges, but sudo was not found");
        return Err(message);
    }
    let mut args: Vec<String> = Vec::new();
    args.push("--".to_owned());
    args.push("env".to_owned());
    args.push(joined(ESCALATION_MARKER, "=1"));
    Ok(args)
}

/// What a command becomes once its user is known.
#[derive(Clone, Debug)]
pub enum Task {
    Uninstall { yes: bool, keep_data: bool, dry_run: bool },
    Doctor { user: String, benchmark: bool },
    Auth { user: String, verbose: bool, silent: bool },
    Enroll { user: String, face: String, refine: bool },
    ListFaces { user: String },
    RemoveFace { user: String, face: String },
    RenameFace { user: String, from: String, to: String },
    ClearUser { user: String },
    ShowConfig,
    EditConfig,
    EnrollKeyring { user: String },
    ForgetKeyring { user: String },
}

/// A task, its texts as sequences.
pub enum TaskModel {
    Uninstall { yes: bool, keep_data: bool, dry_run: bool },
    Doctor { user: Seq<char>, benchmark: bool },
    Auth { user: Seq<char>, verbose: bool, silent: bool },
    Enroll { user: Seq<char>, face: Seq<char>, refine: bool },
    ListFaces { user: Seq<char> },
    RemoveFace { user: Seq<char>, face: Seq<char> },
    RenameFace { user: Seq<char>, from: Seq<char>, to: Seq<char> },
    ClearUser { user: Seq<char> },
    ShowConfig,
    EditConfig,
    EnrollKeyring { user: Seq<char> },
    ForgetKeyring { user: Seq<char> },
}

impl View for Task {
    type V = TaskModel;

    open spec fn view(&self) -> TaskModel {
        match *self {
            Task::Uninstall { yes, keep_data, dry_run } => TaskModel::Uninstall {
                yes,
                keep_data,
                dry_run,
            },
            Task::Doctor { user, benchmark } => TaskModel::Doctor { user: user@, benchmark },
            Task::Auth { user, verbose, silent } => TaskModel::Auth { user: user@, verbose, silent },
            Task::Enroll { user, face, refine } => TaskModel::Enroll {
                user: user@,
                face: face@,
                refine,
            },
            Task::ListFaces { user } => TaskModel::ListFaces { user: user@ },
            Task::RemoveFace { user, face } => TaskModel::RemoveFace { user: user@, face: face@ },
            Task::RenameFace { user, from, to } => TaskModel::RenameFace {
                user: user@,
                from: from@,
                to: to@,
            },
            Task::ClearUser { user } => TaskModel::ClearUser { user: user@ },
            Task::ShowConfig => TaskModel::ShowConfig,
            Task::EditConfig => TaskModel::EditConfig,
            Task::EnrollKeyring { user } => TaskModel::EnrollKeyring { user: user@ },
            Task::ForgetKeyring { user } => TaskModel::ForgetKeyring { user: user@ },
        }
    }
}

/// The user that was named, or the one behind the process.
pub open spec fn named_or(user: Option<String>, current: Seq<char>) -> Seq<char> {
    match user {
        Some(name) => name@,
        None => current,
    }
}

fn user_or(user: Option<String>, current: String) -> (r: String)
    ensures
        r@ == named_or(user, current@),
{
    match user {
        Some(name) => name,
        None => current,
    }
}

/// What a command becomes for the user behind the process.
pub open spec fn task_of(command: Commands, current: Seq<char>) -> TaskModel {
    match command {
        Commands::Auth { user, verbose, silent } => TaskModel::Auth {
            user: named_or(user, current),
            verbose,
            silent,
        },
        Commands::AddFace { user, face } => TaskModel::Enroll {
            user: named_or(user, current),
            face: face@,
            refine: false,
        },
        Commands::RefineFace { user, face } => TaskModel::Enroll {
            user: named_or(user, current),
            face: face@,
            refine: true,
        },
        Commands::ListFaces { user } => TaskModel::ListFaces { user: named_or(user, current) },
        Commands::RemoveFace { user, face } => TaskModel::RemoveFace {
            user: named_or(user, current),
            face: face@,
        },
        Commands::RenameFace { user, from, to } => TaskModel::RenameFace {
            user: named_or(user, current),
            from: from@,
            to: to@,
        },
        Commands::ClearUser { user } => TaskModel::ClearUser { user: named_or(user, current) },
        Commands::Config { show } => if show {
            TaskModel::ShowConfig
        } else {
            TaskModel::EditConfig
        },
        Commands::Doctor { user, benchmark } => TaskModel::Doctor {
            user: named_or(user, current),
            benchmark,
        },
        Commands::Keyring { user, forget } => if forget {
            TaskModel::ForgetKeyring { user: named_or(user, current) }
        } else {
            TaskModel::EnrollKeyring { user: named_or(user, current) }
        },
        Commands::Uninstall { yes, keep_data, dry_run } => TaskModel::Uninstall {
            yes,
            keep_data,
            dry_run,
        },
    }
}

impl TaskModel {
    /// The user that a task is for, where it is for one.
    pub open spec fn owner(self) -> Option<Seq<char>> {
        match self {
            TaskModel::Doctor { user, .. } => Some(user),
            TaskModel::Auth { user, .. } => Some(user),
            TaskModel::Enroll { user, .. } => Some(user),
            TaskModel::ListFaces { user } => Some(user),
            TaskModel::RemoveFace { user, .. } => Some(user),
            TaskModel::RenameFace { user, .. } => Some(user),
            TaskModel::ClearUser { user } => Some(user),
            TaskModel::EnrollKeyring { user } => Some(user),
            TaskModel::ForgetKeyring { user } => Some(user),
            TaskModel::Uninstall { .. } | TaskModel::ShowConfig | TaskModel::EditConfig => None,
        }
    }
}

impl Commands {
    /// The user option of a command, where it has one.
    pub open spec fn user_option(self) -> Option<Option<String>> {
        match self {
            Commands::Auth { user, .. } => Some(user),
            Commands::AddFace { user, .. } => Some(user),
            Commands::RefineFace { user, .. } => Some(user),
            Commands::ListFaces { user } => Some(user),
            Commands::RemoveFace { user, .. } => Some(user),
            Commands::RenameFace { user, .. } => Some(user),
            Commands::ClearUser { user } => Some(user),
            Commands::Doctor { user, .. } => Some(user),
            Commands::Keyring { user, .. } => Some(user),
            Commands::Config { .. } | Commands::Uninstall { .. } => None,
        }
    }
}

/// A command that names a user is for that user, whoever runs it; one that names nobody is
/// for the user behind the process.
pub proof fn tasks_are_for_the_named_user(
    command: Commands,
    current: Seq<char>,
    other: Seq<char>,
)
    ensures
        task_of(command, current).owner() is Some <==> command.user_option() is Some,
        command.user_option() matches Some(Some(name)) ==> task_of(command, current).owner()
            == Some(name@) && task_of(command, current) == task_of(command, other),
        command.user_option() == Some(None::<String>) ==> task_of(command, current).owner()
            == Some(current),
        command.user_option() is None ==> task_of(command, current) == task_of(command, other),
{
}

/// A rename renames the old name to the new one, and a rename back is the rename with the
/// names the other way round.
pub proof fn renames_go_from_the_old_name_to_the_new(
    user: Option<String>,
    from: String,
    to: String,
    current: Seq<char>,
)
    ensures
        ({
            let there = task_of(Commands::RenameFace { user, from, to }, current);
            let back = task_of(Commands::RenameFace { user, from: to, to: from }, current);
            &&& there matches TaskModel::RenameFace { from: old_name, to: new_name, .. } && old_name
                == from@ && new_name == to@
            &&& back matches TaskModel::RenameFace { from: old_name, to: new_name, .. } && old_name
                == to@ && new_name == from@
        }),
{
}

/// Commands about one face are about the face that they name; adding and refining it differ
/// in nothing but whether captures are added to it.
pub proof fn tasks_are_about_the_named_face(
    user: Option<String>,
    face: String,
    current: Seq<char>,
)
    ensures
        ({
            let add = task_of(Commands::AddFace { user, face }, current);
            let refine = task_of(Commands::RefineFace { user, face }, current);
            let remove = task_of(Commands::RemoveFace { user, face }, current);
            &&& add matches TaskModel::Enroll { face: f, refine: r, .. } && f == face@ && !r
            &&& refine matches TaskModel::Enroll { face: f, refine: r, .. } && f == face@ && r
            &&& remove matches TaskModel::RemoveFace { face: f, .. } && f == face@
        }),
{
}

/// The switches of a command reach its task as they were set.
pub proof fn switches_reach_the_task(
    user: Option<String>,
    current: Seq<char>,
    first: bool,
    second: bool,
    third: bool,
)
    ensures
        task_of(Commands::Auth { user, verbose: first, silent: second }, current)
            matches TaskModel::Auth { verbose, silent, .. } && verbose == first && silent == second,
        task_of(Commands::Doctor { user, benchmark: first }, current) matches TaskModel::Doctor {
            benchmark,
            ..
        } && benchmark == first,
        task_of(
            Commands::Uninstall { yes: first, keep_data: second, dry_run: third },
            current,
        ) matches TaskModel::Uninstall { yes, keep_data, dry_run } && yes == first && keep_data
            == second && dry_run == third,
        task_of(Commands::Config { show: first }, current) is ShowConfig <==> first,
        task_of(Commands::Config { show: first }, current) is EditConfig <==> !first,
        task_of(Commands::Keyring { user, forget: first }, current) is ForgetKeyring <==> first,
        task_of(Commands::Keyring { user, forget: first }, current) is EnrollKeyring <==> !first,
{
}

/// Every command becomes a task of its own kind.
pub proof fn commands_keep_their_kind(command: Commands, current: Seq<char>)
    ensures
        task_of(command, current) is Auth <==> command is Auth,
        task_of(command, current) is Enroll <==> command is AddFace || command is RefineFace,
        task_of(command, current) is ListFaces <==> command is ListFaces,
        task_of(command, current) is RemoveFace <==> command is RemoveFace,
        task_of(command, current) is RenameFace <==> command is RenameFace,
        task_of(command, current) is ClearUser <==> command is ClearUser,
        task_of(command, current) is ShowConfig || task_of(command, current) is EditConfig
            <==> command is Config,
        task_of(command, current) is Doctor <==> command is Doctor,
        task_of(command, current) is EnrollKeyring || task_of(command, current) is ForgetKeyring
            <==> command is Keyring,
        task_of(command, current) is Uninstall <==> command is Uninstall,
{
}

/// Root is asked for exactly by the commands whose task writes: faces, credentials or
/// settings. What reads, and the uninstallation, which asks on its own, runs as it is.
pub proof fn writing_takes_root(command: Commands, current: Seq<char>)
    ensures
        root_name(command) is Some <==> {
            let task = task_of(command, current);
            ||| task is Enroll
            ||| task is RemoveFace
            ||| task is RenameFace
            ||| task is ClearUser
            ||| task is EditConfig
            ||| task is EnrollKeyring
            ||| task is ForgetKeyring
        },
{
}

/// A read is challenged exactly if somebody other than root names somebody else, and the
/// user who is then read about is the task's.
pub proof fn challenges_are_about_somebody_else(
    command: Commands,
    is_root: bool,
    current: Seq<char>,
)
    ensures
        target_user(command) is Some ==> task_of(command, current).owner() == target_user(command),
        challenged(command, is_root, current) <==> !is_root && (command is Auth
            || command is ListFaces || command is Doctor) && task_of(command, current).owner()
            != Some(current),
{
}

/// The daemon is needed for everything but uninstalling, checking the installation and
/// forgetting a keyring password: a task needs it exactly if it is none of these.
pub proof fn these_tasks_do_without_the_daemon(command: Commands, current: Seq<char>)
    ensures
        !task_of(command, current).uses_daemon() <==> command is Uninstall || command is Doctor
            || (command matches Commands::Keyring { forget, .. } && forget),
{
}

/// The user behind a process is the first of the two names that is set and not empty; root
/// only if neither is.
pub proof fn the_first_name_counts(sudo_user: Option<Seq<char>>, user: Option<Seq<char>>)
    ensures
        (sudo_user matches Some(name) && name.len() > 0) ==> Some(first_user(sudo_user, user))
            == sudo_user,
        !(sudo_user matches Some(name) && name.len() > 0) ==> first_user(sudo_user, user)
            == first_user(None, user),
        (user matches Some(name) && name.len() > 0) ==> Some(first_user(None, user)) == user,
        !(user matches Some(name) && name.len() > 0) ==> first_user(None, user) == "root"@,
        first_user(sudo_user, user).len() > 0,
{
    reveal_strlit("root");
}

impl Commands {
    /// Turns a command into a task; where no user is named it is for the one behind the
    /// process.
    pub fn into_task(self, current: String) -> (r: Task)
        ensures
            r@ == task_of(self, current@),
            match self {
                Commands::Auth { user, verbose, silent } => r matches Task::Auth {
                    user: who,
                    verbose: v,
                    silent: s,
                } && who@ == named_or(user, current@) && v == verbose && s == silent,
                Commands::AddFace { user, face } => r matches Task::Enroll {
                    user: who,
                    face: f,
                    refine,
                } && who@ == named_or(user, current@) && f@ == face@ && !refine,
                Commands::RefineFace { user, face } => r matches Task::Enroll {
                    user: who,
                    face: f,
                    refine,
                } && who@ == named_or(user, current@) && f@ == face@ && refine,
                Commands::ListFaces { user } => r matches Task::ListFaces { user: who } && who@
                    == named_or(user, current@),
                Commands::RemoveFace { user, face } => r matches Task::RemoveFace {
                    user: who,
                    face: f,
                } && who@ == named_or(user, current@) && f@ == face@,
                Commands::RenameFace { user, from, to } => r matches Task::RenameFace {
                    user: who,
                    from: old_name,
                    to: new_name,
                } && who@ == named_or(user, current@) && old_name@ == from@ && new_name@ == to@,
                Commands::ClearUser { user } => r matches Task::ClearUser { user: who } && who@
                    == named_or(user, current@),
                Commands::Config { show } => if show {
                    r is ShowConfig
                } else {
                    r is EditConfig
                },
                Commands::Doctor { user, benchmark } => r matches Task::Doctor {
                    user: who,
                    benchmark: b,
                } && who@ == named_or(user, current@) && b == benchmark,
                Commands::Keyring { user, forget } => if forget {
                    r matches Task::ForgetKeyring { user: who } && who@ == named_or(user, current@)
                } else {
                    r matches Task::EnrollKeyring { user: who } && who@ == named_or(user, current@)
                },
                Commands::Uninstall { yes, keep_data, dry_run } => r matches Task::Uninstall {
                    yes: y,
                    keep_data: k,
                    dry_run: d,
                } && y == yes && k == keep_data && d == dry_run,
            },
    {
        match self {
            Commands::Auth { user, verbose, silent } => Task::Auth {
                user: user_or(user, current),
                verbose,
                silent,
            },
            Commands::AddFace { user, face } => Task::Enroll {
                user: user_or(user, current),
                face,
                refine: false,
            },
            Commands::RefineFace { user, face } => Task::Enroll {
                user: user_or(user, current),
                face,
                refine: true,
            },
            Commands::ListFaces { user } => Task::ListFaces { user: user_or(user, current) },
            Commands::RemoveFace { user, face } => Task::RemoveFace {
                user: user_or(user, current),
                face,
            },
            Commands::RenameFace { user, from, to } => Task::RenameFace {
                user: user_or(user, current),
                from,
                to,
            },
            Commands::ClearUser { user } => Task::ClearUser { user: user_or(user, current) },
            Commands::Config { show } => {
                if show {
                    Task::ShowConfig
                } else {
                    Task::EditConfig
                }
            },
            Commands::Doctor { user, benchmark } => Task::Doctor {
                user: user_or(user, current),
                benchmark,
            },
            Commands::Keyring { user, forget } => {
                if forget {
                    Task::ForgetKeyring { user: user_or(user, current) }
                } else {
                    Task::EnrollKeyring { user: user_or(user, current) }
                }
            },
            Commands::Uninstall { yes, keep_data, dry_run } => Task::Uninstall {
                yes,
                keep_data,
                dry_run,
            },
        }
    }
}

impl TaskModel {
    /// The task talks to the daemon.
    pub open spec fn uses_daemon(self) -> bool {
        !(self is Uninstall) && !(self is Doctor) && !(self is ForgetKeyring)
    }
}

impl Task {
    /// Whether the task needs a connection to the daemon before it starts.
    pub fn needs_daemon(&self) -> (r: bool)
        ensures
            r == self@.uses_daemon(),
    {
        match self {
            Task::Uninstall { .. } | Task::Doctor { .. } | Task::ForgetKeyring { .. } => false,
            _ => true,
        }
    }
}

// Showing the settings

/// A value in a report of the settings. Numbers are shown with two decimals.
#[derive(Clone, Debug)]
pub enum ReportValue {
    Text(String),
    Single(Single),
    Double(Double),
}

/// A value in a report, its text as a sequence.
pub enum ValueModel {
    Text(Seq<char>),
    Single(Single),
    Double(Double),
}

impl View for ReportValue {
    type V = ValueModel;

    open spec fn view(&self) -> ValueModel {
        match *self {
            ReportValue::Text(s) => ValueModel::Text(s@),
            ReportValue::Single(n) => ValueModel::Single(n),
            ReportValue::Double(n) => ValueModel::Double(n),
        }
    }
}

/// The lines of a report, their labels and values as text.
pub open spec fn report_models(lines: Seq<(&'static str, ReportValue)>) -> Seq<
    (Seq<char>, ValueModel),
> {
    lines.map_values(|line: (&'static str, ReportValue)| (line.0@, line.1@))
}

/// A truth value as text.
pub open spec fn bool_text(b: bool) -> Seq<char> {
    if b {
        "true"@
    } else {
        "false"@
    }
}

fn bool_value(b: bool) -> (r: ReportValue)
    ensures
        r@ == ValueModel::Text(bool_text(b)),
{
    if b {
        ReportValue::Text("true".to_owned())
    } else {
        ReportValue::Text("false".to_owned())
    }
}

fn count_value(n: u64) -> (r: ReportValue)
    ensures
        r@ == ValueModel::Text(decimal_text(n as nat)),
{
    ReportValue::Text(decimal(n))
}

fn text_value(s: &str) -> (r: ReportValue)
    ensures
        r@ == ValueModel::Text(s@),
{
    ReportValue::Text(s.to_owned())
}

/// The hybrid policy in a report: as it is set, or what it resolves to where it is not.
pub open spec fn policy_shown(config: ConfigModel) -> Seq<char> {
    if config.security.hybrid_policy.len() == 0 {
        "\"\" (resolved: "@ + config.security.policy() + ")"@
    } else {
        config.security.hybrid_policy
    }
}

/// How the models part of the report reads.
pub open spec fn models_report(config: ConfigModel) -> Seq<(Seq<char>, ValueModel)> {
    seq![
        (
            "inference.execution_provider:"@,
            ValueModel::Text(config.inference.execution_provider),
        ),
        ("inference.device:"@, ValueModel::Text(config.inference.device)),
        ("security.level:"@, ValueModel::Text(config.security.level)),
        (
            "security.detector:"@,
            ValueModel::Text(
                if config.security.accurate_detector() {
                    "det_10g.onnx"@
                } else {
                    "det_500m.onnx"@
                },
            ),
        ),
        (
            "security.recognizer:"@,
            ValueModel::Text(
                if config.security.accurate_recognizer() {
                    "w600k_r50.onnx"@
                } else {
                    "w600k_mbf.onnx"@
                },
            ),
        ),
        (
            "security.rgb_threshold:"@,
            ValueModel::Single(config.security.threshold_for(config.security.rgb_threshold)),
        ),
        (
            "security.ir_threshold:"@,
            ValueModel::Single(config.security.threshold_for(config.security.ir_threshold)),
        ),
        ("security.hybrid_policy:"@, ValueModel::Text(policy_shown(config))),
    ]
}

/// How the cameras part of the report reads.
pub open spec fn cameras_report(config: ConfigModel) -> Seq<(Seq<char>, ValueModel)> {
    seq![
        ("cameras.rgb:"@, ValueModel::Text(config.cameras.rgb)),
        ("cameras.ir:"@, ValueModel::Text(config.cameras.ir)),
        (
            "cameras.emitter_enabled:"@,
            ValueModel::Text(bool_text(config.cameras.emitter_enabled)),
        ),
        (
            "cameras.dark_luma_threshold:"@,
            ValueModel::Text(decimal_text(config.cameras.dark_luma_threshold as nat)),
        ),
    ]
}

/// How the authentication part of the report reads.
pub open spec fn auth_report(config: ConfigModel) -> Seq<(Seq<char>, ValueModel)> {
    seq![
        ("auth.abort_if_ssh:"@, ValueModel::Text(bool_text(config.auth.abort_if_ssh))),
        (
            "auth.abort_if_lid_closed:"@,
            ValueModel::Text(bool_text(config.auth.abort_if_lid_closed)),
        ),
        (
            "auth.require_confirmation_lock_screen:"@,
            ValueModel::Text(bool_text(config.auth.require_confirmation_lock_screen)),
        ),
        (
            "auth.require_confirmation_elevation:"@,
            ValueModel::Text(bool_text(config.auth.require_confirmation_elevation)),
        ),
        (
            "auth.resume_grace_ms:"@,
            ValueModel::Text(decimal_text(config.auth.resume_grace_ms as nat)),
        ),
        (
            "auth.start_delay_ms:"@,
            ValueModel::Text(decimal_text(config.auth.start_delay_ms as nat)),
        ),
        (
            "auth.start_delay_scope:"@,
            ValueModel::Text(
                if config.auth.only_screen_lock() {
                    "screen_lock"@
                } else {
                    "all"@
                },
            ),
        ),
    ]
}

/// How the rest of the report reads.
pub open spec fn templates_report(config: ConfigModel) -> Seq<(Seq<char>, ValueModel)> {
    seq![
        (
            "enrollment.max_templates:"@,
            ValueModel::Text(decimal_text(config.enrollment.max_templates as nat)),
        ),
        (
            "enrollment.min_face_size_ratio:"@,
            ValueModel::Double(config.enrollment.min_face_size_ratio),
        ),
        ("liveness.enabled:"@, ValueModel::Text(bool_text(config.liveness.enabled))),
        ("liveness.threshold:"@, ValueModel::Double(config.liveness.threshold)),
        (
            "liveness.max_frames:"@,
            ValueModel::Text(decimal_text(config.liveness.max_frames as nat)),
        ),
        (
            "storage.encrypt_templates:"@,
            ValueModel::Text(bool_text(config.storage.encrypt_templates)),
        ),
    ]
}

/// The report of the settings: models, thresholds and the scope of the start delay as they
/// resolve, everything else as it is set.
pub open spec fn settings_report(config: ConfigModel) -> Seq<(Seq<char>, ValueModel)> {
    models_report(config) + cameras_report(config) + auth_report(config) + templates_report(config)
}

/// Every setting has a line of its own in the report, under its own label: as it is set, or
/// as it resolves in the case of models, thresholds, an empty policy and the scope of the
/// start delay.
#[verifier::spinoff_prover]
#[verifier::rlimit(60)]
pub proof fn reports_show_every_setting(config: ConfigModel)
    ensures
        ({
            let report = settings_report(config);
            let inference = config.inference;
            let security = config.security;
            let cameras = config.cameras;
            let auth = config.auth;
            let enrollment = config.enrollment;
            let liveness = config.liveness;
            let storage = config.storage;
            &&& report.len() == 25
            &&& report.contains(("inference.execution_provider:"@, ValueModel::Text(inference.execution_provider)))
            &&& report.contains(("inference.device:"@, ValueModel::Text(inference.device)))
            &&& report.contains(("security.level:"@, ValueModel::Text(security.level)))
            &&& report.contains(("security.detector:"@, ValueModel::Text(if security.accurate_detector() { "det_10g.onnx"@ } else { "det_500m.onnx"@ })))
            &&& report.contains(("security.recognizer:"@, ValueModel::Text(if security.accurate_recognizer() { "w600k_r50.onnx"@ } else { "w600k_mbf.onnx"@ })))
            &&& report.contains(("security.rgb_threshold:"@, ValueModel::Single(security.threshold_for(security.rgb_threshold))))
            &&& report.contains(("security.ir_threshold:"@, ValueModel::Single(security.threshold_for(security.ir_threshold))))
            &&& report.contains(("security.hybrid_policy:"@, ValueModel::Text(policy_shown(config))))
            &&& report.contains(("cameras.rgb:"@, ValueModel::Text(cameras.rgb)))
            &&& report.contains(("cameras.ir:"@, ValueModel::Text(cameras.ir)))
            &&& report.contains(("cameras.emitter_enabled:"@, ValueModel::Text(bool_text(cameras.emitter_enabled))))
            &&& report.contains(("cameras.dark_luma_threshold:"@, ValueModel::Text(decimal_text(cameras.dark_luma_threshold as nat))))
            &&& report.contains(("auth.abort_if_ssh:"@, ValueModel::Text(bool_text(auth.abort_if_ssh))))
            &&& report.contains(("auth.abort_if_lid_closed:"@, ValueModel::Text(bool_text(auth.abort_if_lid_closed))))
            &&& report.contains(("auth.require_confirmation_lock_screen:"@, ValueModel::Text(bool_text(auth.require_confirmation_lock_screen))))
            &&& report.contains(("auth.require_confirmation_elevation:"@, ValueModel::Text(bool_text(auth.require_confirmation_elevation))))
            &&& report.contains(("auth.resume_grace_ms:"@, ValueModel::Text(decimal_text(auth.resume_grace_ms as nat))))
            &&& report.contains(("auth.start_delay_ms:"@, ValueModel::Text(decimal_text(auth.start_delay_ms as nat))))
            &&& report.contains(("auth.start_delay_scope:"@, ValueModel::Text(if auth.only_screen_lock() { "screen_lock"@ } else { "all"@ })))
            &&& report.contains(("enrollment.max_templates:"@, ValueModel::Text(decimal_text(enrollment.max_templates as nat))))
            &&& report.contains(("enrollment.min_face_size_ratio:"@, ValueModel::Double(enrollment.min_face_size_ratio)))
            &&& report.contains(("liveness.enabled:"@, ValueModel::Text(bool_text(liveness.enabled))))
            &&& report.contains(("liveness.threshold:"@, ValueModel::Double(liveness.threshold)))
            &&& report.contains(("liveness.max_frames:"@, ValueModel::Text(decimal_text(liveness.max_frames as nat))))
            &&& report.contains(("storage.encrypt_templates:"@, ValueModel::Text(bool_text(storage.encrypt_templates))))
        }),
{
    let report = settings_report(config);
    let inference = config.inference;
    let security = config.security;
    let cameras = config.cameras;
    let auth = config.auth;
    let enrollment = config.enrollment;
    let liveness = config.liveness;
    let storage = config.storage;
    assert(report[0] == ("inference.execution_provider:"@, ValueModel::Text(inference.execution_provider)));
    assert(report[1] == ("inference.device:"@, ValueModel::Text(inference.device)));
    assert(report[2] == ("security.level:"@, ValueModel::Text(security.level)));
    assert(report[3] == ("security.detector:"@, ValueModel::Text(if security.accurate_detector() { "det_10g.onnx"@ } else { "det_500m.onnx"@ })));
    assert(report[4] == ("security.recognizer:"@, ValueModel::Text(if security.accurate_recognizer() { "w600k_r50.onnx"@ } else { "w600k_mbf.onnx"@ })));
    assert(report[5] == ("security.rgb_threshold:"@, ValueModel::Single(security.threshold_for(security.rgb_threshold))));
    assert(report[6] == ("security.ir_threshold:"@, ValueModel::Single(security.threshold_for(security.ir_threshold))));
    assert(report[7] == ("security.hybrid_policy:"@, ValueModel::Text(policy_shown(config))));
    assert(report[8] == ("cameras.rgb:"@, ValueModel::Text(cameras.rgb)));
    assert(report[9] == ("cameras.ir:"@, ValueModel::Text(cameras.ir)));
    assert(report[10] == ("cameras.emitter_enabled:"@, ValueModel::Text(bool_text(cameras.emitter_enabled))));
    assert(report[11] == ("cameras.dark_luma_threshold:"@, ValueModel::Text(decimal_text(cameras.dark_luma_threshold as nat))));
    assert(report[12] == ("auth.abort_if_ssh:"@, ValueModel::Text(bool_text(auth.abort_if_ssh))));
    assert(report[13] == ("auth.abort_if_lid_closed:"@, ValueModel::Text(bool_text(auth.abort_if_lid_closed))));
    assert(report[14] == ("auth.require_confirmation_lock_screen:"@, ValueModel::Text(bool_text(auth.require_confirmation_lock_screen))));
    assert(report[15] == ("auth.require_confirmation_elevation:"@, ValueModel::Text(bool_text(auth.require_confirmation_elevation))));
    assert(report[16] == ("auth.resume_grace_ms:"@, ValueModel::Text(decimal_text(auth.resume_grace_ms as nat))));
    assert(report[17] == ("auth.start_delay_ms:"@, ValueModel::Text(decimal_text(auth.start_delay_ms as nat))));
    assert(report[18] == ("auth.start_delay_scope:"@, ValueModel::Text(if auth.only_screen_lock() { "screen_lock"@ } else { "all"@ })));
    assert(report[19] == ("enrollment.max_templates:"@, ValueModel::Text(decimal_text(enrollment.max_templates as nat))));
    assert(report[20] == ("enrollment.min_face_size_ratio:"@, ValueModel::Double(enrollment.min_face_size_ratio)));
    assert(report[21] == ("liveness.enabled:"@, ValueModel::Text(bool_text(liveness.enabled))));
    assert(report[22] == ("liveness.threshold:"@, ValueModel::Double(liveness.threshold)));
    assert(report[23] == ("liveness.max_frames:"@, ValueModel::Text(decimal_text(liveness.max_frames as nat))));
    assert(report[24] == ("storage.encrypt_templates:"@, ValueModel::Text(bool_text(storage.encrypt_templates))));
}

/// A policy that is set is shown as it is; otherwise what it resolves to is shown.
pub proof fn unset_policies_show_what_they_resolve_to(config: ConfigModel)
    ensures
        config.security.hybrid_policy.len() > 0 ==> policy_shown(config)
            == config.security.hybrid_policy,
        config.security.hybrid_policy.len() == 0 ==> contains_text(
            policy_shown(config),
            config.security.policy(),
        ) && contains_text(policy_shown(config), "resolved"@),
{
    reveal_strlit("\"\" (resolved: ");
    reveal_strlit("resolved");
    let shown = policy_shown(config);
    let policy = config.security.policy();
    if config.security.hybrid_policy.len() == 0 {
        assert(shown.subrange(14, 14 + policy.len() as int) =~= policy);
        assert(stands_at(shown, policy, 14));
        assert(shown.subrange(4, 12) =~= "resolved"@);
        assert(stands_at(shown, "resolved"@, 4));
    }
}

/// Truth values read as themselves and differently.
pub proof fn truth_values_are_told_apart(b: bool, other: bool)
    ensures
        bool_text(b) == bool_text(other) <==> b == other,
        b <==> bool_text(b) == "true"@,
        !b <==> bool_text(b) == "false"@,
{
    reveal_strlit("true");
    reveal_strlit("false");
    assert("true"@.len() == 4 && "false"@.len() == 5);
}

fn add_line(lines: &mut Vec<(&'static str, ReportValue)>, label: &'static str, value: ReportValue)
    ensures
        report_models(final(lines)@) == report_models(old(lines)@).push((label@, value@)),
{
    assert(report_models(lines@.push((label, value))) =~= report_models(lines@).push(
        (label@, value@),
    ));
    lines.push((label, value));
}

fn add_models(lines: &mut Vec<(&'static str, ReportValue)>, config: &Config)
    ensures
        report_models(final(lines)@) == report_models(old(lines)@) + models_report(config@),
{
    let ghost before = report_models(lines@);
    add_line(
        lines,
        "inference.execution_provider:",
        text_value(config.inference.execution_provider.as_str()),
    );
    add_line(lines, "inference.device:", text_value(config.inference.device.as_str()));
    add_line(lines, "security.level:", text_value(config.security.level.as_str()));
    add_line(lines, "security.detector:", text_value(config.security.detector()));
    add_line(lines, "security.recognizer:", text_value(config.security.recognizer()));
    add_line(
        lines,
        "security.rgb_threshold:",
        ReportValue::Single(config.security.rgb_threshold()),
    );
    add_line(
        lines,
        "security.ir_threshold:",
        ReportValue::Single(config.security.ir_threshold()),
    );
    let policy: String = if config.security.hybrid_policy.as_str().is_empty() {
        let mut shown: String = joined("\"\" (resolved: ", config.security.hybrid_policy());
        shown.append(")");
        shown
    } else {
        config.security.hybrid_policy.clone()
    };
    add_line(lines, "security.hybrid_policy:", ReportValue::Text(policy));
    assert(report_models(lines@) =~= before + models_report(config@));
}

fn add_cameras(lines: &mut Vec<(&'static str, ReportValue)>, config: &Config)
    ensures
        report_models(final(lines)@) == report_models(old(lines)@) + cameras_report(config@),
{
    let ghost before = report_models(lines@);
    add_line(lines, "cameras.rgb:", text_value(config.cameras.rgb.as_str()));
    add_line(lines, "cameras.ir:", text_value(config.cameras.ir.as_str()));
    add_line(lines, "cameras.emitter_enabled:", bool_value(config.cameras.emitter_enabled));
    add_line(
        lines,
        "cameras.dark_luma_threshold:",
        count_value(config.cameras.dark_luma_threshold as u64),
    );
    assert(report_models(lines@) =~= before + cameras_report(config@));
}

fn add_auth(lines: &mut Vec<(&'static str, ReportValue)>, config: &Config)
    ensures
        report_models(final(lines)@) == report_models(old(lines)@) + auth_report(config@),
{
    let ghost before = report_models(lines@);
    add_line(lines, "auth.abort_if_ssh:", bool_value(config.auth.abort_if_ssh));
    add_line(lines, "auth.abort_if_lid_closed:", bool_value(config.auth.abort_if_lid_closed));
    add_line(
        lines,
        "auth.require_confirmation_lock_screen:",
        bool_value(config.auth.require_confirmation_lock_screen),
    );
    add_line(
        lines,
        "auth.require_confirmation_elevation:",
        bool_value(config.auth.require_confirmation_elevation),
    );
    add_line(lines, "auth.resume_grace_ms:", count_value(config.auth.resume_grace_ms));
    add_line(lines, "auth.start_delay_ms:", count_value(config.auth.start_delay_ms));
    add_line(lines, "auth.start_delay_scope:", text_value(config.auth.start_delay_scope()));
    assert(report_models(lines@) =~= before + auth_report(config@));
}

fn add_templates(lines: &mut Vec<(&'static str, ReportValue)>, config: &Config)
    ensures
        report_models(final(lines)@) == report_models(old(lines)@) + templates_report(config@),
{
    let ghost before = report_models(lines@);
    add_line(
        lines,
        "enrollment.max_templates:",
        count_value(config.enrollment.max_templates as u64),
    );
    add_line(
        lines,
        "enrollment.min_face_size_ratio:",
        ReportValue::Double(config.enrollment.min_face_size_ratio),
    );
    add_line(lines, "liveness.enabled:", bool_value(config.liveness.enabled));
    add_line(lines, "liveness.threshold:", ReportValue::Double(config.liveness.threshold));
    add_line(lines, "liveness.max_frames:", count_value(config.liveness.max_frames as u64));
    add_line(
        lines,
        "storage.encrypt_templates:",
        bool_value(config.storage.encrypt_templates),
    );
    assert(report_models(lines@) =~= before + templates_report(config@));
}

/// The report of the settings, line by line.
pub fn config_report(config: &Config) -> (r: Vec<(&'static str, ReportValue)>)
    ensures
        report_models(r@) == settings_report(config@),
{
    let mut lines: Vec<(&'static str, ReportValue)> = Vec::new();
    assert(report_models(lines@) =~= seq![]);
    add_models(&mut lines, config);
    add_cameras(&mut lines, config);
    add_auth(&mut lines, config);
    add_templates(&mut lines, config);
    assert(report_models(lines@) =~= settings_report(config@));
    lines
}

} // verus!
