//! The shell's session machine.
//!
//! A `Shell` holds the session's state. Each call to `step` consumes one
//! event — an input line, or the outcome of a previously requested action —
//! and returns the next state together with the actions the surrounding
//! process must perform: messages to print, a prompt to show, or one
//! filesystem request whose outcome comes back as the next event.
//!
//! The whole transition is specified by the `step_v` function over the
//! types' views, and `step` is proved to implement it exactly.

use vstd::prelude::*;

use crate::octal::mode_of;
use crate::octal::parse_octal_u32;
use crate::text::split_line;
use crate::text::tokens;
use crate::text::trim_spec;
use crate::text::trim_str;
use crate::verbs::Verb;
use crate::verbs::arity;
use crate::verbs::arity_of;
use crate::verbs::label;
use crate::verbs::parse_verb;
use crate::verbs::prompt_label;

verus! {

/// How a printed message should be presented.
#[derive(Clone, Copy, PartialEq, Eq, Structural, Debug)]
pub enum Severity {
    Info,
    Success,
    Warning,
    Error,
}

/// What the surrounding process must do next. At most one action per step
/// asks for an answer, and it is the step's last action (proved as
/// `laws::lemma_at_most_one_request`); the answer is the next event.
#[derive(PartialEq, Eq, Debug)]
pub enum Action {
    /// Print one line with the given severity.
    Print(Severity, String),
    /// Show the label and read one line; answer with `Event::Line`.
    PromptArg(String),
    /// Report whether the path exists; answer with `Event::Exists`.
    CheckExists(String),
    /// Copy the first path's contents to the second; answer with `Event::OpResult`.
    CopyFile(String, String),
    /// Delete the file; answer with `Event::OpResult`.
    RemoveFile(String),
    /// Rename/move the first path to the second; answer with `Event::OpResult`.
    RenamePath(String, String),
    /// Create the directory and its missing parents; answer with `Event::OpResult`.
    CreateDirAll(String),
    /// Create the file if absent, or open it for writing; answer with `Event::OpResult`.
    CreateFile(String),
    /// Apply the permission bits to the path; answer with `Event::OpResult`.
    SetPermissions(String, u32),
    /// Change the working directory; answer with `Event::OpResult`.
    ChangeDir(String),
    /// List the working directory's entry names; answer with `Event::Entries`.
    ListDir,
    /// Ask the host to show the path in its file browser; answer with `Event::OpResult`.
    ShowProperties(String),
}

/// What happened outside: an input line, or an action's outcome.
pub enum Event {
    /// A line read from the terminal.
    Line(String),
    /// Reading a line failed.
    ReadFailed,
    /// The answer to `CheckExists`.
    Exists(bool),
    /// The outcome of a filesystem action: `None` on success, or the
    /// failure's cause as text.
    OpResult(Option<String>),
    /// The outcome of `ListDir`: the entry names, or the failure's cause.
    Entries(Result<Vec<String>, String>),
}

/// The session's state between events.
pub enum Mode {
    /// Waiting for a command line.
    Ready,
    /// Waiting for the reply to a prompt for the argument at `have.len()`.
    Prompting { verb: Verb, have: Vec<String> },
    /// Waiting for the answer to an existence pre-check.
    AwaitExists { verb: Verb, src: String, dst: String },
    /// Waiting for a filesystem action's outcome.
    AwaitOp { verb: Verb },
    /// Waiting for the directory listing.
    AwaitList,
    /// The session has ended.
    Finished,
}

/// The session: its mode and the host's capabilities, fixed at startup.
pub struct Shell {
    pub mode: Mode,
    /// Whether the host has a POSIX-style permission model.
    pub posix: bool,
    /// Whether the host has a graphical file browser.
    pub gui: bool,
}

/// View of `Action`.
pub enum ActionV {
    Print(Severity, Seq<char>),
    PromptArg(Seq<char>),
    CheckExists(Seq<char>),
    CopyFile(Seq<char>, Seq<char>),
    RemoveFile(Seq<char>),
    RenamePath(Seq<char>, Seq<char>),
    CreateDirAll(Seq<char>),
    CreateFile(Seq<char>),
    SetPermissions(Seq<char>, u32),
    ChangeDir(Seq<char>),
    ListDir,
    ShowProperties(Seq<char>),
}

/// View of `Event`.
pub enum EventV {
    Line(Seq<char>),
    ReadFailed,
    Exists(bool),
    OpResult(Option<Seq<char>>),
    Entries(Result<Seq<Seq<char>>, Seq<char>>),
}

/// View of `Mode`.
#[verifier::ext_equal]
pub enum ModeV {
    Ready,
    Prompting { verb: Verb, have: Seq<Seq<char>> },
    AwaitExists { verb: Verb, src: Seq<char>, dst: Seq<char> },
    AwaitOp { verb: Verb },
    AwaitList,
    Finished,
}

/// View of `Shell`.
#[verifier::ext_equal]
pub struct ShellV {
    pub mode: ModeV,
    pub posix: bool,
    pub gui: bool,
}

/// The views of a sequence of strings.
pub open spec fn str_views(s: Seq<String>) -> Seq<Seq<char>> {
    s.map_values(|x: String| x@)
}

/// The views of a sequence of actions.
pub open spec fn action_views(s: Seq<Action>) -> Seq<ActionV> {
    s.map_values(|x: Action| x@)
}

impl View for Action {
    type V = ActionV;

    open spec fn view(&self) -> ActionV {
        match self {
            Action::Print(sev, s) => ActionV::Print(*sev, s@),
            Action::PromptArg(s) => ActionV::PromptArg(s@),
            Action::CheckExists(s) => ActionV::CheckExists(s@),
            Action::CopyFile(a, b) => ActionV::CopyFile(a@, b@),
            Action::RemoveFile(s) => ActionV::RemoveFile(s@),
            Action::RenamePath(a, b) => ActionV::RenamePath(a@, b@),
            Action::CreateDirAll(s) => ActionV::CreateDirAll(s@),
            Action::CreateFile(s) => ActionV::CreateFile(s@),
            Action::SetPermissions(s, m) => ActionV::SetPermissions(s@, *m),
            Action::ChangeDir(s) => ActionV::ChangeDir(s@),
            Action::ListDir => ActionV::ListDir,
            Action::ShowProperties(s) => ActionV::ShowProperties(s@),
        }
    }
}

impl View for Event {
    type V = EventV;

    open spec fn view(&self) -> EventV {
        match self {
            Event::Line(l) => EventV::Line(l@),
            Event::ReadFailed => EventV::ReadFailed,
            Event::Exists(b) => EventV::Exists(*b),
            Event::OpResult(r) => EventV::OpResult(
                match r {
                    Option::Some(e) => Option::Some(e@),
                    Option::None => Option::None,
                },
            ),
            Event::Entries(r) => EventV::Entries(
                match r {
                    Result::Ok(v) => Result::Ok(str_views(v@)),
                    Result::Err(e) => Result::Err(e@),
                },
            ),
        }
    }
}

impl View for Mode {
    type V = ModeV;

    open spec fn view(&self) -> ModeV {
        match self {
            Mode::Ready => ModeV::Ready,
            Mode::Prompting { verb, have } => ModeV::Prompting {
                verb: *verb,
                have: str_views(have@),
            },
            Mode::AwaitExists { verb, src, dst } => ModeV::AwaitExists {
                verb: *verb,
                src: src@,
                dst: dst@,
            },
            Mode::AwaitOp { verb } => ModeV::AwaitOp { verb: *verb },
            Mode::AwaitList => ModeV::AwaitList,
            Mode::Finished => ModeV::Finished,
        }
    }
}

impl View for Shell {
    type V = ShellV;

    open spec fn view(&self) -> ShellV {
        ShellV { mode: self.mode@, posix: self.posix, gui: self.gui }
    }
}

/// The "unknown command" report.
pub open spec fn unknown_cmd_msg() -> Seq<char> {
    "Unknown command."@
}

/// The one-line list of supported verbs.
pub open spec fn available_msg() -> Seq<char> {
    "Available: cp, rm, mv, ren, mkdir, touch, chmod, cd, ls/dir, cut, prop, exit"@
}

/// The report for a failed line read.
pub open spec fn read_failed_msg() -> Seq<char> {
    "Failed to read input."@
}

/// The farewell printed on exit.
pub open spec fn farewell_msg() -> Seq<char> {
    "Exiting. Peace out!"@
}

/// The report when a malformed permission string is rejected.
pub open spec fn bad_octal_msg() -> Seq<char> {
    "Invalid permission format. Use octal (e.g. 755)"@
}

/// The report when `chmod` is unavailable on the host.
pub open spec fn chmod_unsupported_msg() -> Seq<char> {
    "chmod is not supported on this platform."@
}

/// The report when `prop` is unavailable on the host.
pub open spec fn prop_unsupported_msg() -> Seq<char> {
    "prop is not supported on this platform."@
}

/// The report when an existence pre-check fails.
pub open spec fn missing_src_msg(v: Verb) -> Seq<char> {
    if v is Cp {
        "Source file doesn't exist."@
    } else {
        "File doesn't exist."@
    }
}

/// The confirmation printed when the verb's action succeeds, if any.
pub open spec fn success_msg(v: Verb) -> Option<Seq<char>> {
    match v {
        Verb::Cp => Option::Some("File copied successfully."@),
        Verb::Rm => Option::Some("File removed."@),
        Verb::Mv => Option::Some("File moved."@),
        Verb::Ren => Option::Some("File renamed."@),
        Verb::Mkdir => Option::Some("Directory created."@),
        Verb::Touch => Option::Some("File touched."@),
        Verb::Chmod => Option::Some("Permissions updated."@),
        Verb::Cd => Option::None,
        Verb::Ls => Option::None,
        Verb::Prop => Option::None,
        Verb::Exit => Option::None,
    }
}

/// The prefix of the report printed when the verb's action fails; the
/// underlying cause is appended verbatim.
pub open spec fn fail_prefix(v: Verb) -> Seq<char> {
    match v {
        Verb::Cp => "Failed to copy file: "@,
        Verb::Rm => "Failed to remove file: "@,
        Verb::Mv => "Failed to move file: "@,
        Verb::Ren => "Failed to rename file: "@,
        Verb::Mkdir => "Failed to create directory: "@,
        Verb::Touch => "Failed to create file: "@,
        Verb::Chmod => "Failed to set permissions: "@,
        Verb::Cd => "Failed to change directory: "@,
        Verb::Ls => "Failed to list directory: "@,
        Verb::Prop => "Failed to open properties: "@,
        Verb::Exit => Seq::<char>::empty(),
    }
}

/// `pre` with its mode replaced.
pub open spec fn with_mode(pre: ShellV, m: ModeV) -> ShellV {
    ShellV { mode: m, posix: pre.posix, gui: pre.gui }
}

/// Dispatch a verb whose arguments are fully resolved: the filesystem
/// request (or rejection) it produces, and the mode that awaits its outcome.
pub open spec fn run_cmd(gui: bool, v: Verb, args: Seq<Seq<char>>) -> (ModeV, Seq<ActionV>)
    recommends
        args.len() >= arity(v),
{
    match v {
        Verb::Cp => (
            ModeV::AwaitExists { verb: v, src: args[0], dst: args[1] },
            seq![ActionV::CheckExists(args[0])],
        ),
        Verb::Mv => (
            ModeV::AwaitExists { verb: v, src: args[0], dst: args[1] },
            seq![ActionV::CheckExists(args[0])],
        ),
        Verb::Rm => (ModeV::AwaitOp { verb: v }, seq![ActionV::RemoveFile(args[0])]),
        Verb::Ren => (ModeV::AwaitOp { verb: v }, seq![ActionV::RenamePath(args[0], args[1])]),
        Verb::Mkdir => (ModeV::AwaitOp { verb: v }, seq![ActionV::CreateDirAll(args[0])]),
        Verb::Touch => (ModeV::AwaitOp { verb: v }, seq![ActionV::CreateFile(args[0])]),
        Verb::Chmod => match mode_of(args[0]) {
            Option::Some(m) => (
                ModeV::AwaitOp { verb: v },
                seq![ActionV::SetPermissions(args[1], m)],
            ),
            Option::None => (
                ModeV::Ready,
                seq![ActionV::Print(Severity::Error, bad_octal_msg())],
            ),
        },
        Verb::Cd => (ModeV::AwaitOp { verb: v }, seq![ActionV::ChangeDir(args[0])]),
        Verb::Ls => (ModeV::AwaitList, seq![ActionV::ListDir]),
        Verb::Prop => if gui {
            (ModeV::AwaitOp { verb: v }, seq![ActionV::ShowProperties(args[0])])
        } else {
            (ModeV::Ready, seq![ActionV::Print(Severity::Warning, prop_unsupported_msg())])
        },
        Verb::Exit => (ModeV::Finished, seq![ActionV::Print(Severity::Info, farewell_msg())]),
    }
}

/// Begin a command whose verb is recognized: reject an unsupported verb,
/// run it if enough arguments were supplied (extras are ignored), or prompt
/// for the first missing argument.
pub open spec fn begin_cmd(posix: bool, gui: bool, v: Verb, supplied: Seq<Seq<char>>) -> (
    ModeV,
    Seq<ActionV>,
) {
    if v is Chmod && !posix {
        (ModeV::Ready, seq![ActionV::Print(Severity::Warning, chmod_unsupported_msg())])
    } else if supplied.len() >= arity(v) {
        run_cmd(gui, v, supplied.take(arity(v) as int))
    } else {
        (
            ModeV::Prompting { verb: v, have: supplied },
            seq![ActionV::PromptArg(label(v, supplied.len() as int))],
        )
    }
}

/// One transition while waiting for a command line.
pub open spec fn step_ready(pre: ShellV, ev: EventV) -> (ShellV, Seq<ActionV>) {
    match ev {
        EventV::Line(l) => {
            let ts = tokens(l);
            if ts.len() == 0 {
                (pre, Seq::<ActionV>::empty())
            } else {
                match crate::verbs::verb_of(ts[0]) {
                    Option::Some(v) => {
                        let b = begin_cmd(pre.posix, pre.gui, v, ts.skip(1));
                        (with_mode(pre, b.0), b.1)
                    },
                    Option::None => (
                        pre,
                        seq![
                            ActionV::Print(Severity::Error, unknown_cmd_msg()),
                            ActionV::Print(Severity::Warning, available_msg()),
                        ],
                    ),
                }
            }
        },
        EventV::ReadFailed => (pre, seq![ActionV::Print(Severity::Error, read_failed_msg())]),
        _ => (pre, Seq::<ActionV>::empty()),
    }
}

/// One transition while waiting for the reply to an argument prompt. A
/// failed read abandons the pending command.
pub open spec fn step_prompting(pre: ShellV, v: Verb, have: Seq<Seq<char>>, ev: EventV) -> (
    ShellV,
    Seq<ActionV>,
) {
    match ev {
        EventV::Line(l) => {
            let have2 = have.push(trim_spec(l));
            if have2.len() < arity(v) {
                (
                    with_mode(pre, ModeV::Prompting { verb: v, have: have2 }),
                    seq![ActionV::PromptArg(label(v, have2.len() as int))],
                )
            } else {
                let r = run_cmd(pre.gui, v, have2);
                (with_mode(pre, r.0), r.1)
            }
        },
        EventV::ReadFailed => (
            with_mode(pre, ModeV::Ready),
            seq![ActionV::Print(Severity::Error, read_failed_msg())],
        ),
        _ => (pre, Seq::<ActionV>::empty()),
    }
}

/// One transition while waiting for an existence pre-check's answer.
pub open spec fn step_await_exists(
    pre: ShellV,
    v: Verb,
    src: Seq<char>,
    dst: Seq<char>,
    ev: EventV,
) -> (ShellV, Seq<ActionV>) {
    match ev {
        EventV::Exists(b) => if !b {
            (
                with_mode(pre, ModeV::Ready),
                seq![ActionV::Print(Severity::Error, missing_src_msg(v))],
            )
        } else if v is Cp {
            (with_mode(pre, ModeV::AwaitOp { verb: v }), seq![ActionV::CopyFile(src, dst)])
        } else {
            (with_mode(pre, ModeV::AwaitOp { verb: v }), seq![ActionV::RenamePath(src, dst)])
        },
        _ => (pre, Seq::<ActionV>::empty()),
    }
}

/// One transition while waiting for a filesystem action's outcome.
pub open spec fn step_await_op(pre: ShellV, v: Verb, ev: EventV) -> (ShellV, Seq<ActionV>) {
    match ev {
        EventV::OpResult(res) => match res {
            Option::None => (
                with_mode(pre, ModeV::Ready),
                match success_msg(v) {
                    Option::Some(m) => seq![ActionV::Print(Severity::Success, m)],
                    Option::None => Seq::<ActionV>::empty(),
                },
            ),
            Option::Some(e) => (
                with_mode(pre, ModeV::Ready),
                seq![ActionV::Print(Severity::Error, fail_prefix(v) + e)],
            ),
        },
        _ => (pre, Seq::<ActionV>::empty()),
    }
}

/// One transition while waiting for the directory listing: one line per
/// entry, in the listed order.
pub open spec fn step_await_list(pre: ShellV, ev: EventV) -> (ShellV, Seq<ActionV>) {
    match ev {
        EventV::Entries(res) => match res {
            Result::Ok(names) => (
                with_mode(pre, ModeV::Ready),
                names.map_values(|nm: Seq<char>| ActionV::Print(Severity::Info, nm)),
            ),
            Result::Err(e) => (
                with_mode(pre, ModeV::Ready),
                seq![ActionV::Print(Severity::Error, fail_prefix(Verb::Ls) + e)],
            ),
        },
        _ => (pre, Seq::<ActionV>::empty()),
    }
}

/// The session's full transition function: the state after the event, and
/// the actions the event produces, in order.
pub open spec fn step_v(pre: ShellV, ev: EventV) -> (ShellV, Seq<ActionV>) {
    match pre.mode {
        ModeV::Ready => step_ready(pre, ev),
        ModeV::Prompting { verb, have } => step_prompting(pre, verb, have, ev),
        ModeV::AwaitExists { verb, src, dst } => step_await_exists(pre, verb, src, dst, ev),
        ModeV::AwaitOp { verb } => step_await_op(pre, verb, ev),
        ModeV::AwaitList => step_await_list(pre, ev),
        ModeV::Finished => (pre, Seq::<ActionV>::empty()),
    }
}

/// A one-action sequence.
fn one_action(a: Action) -> (r: Vec<Action>)
    ensures
        r@ == seq![a],
{
    let mut r: Vec<Action> = Vec::new();
    r.push(a);
    proof {
        assert(r@ =~= seq![a]);
    }
    r
}

/// A two-action sequence.
fn two_actions(a: Action, b: Action) -> (r: Vec<Action>)
    ensures
        r@ == seq![a, b],
{
    let mut r: Vec<Action> = Vec::new();
    r.push(a);
    r.push(b);
    proof {
        assert(r@ =~= seq![a, b]);
    }
    r
}

/// The report for a failed action: the verb's prefix, then the cause.
fn fail_message(v: Verb, cause: &String) -> (r: String)
    ensures
        r@ == fail_prefix(v) + cause@,
{
    let mut m: String = match v {
        Verb::Cp => "Failed to copy file: ".to_owned(),
        Verb::Rm => "Failed to remove file: ".to_owned(),
        Verb::Mv => "Failed to move file: ".to_owned(),
        Verb::Ren => "Failed to rename file: ".to_owned(),
        Verb::Mkdir => "Failed to create directory: ".to_owned(),
        Verb::Touch => "Failed to create file: ".to_owned(),
        Verb::Chmod => "Failed to set permissions: ".to_owned(),
        Verb::Cd => "Failed to change directory: ".to_owned(),
        Verb::Ls => "Failed to list directory: ".to_owned(),
        Verb::Prop => "Failed to open properties: ".to_owned(),
        Verb::Exit => String::new(),
    };
    m.append(cause.as_str());
    m
}

/// The verb's success confirmation, as actions: one message, or none.
fn success_actions(v: Verb) -> (r: Vec<Action>)
    ensures
        action_views(r@) == (match success_msg(v) {
            Option::Some(m) => seq![ActionV::Print(Severity::Success, m)],
            Option::None => Seq::<ActionV>::empty(),
        }),
{
    let r: Vec<Action> = match v {
        Verb::Cp => one_action(Action::Print(Severity::Success, "File copied successfully.".to_owned())),
        Verb::Rm => one_action(Action::Print(Severity::Success, "File removed.".to_owned())),
        Verb::Mv => one_action(Action::Print(Severity::Success, "File moved.".to_owned())),
        Verb::Ren => one_action(Action::Print(Severity::Success, "File renamed.".to_owned())),
        Verb::Mkdir => one_action(Action::Print(Severity::Success, "Directory created.".to_owned())),
        Verb::Touch => one_action(Action::Print(Severity::Success, "File touched.".to_owned())),
        Verb::Chmod => one_action(Action::Print(Severity::Success, "Permissions updated.".to_owned())),
        Verb::Cd => Vec::new(),
        Verb::Ls => Vec::new(),
        Verb::Prop => Vec::new(),
        Verb::Exit => Vec::new(),
    };
    proof {
        match success_msg(v) {
            Option::Some(m) => {
                assert(action_views(r@) =~= seq![ActionV::Print(Severity::Success, m)]);
            },
            Option::None => {
                assert(action_views(r@) =~= Seq::<ActionV>::empty());
            },
        }
    }
    r
}

/// Dispatch a verb with its resolved arguments (extras beyond the verb's
/// arity are ignored).
fn do_run(posix: bool, gui: bool, v: Verb, args: Vec<String>) -> (r: (Shell, Vec<Action>))
    requires
        args@.len() >= arity(v),
    ensures
        ({
            let c = run_cmd(gui, v, str_views(args@));
            r.0@ == with_mode(ShellV { mode: ModeV::Ready, posix, gui }, c.0) && action_views(
                r.1@,
            ) == c.1
        }),
{
    let r: (Shell, Vec<Action>) = match v {
        Verb::Cp => (
            Shell {
                mode: Mode::AwaitExists { verb: v, src: args[0].clone(), dst: args[1].clone() },
                posix,
                gui,
            },
            one_action(Action::CheckExists(args[0].clone())),
        ),
        Verb::Mv => (
            Shell {
                mode: Mode::AwaitExists { verb: v, src: args[0].clone(), dst: args[1].clone() },
                posix,
                gui,
            },
            one_action(Action::CheckExists(args[0].clone())),
        ),
        Verb::Rm => (
            Shell { mode: Mode::AwaitOp { verb: v }, posix, gui },
            one_action(Action::RemoveFile(args[0].clone())),
        ),
        Verb::Ren => (
            Shell { mode: Mode::AwaitOp { verb: v }, posix, gui },
            one_action(Action::RenamePath(args[0].clone(), args[1].clone())),
        ),
        Verb::Mkdir => (
            Shell { mode: Mode::AwaitOp { verb: v }, posix, gui },
            one_action(Action::CreateDirAll(args[0].clone())),
        ),
        Verb::Touch => (
            Shell { mode: Mode::AwaitOp { verb: v }, posix, gui },
            one_action(Action::CreateFile(args[0].clone())),
        ),
        Verb::Chmod => match parse_octal_u32(args[0].as_str()) {
            Option::Some(m) => (
                Shell { mode: Mode::AwaitOp { verb: v }, posix, gui },
                one_action(Action::SetPermissions(args[1].clone(), m)),
            ),
            Option::None => (
                Shell { mode: Mode::Ready, posix, gui },
                one_action(
                    Action::Print(
                        Severity::Error,
                        "Invalid permission format. Use octal (e.g. 755)".to_owned(),
                    ),
                ),
            ),
        },
        Verb::Cd => (
            Shell { mode: Mode::AwaitOp { verb: v }, posix, gui },
            one_action(Action::ChangeDir(args[0].clone())),
        ),
        Verb::Ls => (
            Shell { mode: Mode::AwaitList, posix, gui },
            one_action(Action::ListDir),
        ),
        Verb::Prop => if gui {
            (
                Shell { mode: Mode::AwaitOp { verb: v }, posix, gui },
                one_action(Action::ShowProperties(args[0].clone())),
            )
        } else {
            (
                Shell { mode: Mode::Ready, posix, gui },
                one_action(
                    Action::Print(
                        Severity::Warning,
                        "prop is not supported on this platform.".to_owned(),
                    ),
                ),
            )
        },
        Verb::Exit => (
            Shell { mode: Mode::Finished, posix, gui },
            one_action(Action::Print(Severity::Info, "Exiting. Peace out!".to_owned())),
        ),
    };
    proof {
        let c = run_cmd(gui, v, str_views(args@));
        assert(r.0@ =~= with_mode(ShellV { mode: ModeV::Ready, posix, gui }, c.0));
        assert(action_views(r.1@) =~= c.1);
    }
    r
}

/// Begin a recognized command: run it, reject it, or prompt.
fn do_begin(posix: bool, gui: bool, v: Verb, supplied: Vec<String>) -> (r: (Shell, Vec<Action>))
    ensures
        ({
            let b = begin_cmd(posix, gui, v, str_views(supplied@));
            r.0@ == with_mode(ShellV { mode: ModeV::Ready, posix, gui }, b.0) && action_views(
                r.1@,
            ) == b.1
        }),
{
    if v == Verb::Chmod && !posix {
        let r = (
            Shell { mode: Mode::Ready, posix, gui },
            one_action(
                Action::Print(
                    Severity::Warning,
                    "chmod is not supported on this platform.".to_owned(),
                ),
            ),
        );
        proof {
            assert(action_views(r.1@) =~= begin_cmd(posix, gui, v, str_views(supplied@)).1);
        }
        r
    } else {
        let n: usize = arity_of(v);
        if supplied.len() >= n {
            let mut args: Vec<String> = Vec::new();
            let mut k: usize = 0;
            while k < n
                invariant
                    0 <= k <= n,
                    n <= supplied@.len(),
                    args@.len() == k,
                    forall|j: int| 0 <= j < k ==> args@[j] == supplied@[j],
                decreases n - k,
            {
                args.push(supplied[k].clone());
                k = k + 1;
            }
            proof {
                assert(str_views(args@) =~= str_views(supplied@).take(arity(v) as int));
            }
            do_run(posix, gui, v, args)
        } else {
            let lbl = prompt_label(v, supplied.len());
            let r = (
                Shell { mode: Mode::Prompting { verb: v, have: supplied }, posix, gui },
                one_action(Action::PromptArg(lbl)),
            );
            proof {
                let b = begin_cmd(posix, gui, v, str_views(r.0.mode->Prompting_have@));
                assert(action_views(r.1@) =~= b.1);
            }
            r
        }
    }
}

impl Shell {
    /// A fresh session, ready for its first command line, on a host with
    /// the given capabilities.
    pub fn new(posix: bool, gui: bool) -> (r: Shell)
        ensures
            r@ == (ShellV { mode: ModeV::Ready, posix, gui }),
    {
        Shell { mode: Mode::Ready, posix, gui }
    }

    /// Whether the session has ended (after `exit` or `quit`).
    pub fn is_finished(&self) -> (r: bool)
        ensures
            r == (self@.mode is Finished),
    {
        match self.mode {
            Mode::Finished => true,
            _ => false,
        }
    }

    /// Consume one event: the next state, and the actions to perform, in
    /// order. Implements `step_v` exactly.
    pub fn step(self, ev: Event) -> (r: (Shell, Vec<Action>))
        ensures
            r.0@ == step_v(self@, ev@).0,
            action_views(r.1@) == step_v(self@, ev@).1,
    {
        let Shell { mode, posix, gui } = self;
        match mode {
            Mode::Ready => match ev {
                Event::Line(l) => {
                    let toks = split_line(l.as_str());
                    if toks.len() == 0 {
                        let r = (Shell { mode: Mode::Ready, posix, gui }, Vec::<Action>::new());
                        proof {
                            assert(action_views(r.1@) =~= Seq::<ActionV>::empty());
                        }
                        r
                    } else {
                        match parse_verb(toks[0].as_str()) {
                            Option::Some(v) => {
                                let mut supplied: Vec<String> = Vec::new();
                                let mut k: usize = 1;
                                while k < toks.len()
                                    invariant
                                        1 <= k <= toks@.len(),
                                        supplied@.len() == k - 1,
                                        forall|j: int|
                                            0 <= j < supplied@.len() ==> supplied@[j] == toks@[j
                                                + 1],
                                    decreases toks@.len() - k,
                                {
                                    supplied.push(toks[k].clone());
                                    k = k + 1;
                                }
                                proof {
                                    assert(str_views(supplied@) =~= tokens(l@).skip(1));
                                }
                                do_begin(posix, gui, v, supplied)
                            },
                            Option::None => {
                                let r = (
                                    Shell { mode: Mode::Ready, posix, gui },
                                    two_actions(
                                        Action::Print(
                                            Severity::Error,
                                            "Unknown command.".to_owned(),
                                        ),
                                        Action::Print(
                                            Severity::Warning,
                                            "Available: cp, rm, mv, ren, mkdir, touch, chmod, cd, ls/dir, cut, prop, exit".to_owned(),
                                        ),
                                    ),
                                );
                                proof {
                                    assert(action_views(r.1@) =~= seq![
                                        ActionV::Print(Severity::Error, unknown_cmd_msg()),
                                        ActionV::Print(Severity::Warning, available_msg()),
                                    ]);
                                }
                                r
                            },
                        }
                    }
                },
                Event::ReadFailed => {
                    let r = (
                        Shell { mode: Mode::Ready, posix, gui },
                        one_action(
                            Action::Print(Severity::Error, "Failed to read input.".to_owned()),
                        ),
                    );
                    proof {
                        assert(action_views(r.1@) =~= seq![
                            ActionV::Print(Severity::Error, read_failed_msg()),
                        ]);
                    }
                    r
                },
                _ => {
                    let r = (Shell { mode: Mode::Ready, posix, gui }, Vec::<Action>::new());
                    proof {
                        assert(action_views(r.1@) =~= Seq::<ActionV>::empty());
                    }
                    r
                },
            },
            Mode::Prompting { verb, have } => match ev {
                Event::Line(l) => {
                    let mut have2 = have;
                    have2.push(trim_str(l.as_str()));
                    let n: usize = arity_of(verb);
                    if have2.len() < n {
                        let idx: usize = have2.len();
                        let lbl = prompt_label(verb, idx);
                        let r = (
                            Shell { mode: Mode::Prompting { verb, have: have2 }, posix, gui },
                            one_action(Action::PromptArg(lbl)),
                        );
                        proof {
                            assert(str_views(r.0.mode->Prompting_have@) =~= str_views(
                                have@,
                            ).push(trim_spec(l@)));
                            assert(action_views(r.1@) =~= seq![
                                ActionV::PromptArg(label(verb, str_views(have2@).len() as int)),
                            ]);
                        }
                        r
                    } else {
                        proof {
                            assert(str_views(have2@) =~= str_views(have@).push(trim_spec(l@)));
                        }
                        do_run(posix, gui, verb, have2)
                    }
                },
                Event::ReadFailed => {
                    let r = (
                        Shell { mode: Mode::Ready, posix, gui },
                        one_action(
                            Action::Print(Severity::Error, "Failed to read input.".to_owned()),
                        ),
                    );
                    proof {
                        assert(action_views(r.1@) =~= seq![
                            ActionV::Print(Severity::Error, read_failed_msg()),
                        ]);
                    }
                    r
                },
                _ => {
                    let r = (
                        Shell { mode: Mode::Prompting { verb, have }, posix, gui },
                        Vec::<Action>::new(),
                    );
                    proof {
                        assert(action_views(r.1@) =~= Seq::<ActionV>::empty());
                    }
                    r
                },
            },
            Mode::AwaitExists { verb, src, dst } => match ev {
                Event::Exists(b) => {
                    if !b {
                        let msg: String = if verb == Verb::Cp {
                            "Source file doesn't exist.".to_owned()
                        } else {
                            "File doesn't exist.".to_owned()
                        };
                        let r = (
                            Shell { mode: Mode::Ready, posix, gui },
                            one_action(Action::Print(Severity::Error, msg)),
                        );
                        proof {
                            assert(action_views(r.1@) =~= seq![
                                ActionV::Print(Severity::Error, missing_src_msg(verb)),
                            ]);
                        }
                        r
                    } else if verb == Verb::Cp {
                        let r = (
                            Shell { mode: Mode::AwaitOp { verb }, posix, gui },
                            one_action(Action::CopyFile(src, dst)),
                        );
                        proof {
                            assert(action_views(r.1@) =~= seq![ActionV::CopyFile(src@, dst@)]);
                        }
                        r
                    } else {
                        let r = (
                            Shell { mode: Mode::AwaitOp { verb }, posix, gui },
                            one_action(Action::RenamePath(src, dst)),
                        );
                        proof {
                            assert(action_views(r.1@) =~= seq![ActionV::RenamePath(src@, dst@)]);
                        }
                        r
                    }
                },
                _ => {
                    let r = (
                        Shell { mode: Mode::AwaitExists { verb, src, dst }, posix, gui },
                        Vec::<Action>::new(),
                    );
                    proof {
                        assert(action_views(r.1@) =~= Seq::<ActionV>::empty());
                    }
                    r
                },
            },
            Mode::AwaitOp { verb } => match ev {
                Event::OpResult(res) => match res {
                    Option::None => (Shell { mode: Mode::Ready, posix, gui }, success_actions(verb)),
                    Option::Some(e) => {
                        let msg = fail_message(verb, &e);
                        let r = (
                            Shell { mode: Mode::Ready, posix, gui },
                            one_action(Action::Print(Severity::Error, msg)),
                        );
                        proof {
                            assert(action_views(r.1@) =~= seq![
                                ActionV::Print(Severity::Error, fail_prefix(verb) + e@),
                            ]);
                        }
                        r
                    },
                },
                _ => {
                    let r = (
                        Shell { mode: Mode::AwaitOp { verb }, posix, gui },
                        Vec::<Action>::new(),
                    );
                    proof {
                        assert(action_views(r.1@) =~= Seq::<ActionV>::empty());
                    }
                    r
                },
            },
            Mode::AwaitList => match ev {
                Event::Entries(res) => match res {
                    Result::Ok(names) => {
                        let mut out: Vec<Action> = Vec::new();
                        let mut k: usize = 0;
                        while k < names.len()
                            invariant
                                0 <= k <= names@.len(),
                                out@.len() == k,
                                forall|j: int|
                                    0 <= j < k ==> out@[j] == Action::Print(
                                        Severity::Info,
                                        names@[j],
                                    ),
                            decreases names@.len() - k,
                        {
                            out.push(Action::Print(Severity::Info, names[k].clone()));
                            k = k + 1;
                        }
                        let r = (Shell { mode: Mode::Ready, posix, gui }, out);
                        proof {
                            assert(action_views(r.1@) =~= str_views(names@).map_values(
                                |nm: Seq<char>| ActionV::Print(Severity::Info, nm),
                            ));
                        }
                        r
                    },
                    Result::Err(e) => {
                        let msg = fail_message(Verb::Ls, &e);
                        let r = (
                            Shell { mode: Mode::Ready, posix, gui },
                            one_action(Action::Print(Severity::Error, msg)),
                        );
                        proof {
                            assert(action_views(r.1@) =~= seq![
                                ActionV::Print(Severity::Error, fail_prefix(Verb::Ls) + e@),
                            ]);
                        }
                        r
                    },
                },
                _ => {
                    let r = (Shell { mode: Mode::AwaitList, posix, gui }, Vec::<Action>::new());
                    proof {
                        assert(action_views(r.1@) =~= Seq::<ActionV>::empty());
                    }
                    r
                },
            },
            Mode::Finished => {
                let r = (Shell { mode: Mode::Finished, posix, gui }, Vec::<Action>::new());
                proof {
                    assert(action_views(r.1@) =~= Seq::<ActionV>::empty());
                }
                r
            },
        }
    }
}

} // verus!
