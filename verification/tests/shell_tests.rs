//! Scenario tests of the session machine: one `step` per event, checking
//! the actions and the resulting state.

use fileman::Action;
use fileman::Event;
use fileman::Mode;
use fileman::Severity;
use fileman::Shell;

fn line(s: &str) -> Event {
    Event::Line(String::from(s))
}

fn print(sev: Severity, text: &str) -> Action {
    Action::Print(sev, String::from(text))
}

fn posix_shell() -> Shell {
    Shell::new(true, false)
}

#[test]
fn empty_line_no_output_no_state_change() {
    let shell = posix_shell();
    let (shell, out) = shell.step(line(""));
    assert_eq!(out, vec![]);
    assert!(matches!(shell.mode, Mode::Ready));
    let (shell, out) = shell.step(line("   \t  "));
    assert_eq!(out, vec![]);
    assert!(matches!(shell.mode, Mode::Ready));
    // Unicode whitespace counts as whitespace too.
    let (shell, out) = shell.step(line("\u{a0}\u{b}\u{2029}"));
    assert_eq!(out, vec![]);
    assert!(matches!(shell.mode, Mode::Ready));
}

#[test]
fn prompt_reply_unicode_whitespace_is_trimmed() {
    let shell = posix_shell();
    let (shell, _) = shell.step(line("touch"));
    let (_, out) = shell.step(line("\u{b}\u{a0}notes.txt\u{3000}\n"));
    assert_eq!(out, vec![Action::CreateFile(String::from("notes.txt"))]);
}

#[test]
fn unknown_verb_reports_and_keeps_state() {
    let shell = posix_shell();
    let (shell, out) = shell.step(line("frobnicate x y"));
    assert_eq!(
        out,
        vec![
            print(Severity::Error, "Unknown command."),
            print(
                Severity::Warning,
                "Available: cp, rm, mv, ren, mkdir, touch, chmod, cd, ls/dir, cut, prop, exit"
            ),
        ]
    );
    assert!(matches!(shell.mode, Mode::Ready));
}

#[test]
fn read_failure_is_recoverable() {
    let shell = posix_shell();
    let (shell, out) = shell.step(Event::ReadFailed);
    assert_eq!(out, vec![print(Severity::Error, "Failed to read input.")]);
    assert!(matches!(shell.mode, Mode::Ready));
}

#[test]
fn cp_positional_checks_source_then_copies() {
    let shell = posix_shell();
    let (shell, out) = shell.step(line("cp a.txt b.txt"));
    assert_eq!(out, vec![Action::CheckExists(String::from("a.txt"))]);
    let (shell, out) = shell.step(Event::Exists(true));
    assert_eq!(
        out,
        vec![Action::CopyFile(String::from("a.txt"), String::from("b.txt"))]
    );
    let (shell, out) = shell.step(Event::OpResult(None));
    assert_eq!(out, vec![print(Severity::Success, "File copied successfully.")]);
    assert!(matches!(shell.mode, Mode::Ready));
}

#[test]
fn cp_missing_source_reports_and_never_copies() {
    let shell = posix_shell();
    let (shell, out) = shell.step(line("cp nope.txt out.txt"));
    assert_eq!(out, vec![Action::CheckExists(String::from("nope.txt"))]);
    let (shell, out) = shell.step(Event::Exists(false));
    assert_eq!(out, vec![print(Severity::Error, "Source file doesn't exist.")]);
    assert!(matches!(shell.mode, Mode::Ready));
}

#[test]
fn cp_failure_report_includes_cause() {
    let shell = posix_shell();
    let (shell, _) = shell.step(line("cp a b"));
    let (shell, _) = shell.step(Event::Exists(true));
    let (shell, out) = shell.step(Event::OpResult(Some(String::from("permission denied"))));
    assert_eq!(
        out,
        vec![print(Severity::Error, "Failed to copy file: permission denied")]
    );
    assert!(matches!(shell.mode, Mode::Ready));
}

#[test]
fn prompted_args_equal_positional() {
    // The same copy, once with both arguments prompted and once positional:
    // one prompt per missing argument, in order, then identical behavior.
    let shell = posix_shell();
    let (shell, out) = shell.step(line("cp"));
    assert_eq!(out, vec![Action::PromptArg(String::from("path to copy from"))]);
    let (shell, out) = shell.step(line(" a.txt \n"));
    assert_eq!(out, vec![Action::PromptArg(String::from("destination path"))]);
    let (shell, out) = shell.step(line("b.txt\n"));
    assert_eq!(out, vec![Action::CheckExists(String::from("a.txt"))]);
    let (_, out) = shell.step(Event::Exists(true));
    assert_eq!(
        out,
        vec![Action::CopyFile(String::from("a.txt"), String::from("b.txt"))]
    );

    let direct = posix_shell();
    let (direct, out) = direct.step(line("cp a.txt b.txt"));
    assert_eq!(out, vec![Action::CheckExists(String::from("a.txt"))]);
    let (_, out) = direct.step(Event::Exists(true));
    assert_eq!(
        out,
        vec![Action::CopyFile(String::from("a.txt"), String::from("b.txt"))]
    );
}

#[test]
fn one_supplied_one_prompted() {
    let shell = posix_shell();
    let (shell, out) = shell.step(line("mv old.txt"));
    assert_eq!(out, vec![Action::PromptArg(String::from("destination path"))]);
    let (shell, out) = shell.step(line("new.txt"));
    assert_eq!(out, vec![Action::CheckExists(String::from("old.txt"))]);
    let (_, out) = shell.step(Event::Exists(true));
    assert_eq!(
        out,
        vec![Action::RenamePath(String::from("old.txt"), String::from("new.txt"))]
    );
}

#[test]
fn extra_arguments_are_ignored() {
    let shell = posix_shell();
    let (_, out) = shell.step(line("rm a b c"));
    assert_eq!(out, vec![Action::RemoveFile(String::from("a"))]);
}

#[test]
fn rm_success_and_failure() {
    let shell = posix_shell();
    let (shell, out) = shell.step(line("rm f.txt"));
    assert_eq!(out, vec![Action::RemoveFile(String::from("f.txt"))]);
    let (shell, out) = shell.step(Event::OpResult(None));
    assert_eq!(out, vec![print(Severity::Success, "File removed.")]);
    let (shell, _) = shell.step(line("rm g.txt"));
    let (_, out) = shell.step(Event::OpResult(Some(String::from("is a directory"))));
    assert_eq!(
        out,
        vec![print(Severity::Error, "Failed to remove file: is a directory")]
    );
}

#[test]
fn mv_and_cut_move_after_existence_check() {
    for verb in ["mv", "cut"] {
        let shell = posix_shell();
        let (shell, out) = shell.step(line(&format!("{} a b", verb)));
        assert_eq!(out, vec![Action::CheckExists(String::from("a"))]);
        let (shell, out) = shell.step(Event::Exists(true));
        assert_eq!(
            out,
            vec![Action::RenamePath(String::from("a"), String::from("b"))]
        );
        let (shell, out) = shell.step(Event::OpResult(None));
        assert_eq!(out, vec![print(Severity::Success, "File moved.")]);
        assert!(matches!(shell.mode, Mode::Ready));
    }
}

#[test]
fn mv_missing_source_reports() {
    let shell = posix_shell();
    let (shell, _) = shell.step(line("mv a b"));
    let (_, out) = shell.step(Event::Exists(false));
    assert_eq!(out, vec![print(Severity::Error, "File doesn't exist.")]);
}

#[test]
fn ren_renames_without_existence_check() {
    let shell = posix_shell();
    let (shell, out) = shell.step(line("ren a b"));
    assert_eq!(
        out,
        vec![Action::RenamePath(String::from("a"), String::from("b"))]
    );
    let (_, out) = shell.step(Event::OpResult(None));
    assert_eq!(out, vec![print(Severity::Success, "File renamed.")]);
}

#[test]
fn mkdir_twice_requests_the_same_creation() {
    let shell = posix_shell();
    let (shell, out) = shell.step(line("mkdir some/dir"));
    assert_eq!(out, vec![Action::CreateDirAll(String::from("some/dir"))]);
    let (shell, out) = shell.step(Event::OpResult(None));
    assert_eq!(out, vec![print(Severity::Success, "Directory created.")]);
    let (shell, out) = shell.step(line("mkdir some/dir"));
    assert_eq!(out, vec![Action::CreateDirAll(String::from("some/dir"))]);
    let (shell, out) = shell.step(Event::OpResult(None));
    assert_eq!(out, vec![print(Severity::Success, "Directory created.")]);
    assert!(matches!(shell.mode, Mode::Ready));
}

#[test]
fn touch_creates_file() {
    let shell = posix_shell();
    let (shell, out) = shell.step(line("touch notes.txt"));
    assert_eq!(out, vec![Action::CreateFile(String::from("notes.txt"))]);
    let (_, out) = shell.step(Event::OpResult(None));
    assert_eq!(out, vec![print(Severity::Success, "File touched.")]);
}

#[test]
fn chmod_755_requests_those_bits() {
    let shell = posix_shell();
    let (shell, out) = shell.step(line("chmod 755 script.sh"));
    assert_eq!(
        out,
        vec![Action::SetPermissions(String::from("script.sh"), 0o755)]
    );
    let (_, out) = shell.step(Event::OpResult(None));
    assert_eq!(out, vec![print(Severity::Success, "Permissions updated.")]);
}

#[test]
fn chmod_bad_format_reports_and_requests_nothing() {
    let shell = posix_shell();
    let (shell, out) = shell.step(line("chmod abc script.sh"));
    assert_eq!(
        out,
        vec![print(
            Severity::Error,
            "Invalid permission format. Use octal (e.g. 755)"
        )]
    );
    assert!(matches!(shell.mode, Mode::Ready));
}

#[test]
fn chmod_unsupported_without_posix_permissions() {
    let shell = Shell::new(false, false);
    let (shell, out) = shell.step(line("chmod 755 f"));
    assert_eq!(
        out,
        vec![print(Severity::Warning, "chmod is not supported on this platform.")]
    );
    // Rejected before argument resolution: no prompt even with no arguments.
    let (shell, out) = shell.step(line("chmod"));
    assert_eq!(
        out,
        vec![print(Severity::Warning, "chmod is not supported on this platform.")]
    );
    assert!(matches!(shell.mode, Mode::Ready));
}

#[test]
fn cd_changes_directory_silently_on_success() {
    let shell = posix_shell();
    let (shell, out) = shell.step(line("cd /tmp"));
    assert_eq!(out, vec![Action::ChangeDir(String::from("/tmp"))]);
    let (shell, out) = shell.step(Event::OpResult(None));
    assert_eq!(out, vec![]);
    let (shell, _) = shell.step(line("cd /nope"));
    let (_, out) = shell.step(Event::OpResult(Some(String::from("no such directory"))));
    assert_eq!(
        out,
        vec![print(
            Severity::Error,
            "Failed to change directory: no such directory"
        )]
    );
}

#[test]
fn ls_empty_directory_prints_nothing() {
    let shell = posix_shell();
    let (shell, out) = shell.step(line("ls"));
    assert_eq!(out, vec![Action::ListDir]);
    let (shell, out) = shell.step(Event::Entries(Ok(vec![])));
    assert_eq!(out, vec![]);
    assert!(matches!(shell.mode, Mode::Ready));
}

#[test]
fn ls_prints_one_line_per_entry_in_order() {
    for verb in ["ls", "dir"] {
        let shell = posix_shell();
        let (shell, out) = shell.step(line(verb));
        assert_eq!(out, vec![Action::ListDir]);
        let entries = vec![String::from("a.txt"), String::from("sub"), String::from("z")];
        let (_, out) = shell.step(Event::Entries(Ok(entries)));
        assert_eq!(
            out,
            vec![
                print(Severity::Info, "a.txt"),
                print(Severity::Info, "sub"),
                print(Severity::Info, "z"),
            ]
        );
    }
}

#[test]
fn ls_failure_reports_cause() {
    let shell = posix_shell();
    let (shell, _) = shell.step(line("ls"));
    let (_, out) = shell.step(Event::Entries(Err(String::from("access denied"))));
    assert_eq!(
        out,
        vec![print(Severity::Error, "Failed to list directory: access denied")]
    );
}

#[test]
fn prop_with_gui_shows_properties() {
    let shell = Shell::new(true, true);
    let (_, out) = shell.step(line("prop report.pdf"));
    assert_eq!(out, vec![Action::ShowProperties(String::from("report.pdf"))]);
}

#[test]
fn prop_without_gui_is_unsupported_after_resolving_the_argument() {
    let shell = posix_shell();
    let (shell, out) = shell.step(line("prop"));
    // The argument is still prompted for, as it is resolved before the
    // capability check.
    assert_eq!(
        out,
        vec![Action::PromptArg(String::from("file/folder for properties"))]
    );
    let (shell, out) = shell.step(line("report.pdf"));
    assert_eq!(
        out,
        vec![print(Severity::Warning, "prop is not supported on this platform.")]
    );
    assert!(matches!(shell.mode, Mode::Ready));
}

#[test]
fn exit_and_quit_finish_the_session() {
    for verb in ["exit", "quit"] {
        let shell = posix_shell();
        assert!(!shell.is_finished());
        let (shell, out) = shell.step(line(verb));
        assert_eq!(out, vec![print(Severity::Info, "Exiting. Peace out!")]);
        assert!(shell.is_finished());
        // Once finished, further events do nothing.
        let (shell, out) = shell.step(line("ls"));
        assert_eq!(out, vec![]);
        assert!(shell.is_finished());
    }
}

#[test]
fn prompt_reply_is_trimmed_but_not_split() {
    let shell = posix_shell();
    let (shell, _) = shell.step(line("touch"));
    let (_, out) = shell.step(line("  name with space \n"));
    assert_eq!(out, vec![Action::CreateFile(String::from("name with space"))]);
}

#[test]
fn read_failure_while_prompting_abandons_the_command() {
    let shell = posix_shell();
    let (shell, _) = shell.step(line("rm"));
    let (shell, out) = shell.step(Event::ReadFailed);
    assert_eq!(out, vec![print(Severity::Error, "Failed to read input.")]);
    assert!(matches!(shell.mode, Mode::Ready));
}
