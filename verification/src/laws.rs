//! Session-wide properties of the shell, proved against `step_v`.

use vstd::prelude::*;

use crate::machine::ActionV;
use crate::machine::EventV;
use crate::machine::ModeV;
use crate::machine::Severity;
use crate::machine::ShellV;
use crate::machine::available_msg;
use crate::machine::bad_octal_msg;
use crate::machine::missing_src_msg;
use crate::machine::run_cmd;
use crate::machine::step_v;
use crate::machine::unknown_cmd_msg;
use crate::machine::with_mode;
use crate::octal::mode_of;
use crate::octal::oct_digits;
use crate::octal::oct_value;
use crate::octal::sign_skipped;
use crate::text::is_space;
use crate::text::lemma_tokens_all_space;
use crate::text::lemma_tokens_are_words;
use crate::text::lemma_trim_of_word;
use crate::text::tokens;
use crate::text::trim_spec;
use crate::verbs::Verb;
use crate::verbs::arity;
use crate::verbs::label;
use crate::verbs::verb_of;

verus! {

/// The state after feeding the events in order, and everything the session
/// asked for along the way.
pub open spec fn run_events(pre: ShellV, evs: Seq<EventV>) -> (ShellV, Seq<ActionV>)
    decreases evs.len(),
{
    if evs.len() == 0 {
        (pre, Seq::<ActionV>::empty())
    } else {
        let first = step_v(pre, evs[0]);
        let rest = run_events(first.0, evs.skip(1));
        (rest.0, first.1 + rest.1)
    }
}

/// Whether the action asks the surrounding process for an answer (every
/// action but a printed message does: the answer is the next event).
pub open spec fn asks_answer(a: ActionV) -> bool {
    !(a is Print)
}

/// At most one action per step asks for an answer, and when one does it is
/// the last action of the step. A driver may therefore perform the actions
/// in order and keep the single answer event for the next step without
/// losing anything.
pub proof fn lemma_at_most_one_request(pre: ShellV, ev: EventV)
    ensures
        forall|i: int|
            0 <= i < step_v(pre, ev).1.len() && #[trigger] asks_answer(step_v(pre, ev).1[i])
                ==> i == step_v(pre, ev).1.len() - 1,
{
    let out = step_v(pre, ev).1;
    assert forall|i: int| 0 <= i < out.len() && #[trigger] asks_answer(out[i]) implies i
        == out.len() - 1 by {
        if pre.mode is AwaitList {
            match ev {
                EventV::Entries(res) => match res {
                    Ok(names) => {
                        assert(out[i] == ActionV::Print(Severity::Info, names[i]));
                    },
                    Err(_) => {},
                },
                _ => {},
            }
        }
    }
}

/// While prompting, each reply in turn triggers exactly one further prompt,
/// in declared order, and once the last argument arrives the command runs
/// exactly as it would have with the same values given positionally.
pub proof fn lemma_resolve_by_prompts(
    pre: ShellV,
    v: Verb,
    have: Seq<Seq<char>>,
    replies: Seq<Seq<char>>,
)
    requires
        pre.mode == (ModeV::Prompting { verb: v, have }),
        have.len() + replies.len() == arity(v),
        replies.len() >= 1,
        forall|i: int| 0 <= i < replies.len() ==> #[trigger] trim_spec(replies[i]) == replies[i],
    ensures
        ({
            let direct = run_cmd(pre.gui, v, have + replies);
            let fed = run_events(pre, replies.map_values(|l: Seq<char>| EventV::Line(l)));
            &&& fed.0 == with_mode(pre, direct.0)
            &&& fed.1 == Seq::new(
                (replies.len() - 1) as nat,
                |i: int| ActionV::PromptArg(label(v, have.len() + 1 + i)),
            ) + direct.1
        }),
    decreases replies.len(),
{
    reveal_with_fuel(run_events, 2);
    let evs = replies.map_values(|l: Seq<char>| EventV::Line(l));
    let direct = run_cmd(pre.gui, v, have + replies);
    let fed = run_events(pre, evs);
    assert(evs[0] == EventV::Line(replies[0]));
    assert(trim_spec(replies[0]) == replies[0]);
    let have2 = have.push(replies[0]);
    let first = step_v(pre, evs[0]);
    if replies.len() == 1 {
        assert(have2 =~= have + replies);
        assert(evs.skip(1) =~= Seq::<EventV>::empty());
        assert(fed.1 =~= Seq::new(
            (replies.len() - 1) as nat,
            |i: int| ActionV::PromptArg(label(v, have.len() + 1 + i)),
        ) + direct.1);
    } else {
        assert(first.0 == with_mode(pre, ModeV::Prompting { verb: v, have: have2 }));
        let tail = replies.skip(1);
        assert forall|i: int| 0 <= i < tail.len() implies #[trigger] trim_spec(tail[i])
            == tail[i] by {
            assert(tail[i] == replies[i + 1]);
        }
        lemma_resolve_by_prompts(first.0, v, have2, tail);
        assert(have2 + tail =~= have + replies);
        assert(evs.skip(1) =~= tail.map_values(|l: Seq<char>| EventV::Line(l)));
        let sub = run_events(first.0, evs.skip(1));
        assert(sub.0 == with_mode(first.0, direct.0));
        assert(fed.0 == with_mode(pre, direct.0));
        let prompts_tail = Seq::new(
            (tail.len() - 1) as nat,
            |i: int| ActionV::PromptArg(label(v, have2.len() + 1 + i)),
        );
        assert(sub.1 == prompts_tail + direct.1);
        let prompts_all = Seq::new(
            (replies.len() - 1) as nat,
            |i: int| ActionV::PromptArg(label(v, have.len() + 1 + i)),
        );
        assert(first.1 =~= seq![ActionV::PromptArg(label(v, have2.len() as int))]);
        assert(first.1 + (prompts_tail + direct.1) =~= prompts_all + direct.1);
    }
}

/// Invoking a verb with too few arguments prompts exactly once per missing
/// argument, in declared order, and then behaves identically to a line that
/// supplied the same values positionally.
pub proof fn lemma_prompted_equals_positional(
    pre: ShellV,
    short_line: Seq<char>,
    full_line: Seq<char>,
    replies: Seq<Seq<char>>,
    v: Verb,
)
    requires
        pre.mode == ModeV::Ready,
        tokens(short_line).len() >= 1,
        verb_of(tokens(short_line)[0]) == Some(v),
        !(v is Chmod && !pre.posix),
        tokens(short_line).len() - 1 < arity(v),
        replies.len() + tokens(short_line).len() - 1 == arity(v),
        tokens(full_line) == tokens(short_line) + replies,
    ensures
        ({
            let k = tokens(short_line).len() - 1;
            let fed = run_events(
                pre,
                seq![EventV::Line(short_line)] + replies.map_values(
                    |l: Seq<char>| EventV::Line(l),
                ),
            );
            let direct = step_v(pre, EventV::Line(full_line));
            &&& fed.0 == direct.0
            &&& fed.1 == Seq::new(
                replies.len(),
                |i: int| ActionV::PromptArg(label(v, k + i)),
            ) + direct.1
        }),
{
    reveal_with_fuel(run_events, 2);
    let ts = tokens(short_line);
    let supplied = ts.skip(1);
    let k = supplied.len() as int;
    // Each reply is a token of the full line, so it is nonempty, holds no
    // whitespace, and is therefore untouched by trimming.
    assert forall|i: int| 0 <= i < replies.len() implies #[trigger] trim_spec(replies[i])
        == replies[i] by {
        lemma_tokens_are_words(full_line, ts.len() + i);
        assert(tokens(full_line)[ts.len() + i] == replies[i]);
        lemma_trim_of_word(replies[i]);
    }
    let evs = seq![EventV::Line(short_line)] + replies.map_values(|l: Seq<char>| EventV::Line(l));
    assert(evs[0] == EventV::Line(short_line));
    let first = step_v(pre, evs[0]);
    assert(first.0 == with_mode(pre, ModeV::Prompting { verb: v, have: supplied }));
    assert(first.1 == seq![ActionV::PromptArg(label(v, k))]);
    assert(evs.skip(1) =~= replies.map_values(|l: Seq<char>| EventV::Line(l)));
    lemma_resolve_by_prompts(first.0, v, supplied, replies);
    let run = run_cmd(pre.gui, v, supplied + replies);
    let sub = run_events(first.0, evs.skip(1));
    assert(sub.0 == with_mode(first.0, run.0));

    let full_ts = tokens(full_line);
    assert(full_ts[0] == ts[0]);
    let full_supplied = full_ts.skip(1);
    assert(full_supplied =~= supplied + replies);
    assert(full_supplied.take(arity(v) as int) =~= supplied + replies);
    let direct = step_v(pre, EventV::Line(full_line));
    assert(direct.0 == with_mode(pre, run.0));
    assert(direct.1 == run.1);

    let fed = run_events(pre, evs);
    assert(fed.0 == sub.0);
    assert(fed.0 == direct.0);
    let prompts_tail = Seq::new(
        (replies.len() - 1) as nat,
        |i: int| ActionV::PromptArg(label(v, supplied.len() + 1 + i)),
    );
    assert(sub.1 == prompts_tail + run.1);
    assert(fed.1 == first.1 + sub.1);
    assert(first.1 + (prompts_tail + run.1) =~= Seq::new(
        replies.len(),
        |i: int| ActionV::PromptArg(label(v, k + i)),
    ) + direct.1);
}

/// A line of nothing (or only whitespace) produces no output and leaves the
/// session exactly as it was.
pub proof fn lemma_blank_line_is_noop(pre: ShellV, line: Seq<char>)
    requires
        pre.mode == ModeV::Ready,
        forall|j: int| 0 <= j < line.len() ==> is_space(line[j]),
    ensures
        step_v(pre, EventV::Line(line)).0 == pre,
        step_v(pre, EventV::Line(line)).1 == Seq::<ActionV>::empty(),
{
    lemma_tokens_all_space(line);
}

/// An unrecognized verb leaves the session unchanged and prints exactly the
/// unknown-command report and the list of supported verbs.
pub proof fn lemma_unknown_verb_keeps_state(pre: ShellV, line: Seq<char>)
    requires
        pre.mode == ModeV::Ready,
        tokens(line).len() >= 1,
        verb_of(tokens(line)[0]) is None,
    ensures
        step_v(pre, EventV::Line(line)).0 == pre,
        step_v(pre, EventV::Line(line)).1 == seq![
            ActionV::Print(Severity::Error, unknown_cmd_msg()),
            ActionV::Print(Severity::Warning, available_msg()),
        ],
{
}

/// When a copy's source is missing, the error is reported and no filesystem
/// action is requested at all: in particular no destination is created.
pub proof fn lemma_copy_missing_source(pre: ShellV, src: Seq<char>, dst: Seq<char>)
    requires
        pre.mode == (ModeV::AwaitExists { verb: Verb::Cp, src, dst }),
    ensures
        ({
            let r = step_v(pre, EventV::Exists(false));
            &&& r.0 == with_mode(pre, ModeV::Ready)
            &&& r.1 == seq![ActionV::Print(Severity::Error, missing_src_msg(Verb::Cp))]
            &&& forall|j: int| 0 <= j < r.1.len() ==> !(#[trigger] r.1[j] is CopyFile)
        }),
{
}

/// When a move's source exists, exactly one rename of the source to the
/// destination is requested.
pub proof fn lemma_move_requests_rename(pre: ShellV, src: Seq<char>, dst: Seq<char>)
    requires
        pre.mode == (ModeV::AwaitExists { verb: Verb::Mv, src, dst }),
    ensures
        step_v(pre, EventV::Exists(true)).0 == with_mode(
            pre,
            ModeV::AwaitOp { verb: Verb::Mv },
        ),
        step_v(pre, EventV::Exists(true)).1 == seq![ActionV::RenamePath(src, dst)],
{
}

/// `"755"` parses as octal 755, and a resolved `chmod 755 <file>` requests
/// exactly those permission bits on the file.
pub proof fn lemma_chmod_755(gui: bool, file: Seq<char>)
    ensures
        mode_of("755"@) == Some(493u32),
        run_cmd(gui, Verb::Chmod, seq!["755"@, file]) == (
            ModeV::AwaitOp { verb: Verb::Chmod },
            seq![ActionV::SetPermissions(file, 493u32)],
        ),
{
    reveal_strlit("755");
    let s = "755"@;
    assert(s.len() == 3);
    assert(sign_skipped(s) == s);
    let s2 = s.drop_last();
    let s1 = s2.drop_last();
    let s0 = s1.drop_last();
    assert(s0.len() == 0);
    assert(oct_value(s0) == 0);
    assert(s1.last() == s[0]);
    assert(oct_value(s1) == 7);
    assert(s2.last() == s[1]);
    assert(oct_value(s2) == 61);
    assert(oct_value(s) == 493);
    assert(oct_digits(s));
    assert(mode_of(s) == Some(493u32));
    let args = seq!["755"@, file];
    assert(args[0] == s);
    let r = run_cmd(gui, Verb::Chmod, args);
    assert(r.1 =~= seq![ActionV::SetPermissions(file, 493u32)]);
}

/// A malformed permission string is rejected with the format error and no
/// permission change is requested, so the file's permissions stay as they
/// were.
pub proof fn lemma_chmod_rejects_bad_format(gui: bool, perm: Seq<char>, file: Seq<char>)
    requires
        mode_of(perm) is None,
    ensures
        run_cmd(gui, Verb::Chmod, seq![perm, file]) == (
            ModeV::Ready,
            seq![ActionV::Print(Severity::Error, bad_octal_msg())],
        ),
{
    let r = run_cmd(gui, Verb::Chmod, seq![perm, file]);
    assert(r.1 =~= seq![ActionV::Print(Severity::Error, bad_octal_msg())]);
}

/// Listing an empty directory produces zero output lines and returns to the
/// prompt without any error report.
pub proof fn lemma_list_empty_dir(pre: ShellV)
    requires
        pre.mode == ModeV::AwaitList,
    ensures
        step_v(pre, EventV::Entries(Ok(Seq::<Seq<char>>::empty()))).0 == with_mode(
            pre,
            ModeV::Ready,
        ),
        step_v(pre, EventV::Entries(Ok(Seq::<Seq<char>>::empty()))).1 == Seq::<ActionV>::empty(),
{
    let r = step_v(pre, EventV::Entries(Ok(Seq::<Seq<char>>::empty())));
    assert(r.1 =~= Seq::<ActionV>::empty());
}

/// The same `mkdir` line twice in a row requests the identical creation
/// both times, and both times the session reports success when the
/// filesystem does (directory creation succeeds again when the directory is
/// already present, so repeating the command changes nothing).
pub proof fn lemma_mkdir_twice_same(pre: ShellV, line: Seq<char>)
    requires
        pre.mode == ModeV::Ready,
        tokens(line).len() == 2,
        verb_of(tokens(line)[0]) == Some(Verb::Mkdir),
    ensures
        ({
            let dir = tokens(line)[1];
            let evs = seq![
                EventV::Line(line),
                EventV::OpResult(None),
                EventV::Line(line),
                EventV::OpResult(None),
            ];
            let r = run_events(pre, evs);
            &&& r.0 == pre
            &&& r.1 == seq![
                ActionV::CreateDirAll(dir),
                ActionV::Print(Severity::Success, "Directory created."@),
                ActionV::CreateDirAll(dir),
                ActionV::Print(Severity::Success, "Directory created."@),
            ]
        }),
{
    reveal_with_fuel(run_events, 5);
    let dir = tokens(line)[1];
    let evs = seq![
        EventV::Line(line),
        EventV::OpResult(None),
        EventV::Line(line),
        EventV::OpResult(None),
    ];
    let supplied = tokens(line).skip(1);
    assert(supplied.take(1) =~= supplied);
    assert(supplied[0] == dir);
    let s1 = step_v(pre, evs[0]);
    assert(s1.0 == with_mode(pre, ModeV::AwaitOp { verb: Verb::Mkdir }));
    assert(s1.1 =~= seq![ActionV::CreateDirAll(dir)]);
    let s2 = step_v(s1.0, EventV::OpResult(None));
    assert(s2.0 == with_mode(pre, ModeV::Ready));
    assert(s2.0 == pre);
    assert(s2.1 =~= seq![ActionV::Print(Severity::Success, "Directory created."@)]);
    let s3 = step_v(s2.0, EventV::Line(line));
    let s4 = step_v(s3.0, EventV::OpResult(None));
    assert(evs.skip(1) =~= seq![EventV::OpResult(None), EventV::Line(line), EventV::OpResult(None)]);
    assert(evs.skip(1).skip(1) =~= seq![EventV::Line(line), EventV::OpResult(None)]);
    assert(evs.skip(1).skip(1).skip(1) =~= seq![EventV::OpResult(None)]);
    assert(evs.skip(1).skip(1).skip(1).skip(1) =~= Seq::<EventV>::empty());
    let r = run_events(pre, evs);
    assert(r.0 == pre);
    assert(r.1 =~= seq![
        ActionV::CreateDirAll(dir),
        ActionV::Print(Severity::Success, "Directory created."@),
        ActionV::CreateDirAll(dir),
        ActionV::Print(Severity::Success, "Directory created."@),
    ]);
}

} // verus!
