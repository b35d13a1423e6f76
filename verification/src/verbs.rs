//! The shell's verbs: recognition, argument counts, and prompt labels.

use vstd::prelude::*;

verus! {

/// One of the shell's operations. `Mv` also answers to `cut`, `Ls` to
/// `dir`, and `Exit` to `quit`.
#[derive(Clone, Copy, PartialEq, Eq, Structural, Debug)]
pub enum Verb {
    Cp,
    Rm,
    Mv,
    Ren,
    Mkdir,
    Touch,
    Chmod,
    Cd,
    Ls,
    Prop,
    Exit,
}

/// The verb a token selects, if any. Matching is case-sensitive and exact.
pub open spec fn verb_of(s: Seq<char>) -> Option<Verb> {
    if s == "cp"@ {
        Some(Verb::Cp)
    } else if s == "rm"@ {
        Some(Verb::Rm)
    } else if s == "mv"@ || s == "cut"@ {
        Some(Verb::Mv)
    } else if s == "ren"@ {
        Some(Verb::Ren)
    } else if s == "mkdir"@ {
        Some(Verb::Mkdir)
    } else if s == "touch"@ {
        Some(Verb::Touch)
    } else if s == "chmod"@ {
        Some(Verb::Chmod)
    } else if s == "cd"@ {
        Some(Verb::Cd)
    } else if s == "ls"@ || s == "dir"@ {
        Some(Verb::Ls)
    } else if s == "prop"@ {
        Some(Verb::Prop)
    } else if s == "exit"@ || s == "quit"@ {
        Some(Verb::Exit)
    } else {
        None
    }
}

/// How many positional arguments the verb takes.
pub open spec fn arity(v: Verb) -> nat {
    match v {
        Verb::Cp => 2,
        Verb::Rm => 1,
        Verb::Mv => 2,
        Verb::Ren => 2,
        Verb::Mkdir => 1,
        Verb::Touch => 1,
        Verb::Chmod => 2,
        Verb::Cd => 1,
        Verb::Ls => 0,
        Verb::Prop => 1,
        Verb::Exit => 0,
    }
}

/// The label shown when prompting for the verb's argument at `idx`.
pub open spec fn label(v: Verb, idx: int) -> Seq<char> {
    match v {
        Verb::Cp => if idx == 0 {
            "path to copy from"@
        } else {
            "destination path"@
        },
        Verb::Rm => "path to remove"@,
        Verb::Mv => if idx == 0 {
            "path to move/cut"@
        } else {
            "destination path"@
        },
        Verb::Ren => if idx == 0 {
            "file to rename"@
        } else {
            "new name"@
        },
        Verb::Mkdir => "directory to create"@,
        Verb::Touch => "filename to touch"@,
        Verb::Chmod => if idx == 0 {
            "permission (e.g. 755)"@
        } else {
            "file"@
        },
        Verb::Cd => "directory to change to"@,
        Verb::Ls => Seq::<char>::empty(),
        Verb::Prop => "file/folder for properties"@,
        Verb::Exit => Seq::<char>::empty(),
    }
}

/// Compare two strings character by character.
pub fn str_eq(a: &str, b: &str) -> (r: bool)
    ensures
        r == (a@ == b@),
{
    let n: usize = a.unicode_len();
    if n != b.unicode_len() {
        return false;
    }
    let mut i: usize = 0;
    while i < n
        invariant
            0 <= i <= n,
            n == a@.len(),
            n == b@.len(),
            forall|j: int| 0 <= j < i ==> a@[j] == b@[j],
        decreases n - i,
    {
        if a.get_char(i) != b.get_char(i) {
            return false;
        }
        i = i + 1;
    }
    proof {
        assert(a@ =~= b@);
    }
    true
}

/// Recognize a verb token.
pub fn parse_verb(s: &str) -> (r: Option<Verb>)
    ensures
        r == verb_of(s@),
{
    if str_eq(s, "cp") {
        Some(Verb::Cp)
    } else if str_eq(s, "rm") {
        Some(Verb::Rm)
    } else if str_eq(s, "mv") || str_eq(s, "cut") {
        Some(Verb::Mv)
    } else if str_eq(s, "ren") {
        Some(Verb::Ren)
    } else if str_eq(s, "mkdir") {
        Some(Verb::Mkdir)
    } else if str_eq(s, "touch") {
        Some(Verb::Touch)
    } else if str_eq(s, "chmod") {
        Some(Verb::Chmod)
    } else if str_eq(s, "cd") {
        Some(Verb::Cd)
    } else if str_eq(s, "ls") || str_eq(s, "dir") {
        Some(Verb::Ls)
    } else if str_eq(s, "prop") {
        Some(Verb::Prop)
    } else if str_eq(s, "exit") || str_eq(s, "quit") {
        Some(Verb::Exit)
    } else {
        None
    }
}

/// The verb's argument count, as a machine integer.
pub fn arity_of(v: Verb) -> (n: usize)
    ensures
        n == arity(v),
{
    match v {
        Verb::Cp => 2,
        Verb::Rm => 1,
        Verb::Mv => 2,
        Verb::Ren => 2,
        Verb::Mkdir => 1,
        Verb::Touch => 1,
        Verb::Chmod => 2,
        Verb::Cd => 1,
        Verb::Ls => 0,
        Verb::Prop => 1,
        Verb::Exit => 0,
    }
}

/// The prompt label for the verb's argument at `idx`.
pub fn prompt_label(v: Verb, idx: usize) -> (r: String)
    ensures
        r@ == label(v, idx as int),
{
    match v {
        Verb::Cp => if idx == 0 {
            "path to copy from".to_owned()
        } else {
            "destination path".to_owned()
        },
        Verb::Rm => "path to remove".to_owned(),
        Verb::Mv => if idx == 0 {
            "path to move/cut".to_owned()
        } else {
            "destination path".to_owned()
        },
        Verb::Ren => if idx == 0 {
            "file to rename".to_owned()
        } else {
            "new name".to_owned()
        },
        Verb::Mkdir => "directory to create".to_owned(),
        Verb::Touch => "filename to touch".to_owned(),
        Verb::Chmod => if idx == 0 {
            "permission (e.g. 755)".to_owned()
        } else {
            "file".to_owned()
        },
        Verb::Cd => "directory to change to".to_owned(),
        Verb::Ls => String::new(),
        Verb::Prop => "file/folder for properties".to_owned(),
        Verb::Exit => String::new(),
    }
}

} // verus!
