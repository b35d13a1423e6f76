//! Tests of line splitting, trimming, verb recognition and octal parsing.

use fileman::Verb;
use fileman::arity_of;
use fileman::parse_octal_u32;
use fileman::parse_verb;
use fileman::prompt_label;
use fileman::split_line;
use fileman::trim_str;

#[test]
fn split_basic() {
    let toks = split_line("cp a b");
    assert_eq!(toks.len(), 3);
    assert_eq!(toks[0].as_str(), "cp");
    assert_eq!(toks[1].as_str(), "a");
    assert_eq!(toks[2].as_str(), "b");
}

#[test]
fn split_collapses_whitespace() {
    let toks = split_line("  mv \t sub/x.txt   y.txt \n");
    assert_eq!(toks.len(), 3);
    assert_eq!(toks[0].as_str(), "mv");
    assert_eq!(toks[1].as_str(), "sub/x.txt");
    assert_eq!(toks[2].as_str(), "y.txt");
}

#[test]
fn split_empty_and_blank() {
    assert_eq!(split_line("").len(), 0);
    assert_eq!(split_line("   \t \r\n").len(), 0);
}

#[test]
fn split_single_token() {
    let toks = split_line("ls\n");
    assert_eq!(toks.len(), 1);
    assert_eq!(toks[0].as_str(), "ls");
}

#[test]
fn trim_removes_edges_only() {
    assert_eq!(trim_str("  hi  ").as_str(), "hi");
    assert_eq!(trim_str("name with space\n").as_str(), "name with space");
    assert_eq!(trim_str("\r\n").as_str(), "");
    assert_eq!(trim_str("plain").as_str(), "plain");
}

#[test]
fn trim_matches_std_trim() {
    for s in [
        "  hi  ",
        "\u{b}x",
        "\u{85}\u{a0}y\u{3000}",
        "a b",
        "",
        "\u{2000}mid\u{200a}",
        "\u{2028}\u{2029}\u{202f}\u{205f}\u{1680}",
        "plain",
    ] {
        assert_eq!(trim_str(s).as_str(), s.trim());
    }
}

#[test]
fn split_matches_std_split_whitespace() {
    for s in [
        "cp a b",
        "  mv \t x   y \n",
        "\u{a0}",
        "ls\u{a0}\u{3000}extra",
        "\u{b}one\u{2003}two\u{85}",
        "",
    ] {
        let toks = split_line(s);
        let std_toks: Vec<&str> = s.split_whitespace().collect();
        assert_eq!(toks.len(), std_toks.len());
        for (t, u) in toks.iter().zip(std_toks.iter()) {
            assert_eq!(t.as_str(), *u);
        }
    }
}

#[test]
fn verbs_recognized() {
    assert_eq!(parse_verb("cp"), Some(Verb::Cp));
    assert_eq!(parse_verb("rm"), Some(Verb::Rm));
    assert_eq!(parse_verb("mv"), Some(Verb::Mv));
    assert_eq!(parse_verb("cut"), Some(Verb::Mv));
    assert_eq!(parse_verb("ren"), Some(Verb::Ren));
    assert_eq!(parse_verb("mkdir"), Some(Verb::Mkdir));
    assert_eq!(parse_verb("touch"), Some(Verb::Touch));
    assert_eq!(parse_verb("chmod"), Some(Verb::Chmod));
    assert_eq!(parse_verb("cd"), Some(Verb::Cd));
    assert_eq!(parse_verb("ls"), Some(Verb::Ls));
    assert_eq!(parse_verb("dir"), Some(Verb::Ls));
    assert_eq!(parse_verb("prop"), Some(Verb::Prop));
    assert_eq!(parse_verb("exit"), Some(Verb::Exit));
    assert_eq!(parse_verb("quit"), Some(Verb::Exit));
}

#[test]
fn verbs_are_case_sensitive_and_exact() {
    assert_eq!(parse_verb("CP"), None);
    assert_eq!(parse_verb("frobnicate"), None);
    assert_eq!(parse_verb("c"), None);
    assert_eq!(parse_verb("cpx"), None);
    assert_eq!(parse_verb(""), None);
}

#[test]
fn arities() {
    assert_eq!(arity_of(Verb::Cp), 2);
    assert_eq!(arity_of(Verb::Rm), 1);
    assert_eq!(arity_of(Verb::Mv), 2);
    assert_eq!(arity_of(Verb::Ren), 2);
    assert_eq!(arity_of(Verb::Mkdir), 1);
    assert_eq!(arity_of(Verb::Touch), 1);
    assert_eq!(arity_of(Verb::Chmod), 2);
    assert_eq!(arity_of(Verb::Cd), 1);
    assert_eq!(arity_of(Verb::Ls), 0);
    assert_eq!(arity_of(Verb::Prop), 1);
    assert_eq!(arity_of(Verb::Exit), 0);
}

#[test]
fn prompt_labels_in_declared_order() {
    assert_eq!(prompt_label(Verb::Cp, 0).as_str(), "path to copy from");
    assert_eq!(prompt_label(Verb::Cp, 1).as_str(), "destination path");
    assert_eq!(prompt_label(Verb::Mv, 0).as_str(), "path to move/cut");
    assert_eq!(prompt_label(Verb::Mv, 1).as_str(), "destination path");
    assert_eq!(prompt_label(Verb::Ren, 0).as_str(), "file to rename");
    assert_eq!(prompt_label(Verb::Ren, 1).as_str(), "new name");
    assert_eq!(prompt_label(Verb::Rm, 0).as_str(), "path to remove");
    assert_eq!(prompt_label(Verb::Mkdir, 0).as_str(), "directory to create");
    assert_eq!(prompt_label(Verb::Touch, 0).as_str(), "filename to touch");
    assert_eq!(prompt_label(Verb::Chmod, 0).as_str(), "permission (e.g. 755)");
    assert_eq!(prompt_label(Verb::Chmod, 1).as_str(), "file");
    assert_eq!(prompt_label(Verb::Cd, 0).as_str(), "directory to change to");
    assert_eq!(prompt_label(Verb::Prop, 0).as_str(), "file/folder for properties");
}

#[test]
fn octal_valid() {
    assert_eq!(parse_octal_u32("755"), Some(0o755));
    assert_eq!(parse_octal_u32("0"), Some(0));
    assert_eq!(parse_octal_u32("644"), Some(0o644));
    assert_eq!(parse_octal_u32("+7"), Some(7));
    assert_eq!(parse_octal_u32("007"), Some(7));
    assert_eq!(parse_octal_u32("37777777777"), Some(u32::MAX));
}

#[test]
fn octal_invalid() {
    assert_eq!(parse_octal_u32("abc"), None);
    assert_eq!(parse_octal_u32(""), None);
    assert_eq!(parse_octal_u32("+"), None);
    assert_eq!(parse_octal_u32("8"), None);
    assert_eq!(parse_octal_u32("75a"), None);
    assert_eq!(parse_octal_u32("-7"), None);
    assert_eq!(parse_octal_u32("7 5"), None);
    assert_eq!(parse_octal_u32("40000000000"), None);
}

#[test]
fn octal_matches_std_radix_parse() {
    for s in ["755", "0", "644", "+7", "37777777777", "40000000000", "abc", "", "+", "8"] {
        assert_eq!(parse_octal_u32(s), u32::from_str_radix(s, 8).ok());
    }
}
