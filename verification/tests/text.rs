use bitwarden_ssh_agent::process::{expect_success, stderr, Output};
use bitwarden_ssh_agent::secret::Secret;
use bitwarden_ssh_agent::text::{
    decimal_text, ends_with, is_whitespace_char, join, octal_text, same_bytes, same_text,
    starts_with, trim, trim_line_end,
};
use bitwarden_ssh_agent::ui::{bold_cyan, done_banner, ok_mark, step_banner};

#[test]
fn whitespace_is_what_unicode_says_it_is() {
    for code in 0..=0x10ffffu32 {
        if let Some(c) = char::from_u32(code) {
            assert_eq!(is_whitespace_char(c), c.is_whitespace(), "{:x}", code);
        }
    }
}

#[test]
fn trimming_takes_whitespace_off_both_ends() {
    for s in ["", " ", "a", " a b ", "\t\u{a0}x\u{2003}\n", "\u{e9}"] {
        assert_eq!(trim(s), s.trim());
        assert_eq!(trim_line_end(s), s.trim_end_matches(['\n', '\r']));
    }
    assert_eq!(trim_line_end(" x \r\n\n"), " x ");
}

#[test]
fn comparing_texts() {
    assert!(same_text("caf\u{e9}", "caf\u{e9}"));
    assert!(!same_text("a", "ab"));
    assert!(!same_text("", "a"));
    assert!(same_bytes(b"ab", b"ab"));
    assert!(!same_bytes(b"ab", b"ac"));
    assert!(starts_with("known_hosts.old", "known_hosts"));
    assert!(!starts_with("known", "known_hosts"));
    assert!(ends_with("x.pub", ".pub"));
    assert!(!ends_with("pub", ".pub"));
}

#[test]
fn numbers_are_written_out() {
    for n in [0u64, 7, 10, 512, 8193, u64::MAX] {
        assert_eq!(decimal_text(n), format!("{}", n));
        assert_eq!(octal_text(n), format!("{:o}", n));
    }
}

#[test]
fn words_are_joined() {
    let words: Vec<String> = vec!["a".to_string(), "b".to_string(), "".to_string()];
    assert_eq!(join(&words, ", "), "a, b, ");
    assert_eq!(join(&Vec::new(), ", "), "");
}

#[test]
fn secrets_keep_their_text() {
    let secret = Secret::new("hush".to_string());
    let copy = secret.copy();
    assert_eq!(secret.expose(), "hush");
    assert_eq!(copy.expose(), "hush");
}

#[test]
fn what_a_process_says_is_trimmed() {
    assert_eq!(stderr(b" no \n"), "no");
    assert_eq!(stderr(b" \n"), "(no stderr)");
    assert_eq!(stderr(&[b'a', 0xff, b'\n']), "a\u{fffd}");
}

#[test]
fn a_process_succeeds_or_says_why_not() {
    let out = |success| Output { success, stdout: b"out".to_vec(), stderr: b"err".to_vec() };
    assert_eq!(expect_success(Ok(out(true)), "c", "b: "), Ok(b"out".to_vec()));
    assert_eq!(expect_success(Ok(out(false)), "c", "b: "), Err("b: err".to_string()));
    assert_eq!(
        expect_success(Err("x".to_string()), "c", "b: "),
        Err("c: x".to_string())
    );
}

#[test]
fn color_is_for_terminals_only() {
    assert_eq!(bold_cyan("x", true), "\x1b[1;36mx\x1b[0m");
    assert_eq!(bold_cyan("x", false), "x");
    assert_eq!(ok_mark(true), "\x1b[32m\u{2713}\x1b[0m");
    assert_eq!(ok_mark(false), "\u{2713}");
    assert_eq!(step_banner(2, 6, "API key", false), "Step 2/6: API key");
    assert_eq!(step_banner(2, 6, "API key", true), "\x1b[1;36mStep 2/6: API key\x1b[0m");
    assert_eq!(done_banner("All set", false), "Done: All set");
}
