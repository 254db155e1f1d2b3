use gitpop::status::{
    classify, parse_status, parse_status_line, status_from_run, FileState, GitFileStatus,
};

fn record(path: &str, status: FileState, staged: bool) -> GitFileStatus {
    GitFileStatus { path: path.to_string(), status, staged }
}

#[test]
fn modified_in_index_is_staged() {
    assert_eq!(parse_status("M  src/x.rs"), vec![record("src/x.rs", FileState::Modified, true)]);
}

#[test]
fn untracked_is_not_staged() {
    assert_eq!(parse_status("?? new.txt"), vec![record("new.txt", FileState::Untracked, false)]);
}

#[test]
fn records_keep_line_order() {
    let out = "M  a.rs\n M b.rs\nA  c.rs\n D d.rs\n?? e.rs\n";
    assert_eq!(
        parse_status(out),
        vec![
            record("a.rs", FileState::Modified, true),
            record("b.rs", FileState::Modified, false),
            record("c.rs", FileState::Added, true),
            record("d.rs", FileState::Deleted, false),
            record("e.rs", FileState::Untracked, false),
        ]
    );
}

#[test]
fn empty_output_has_no_records() {
    assert_eq!(parse_status(""), vec![]);
    assert_eq!(parse_status("\n\n"), vec![]);
}

#[test]
fn short_lines_are_skipped() {
    assert_eq!(parse_status("M a\nM  b\nab\n\n?? c"), vec![
        record("b", FileState::Modified, true),
        record("c", FileState::Untracked, false),
    ]);
    assert_eq!(parse_status_line("M a"), None);
    assert_eq!(parse_status_line(""), None);
    assert_eq!(parse_status_line("M  a"), Some(record("a", FileState::Modified, true)));
}

#[test]
fn a_line_of_four_characters_with_a_blank_path_is_a_record() {
    assert_eq!(parse_status_line("M   "), Some(record("", FileState::Modified, true)));
}

#[test]
fn carriage_returns_end_lines_too() {
    assert_eq!(parse_status("M  a.rs\r\n?? b.rs\r\n"), vec![
        record("a.rs", FileState::Modified, true),
        record("b.rs", FileState::Untracked, false),
    ]);
}

#[test]
fn paths_are_trimmed() {
    assert_eq!(parse_status_line("A    spaced name.txt \t"), Some(
        record("spaced name.txt", FileState::Added, true),
    ));
    assert_eq!(parse_status_line("A  \u{a0}x\u{3000}"), Some(record("x", FileState::Added, true)));
}

#[test]
fn third_character_is_not_read() {
    assert_eq!(parse_status_line("M Xfile"), Some(record("file", FileState::Modified, true)));
    assert_eq!(parse_status_line(" M\tfile"), Some(record("file", FileState::Modified, false)));
}

#[test]
fn renames_fall_back_to_untracked() {
    assert_eq!(parse_status_line("R  old.rs -> new.rs"), Some(
        record("old.rs -> new.rs", FileState::Untracked, true),
    ));
    assert_eq!(parse_status_line("UU both.rs"), Some(record("both.rs", FileState::Untracked, true)));
    assert_eq!(parse_status_line("C  copy.rs"), Some(record("copy.rs", FileState::Untracked, true)));
}

#[test]
fn added_outranks_modified_outranks_deleted() {
    for (x, y, expected) in [
        ('A', ' ', FileState::Added),
        (' ', 'A', FileState::Added),
        ('A', 'M', FileState::Added),
        ('M', 'A', FileState::Added),
        ('A', 'D', FileState::Added),
        ('D', 'A', FileState::Added),
        ('M', ' ', FileState::Modified),
        (' ', 'M', FileState::Modified),
        ('M', 'D', FileState::Modified),
        ('D', 'M', FileState::Modified),
        ('M', 'M', FileState::Modified),
        ('D', ' ', FileState::Deleted),
        (' ', 'D', FileState::Deleted),
        ('D', 'D', FileState::Deleted),
        ('R', 'D', FileState::Deleted),
        ('?', '?', FileState::Untracked),
        ('R', ' ', FileState::Untracked),
        ('!', '!', FileState::Untracked),
        ('?', 'A', FileState::Added),
    ] {
        assert_eq!(classify(x, y), expected, "{x}{y}");
        assert_eq!(classify(y, x), expected, "{y}{x}");
        let line = format!("{x}{y} path");
        assert_eq!(parse_status_line(&line).unwrap().status, expected, "{line}");
    }
}

#[test]
fn staged_goes_by_the_index_character() {
    for x in ['A', 'M', 'D', 'R', 'C', 'U', 'T', '!', 'x'] {
        for y in [' ', 'M', 'D', '?', 'A'] {
            let line = format!("{x}{y} f");
            assert!(parse_status_line(&line).unwrap().staged, "{line}");
        }
    }
    for x in [' ', '?'] {
        for y in [' ', 'M', 'D', '?', 'A'] {
            let line = format!("{x}{y} f");
            assert!(!parse_status_line(&line).unwrap().staged, "{line}");
        }
    }
}

#[test]
fn untracked_prefix_wins_over_the_rest_of_the_line() {
    for rest in [" a", "AM", " A.txt", "\tM\t", "??"] {
        let line = format!("??{rest}");
        let f = parse_status_line(&line).unwrap();
        assert_eq!(f.status, FileState::Untracked, "{line}");
        assert!(!f.staged, "{line}");
    }
}

#[test]
fn characters_count_not_bytes() {
    assert_eq!(parse_status_line("M  é"), Some(record("é", FileState::Modified, true)));
    assert_eq!(parse_status_line("éé é"), Some(record("é", FileState::Untracked, true)));
    assert_eq!(parse_status_line("éé "), None);
}

#[test]
fn state_codes() {
    assert_eq!(FileState::Added.code(), "A");
    assert_eq!(FileState::Modified.code(), "M");
    assert_eq!(FileState::Deleted.code(), "D");
    assert_eq!(FileState::Untracked.code(), "U");
}

#[test]
fn states_are_read_back_from_their_codes() {
    for state in [FileState::Added, FileState::Modified, FileState::Deleted, FileState::Untracked] {
        assert_eq!(FileState::from_code(state.code()), Some(state));
    }
    for code in ["", "a", "AA", "R", "?", " A", "??"] {
        assert_eq!(FileState::from_code(code), None, "{code}");
    }
}

#[test]
fn failed_status_run_gives_standard_error() {
    assert_eq!(
        status_from_run(false, "M  a.rs\n", "fatal: not a git repository\n"),
        Err("fatal: not a git repository\n".to_string())
    );
    assert_eq!(status_from_run(false, "", ""), Err(String::new()));
}

#[test]
fn successful_status_run_gives_records() {
    assert_eq!(
        status_from_run(true, " M a.rs\n", "warning: ignored\n"),
        Ok(vec![record("a.rs", FileState::Modified, false)])
    );
}
