//! Reading the output of `git status --porcelain`: one record for each line
//! of the form `XY path`, in the order of the lines.

use crate::text::{
    chars_of, line_spans, lines, same_text, spans_cover, string_of, trim_span, trimmed, LineSpan,
};
use vstd::prelude::*;

verus! {

/// What happened to a file.
#[derive(Clone, Copy, Debug, PartialEq, Eq, Structural)]
pub enum FileState {
    Added,
    Modified,
    Deleted,
    Untracked,
}

impl FileState {
    /// The one-letter code of the state.
    pub open spec fn spec_code(self) -> Seq<char> {
        match self {
            FileState::Added => "A"@,
            FileState::Modified => "M"@,
            FileState::Deleted => "D"@,
            FileState::Untracked => "U"@,
        }
    }

    /// The state with the given one-letter code.
    pub fn from_code(code: &str) -> (r: Option<FileState>)
        ensures
            r == state_with_code(code@),
    {
        if same_text(code, "A") {
            Some(FileState::Added)
        } else if same_text(code, "M") {
            Some(FileState::Modified)
        } else if same_text(code, "D") {
            Some(FileState::Deleted)
        } else if same_text(code, "U") {
            Some(FileState::Untracked)
        } else {
            None
        }
    }

    /// The one-letter code of the state: `A`, `M`, `D` or `U`.
    pub fn code(self) -> (r: &'static str)
        ensures
            r@ == self.spec_code(),
    {
        match self {
            FileState::Added => "A",
            FileState::Modified => "M",
            FileState::Deleted => "D",
            FileState::Untracked => "U",
        }
    }
}

/// The state with the one-letter code `code`, if there is one.
pub open spec fn state_with_code(code: Seq<char>) -> Option<FileState> {
    if code == "A"@ {
        Some(FileState::Added)
    } else if code == "M"@ {
        Some(FileState::Modified)
    } else if code == "D"@ {
        Some(FileState::Deleted)
    } else if code == "U"@ {
        Some(FileState::Untracked)
    } else {
        None
    }
}

/// Reading a state's code gives the state back.
pub proof fn code_names_its_state(state: FileState)
    ensures
        state_with_code(state.spec_code()) == Some(state),
{
    reveal_strlit("A");
    reveal_strlit("M");
    reveal_strlit("D");
    reveal_strlit("U");
    assert("A"@[0] == 'A' && "M"@[0] == 'M' && "D"@[0] == 'D' && "U"@[0] == 'U');
}

/// The state that the two status characters of a line stand for: `x` is the
/// state in the index, `y` the state in the work tree. `??` is an untracked
/// file. Otherwise an `A` in either column makes the file added, else an `M`
/// modified, else a `D` deleted; every other pair counts as untracked.
pub open spec fn state_of(x: char, y: char) -> FileState {
    if x == '?' && y == '?' {
        FileState::Untracked
    } else if x == 'A' || y == 'A' {
        FileState::Added
    } else if x == 'M' || y == 'M' {
        FileState::Modified
    } else if x == 'D' || y == 'D' {
        FileState::Deleted
    } else {
        FileState::Untracked
    }
}

/// Whether the index character `x` marks a staged change.
pub open spec fn is_staged(x: char) -> bool {
    x != ' ' && x != '?'
}

/// Classifies a pair of status characters.
pub fn classify(x: char, y: char) -> (r: FileState)
    ensures
        r == state_of(x, y),
        r == state_of(y, x),
        x == '?' && y == '?' ==> r == FileState::Untracked,
        !(x == '?' && y == '?') && (x == 'A' || y == 'A') ==> r == FileState::Added,
        x != 'A' && y != 'A' && (x == 'M' || y == 'M') ==> r == FileState::Modified,
        x != 'A' && y != 'A' && x != 'M' && y != 'M' && (x == 'D' || y == 'D') ==> r
            == FileState::Deleted,
{
    if x == '?' && y == '?' {
        FileState::Untracked
    } else if x == 'A' || y == 'A' {
        FileState::Added
    } else if x == 'M' || y == 'M' {
        FileState::Modified
    } else if x == 'D' || y == 'D' {
        FileState::Deleted
    } else {
        FileState::Untracked
    }
}

/// The status of one file.
#[derive(Debug, PartialEq, Eq)]
pub struct GitFileStatus {
    pub path: String,
    pub status: FileState,
    pub staged: bool,
}

/// A [`GitFileStatus`] as plain values.
pub struct FileStatusView {
    pub path: Seq<char>,
    pub status: FileState,
    pub staged: bool,
}

impl View for GitFileStatus {
    type V = FileStatusView;

    open spec fn view(&self) -> FileStatusView {
        FileStatusView { path: self.path@, status: self.status, staged: self.staged }
    }
}

/// The records of `files` as plain values.
pub open spec fn files_view(files: Seq<GitFileStatus>) -> Seq<FileStatusView> {
    files.map_values(|f: GitFileStatus| f@)
}

/// The fewest characters a status line has: two status characters, a
/// separator and a path.
pub const MIN_LINE_LEN: usize = 4;

/// The record that a status line of at least four characters stands for:
/// the path is what follows the third character, trimmed.
pub open spec fn record_of(line: Seq<char>) -> FileStatusView {
    FileStatusView {
        path: trimmed(line.skip(3)),
        status: state_of(line[0], line[1]),
        staged: is_staged(line[0]),
    }
}

/// The record of a line, or `None` for a line too short to hold one.
pub open spec fn entry_of(line: Seq<char>) -> Option<FileStatusView> {
    if line.len() >= MIN_LINE_LEN {
        Some(record_of(line))
    } else {
        None
    }
}

/// The records of a whole status output: those of its lines, in order.
pub open spec fn status_records(output: Seq<char>) -> Seq<FileStatusView> {
    lines(output).filter_map(|line: Seq<char>| entry_of(line))
}

/// The view of an optional record.
pub open spec fn entry_view(entry: Option<GitFileStatus>) -> Option<FileStatusView> {
    match entry {
        Some(f) => Some(f@),
        None => None,
    }
}

fn entry_at(chars: &Vec<char>, span: LineSpan) -> (r: Option<GitFileStatus>)
    requires
        span.start <= span.end <= chars.len(),
    ensures
        entry_view(r) == entry_of(chars@.subrange(span.start as int, span.end as int)),
{
    if span.end - span.start < MIN_LINE_LEN {
        return None;
    }
    let ghost line = chars@.subrange(span.start as int, span.end as int);
    let x = chars[span.start];
    let y = chars[span.start + 1];
    let (a, b) = trim_span(chars, span.start + 3, span.end);
    proof {
        assert(line[0] == x && line[1] == y);
        assert(line.skip(3) == chars@.subrange(span.start + 3, span.end as int));
    }
    Some(
        GitFileStatus {
            path: string_of(chars, a, b),
            status: classify(x, y),
            staged: x != ' ' && x != '?',
        },
    )
}

/// Reads one status line. A line of fewer than four characters holds no
/// record. In a record, a line that begins with `??` is untracked and not
/// staged, and a file is staged exactly where the first character is neither
/// a space nor `?`.
pub fn parse_status_line(line: &str) -> (r: Option<GitFileStatus>)
    ensures
        entry_view(r) == entry_of(line@),
        r is Some <==> line@.len() >= 4,
        r matches Some(f) ==> {
            &&& f.staged <==> line@[0] != ' ' && line@[0] != '?'
            &&& line@[0] == '?' && line@[1] == '?' ==> f.status == FileState::Untracked
                && !f.staged
        },
{
    let chars = chars_of(line);
    assert(chars@.subrange(0, chars@.len() as int) == chars@);
    entry_at(&chars, LineSpan { start: 0, end: chars.len() })
}

/// Reads the output of `git status --porcelain`: one record for each line of
/// at least four characters, in the order of the lines.
pub fn parse_status(output: &str) -> (files: Vec<GitFileStatus>)
    ensures
        files_view(files@) == status_records(output@),
{
    let chars = chars_of(output);
    let spans = line_spans(&chars);
    let ghost all = lines(chars@);
    let ghost entry = |line: Seq<char>| entry_of(line);
    let mut files: Vec<GitFileStatus> = Vec::new();
    let mut i: usize = 0;
    while i < spans.len()
        invariant
            i <= spans.len(),
            chars@ == output@,
            all == lines(chars@),
            entry == (|line: Seq<char>| entry_of(line)),
            spans_cover(chars@, spans@, all),
            files_view(files@) == all.take(i as int).filter_map(entry),
        decreases spans.len() - i,
    {
        let found = entry_at(&chars, spans[i]);
        proof {
            all.lemma_filter_map_take_succ(entry, i as int);
        }
        match found {
            Some(f) => {
                let ghost before = files@;
                files.push(f);
                assert(files_view(files@) =~= files_view(before).push(f@));
            },
            None => {},
        }
        i += 1;
    }
    proof {
        assert(all.take(i as int) == all);
    }
    files
}

/// What a run of `git status --porcelain` amounts to: the records of its
/// standard output where git reported success, else its standard error,
/// word for word.
pub fn status_from_run(success: bool, stdout: &str, stderr: &str) -> (r: Result<
    Vec<GitFileStatus>,
    String,
>)
    ensures
        match r {
            Ok(files) => success && files_view(files@) == status_records(stdout@),
            Err(text) => !success && text@ == stderr@,
        },
{
    if !success {
        return Err(String::from_str(stderr));
    }
    Ok(parse_status(stdout))
}

/// A line that begins with `??` stands for an untracked file that is not
/// staged, whatever follows.
pub proof fn untracked_marker_is_unstaged(line: Seq<char>)
    requires
        line.len() >= 4,
        line[0] == '?',
        line[1] == '?',
    ensures
        entry_of(line) is Some,
        entry_of(line)->0.status == FileState::Untracked,
        !entry_of(line)->0.staged,
{
}

/// The state goes by the letters alone, not by the column that holds them,
/// and `A` outranks `M`, which outranks `D`.
pub proof fn state_ignores_column(x: char, y: char)
    ensures
        state_of(x, y) == state_of(y, x),
        !(x == '?' && y == '?') && (x == 'A' || y == 'A') ==> state_of(x, y) == FileState::Added,
        x != 'A' && y != 'A' && (x == 'M' || y == 'M') ==> state_of(x, y) == FileState::Modified,
        x != 'A' && y != 'A' && x != 'M' && y != 'M' && (x == 'D' || y == 'D') ==> state_of(x, y)
            == FileState::Deleted,
{
}

/// A record is staged exactly where the index character of its line is
/// neither a space nor `?`.
pub proof fn staged_iff_index_marked(line: Seq<char>)
    requires
        line.len() >= 4,
    ensures
        entry_of(line)->0.staged <==> line[0] != ' ' && line[0] != '?',
{
}

/// Each record of a status output is the record of one of its lines, and
/// that line has at least four characters.
pub proof fn record_has_line(output: Seq<char>, i: int)
    requires
        0 <= i < status_records(output).len(),
    ensures
        exists|line: Seq<char>| #[trigger]
            lines(output).contains(line) && line.len() >= 4 && status_records(output)[i]
                == record_of(line),
{
    let entry = |line: Seq<char>| entry_of(line);
    let record = status_records(output)[i];
    assert(lines(output).filter_map(entry).contains(record));
    lines(output).lemma_filter_map_contains(entry, record);
    let line = choose|line: Seq<char>| #[trigger]
        lines(output).contains(line) && entry(line) == Some(record);
    assert(lines(output).contains(line) && line.len() >= 4 && record == record_of(line));
}

} // verus!
