//! The directory the program is to open, taken from its command line.

use crate::text::{chars_of, string_of, texts};
use vstd::prelude::*;

verus! {

/// `s` without one closing double quote. A shell that hands over a quoted
/// directory ending in a backslash leaves such a quote behind.
pub open spec fn without_closing_quote(s: Seq<char>) -> Seq<char> {
    if s.len() > 0 && s.last() == '"' {
        s.drop_last()
    } else {
        s
    }
}

/// The directory that the command line `args` names: its first argument
/// after the program's name, without a closing quote; `None` where there is
/// no such argument.
pub open spec fn named_dir(args: Seq<Seq<char>>) -> Option<Seq<char>> {
    if args.len() > 1 {
        Some(without_closing_quote(args[1]))
    } else {
        None
    }
}

/// The directory that the command line names, if it names one. Without one
/// the caller falls back on the current directory.
pub fn startup_dir_from_args(args: &Vec<String>) -> (r: Option<String>)
    ensures
        crate::text::option_text(r) == named_dir(texts(args@)),
{
    if args.len() > 1 {
        let chars = chars_of(args[1].as_str());
        let n = chars.len();
        assert(chars@.subrange(0, n as int) == chars@);
        if n > 0 && chars[n - 1] == '"' {
            assert(chars@.subrange(0, n - 1) == chars@.drop_last());
            Some(string_of(&chars, 0, n - 1))
        } else {
            Some(string_of(&chars, 0, n))
        }
    } else {
        None
    }
}

} // verus!
