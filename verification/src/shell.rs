use vstd::prelude::*;
use vstd::string::StrSliceExecFns;
use crate::chars::{char_is_numeric, decode};

verus! {

/// What an interactive shell does with a line that it has read.
#[derive(Clone, Copy, Debug, PartialEq, Eq)]
pub enum LineAction<'a> {
    /// The line is empty: read the next one.
    Skip,
    /// The line is a meta-command: call the command `name`, if there is
    /// one, with `arg`.
    Meta { name: &'a str, arg: &'a str },
    /// The line is an expression: evaluate it.
    Evaluate { expr: &'a str },
}

/// Whether `line` is a meta-command: it begins with a `.` that is followed
/// by something other than a digit, so that `.5` stays a number.
pub open spec fn spec_is_meta(line: Seq<char>) -> bool {
    line.len() >= 2 && line[0] == '.' && !char_is_numeric(line[1])
}

/// The first offset from `from` on at which `text` holds a blank; the
/// length of `text` where it holds none there.
pub open spec fn spec_find_blank(text: Seq<char>, from: int) -> int
    decreases text.len() - from,
{
    if from >= text.len() {
        text.len() as int
    } else if text[from] == ' ' {
        from
    } else {
        spec_find_blank(text, from + 1)
    }
}

/// The name of the meta-command `line`: what stands before its first
/// blank.
pub open spec fn spec_meta_name(line: Seq<char>) -> Seq<char> {
    line.subrange(0, spec_find_blank(line, 0))
}

/// The argument of the meta-command `line`: what stands between its first
/// blank and its second; nothing where it holds no blank.
pub open spec fn spec_meta_arg(line: Seq<char>) -> Seq<char> {
    let first = spec_find_blank(line, 0);
    if first < line.len() {
        line.subrange(first + 1, spec_find_blank(line, first + 1))
    } else {
        Seq::empty()
    }
}

/// What is between `from` and the blank found from there on holds no
/// blank, and the offset found is that of a blank or the end of the text.
pub proof fn lemma_find_blank(text: Seq<char>, from: int)
    requires
        0 <= from <= text.len(),
    ensures
        from <= spec_find_blank(text, from) <= text.len(),
        forall|k: int| from <= k < spec_find_blank(text, from) ==> text[k] != ' ',
        spec_find_blank(text, from) < text.len() ==> text[spec_find_blank(text, from)] == ' ',
    decreases text.len() - from,
{
    if from < text.len() && text[from] != ' ' {
        lemma_find_blank(text, from + 1);
    }
}

/// Whether `c` is a meta-command.
pub fn is_meta(c: &String) -> (b: bool)
    ensures
        b == spec_is_meta(c@),
{
    let text = decode(c.as_str());
    if text.len() < 2 {
        return false;
    }
    text[0] == '.' && !text[1].is_numeric()
}

/// The first offset from `from` on at which `text` holds a blank.
pub fn find_blank(text: &[char], from: usize) -> (at: usize)
    requires
        from <= text@.len(),
    ensures
        at == spec_find_blank(text@, from as int),
        from <= at <= text@.len(),
{
    let mut i: usize = from;
    while i < text.len() && text[i] != ' '
        invariant
            from <= i <= text@.len(),
            spec_find_blank(text@, from as int) == spec_find_blank(text@, i as int),
        decreases text@.len() - i,
    {
        i = i + 1;
    }
    i
}

/// Decides what to do with the line `line`.
///
/// A meta-command is split at its blanks into a name and one argument;
/// whatever follows a second blank is left out.
pub fn dispatch<'a>(line: &'a String) -> (action: LineAction<'a>)
    ensures
        match action {
            LineAction::Skip => line@.len() == 0,
            LineAction::Meta { name, arg } => {
                &&& spec_is_meta(line@)
                &&& name@ == spec_meta_name(line@)
                &&& arg@ == spec_meta_arg(line@)
            },
            LineAction::Evaluate { expr } => {
                &&& line@.len() > 0
                &&& !spec_is_meta(line@)
                &&& expr@ == line@
            },
        },
{
    let text = decode(line.as_str());
    if text.len() == 0 {
        return LineAction::Skip;
    }
    if !is_meta(line) {
        return LineAction::Evaluate { expr: line.as_str() };
    }
    let first: usize = find_blank(text.as_slice(), 0);
    let name: &'a str = line.as_str().substring_char(0, first);
    if first < text.len() {
        let second: usize = find_blank(text.as_slice(), first + 1);
        let arg: &'a str = line.as_str().substring_char(first + 1, second);
        LineAction::Meta { name, arg }
    } else {
        let arg: &'a str = line.as_str().substring_char(first, first);
        proof {
            assert(arg@ =~= Seq::<char>::empty());
        }
        LineAction::Meta { name, arg }
    }
}

} // verus!
