use vstd::prelude::*;

verus! {

/// The sentinel line that closes the list of parts.
pub open spec fn end_marker() -> Seq<char> {
    seq!['E', 'N', 'D']
}

/// A line of operator input without its terminator: one trailing `\n`, and
/// a `\r` standing just before it.
pub open spec fn strip_terminator(line: Seq<char>) -> Seq<char> {
    if line.len() > 0 && line.last() == '\n' {
        let rest = line.drop_last();
        if rest.len() > 0 && rest.last() == '\r' {
            rest.drop_last()
        } else {
            rest
        }
    } else {
        line
    }
}

/// Removes the line terminator that reading a line leaves at its end.
pub fn strip_line_terminator(line: &str) -> (r: String)
    ensures
        r@ == strip_terminator(line@),
{
    let n = line.unicode_len();
    let mut end: usize = n;
    if end > 0 && line.get_char(end - 1) == '\n' {
        end = end - 1;
        if end > 0 && line.get_char(end - 1) == '\r' {
            end = end - 1;
        }
    }
    let r = line.substring_char(0, end).to_owned();
    assert(r@ =~= strip_terminator(line@));
    r
}

/// Whether a line, its terminator already removed, is the sentinel `END`
/// (exact and case-sensitive).
pub fn is_end_marker(text: &str) -> (b: bool)
    ensures
        b == (text@ == end_marker()),
{
    let n = text.unicode_len();
    let b = n == 3 && text.get_char(0) == 'E' && text.get_char(1) == 'N' && text.get_char(2) == 'D';
    if b {
        assert(text@ =~= end_marker());
    }
    b
}

} // verus!
