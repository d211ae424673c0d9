//! Text for the terminal: what a dry run of an installation shows.

use crate::text::{
    append_range, append_str, chars_of, contains, find_char, index_of, is_blank, blank,
    occurs_in,
};
use vstd::prelude::*;
use vstd::slice::slice_subrange;

verus! {

/// The sequence that switches the terminal to cyan.
pub open spec fn code_color() -> Seq<char> {
    "\x1b[36m"@
}

/// The sequence that switches the colour of the terminal off.
pub open spec fn color_reset() -> Seq<char> {
    "\x1b[0m"@
}

/// `text` with what stands between two backticks in colour. A backtick
/// without a partner is left as it is, with what follows it.
pub open spec fn colorized(text: Seq<char>) -> Seq<char>
    decreases text.len(),
{
    let open = index_of(text, '`');
    if 0 <= open < text.len() {
        let rest = text.skip(open + 1);
        let close = index_of(rest, '`');
        if 0 <= close < rest.len() {
            text.take(open) + "`"@ + code_color() + rest.take(close) + color_reset() + "`"@
                + colorized(rest.skip(close + 1))
        } else {
            text
        }
    } else {
        text
    }
}

/// The coloured form of one stretch of inline code: what stands before
/// the opening backtick, and the code in colour between its backticks.
pub open spec fn colored_stretch(before: Seq<char>, code: Seq<char>) -> Seq<char> {
    before + "`"@ + code_color() + code + color_reset() + "`"@
}

/// Where `text` holds a pair of backticks, its coloured form is that of
/// the first stretch of code, followed by the coloured form of the rest.
proof fn lemma_colorized_pair(text: Seq<char>)
    requires
        0 <= index_of(text, '`') < text.len(),
        0 <= index_of(text.skip(index_of(text, '`') + 1), '`') < text.len() - index_of(text, '`')
            - 1,
    ensures
        ({
            let open = index_of(text, '`');
            let rest = text.skip(open + 1);
            let close = index_of(rest, '`');
            colorized(text) == colored_stretch(text.take(open), rest.take(close)) + colorized(
                rest.skip(close + 1),
            )
        }),
{
}

/// Appends to `out` the coloured form of the code `cs[open + 1..close]`,
/// with `cs[from..open]` before it.
fn append_stretch(out: &mut String, cs: &[char], from: usize, open: usize, close: usize)
    requires
        from <= open < close <= cs@.len(),
    ensures
        final(out)@ == old(out)@ + colored_stretch(
            cs@.subrange(from as int, open as int),
            cs@.subrange(open + 1, close as int),
        ),
{
    append_range(out, cs, from, open);
    append_str(out, "`");
    append_str(out, "\x1b[36m");
    append_range(out, cs, open + 1, close);
    append_str(out, "\x1b[0m");
    append_str(out, "`");
    assert(out@ =~= old(out)@ + colored_stretch(
        cs@.subrange(from as int, open as int),
        cs@.subrange(open + 1, close as int),
    ));
}

/// Puts inline code, the text between backticks, in colour.
pub fn colorize_inline_code(text: &str) -> (r: String)
    ensures
        r@ == colorized(text@),
{
    let cs = chars_of(text);
    let len = cs.len();
    let mut out = String::new();
    let mut pos: usize = 0;
    assert(cs@.skip(0) =~= cs@);
    assert(out@ + colorized(cs@) =~= colorized(cs@));
    loop
        invariant_except_break
            out@ + colorized(cs@.skip(pos as int)) == colorized(cs@),
        invariant
            pos <= len,
            len == cs@.len(),
            cs@ == text@,
        ensures
            out@ == colorized(text@),
        decreases len - pos,
    {
        let ghost tail = cs@.skip(pos as int);
        let ghost before = out@;
        assert(cs@.subrange(pos as int, len as int) =~= tail);
        let open_in = find_char(slice_subrange(cs.as_slice(), pos, len), '`');
        if open_in >= len - pos {
            assert(colorized(tail) == tail);
            append_range(&mut out, cs.as_slice(), pos, len);
            break ;
        }
        let open: usize = pos + open_in;
        let ghost rest = tail.skip(open_in + 1);
        assert(cs@.subrange(open + 1, len as int) =~= rest);
        let close_in = find_char(slice_subrange(cs.as_slice(), open + 1, len), '`');
        if close_in >= len - (open + 1) {
            assert(colorized(tail) == tail);
            append_range(&mut out, cs.as_slice(), pos, len);
            break ;
        }
        let close: usize = open + 1 + close_in;
        append_stretch(&mut out, cs.as_slice(), pos, open, close);
        proof {
            let next = cs@.skip(close + 1);
            let stretch = colored_stretch(tail.take(open_in as int), rest.take(close_in as int));
            assert(cs@.subrange(pos as int, open as int) =~= tail.take(open_in as int));
            assert(cs@.subrange(open + 1, close as int) =~= rest.take(close_in as int));
            assert(rest.skip(close_in + 1) =~= next);
            lemma_colorized_pair(tail);
            assert(out@ == before + stretch);
            assert(colorized(tail) == stretch + colorized(next));
            assert((before + stretch) + colorized(next) =~= before + (stretch + colorized(next)));
        }
        pos = close + 1;
    }
    out
}

/// Whether output is put in colour: never where colour is switched off;
/// else where it is forced, a pager is at hand, or the output is a
/// terminal.
pub fn should_use_color(no_color: bool, force_color: bool, pager: bool, tty: bool) -> (r: bool)
    ensures
        r == (!no_color && (force_color || pager || tty)),
{
    if no_color {
        return false;
    }
    if force_color {
        return true;
    }
    if pager {
        return true;
    }
    tty
}

/// Whether a pager named by the environment is to be used: its name is
/// not blank.
pub fn pager_named(pager: Option<&str>) -> (r: bool)
    ensures
        r == (pager is Some && !is_blank(pager->0@)),
{
    match pager {
        Some(p) => !blank(chars_of(p).as_slice()),
        None => false,
    }
}

/// Whether a coloured diff that ended with `code` and said `stderr` is to
/// be run again without colour: it failed with status 2 over an option
/// that it does not know.
pub fn retry_without_color(code: Option<i32>, stderr: &str) -> (r: bool)
    ensures
        r == (code == Some(2i32) && (occurs_in("illegal option"@, stderr@) || occurs_in(
            "unknown option"@,
            stderr@,
        ))),
{
    match code {
        Some(2) => {
            let cs = chars_of(stderr);
            contains(cs.as_slice(), chars_of("illegal option").as_slice()) || contains(
                cs.as_slice(),
                chars_of("unknown option").as_slice(),
            )
        },
        _ => false,
    }
}

/// What the diff tool gave.
#[derive(Debug, Clone, PartialEq)]
pub enum DiffResult {
    /// It ran; this is what it printed.
    Printed(String),
    /// It could not be run.
    Unavailable,
}

/// The line above a diff.
pub open spec fn diff_header(path: Seq<char>, color: bool) -> Seq<char> {
    if color {
        colorized(
            "The following changes would be made to "@ + "\x1b[33m"@ + path + "\x1b[0m"@
                + ":\n\n"@,
        )
    } else {
        "The following changes would be made to "@ + path + ":\n\n"@
    }
}

/// The lines below a diff.
pub open spec fn diff_footer(apply_command: Seq<char>, color: bool) -> Seq<char> {
    let plain = "\nTo apply these changes automatically re-run `"@ + apply_command
        + "` with the --apply command.\n"@;
    if color {
        colorized(plain)
    } else {
        plain
    }
}

/// The body of a dry run: the diff; a note where nothing changes; the new
/// contents where there is no diff tool.
pub open spec fn diff_body(path: Seq<char>, diff: DiffResult, new_contents: Seq<char>) -> Seq<char> {
    match diff {
        DiffResult::Printed(out) => if out@.len() > 0 {
            out@
        } else {
            "No changes for "@ + path + ".\n"@
        },
        DiffResult::Unavailable => "Diff tool unavailable. Proposed new contents:\n\n"@
            + new_contents + "\n"@,
    }
}

/// The text that a dry run shows for the file at `path`.
pub fn print_diff(
    path: &str,
    diff: DiffResult,
    new_contents: &str,
    apply_command: &str,
    color: bool,
) -> (r: String)
    ensures
        r@ == diff_header(path@, color) + diff_body(path@, diff, new_contents@) + diff_footer(
            apply_command@,
            color,
        ),
{
    let mut header = String::new();
    append_str(&mut header, "The following changes would be made to ");
    if color {
        append_str(&mut header, "\x1b[33m");
        append_str(&mut header, path);
        append_str(&mut header, "\x1b[0m");
    } else {
        append_str(&mut header, path);
    }
    append_str(&mut header, ":\n\n");
    let mut footer = String::new();
    append_str(&mut footer, "\nTo apply these changes automatically re-run `");
    append_str(&mut footer, apply_command);
    append_str(&mut footer, "` with the --apply command.\n");
    if color {
        assert(header@ =~= "The following changes would be made to "@ + "\x1b[33m"@ + path@
            + "\x1b[0m"@ + ":\n\n"@);
        header = colorize_inline_code(header.as_str());
        footer = colorize_inline_code(footer.as_str());
    }
    let mut out = String::new();
    append_str(&mut out, header.as_str());
    match &diff {
        DiffResult::Printed(printed) => {
            if printed.as_str().as_bytes().len() > 0 {
                proof {
                    if printed@.len() == 0 {
                        assert(vstd::utf8::encode_utf8(printed@).len() == 0);
                    }
                }
                append_str(&mut out, printed.as_str());
            } else {
                proof {
                    if printed@.len() > 0 {
                        vstd::utf8::encode_utf8_first_scalar(printed@);
                    }
                }
                append_str(&mut out, "No changes for ");
                append_str(&mut out, path);
                append_str(&mut out, ".\n");
            }
        },
        DiffResult::Unavailable => {
            append_str(&mut out, "Diff tool unavailable. Proposed new contents:\n\n");
            append_str(&mut out, new_contents);
            append_str(&mut out, "\n");
        },
    }
    append_str(&mut out, footer.as_str());
    assert(out@ =~= diff_header(path@, color) + diff_body(path@, diff, new_contents@)
        + diff_footer(apply_command@, color));
    out
}

} // verus!
