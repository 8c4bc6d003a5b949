//! Pages of markup, laid out one tag to a line by `prettyish_html`.
//!
//! The prettifier breaks the page into lines and indents each line by a
//! count of the tags that are open. It takes one off the count at every line
//! that closes a tag, and the count is unsigned: on a page that closes more
//! than it opened, the prettifier panics. This module follows the count
//! through a page, and hands the prettifier only the pages that keep it at
//! zero or above.

use crate::text::chars_of;
use vstd::prelude::*;

verus! {

/// A character that may follow `<` at the start of a tag: the prettifier
/// takes every character from `A` to `z` for one.
pub open spec fn tag_letter(c: char) -> bool {
    65 <= c as u32 <= 122
}

/// A closing tag, `</`, starts at `at`.
pub open spec fn closes_at(page: Seq<char>, at: int) -> bool {
    &&& 0 <= at
    &&& at + 1 < page.len()
    &&& page[at] == '<'
    &&& page[at + 1] == '/'
}

/// A comment, `<!--`, starts at `at`.
pub open spec fn comment_at(page: Seq<char>, at: int) -> bool {
    &&& 0 <= at
    &&& at + 3 < page.len()
    &&& page[at] == '<'
    &&& page[at + 1] == '!'
    &&& page[at + 2] == '-'
    &&& page[at + 3] == '-'
}

/// A tag, `<` before a tag letter, starts at `at`.
pub open spec fn tag_at(page: Seq<char>, at: int) -> bool {
    &&& 0 <= at
    &&& at + 1 < page.len()
    &&& page[at] == '<'
    &&& tag_letter(page[at + 1])
}

/// The end of a comment, `-->`, stands just before `at`.
pub open spec fn comment_ends_at(page: Seq<char>, at: int) -> bool {
    &&& 3 <= at <= page.len()
    &&& page[at - 3] == '-'
    &&& page[at - 2] == '-'
    &&& page[at - 1] == '>'
}

/// A document type, `<!DOCTYPE`, starts at `at`.
pub open spec fn doctype_at(page: Seq<char>, at: int) -> bool {
    &&& 0 <= at
    &&& at + 9 <= page.len()
    &&& page.subrange(at, at + 9) =~= seq!['<', '!', 'D', 'O', 'C', 'T', 'Y', 'P', 'E']
}

/// A line of the prettified page ends at `at`: the page ends there, a line
/// feed stands there, or the prettifier puts a line feed there (before a
/// closing tag, a comment or a tag, and after the end of a comment).
pub open spec fn line_break(page: Seq<char>, at: int) -> bool {
    ||| at >= page.len()
    ||| page[at] == '\n'
    ||| closes_at(page, at)
    ||| comment_at(page, at)
    ||| tag_at(page, at)
    ||| comment_ends_at(page, at)
}

/// A character that the prettifier trims off the ends of a page: one of the
/// characters that Unicode calls white space.
pub open spec fn blank(c: char) -> bool {
    let code = c as u32;
    ||| 0x09 <= code <= 0x0D
    ||| code == 0x20
    ||| code == 0x85
    ||| code == 0xA0
    ||| code == 0x1680
    ||| 0x2000 <= code <= 0x200A
    ||| code == 0x2028
    ||| code == 0x2029
    ||| code == 0x202F
    ||| code == 0x205F
    ||| code == 0x3000
}

/// Nothing but blanks stands before `at`.
pub open spec fn blank_before(page: Seq<char>, at: int) -> bool {
    forall|i: int| 0 <= i < at ==> blank(#[trigger] page[i])
}

/// A line of the prettified page starts at `at`: only blanks stand before,
/// which are trimmed off, or a line feed stands just before, or the
/// prettifier puts one there.
pub open spec fn line_start(page: Seq<char>, at: int) -> bool {
    &&& 0 <= at < page.len()
    &&& (blank_before(page, at) || page[at - 1] == '\n' || line_break(page, at))
}

/// The first line break at or after `from`.
pub open spec fn line_end(page: Seq<char>, from: int) -> int
    decreases page.len() - from,
{
    if line_break(page, from) {
        from
    } else {
        line_end(page, from + 1)
    }
}

/// The line that starts at `at` adds one to the count: it starts with `<`,
/// but not with `</` or `<!DOCTYPE`, and it does not end in `/>`.
pub open spec fn opens_at(page: Seq<char>, at: int) -> bool {
    &&& line_start(page, at)
    &&& page[at] == '<'
    &&& !closes_at(page, at)
    &&& !doctype_at(page, at)
    &&& {
        let end = line_end(page, at + 1);
        !(end - at >= 2 && page[end - 2] == '/' && page[end - 1] == '>')
    }
}

/// The count before position `at`: the lines starting before `at` that add
/// one, less the closing tags that start before `at`.
pub open spec fn depth(page: Seq<char>, at: int) -> int
    decreases at,
{
    if at <= 0 {
        0
    } else if opens_at(page, at - 1) {
        depth(page, at - 1) + 1
    } else if closes_at(page, at - 1) {
        depth(page, at - 1) - 1
    } else {
        depth(page, at - 1)
    }
}

/// Every closing tag of `page` finds the count above zero.
pub open spec fn keeps_depth(page: Seq<char>) -> bool {
    forall|at: int| closes_at(page, at) ==> depth(page, at) >= 1
}

fn is_blank(c: char) -> (yes: bool)
    ensures
        yes == blank(c),
{
    let code: u32 = c as u32;
    (0x09 <= code && code <= 0x0D) || code == 0x20 || code == 0x85 || code == 0xA0 || code == 0x1680
        || (0x2000 <= code && code <= 0x200A) || code == 0x2028 || code == 0x2029 || code == 0x202F
        || code == 0x205F || code == 0x3000
}

fn is_tag_letter(c: char) -> (yes: bool)
    ensures
        yes == tag_letter(c),
{
    let code: u32 = c as u32;
    65 <= code && code <= 122
}

fn is_line_break(page: &[char], at: usize) -> (yes: bool)
    ensures
        yes == line_break(page@, at as int),
{
    let n: usize = page.len();
    if at >= n {
        return true;
    }
    if page[at] == '\n' {
        return true;
    }
    if at >= 3 && page[at - 3] == '-' && page[at - 2] == '-' && page[at - 1] == '>' {
        return true;
    }
    if page[at] != '<' || n - at < 2 {
        return false;
    }
    let next: char = page[at + 1];
    if next == '/' || is_tag_letter(next) {
        return true;
    }
    n - at >= 4 && next == '!' && page[at + 2] == '-' && page[at + 3] == '-'
}

fn is_doctype(page: &[char], at: usize) -> (yes: bool)
    requires
        at <= page.len(),
    ensures
        yes == doctype_at(page@, at as int),
{
    if page.len() - at < 9 {
        return false;
    }
    let yes = page[at] == '<' && page[at + 1] == '!' && page[at + 2] == 'D' && page[at + 3] == 'O'
        && page[at + 4] == 'C' && page[at + 5] == 'T' && page[at + 6] == 'Y' && page[at + 7] == 'P'
        && page[at + 8] == 'E';
    proof {
        let found = page@.subrange(at as int, at + 9);
        assert(forall|k: int| 0 <= k < 9 ==> found[k] == page@[at + k]);
        let wanted = seq!['<', '!', 'D', 'O', 'C', 'T', 'Y', 'P', 'E'];
        if !yes {
            assert(found[0] != wanted[0] || found[1] != wanted[1] || found[2] != wanted[2]
                || found[3] != wanted[3] || found[4] != wanted[4] || found[5] != wanted[5]
                || found[6] != wanted[6] || found[7] != wanted[7] || found[8] != wanted[8]);
        }
    }
    yes
}

fn find_line_end(page: &[char], from: usize) -> (end: usize)
    requires
        from <= page.len(),
    ensures
        end == line_end(page@, from as int),
        from <= end <= page.len(),
{
    let mut at: usize = from;
    while !is_line_break(page, at)
        invariant
            from <= at <= page.len(),
            line_end(page@, from as int) == line_end(page@, at as int),
        decreases page.len() - at,
    {
        at += 1;
    }
    at
}

fn is_opening(page: &[char], at: usize, leading: bool) -> (yes: bool)
    requires
        at < page.len(),
        leading == blank_before(page@, at as int),
    ensures
        yes == opens_at(page@, at as int),
{
    let n: usize = page.len();
    if page[at] != '<' {
        return false;
    }
    if !(leading || (at > 0 && page[at - 1] == '\n') || is_line_break(page, at)) {
        assert(at > 0) by {
            assert(blank_before(page@, 0));
        }
        return false;
    }
    if n - at >= 2 && page[at + 1] == '/' {
        return false;
    }
    if is_doctype(page, at) {
        return false;
    }
    let end: usize = find_line_end(page, at + 1);
    !(end - at >= 2 && page[end - 2] == '/' && page[end - 1] == '>')
}

/// Whether every closing tag of `page` finds the count above zero.
pub fn check_depth(page: &[char]) -> (kept: bool)
    ensures
        kept == keeps_depth(page@),
{
    let n: usize = page.len();
    let mut count: usize = 0;
    let mut leading: bool = true;
    let mut at: usize = 0;
    while at < n
        invariant
            at <= n,
            n == page.len(),
            count == depth(page@, at as int),
            count <= at,
            leading == blank_before(page@, at as int),
            forall|c: int| c < at && closes_at(page@, c) ==> depth(page@, c) >= 1,
        decreases n - at,
    {
        if is_opening(page, at, leading) {
            count += 1;
        } else if n - at >= 2 && page[at] == '<' && page[at + 1] == '/' {
            if count == 0 {
                assert(closes_at(page@, at as int));
                return false;
            }
            count -= 1;
        }
        let here: bool = is_blank(page[at]);
        proof {
            if leading && here {
                assert forall|i: int| 0 <= i < at + 1 implies blank(#[trigger] page@[i]) by {
                    if i < at {
                        assert(blank(page@[i]));
                    }
                }
            } else if !here {
                assert(!blank(page@[at as int]));
            } else {
                let i = choose|i: int| 0 <= i < at && !blank(#[trigger] page@[i]);
                assert(!blank(page@[i]));
            }
        }
        leading = leading && here;
        at += 1;
    }
    assert forall|c: int| closes_at(page@, c) implies depth(page@, c) >= 1 by {
        assert(c < n);
    }
    true
}

/// The page that `prettyish_html::prettify` makes of `page`.
pub uninterp spec fn prettified(page: Seq<char>) -> Seq<char>;

/// Calls `prettyish_html::prettify`, which returns the page with a line feed
/// before every `<!--`, `</` and `<` followed by a character from `A` to
/// `z`, and one after every `-->`, trimmed of the white space at its ends,
/// and each line indented by the count of open tags.
///
/// The prettifier subtracts one from the count at every line that starts
/// with `</`, and panics where the count is zero. It adds one after every
/// other line that starts with `<`, unless the line starts with `<!DOCTYPE`
/// or ends in `/>`. `keeps_depth` follows the same count over the same
/// lines, the first of which starts behind the blanks that are trimmed off.
/// The line that the trimming shortens at the end of the page is the last
/// one, and no count is read after it.
#[verifier::external_body]
fn prettify(page: &str) -> (pretty: String)
    requires
        keeps_depth(page@),
    ensures
        pretty@ == prettified(page@),
{
    prettyish_html::prettify(page)
}

/// Lays `page` out one tag to a line; `None` for a page that closes more
/// tags than it opened before them.
pub fn tidy(page: &str) -> (pretty: Option<String>)
    ensures
        match pretty {
            Some(text) => keeps_depth(page@) && text@ == prettified(page@),
            None => !keeps_depth(page@),
        },
{
    let chars = chars_of(page);
    if check_depth(chars.as_slice()) {
        Some(prettify(page))
    } else {
        None
    }
}

} // verus!
