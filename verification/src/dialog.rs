//! The dialog-box renderer: lays out the first page of an encounter's text
//! inside a bordered box of fixed height and map width, and composes the
//! page shown after an encounter (a precept and the player's coordinates).

use vstd::prelude::*;
use vstd::string::StrSliceExecFns;
use crate::tilemap::MAP_WIDTH;

verus! {

/// Rows of the dialog box, the bottom border included.
pub const DIALOG_HEIGHT: usize = 10;

/// The row of the box on which the page's text is placed.
pub const DIALOG_TEXT_ROW: usize = 1;

/// The glyph at column `j` of row `i` of the dialog box showing `page`:
/// the last row is all dashes, the first and last columns of the other rows
/// are bars, the text row holds the page's characters starting at column 1
/// (truncated at the right border), and every other cell is blank.
pub open spec fn dialog_cell(page: Seq<char>, i: int, j: int) -> char {
    if i == DIALOG_HEIGHT - 1 {
        '-'
    } else if j == 0 || j == MAP_WIDTH - 1 {
        '|'
    } else if i == DIALOG_TEXT_ROW && j <= page.len() {
        page[j - 1]
    } else {
        ' '
    }
}

/// `lines` is exactly the dialog box showing `page`.
pub open spec fn dialog_matches(lines: Seq<Vec<char>>, page: Seq<char>) -> bool {
    &&& lines.len() == DIALOG_HEIGHT
    &&& forall|i: int| 0 <= i < DIALOG_HEIGHT ==> #[trigger] lines[i]@.len() == MAP_WIDTH
    &&& forall|i: int, j: int|
        0 <= i < DIALOG_HEIGHT && 0 <= j < MAP_WIDTH ==> #[trigger] lines[i]@[j] == dialog_cell(
            page,
            i,
            j,
        )
}

/// The dialog box for a sequence of text pages, as rows of glyphs. Only the
/// first page is shown. An empty page sequence yields no rows at all.
pub fn render_dialog(pages: &Vec<Vec<char>>) -> (lines: Vec<Vec<char>>)
    ensures
        pages@.len() == 0 ==> lines@.len() == 0,
        pages@.len() > 0 ==> dialog_matches(lines@, pages@[0]@),
{
    let mut lines: Vec<Vec<char>> = Vec::new();
    if pages.len() == 0 {
        return lines;
    }
    let page = &pages[0];
    let mut i: usize = 0;
    while i < DIALOG_HEIGHT
        invariant
            i <= DIALOG_HEIGHT,
            pages@.len() > 0,
            page == &pages@[0],
            lines@.len() == i,
            forall|r: int| 0 <= r < i ==> #[trigger] lines@[r]@.len() == MAP_WIDTH,
            forall|r: int, j: int|
                0 <= r < i && 0 <= j < MAP_WIDTH ==> #[trigger] lines@[r]@[j] == dialog_cell(
                    pages@[0]@,
                    r,
                    j,
                ),
        decreases DIALOG_HEIGHT - i,
    {
        let mut row: Vec<char> = Vec::new();
        let mut j: usize = 0;
        while j < MAP_WIDTH
            invariant
                j <= MAP_WIDTH,
                i < DIALOG_HEIGHT,
                pages@.len() > 0,
                page == &pages@[0],
                row@.len() == j,
                forall|c: int|
                    0 <= c < j ==> #[trigger] row@[c] == dialog_cell(pages@[0]@, i as int, c),
            decreases MAP_WIDTH - j,
        {
            let c = if i == DIALOG_HEIGHT - 1 {
                '-'
            } else if j == 0 || j == MAP_WIDTH - 1 {
                '|'
            } else if i == DIALOG_TEXT_ROW && j <= page.len() {
                page[j - 1]
            } else {
                ' '
            };
            row.push(c);
            j = j + 1;
        }
        lines.push(row);
        i = i + 1;
    }
    lines
}

/// The decimal digits of `v`, for `v` below one hundred.
pub open spec fn decimal_spec(v: int) -> Seq<char> {
    if v < 10 {
        seq![digit_char(v)]
    } else {
        seq![digit_char(v / 10), digit_char(v % 10)]
    }
}

/// The digit character for a value of zero through nine.
pub open spec fn digit_char(d: int) -> char {
    ((48 + d) as u8) as char
}

/// The page shown after an encounter: the precept, then the player's
/// coordinates, separated by bars.
pub open spec fn encounter_page_spec(precept: Seq<char>, x: int, y: int) -> Seq<char> {
    precept + " | "@ + decimal_spec(x) + " | "@ + decimal_spec(y)
}

/// The characters of `s`, in order.
fn str_chars(s: &str) -> (r: Vec<char>)
    ensures
        r@ == s@,
{
    let n = s.unicode_len();
    let mut r: Vec<char> = Vec::new();
    let mut i: usize = 0;
    while i < n
        invariant
            i <= n,
            n == s@.len(),
            r@ == s@.subrange(0, i as int),
        decreases n - i,
    {
        let c = s.get_char(i);
        r.push(c);
        proof {
            assert(r@ =~= s@.subrange(0, i + 1 as int));
        }
        i = i + 1;
    }
    proof {
        assert(r@ =~= s@);
    }
    r
}

/// Appends the decimal digits of `v` to `out`.
fn push_decimal(out: &mut Vec<char>, v: i8)
    requires
        0 <= v < 100,
    ensures
        final(out)@ == old(out)@ + decimal_spec(v as int),
{
    let b = v as u8;
    if b >= 10 {
        out.push((48 + b / 10) as char);
    }
    out.push((48 + b % 10) as char);
    proof {
        assert(out@ =~= old(out)@ + decimal_spec(v as int));
    }
}

/// The encounter page's characters for a precept and the player coordinates.
pub fn encounter_page(precept: &str, x: i8, y: i8) -> (page: Vec<char>)
    requires
        0 <= x < 100,
        0 <= y < 100,
    ensures
        page@ == encounter_page_spec(precept@, x as int, y as int),
{
    let mut page = str_chars(precept);
    proof {
        reveal_strlit(" | ");
    }
    page.push(' ');
    page.push('|');
    page.push(' ');
    push_decimal(&mut page, x);
    page.push(' ');
    page.push('|');
    page.push(' ');
    push_decimal(&mut page, y);
    proof {
        assert(page@ =~= encounter_page_spec(precept@, x as int, y as int));
    }
    page
}

} // verus!
