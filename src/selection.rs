//! Selection tracking: the cursor or the visual selection, as the range and
//! text that `selectionDidChange` carries.
use vstd::prelude::*;
use crate::hub::{broadcast_spec, Hub};
use crate::ide_ops::{buffer_content, join_lines, lines_view};
use crate::notifications::{notification_text, observe_spec, cell_view, selection_spec, send_selection_if_changed, ChangeCell};

verus! {

/// A mark or cursor position: 1-indexed row (0 when unset), 0-indexed column.
#[derive(Debug, Clone, Copy, PartialEq, Eq)]
pub struct Mark {
    pub row: u64,
    pub col: u64,
}

/// The ordered bounds of a visual selection (1-indexed rows, inclusive end
/// column).
#[derive(Debug, Clone, Copy, PartialEq, Eq)]
pub struct VisualBounds {
    pub start_row: u64,
    pub start_col: u64,
    pub end_row: u64,
    pub end_col: u64,
}

/// Whether mark `a` comes after mark `b`.
pub open spec fn after(a: Mark, b: Mark) -> bool {
    a.row > b.row || (a.row == b.row && a.col > b.col)
}

/// The bounds of the selection between marks `<` and `>`: none while a mark
/// is unset; the marks in document order; for a line-wise selection from
/// column 0 to the end of the last line (its length), where known.
pub open spec fn bounds_spec(lt: Mark, gt: Mark, linewise: bool, lt_len: Option<u64>, gt_len: Option<u64>) -> Option<VisualBounds> {
    if lt.row == 0 || gt.row == 0 {
        None
    } else {
        let (s, e, e_len) = if after(lt, gt) { (gt, lt, lt_len) } else { (lt, gt, gt_len) };
        if linewise {
            Some(VisualBounds {
                start_row: s.row,
                start_col: 0,
                end_row: e.row,
                end_col: match e_len {
                    Some(n) => n,
                    None => e.col,
                },
            })
        } else {
            Some(VisualBounds { start_row: s.row, start_col: s.col, end_row: e.row, end_col: e.col })
        }
    }
}

/// Orders the visual marks and applies the line-wise rule; `lt_len` and
/// `gt_len` are the byte lengths of the marks' lines, where known.
pub fn visual_bounds(lt: Mark, gt: Mark, linewise: bool, lt_len: Option<u64>, gt_len: Option<u64>) -> (r: Option<VisualBounds>)
    ensures
        r == bounds_spec(lt, gt, linewise, lt_len, gt_len),
{
    if lt.row == 0 || gt.row == 0 {
        return None;
    }
    let swap = lt.row > gt.row || (lt.row == gt.row && lt.col > gt.col);
    let (s, e, e_len) = if swap { (gt, lt, lt_len) } else { (lt, gt, gt_len) };
    if linewise {
        let end_col = match e_len {
            Some(n) => n,
            None => e.col,
        };
        Some(VisualBounds { start_row: s.row, start_col: 0, end_row: e.row, end_col })
    } else {
        Some(VisualBounds { start_row: s.row, start_col: s.col, end_row: e.row, end_col: e.col })
    }
}

/// A selection as `selectionDidChange` reports it (0-indexed lines).
#[derive(Debug, Clone)]
pub struct SelectionState {
    pub uri: String,
    pub start_line: u64,
    pub start_char: u64,
    pub end_line: u64,
    pub end_char: u64,
    pub content: String,
}

/// A 1-indexed row as a 0-indexed line.
pub open spec fn line_of(row: u64) -> u64 {
    if row >= 1 {
        (row - 1) as u64
    } else {
        0
    }
}

/// The cursor as a zero-width selection with no text.
pub fn cursor_selection(uri: &str, cursor: Mark) -> (r: SelectionState)
    ensures
        r.uri@ == uri@,
        r.start_line == line_of(cursor.row) && r.end_line == line_of(cursor.row),
        r.start_char == cursor.col && r.end_char == cursor.col,
        r.content@ == Seq::<char>::empty(),
{
    let line = if cursor.row >= 1 { cursor.row - 1 } else { 0 };
    SelectionState {
        uri: uri.to_owned(),
        start_line: line,
        start_char: cursor.col,
        end_line: line,
        end_char: cursor.col,
        content: String::new(),
    }
}

/// A visual selection from its bounds and the selected text's lines.
pub fn visual_selection(uri: &str, b: VisualBounds, text_lines: &Vec<String>) -> (r: SelectionState)
    ensures
        r.uri@ == uri@,
        r.start_line == line_of(b.start_row) && r.end_line == line_of(b.end_row),
        r.start_char == b.start_col && r.end_char == b.end_col,
        r.content@ == join_lines(lines_view(text_lines@)),
{
    SelectionState {
        uri: uri.to_owned(),
        start_line: if b.start_row >= 1 { b.start_row - 1 } else { 0 },
        start_char: b.start_col,
        end_line: if b.end_row >= 1 { b.end_row - 1 } else { 0 },
        end_char: b.end_col,
        content: buffer_content(text_lines),
    }
}

/// The part of `line` from character `from` up to character `to`
/// (exclusive), both clamped to the line.
pub open spec fn piece(line: Seq<char>, from: int, to: int) -> Seq<char> {
    let f = if from < line.len() { from } else { line.len() as int };
    let t = if to < line.len() { to } else { line.len() as int };
    if f <= t {
        line.subrange(f, t)
    } else {
        Seq::empty()
    }
}

/// The last row of a selection that lies in the buffer.
pub open spec fn last_row(lines: Seq<Seq<char>>, b: VisualBounds) -> int {
    if b.end_row <= lines.len() { b.end_row as int } else { lines.len() as int }
}

/// The selected text of each row, in order; rows past the buffer's end are
/// left out. The end column is inclusive.
pub open spec fn selected_pieces(lines: Seq<Seq<char>>, b: VisualBounds) -> Seq<Seq<char>> {
    let first = b.start_row as int;
    let n = if last_row(lines, b) >= first { last_row(lines, b) - first + 1 } else { 0 };
    Seq::new(
        n as nat,
        |k: int|
            {
                let r = first + k;
                let line = lines[r - 1];
                piece(line, if r == b.start_row { b.start_col as int } else { 0 }, if r == b.end_row { b.end_col + 1 } else { line.len() as int })
            },
    )
}

fn clamp(x: u64, n: usize) -> (r: usize)
    ensures
        r == (if x < n as u64 { x as int } else { n as int }),
{
    if x < n as u64 { x as usize } else { n }
}

/// The selected text of each row of the bounds.
pub fn selected_text(lines: &Vec<String>, b: VisualBounds) -> (r: Vec<String>)
    requires
        b.start_row >= 1,
    ensures
        lines_view(r@) == selected_pieces(lines_view(lines@), b),
{
    let ghost lv = lines_view(lines@);
    let last: usize = if b.end_row <= lines.len() as u64 { b.end_row as usize } else { lines.len() };
    let mut out: Vec<String> = Vec::new();
    if b.start_row > last as u64 {
        assert(lines_view(out@) =~= selected_pieces(lv, b));
        return out;
    }
    let mut i: usize = (b.start_row - 1) as usize;
    let ghost first = b.start_row as int;
    while i < last
        invariant
            lv == lines_view(lines@),
            b.start_row >= 1,
            last as int == last_row(lv, b),
            last <= lines@.len(),
            first == b.start_row as int,
            first - 1 <= i <= last,
            out@.len() == i - (first - 1),
            forall|k: int| 0 <= k < out@.len() ==> #[trigger] out@[k]@ == selected_pieces(lv, b)[k],
        decreases last - i,
    {
        let row: u64 = (i + 1) as u64;
        let line = lines[i].as_str();
        let len = line.unicode_len();
        let from: u64 = if row == b.start_row { b.start_col } else { 0 };
        let f = clamp(from, len);
        let t = if row == b.end_row {
            if b.end_col < len as u64 { (b.end_col + 1) as usize } else { len }
        } else {
            len
        };
        let text = if f <= t { line.substring_char(f, t).to_owned() } else { String::new() };
        proof {
            assert(lv[i as int] == line@);
            let k = i - (first - 1);
            assert(selected_pieces(lv, b)[k] == text@);
        }
        out.push(text);
        i += 1;
    }
    assert(lines_view(out@) =~= selected_pieces(lv, b));
    out
}

/// The length in characters of row `row` (1-indexed), if it exists.
fn row_len(lines: &Vec<String>, row: u64) -> (r: Option<u64>)
    ensures
        1 <= row <= lines@.len() ==> r == Some(lines@[row - 1]@.len() as u64),
        !(1 <= row <= lines@.len()) ==> r is None,
{
    if row >= 1 && row <= lines.len() as u64 {
        Some(lines[(row - 1) as usize].as_str().unicode_len() as u64)
    } else {
        None
    }
}

/// The editor's selection from plain editor values: none for a buffer
/// without an absolute name; in a visual mode the text between the marks
/// `<` and `>` (whole lines for a line-wise selection); otherwise, or while
/// a mark is unset, the cursor as a zero-width selection.
pub fn selection_state(
    buffer_name: &str,
    uri: &str,
    visual: bool,
    linewise: bool,
    lt: Mark,
    gt: Mark,
    cursor: Mark,
    lines: &Vec<String>,
) -> (r: Option<SelectionState>)
    ensures
        !crate::ide_ops::is_absolute(buffer_name@) ==> r is None,
        crate::ide_ops::is_absolute(buffer_name@) ==> r is Some && r->Some_0.uri@ == uri@,
        crate::ide_ops::is_absolute(buffer_name@) ==> ({
            let len_of = |m: Mark| if 1 <= m.row <= lines@.len() { Some(lines@[m.row - 1]@.len() as u64) } else { None::<u64> };
            let bounds = bounds_spec(lt, gt, linewise, len_of(lt), len_of(gt));
            let s = r->Some_0;
            if visual && bounds is Some {
                let b = bounds->Some_0;
                &&& s.start_line == line_of(b.start_row) && s.end_line == line_of(b.end_row)
                &&& s.start_char == b.start_col && s.end_char == b.end_col
                &&& s.content@ == join_lines(selected_pieces(lines_view(lines@), b))
            } else {
                &&& s.start_line == line_of(cursor.row) && s.end_line == line_of(cursor.row)
                &&& s.start_char == cursor.col && s.end_char == cursor.col
                &&& s.content@ == Seq::<char>::empty()
            }
        }),
{
    let n = buffer_name.unicode_len();
    if n == 0 || buffer_name.get_char(0) != '/' {
        return None;
    }
    if visual {
        let lt_len = row_len(lines, lt.row);
        let gt_len = row_len(lines, gt.row);
        if let Some(b) = visual_bounds(lt, gt, linewise, lt_len, gt_len) {
            let text = selected_text(lines, b);
            return Some(visual_selection(uri, b, &text));
        }
    }
    Some(cursor_selection(uri, cursor))
}

/// The selection handler's last step: broadcast the state unless it equals
/// the last one broadcast. True when it was sent.
pub fn handle_selection(cell: &mut ChangeCell, hub: &mut Hub, state: &SelectionState) -> (sent: bool)
    requires
        old(hub).wf(),
        state.start_line <= i64::MAX,
        state.start_char <= i64::MAX,
        state.end_line <= i64::MAX,
        state.end_char <= i64::MAX,
    ensures
        final(hub).wf(),
        final(hub).next_id_spec() == old(hub).next_id_spec(),
        ({
            let text = notification_text(
                "selectionDidChange"@,
                selection_spec(
                    state.uri@,
                    state.start_line as int,
                    state.start_char as int,
                    state.end_line as int,
                    state.end_char as int,
                    state.content@,
                ),
            );
            &&& (sent, cell_view(*final(cell))) == observe_spec(cell_view(*old(cell)), text)
            &&& final(hub)@ == if sent { broadcast_spec(old(hub)@, text) } else { old(hub)@ }
        }),
{
    send_selection_if_changed(
        cell,
        hub,
        state.uri.as_str(),
        state.start_line,
        state.start_char,
        state.end_line,
        state.end_char,
        state.content.as_str(),
    )
}

} // verus!
