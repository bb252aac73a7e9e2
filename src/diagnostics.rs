//! `getDiagnostics` and `diagnosticsDidChange`: per loaded, named buffer
//! with diagnostics, one entry with its URI and its diagnostic records.
use vstd::prelude::*;
use crate::ide_ops::{is_absolute, map_severity, severity_spec};
use crate::json::{entries_view, entry, jstr, lemma_object_view, Json, JsonV};
use crate::hub::{broadcast_spec, Hub};
use crate::notifications::{
    array_of, broadcast_if_changed, cell_view, diagnostics_payload_spec, notification_text,
    notification_text_of, observe_spec, range_spec, values_view, ChangeCell,
};
use crate::text::{is_prefix, starts_with};

verus! {

/// A diagnostic as the editor reports it (0-indexed positions).
#[derive(Debug, Clone)]
pub struct RawDiagnostic {
    pub lnum: u32,
    pub col: u32,
    pub end_lnum: Option<u32>,
    pub end_col: Option<u32>,
    pub severity: Option<u8>,
    pub message: String,
}

/// One editor buffer with what the entry for it needs.
#[derive(Debug)]
pub struct BufferDiagnostics {
    /// The buffer's name as the editor reports it.
    pub path: String,
    /// The same path with symbolic links resolved.
    pub canonical_path: String,
    /// Whether the buffer is loaded.
    pub loaded: bool,
    /// The buffer's `file://` URI from the host's encoder.
    pub uri: String,
    /// The buffer's diagnostics.
    pub diagnostics: Vec<RawDiagnostic>,
    /// The buffer's lines.
    pub lines: Vec<String>,
    /// The file's lines on disk, where they were read.
    pub disk_lines: Option<Vec<String>>,
}

/// The end position of a diagnostic: the start where the editor gives none.
pub open spec fn end_line_of(d: RawDiagnostic) -> u32 {
    match d.end_lnum {
        Some(e) => e,
        None => d.lnum,
    }
}

/// The end column of a diagnostic: the start column where none is given.
pub open spec fn end_col_of(d: RawDiagnostic) -> u32 {
    match d.end_col {
        Some(e) => e,
        None => d.col,
    }
}

/// The text of line `line`: the buffer's line, else the file's line on
/// disk, else empty.
pub open spec fn line_content_spec(lines: Seq<String>, disk: Option<Vec<String>>, line: int) -> Seq<char> {
    if 0 <= line < lines.len() {
        lines[line]@
    } else {
        match disk {
            Some(d) => if 0 <= line < d@.len() {
                d@[line]@
            } else {
                Seq::empty()
            },
            None => Seq::empty(),
        }
    }
}

/// Picks the text of a line.
pub fn line_content(lines: &Vec<String>, disk: &Option<Vec<String>>, line: u32) -> (r: String)
    ensures
        r@ == line_content_spec(lines@, *disk, line as int),
{
    let l = line as usize;
    if l < lines.len() {
        lines[l].clone()
    } else {
        match disk {
            Some(d) => if l < d.len() {
                d[l].clone()
            } else {
                String::new()
            },
            None => String::new(),
        }
    }
}

/// The record of one diagnostic.
pub open spec fn record_spec(d: RawDiagnostic, line: Seq<char>) -> JsonV {
    JsonV::Object(seq![
        ("range"@, range_spec(d.lnum as int, d.col as int, end_line_of(d) as int, end_col_of(d) as int)),
        ("severity"@, JsonV::Str(severity_spec(d.severity))),
        ("description"@, JsonV::Str(d.message@)),
        ("lineContent"@, JsonV::Str(line)),
        ("startOffset"@, JsonV::Int(d.col as int)),
        ("endOffset"@, JsonV::Int(end_col_of(d) as int)),
    ])
}

/// Builds the record of one diagnostic with its line text.
pub fn diagnostic_record(d: &RawDiagnostic, line: String) -> (r: Json)
    ensures
        r@ == record_spec(*d, line@),
{
    let end_line = match d.end_lnum {
        Some(e) => e,
        None => d.lnum,
    };
    let end_col = match d.end_col {
        Some(e) => e,
        None => d.col,
    };
    let mut range: Vec<(String, Json)> = Vec::new();
    range.push(entry("startLine", Json::Int(d.lnum as i64)));
    range.push(entry("startCharacter", Json::Int(d.col as i64)));
    range.push(entry("endLine", Json::Int(end_line as i64)));
    range.push(entry("endCharacter", Json::Int(end_col as i64)));
    proof {
        lemma_object_view(range);
    }
    assert(entries_view(range@) =~= seq![
        ("startLine"@, JsonV::Int(d.lnum as int)),
        ("startCharacter"@, JsonV::Int(d.col as int)),
        ("endLine"@, JsonV::Int(end_line as int)),
        ("endCharacter"@, JsonV::Int(end_col as int)),
    ]);
    let ghost lv = line@;
    let mut out: Vec<(String, Json)> = Vec::new();
    out.push(entry("range", Json::Object(range)));
    out.push(entry("severity", jstr(map_severity(d.severity))));
    out.push(entry("description", Json::Str(d.message.clone())));
    out.push(entry("lineContent", Json::Str(line)));
    out.push(entry("startOffset", Json::Int(d.col as i64)));
    out.push(entry("endOffset", Json::Int(end_col as i64)));
    proof {
        lemma_object_view(out);
    }
    assert(entries_view(out@) =~= seq![
        ("range"@, range_spec(d.lnum as int, d.col as int, end_line as int, end_col as int)),
        ("severity"@, JsonV::Str(severity_spec(d.severity))),
        ("description"@, JsonV::Str(d.message@)),
        ("lineContent"@, JsonV::Str(lv)),
        ("startOffset"@, JsonV::Int(d.col as int)),
        ("endOffset"@, JsonV::Int(end_col as int)),
    ]);
    Json::Object(out)
}

/// The records of a buffer's diagnostics, in order.
pub open spec fn records_spec(b: BufferDiagnostics) -> Seq<JsonV> {
    Seq::new(
        b.diagnostics@.len(),
        |i: int| record_spec(b.diagnostics@[i], line_content_spec(b.lines@, b.disk_lines, b.diagnostics@[i].lnum as int)),
    )
}

/// The entry of a buffer: its URI and its records.
pub open spec fn entry_spec(b: BufferDiagnostics) -> JsonV {
    JsonV::Object(seq![("uri"@, JsonV::Str(b.uri@)), ("diagnostics"@, JsonV::Array(records_spec(b)))])
}

/// Whether a buffer gets an entry: loaded, named by an absolute path, with
/// diagnostics, and matching the filter. A filter matches when it prefixes
/// the raw path, or when its canonical form prefixes the canonical path.
pub open spec fn selected(b: BufferDiagnostics, filter: Option<Seq<char>>, canonical_filter: Option<Seq<char>>) -> bool {
    &&& b.loaded
    &&& is_absolute(b.path@)
    &&& b.diagnostics@.len() > 0
    &&& match filter {
        None => true,
        Some(f) => is_prefix(f, b.path@) || match canonical_filter {
            Some(cf) => is_prefix(cf, b.canonical_path@),
            None => false,
        },
    }
}

/// The entries for a list of buffers, in buffer order.
pub open spec fn entries_spec(bufs: Seq<BufferDiagnostics>, filter: Option<Seq<char>>, canonical_filter: Option<Seq<char>>) -> Seq<JsonV>
    decreases bufs.len(),
{
    if bufs.len() == 0 {
        Seq::empty()
    } else {
        let rest = entries_spec(bufs.drop_last(), filter, canonical_filter);
        if selected(bufs.last(), filter, canonical_filter) {
            rest.push(entry_spec(bufs.last()))
        } else {
            rest
        }
    }
}

/// The records of one buffer.
pub fn buffer_records(b: &BufferDiagnostics) -> (r: Vec<Json>)
    ensures
        values_view(r@) == records_spec(*b),
{
    let mut out: Vec<Json> = Vec::new();
    let mut i: usize = 0;
    while i < b.diagnostics.len()
        invariant
            i <= b.diagnostics@.len(),
            out@.len() == i,
            forall|k: int| 0 <= k < i ==> #[trigger] out@[k]@ == records_spec(*b)[k],
        decreases b.diagnostics.len() - i,
    {
        let d = &b.diagnostics[i];
        let line = line_content(&b.lines, &b.disk_lines, d.lnum);
        let rec = diagnostic_record(d, line);
        out.push(rec);
        i += 1;
    }
    assert(values_view(out@) =~= records_spec(*b));
    out
}

/// Builds the entry of one buffer.
pub fn buffer_entry(b: &BufferDiagnostics) -> (r: Json)
    ensures
        r@ == entry_spec(*b),
{
    let recs = buffer_records(b);
    let arr = array_of(recs);
    let ghost av = arr@;
    let mut out: Vec<(String, Json)> = Vec::new();
    out.push(entry("uri", Json::Str(b.uri.clone())));
    out.push(entry("diagnostics", arr));
    proof {
        lemma_object_view(out);
    }
    assert(entries_view(out@) =~= seq![("uri"@, JsonV::Str(b.uri@)), ("diagnostics"@, av)]);
    Json::Object(out)
}

fn is_selected(b: &BufferDiagnostics, filter: Option<&str>, canonical_filter: Option<&str>) -> (r: bool)
    ensures
        r == selected(
            *b,
            match filter {
                Some(f) => Some(f@),
                None => None,
            },
            match canonical_filter {
                Some(f) => Some(f@),
                None => None,
            },
        ),
{
    if !b.loaded || b.diagnostics.len() == 0 {
        return false;
    }
    let n = b.path.as_str().unicode_len();
    if n == 0 || b.path.as_str().get_char(0) != '/' {
        return false;
    }
    match filter {
        None => true,
        Some(f) => {
            if starts_with(b.path.as_str(), f) {
                true
            } else {
                match canonical_filter {
                    Some(cf) => starts_with(b.canonical_path.as_str(), cf),
                    None => false,
                }
            }
        },
    }
}

/// The diagnostic entries of the buffers, in buffer order.
pub fn collect_diagnostics(bufs: &Vec<BufferDiagnostics>, filter: Option<&str>, canonical_filter: Option<&str>) -> (r: Vec<Json>)
    ensures
        values_view(r@) == entries_spec(
            bufs@,
            match filter {
                Some(f) => Some(f@),
                None => None,
            },
            match canonical_filter {
                Some(f) => Some(f@),
                None => None,
            },
        ),
{
    let ghost fv = match filter {
        Some(f) => Some(f@),
        None => None::<Seq<char>>,
    };
    let ghost cv = match canonical_filter {
        Some(f) => Some(f@),
        None => None::<Seq<char>>,
    };
    let mut out: Vec<Json> = Vec::new();
    let mut i: usize = 0;
    while i < bufs.len()
        invariant
            i <= bufs@.len(),
            fv == match filter {
                Some(f) => Some(f@),
                None => None::<Seq<char>>,
            },
            cv == match canonical_filter {
                Some(f) => Some(f@),
                None => None::<Seq<char>>,
            },
            values_view(out@) == entries_spec(bufs@.subrange(0, i as int), fv, cv),
        decreases bufs.len() - i,
    {
        let ghost sub = bufs@.subrange(0, i + 1);
        assert(sub.drop_last() =~= bufs@.subrange(0, i as int));
        assert(sub.last() == bufs@[i as int]);
        if is_selected(&bufs[i], filter, canonical_filter) {
            let e = buffer_entry(&bufs[i]);
            let ghost ov = out@;
            out.push(e);
            assert(values_view(out@) =~= values_view(ov).push(e@));
        }
        i += 1;
    }
    assert(bufs@.subrange(0, bufs@.len() as int) =~= bufs@);
    out
}

/// The `getDiagnostics` result: `{entries: [...]}`.
pub fn get_diagnostics_result(bufs: &Vec<BufferDiagnostics>, filter: Option<&str>, canonical_filter: Option<&str>) -> (r: Json)
    ensures
        r@ == JsonV::Object(seq![(
            "entries"@,
            JsonV::Array(entries_spec(
                bufs@,
                match filter {
                    Some(f) => Some(f@),
                    None => None,
                },
                match canonical_filter {
                    Some(f) => Some(f@),
                    None => None,
                },
            )),
        )]),
{
    let entries = collect_diagnostics(bufs, filter, canonical_filter);
    let arr = array_of(entries);
    let ghost av = arr@;
    let mut out: Vec<(String, Json)> = Vec::new();
    out.push(entry("entries", arr));
    proof {
        lemma_object_view(out);
    }
    assert(entries_view(out@) =~= seq![("entries"@, av)]);
    Json::Object(out)
}

/// The diagnostics handler: sends `diagnosticsDidChange` with the entries of
/// all buffers unless they equal the last ones sent. True when it was sent.
pub fn handle_diagnostics(cell: &mut ChangeCell, hub: &mut Hub, bufs: &Vec<BufferDiagnostics>) -> (sent: bool)
    requires
        old(hub).wf(),
    ensures
        final(hub).wf(),
        final(hub).next_id_spec() == old(hub).next_id_spec(),
        ({
            let text = notification_text(
                "diagnosticsDidChange"@,
                diagnostics_payload_spec(entries_spec(bufs@, None, None)),
            );
            &&& (sent, cell_view(*final(cell))) == observe_spec(cell_view(*old(cell)), text)
            &&& final(hub)@ == if sent { broadcast_spec(old(hub)@, text) } else { old(hub)@ }
        }),
{
    let entries = collect_diagnostics(bufs, None, None);
    let arr = array_of(entries);
    let ghost av = arr@;
    let mut out: Vec<(String, Json)> = Vec::new();
    out.push(entry("entries", arr));
    proof {
        lemma_object_view(out);
    }
    assert(entries_view(out@) =~= seq![("entries"@, av)]);
    let text = notification_text_of("diagnosticsDidChange", Json::Object(out));
    broadcast_if_changed(cell, hub, text.as_str())
}

} // verus!
