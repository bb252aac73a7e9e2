//! Server-to-client notifications, and the last-broadcast cells that
//! suppress a notification whose payload did not change.
use vstd::prelude::*;
use crate::errors::AmpError;
use crate::hub::{broadcast_spec, Hub};
use crate::json::{entries_view, entry, jstr, json_text, json_view, lemma_object_view, to_json_string, Json, JsonV};
use crate::rpc::{server_notification_json, ServerNotification};

verus! {

/// The text frame of a wrapped notification.
pub open spec fn notification_text(name: Seq<char>, payload: JsonV) -> Seq<char> {
    json_text(server_notification_json(name, payload))
}

/// Builds, serializes and broadcasts one notification.
fn broadcast_notification(hub: &mut Hub, name: &str, payload: Json) -> (r: Result<(), AmpError>)
    requires
        old(hub).wf(),
    ensures
        r is Ok,
        final(hub).wf(),
        final(hub).next_id_spec() == old(hub).next_id_spec(),
        final(hub)@ == broadcast_spec(old(hub)@, notification_text(name@, payload@)),
{
    let text = notification_text_of(name, payload);
    hub.broadcast(text.as_str());
    Ok(())
}

/// The serialized notification `name` carrying `payload`.
pub fn notification_text_of(name: &str, payload: Json) -> (r: String)
    ensures
        r@ == notification_text(name@, payload@),
{
    let n = ServerNotification::new(name.to_owned(), payload);
    let j = n.to_json();
    to_json_string(&j)
}

/// Payload of `pluginMetadata`.
pub open spec fn plugin_metadata_spec(version: Seq<char>, dir: Seq<char>) -> JsonV {
    JsonV::Object(seq![("version"@, JsonV::Str(version)), ("pluginDirectory"@, JsonV::Str(dir))])
}

/// Payload of `userSentMessage` and `appendToPrompt`.
pub open spec fn message_spec(message: Seq<char>) -> JsonV {
    JsonV::Object(seq![("message"@, JsonV::Str(message))])
}

/// A range `{startLine, startCharacter, endLine, endCharacter}` (0-indexed).
pub open spec fn range_spec(sl: int, sc: int, el: int, ec: int) -> JsonV {
    JsonV::Object(seq![
        ("startLine"@, JsonV::Int(sl)),
        ("startCharacter"@, JsonV::Int(sc)),
        ("endLine"@, JsonV::Int(el)),
        ("endCharacter"@, JsonV::Int(ec)),
    ])
}

/// Payload of `selectionDidChange`: one selection with its range and text.
pub open spec fn selection_spec(uri: Seq<char>, sl: int, sc: int, el: int, ec: int, content: Seq<char>) -> JsonV {
    JsonV::Object(seq![
        ("uri"@, JsonV::Str(uri)),
        ("selections"@, JsonV::Array(seq![
            JsonV::Object(seq![("range"@, range_spec(sl, sc, el, ec)), ("content"@, JsonV::Str(content))]),
        ])),
    ])
}

/// The strings of a list, as values.
pub open spec fn strs_view(v: Seq<String>) -> Seq<JsonV> {
    v.map_values(|s: String| JsonV::Str(s@))
}

/// Payload of `visibleFilesDidChange`.
pub open spec fn visible_files_spec(uris: Seq<String>) -> JsonV {
    JsonV::Object(seq![("uris"@, JsonV::Array(strs_view(uris)))])
}

/// Payload of `diagnosticsDidChange`.
pub open spec fn diagnostics_payload_spec(entries: Seq<JsonV>) -> JsonV {
    JsonV::Object(seq![("entries"@, JsonV::Array(entries))])
}

/// The model of a list of values.
pub open spec fn values_view(v: Seq<Json>) -> Seq<JsonV> {
    v.map_values(|j: Json| j@)
}

/// A one-member object.
fn object1(k: &str, v: Json) -> (r: Json)
    ensures
        r@ == JsonV::Object(seq![(k@, v@)]),
{
    let ghost vv = v@;
    let mut out: Vec<(String, Json)> = Vec::new();
    out.push(entry(k, v));
    proof {
        lemma_object_view(out);
    }
    assert(entries_view(out@) =~= seq![(k@, vv)]);
    Json::Object(out)
}

/// An array of values.
pub fn array_of(items: Vec<Json>) -> (r: Json)
    ensures
        r@ == JsonV::Array(values_view(items@)),
{
    let r = Json::Array(items);
    assert(match r@ { JsonV::Array(a) => a, _ => Seq::empty() } =~= values_view(items@));
    r
}

/// An array of strings.
pub fn string_array(items: Vec<String>) -> (r: Json)
    ensures
        r@ == JsonV::Array(strs_view(items@)),
{
    let mut out: Vec<Json> = Vec::new();
    let mut i: usize = 0;
    let ghost all = items@;
    while i < items.len()
        invariant
            i <= items@.len(),
            items@ == all,
            out@.len() == i,
            values_view(out@) == strs_view(all.subrange(0, i as int)),
        decreases items.len() - i,
    {
        let s = items[i].clone();
        let ghost ov = out@;
        out.push(Json::Str(s));
        assert forall|k: int| 0 <= k < i + 1 implies #[trigger] values_view(out@)[k] == strs_view(all.subrange(0, i + 1))[k] by {
            if k < i {
                assert(values_view(out@)[k] == values_view(ov)[k]);
                assert(strs_view(all.subrange(0, i + 1))[k] == strs_view(all.subrange(0, i as int))[k]);
            } else {
                assert(values_view(out@)[k] == json_view(Json::Str(s)));
            }
        }
        assert(values_view(out@) =~= strs_view(all.subrange(0, i + 1)));
        i += 1;
    }
    assert(all.subrange(0, all.len() as int) =~= all);
    array_of(out)
}

/// Broadcasts `pluginMetadata`.
pub fn send_plugin_metadata(hub: &mut Hub, version: &str, plugin_dir: &str) -> (r: Result<(), AmpError>)
    requires
        old(hub).wf(),
    ensures
        r is Ok,
        final(hub).wf(),
        final(hub).next_id_spec() == old(hub).next_id_spec(),
        final(hub)@ == broadcast_spec(
            old(hub)@,
            notification_text("pluginMetadata"@, plugin_metadata_spec(version@, plugin_dir@)),
        ),
{
    let mut out: Vec<(String, Json)> = Vec::new();
    out.push(entry("version", jstr(version)));
    out.push(entry("pluginDirectory", jstr(plugin_dir)));
    proof {
        lemma_object_view(out);
    }
    assert(entries_view(out@) =~= seq![("version"@, JsonV::Str(version@)), ("pluginDirectory"@, JsonV::Str(plugin_dir@))]);
    broadcast_notification(hub, "pluginMetadata", Json::Object(out))
}

/// Builds the `selectionDidChange` payload.
pub fn selection_payload(
    uri: &str,
    start_line: u64,
    start_char: u64,
    end_line: u64,
    end_char: u64,
    content: &str,
) -> (r: Json)
    requires
        end_char <= i64::MAX,
        end_line <= i64::MAX,
        start_char <= i64::MAX,
        start_line <= i64::MAX,
    ensures
        r@ == selection_spec(
            uri@,
            start_line as int,
            start_char as int,
            end_line as int,
            end_char as int,
            content@,
        ),
{
    let mut range: Vec<(String, Json)> = Vec::new();
    range.push(entry("startLine", Json::Int(start_line as i64)));
    range.push(entry("startCharacter", Json::Int(start_char as i64)));
    range.push(entry("endLine", Json::Int(end_line as i64)));
    range.push(entry("endCharacter", Json::Int(end_char as i64)));
    proof {
        lemma_object_view(range);
    }
    assert(entries_view(range@) =~= seq![
        ("startLine"@, JsonV::Int(start_line as int)),
        ("startCharacter"@, JsonV::Int(start_char as int)),
        ("endLine"@, JsonV::Int(end_line as int)),
        ("endCharacter"@, JsonV::Int(end_char as int)),
    ]);
    let ghost rv = json_view(Json::Object(range));
    let mut sel: Vec<(String, Json)> = Vec::new();
    sel.push(entry("range", Json::Object(range)));
    sel.push(entry("content", jstr(content)));
    proof {
        lemma_object_view(sel);
    }
    assert(entries_view(sel@) =~= seq![("range"@, rv), ("content"@, JsonV::Str(content@))]);
    let ghost sv = json_view(Json::Object(sel));
    let mut sels: Vec<Json> = Vec::new();
    sels.push(Json::Object(sel));
    let arr = array_of(sels);
    assert(values_view(sels@) =~= seq![sv]);
    let mut out: Vec<(String, Json)> = Vec::new();
    out.push(entry("uri", jstr(uri)));
    out.push(entry("selections", arr));
    proof {
        lemma_object_view(out);
    }
    assert(entries_view(out@) =~= seq![("uri"@, JsonV::Str(uri@)), ("selections"@, JsonV::Array(seq![sv]))]);
    Json::Object(out)
}

/// Broadcasts `selectionDidChange`.
pub fn send_selection_changed(
    hub: &mut Hub,
    uri: &str,
    start_line: u64,
    start_char: u64,
    end_line: u64,
    end_char: u64,
    content: &str,
) -> (r: Result<(), AmpError>)
    requires
        old(hub).wf(),
        end_char <= i64::MAX,
        end_line <= i64::MAX,
        start_char <= i64::MAX,
        start_line <= i64::MAX,
    ensures
        r is Ok,
        final(hub).wf(),
        final(hub).next_id_spec() == old(hub).next_id_spec(),
        final(hub)@ == broadcast_spec(
            old(hub)@,
            notification_text(
                "selectionDidChange"@,
                selection_spec(uri@, start_line as int, start_char as int, end_line as int, end_char as int, content@),
            ),
        ),
{
    let p = selection_payload(uri, start_line, start_char, end_line, end_char, content);
    broadcast_notification(hub, "selectionDidChange", p)
}

/// Broadcasts `visibleFilesDidChange` with the URIs in the given order.
pub fn send_visible_files_changed(hub: &mut Hub, uris: Vec<String>) -> (r: Result<(), AmpError>)
    requires
        old(hub).wf(),
    ensures
        r is Ok,
        final(hub).wf(),
        final(hub).next_id_spec() == old(hub).next_id_spec(),
        final(hub)@ == broadcast_spec(old(hub)@, notification_text("visibleFilesDidChange"@, visible_files_spec(uris@))),
{
    let arr = string_array(uris);
    let p = object1("uris", arr);
    broadcast_notification(hub, "visibleFilesDidChange", p)
}

/// Broadcasts `userSentMessage`: the message goes to the agent at once.
pub fn send_user_sent_message(hub: &mut Hub, message: &str) -> (r: Result<(), AmpError>)
    requires
        old(hub).wf(),
    ensures
        r is Ok,
        final(hub).wf(),
        final(hub).next_id_spec() == old(hub).next_id_spec(),
        final(hub)@ == broadcast_spec(old(hub)@, notification_text("userSentMessage"@, message_spec(message@))),
{
    let p = object1("message", jstr(message));
    broadcast_notification(hub, "userSentMessage", p)
}

/// Broadcasts `appendToPrompt`: the text lands in the agent's prompt field.
pub fn send_append_to_prompt(hub: &mut Hub, message: &str) -> (r: Result<(), AmpError>)
    requires
        old(hub).wf(),
    ensures
        r is Ok,
        final(hub).wf(),
        final(hub).next_id_spec() == old(hub).next_id_spec(),
        final(hub)@ == broadcast_spec(old(hub)@, notification_text("appendToPrompt"@, message_spec(message@))),
{
    let p = object1("message", jstr(message));
    broadcast_notification(hub, "appendToPrompt", p)
}

/// Broadcasts `diagnosticsDidChange` with the given entries.
pub fn send_diagnostics_changed(hub: &mut Hub, entries: Vec<Json>) -> (r: Result<(), AmpError>)
    requires
        old(hub).wf(),
    ensures
        r is Ok,
        final(hub).wf(),
        final(hub).next_id_spec() == old(hub).next_id_spec(),
        final(hub)@ == broadcast_spec(
            old(hub)@,
            notification_text("diagnosticsDidChange"@, diagnostics_payload_spec(values_view(entries@))),
        ),
{
    let arr = array_of(entries);
    let p = object1("entries", arr);
    broadcast_notification(hub, "diagnosticsDidChange", p)
}

/// The last payload broadcast for one notification kind, by its serialized
/// text; only the editor thread touches it.
#[derive(Debug)]
pub struct ChangeCell {
    pub last: Option<String>,
}

/// The model of a cell: the last text, if any.
pub open spec fn cell_view(c: ChangeCell) -> Option<Seq<char>> {
    match c.last {
        Some(s) => Some(s@),
        None => None,
    }
}

/// Observing a payload: whether it differs from the last one broadcast, and
/// what the cell holds afterwards.
pub open spec fn observe_spec(last: Option<Seq<char>>, payload: Seq<char>) -> (bool, Option<Seq<char>>) {
    if last == Some(payload) {
        (false, last)
    } else {
        (true, Some(payload))
    }
}

impl ChangeCell {
    /// A cell that has seen nothing.
    pub fn new() -> (r: ChangeCell)
        ensures
            cell_view(r) is None,
    {
        ChangeCell { last: None }
    }

    /// Records `payload`; true when it differs from the last one recorded,
    /// in which case the caller broadcasts it.
    pub fn observe(&mut self, payload: &str) -> (changed: bool)
        ensures
            (changed, cell_view(*final(self))) == observe_spec(cell_view(*old(self)), payload@),
    {
        let same = match &self.last {
            Some(s) => crate::text::str_eq(s.as_str(), payload),
            None => false,
        };
        if same {
            false
        } else {
            self.last = Some(payload.to_owned());
            true
        }
    }
}

/// Broadcasts `text` unless the cell saw it last; true when it was sent.
pub fn broadcast_if_changed(cell: &mut ChangeCell, hub: &mut Hub, text: &str) -> (sent: bool)
    requires
        old(hub).wf(),
    ensures
        final(hub).wf(),
        final(hub).next_id_spec() == old(hub).next_id_spec(),
        (sent, cell_view(*final(cell))) == observe_spec(cell_view(*old(cell)), text@),
        final(hub)@ == if sent { broadcast_spec(old(hub)@, text@) } else { old(hub)@ },
{
    let sent = cell.observe(text);
    if sent {
        hub.broadcast(text);
    }
    sent
}

/// Sends `selectionDidChange` unless the editor state equals the last one
/// broadcast; true when it was sent.
pub fn send_selection_if_changed(
    cell: &mut ChangeCell,
    hub: &mut Hub,
    uri: &str,
    start_line: u64,
    start_char: u64,
    end_line: u64,
    end_char: u64,
    content: &str,
) -> (sent: bool)
    requires
        old(hub).wf(),
        end_char <= i64::MAX,
        end_line <= i64::MAX,
        start_char <= i64::MAX,
        start_line <= i64::MAX,
    ensures
        final(hub).wf(),
        final(hub).next_id_spec() == old(hub).next_id_spec(),
        ({
            let text = notification_text(
                "selectionDidChange"@,
                selection_spec(uri@, start_line as int, start_char as int, end_line as int, end_char as int, content@),
            );
            &&& (sent, cell_view(*final(cell))) == observe_spec(cell_view(*old(cell)), text)
            &&& final(hub)@ == if sent { broadcast_spec(old(hub)@, text) } else { old(hub)@ }
        }),
{
    let p = selection_payload(uri, start_line, start_char, end_line, end_char, content);
    let text = notification_text_of("selectionDidChange", p);
    broadcast_if_changed(cell, hub, text.as_str())
}

/// Running the selection handler twice on one editor state broadcasts at
/// most once, and exactly once when that state was not the last one sent.
pub proof fn law_same_state_broadcast_once(last: Option<Seq<char>>, text: Seq<char>)
    ensures
        ({
            let (first, after) = observe_spec(last, text);
            let (second, _) = observe_spec(after, text);
            &&& !second
            &&& first <==> last != Some(text)
        }),
{
}

/// A sequence A, B, A of distinct states sends all three, in order.
pub proof fn law_alternation_sends_each(last: Option<Seq<char>>, a: Seq<char>, b: Seq<char>)
    requires
        a != b,
        last != Some(a),
    ensures
        ({
            let (s1, c1) = observe_spec(last, a);
            let (s2, c2) = observe_spec(c1, b);
            let (s3, c3) = observe_spec(c2, a);
            s1 && s2 && s3 && c3 == Some(a)
        }),
{
}

} // verus!
