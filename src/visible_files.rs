//! `visibleFilesDidChange`: the files shown in windows, sorted, sent when
//! the set changes.
use vstd::prelude::*;
use crate::hub::{broadcast_spec, Hub};
use crate::ide_ops::is_absolute;
use crate::notifications::{
    broadcast_if_changed, cell_view, notification_text, notification_text_of, observe_spec,
    string_array, visible_files_spec, ChangeCell,
};
use crate::text::str_eq;

verus! {

/// The buffer shown in one window.
#[derive(Debug, Clone)]
pub struct WindowBuffer {
    /// The buffer's name.
    pub path: String,
    /// Whether the file exists on disk.
    pub exists: bool,
}

/// Whether `a` sorts before or with `b`, character by character.
pub open spec fn text_le(a: Seq<char>, b: Seq<char>) -> bool
    decreases a.len(),
{
    if a.len() == 0 {
        true
    } else if b.len() == 0 {
        false
    } else if a[0] != b[0] {
        (a[0] as u32) < (b[0] as u32)
    } else {
        text_le(a.drop_first(), b.drop_first())
    }
}

/// The texts of a list of strings.
pub open spec fn texts(v: Seq<String>) -> Seq<Seq<char>> {
    v.map_values(|s: String| s@)
}

/// Relies on `slice::sort` on strings: a stable sort by `String`'s order,
/// which compares the UTF-8 bytes, and so the characters, in order.
#[verifier::external_body]
fn sort_strings(v: &mut Vec<String>)
    ensures
        texts(final(v)@).to_multiset() == texts(old(v)@).to_multiset(),
        final(v)@.len() == old(v)@.len(),
        forall|i: int, j: int| 0 <= i < j < final(v)@.len() ==> text_le(#[trigger] final(v)@[i]@, #[trigger] final(v)@[j]@),
{
    v.sort();
}

/// Whether a window's buffer counts as a visible file.
pub open spec fn shown(w: WindowBuffer) -> bool {
    is_absolute(w.path@) && w.exists
}

/// The visible file paths: absolute, existing, each once, in window order.
pub open spec fn visible_spec(wins: Seq<WindowBuffer>) -> Seq<Seq<char>>
    decreases wins.len(),
{
    if wins.len() == 0 {
        Seq::empty()
    } else {
        let rest = visible_spec(wins.drop_last());
        let w = wins.last();
        if shown(w) && !rest.contains(w.path@) {
            rest.push(w.path@)
        } else {
            rest
        }
    }
}

fn contains_text(v: &Vec<String>, s: &str) -> (r: bool)
    ensures
        r == texts(v@).contains(s@),
{
    let mut i: usize = 0;
    while i < v.len()
        invariant
            i <= v@.len(),
            forall|k: int| 0 <= k < i ==> v@[k]@ != s@,
        decreases v.len() - i,
    {
        if str_eq(v[i].as_str(), s) {
            assert(texts(v@)[i as int] == s@);
            return true;
        }
        i += 1;
    }
    assert forall|k: int| 0 <= k < texts(v@).len() implies texts(v@)[k] != s@ by {}
    false
}

/// The paths of the visible files, each once.
pub fn visible_paths(wins: &Vec<WindowBuffer>) -> (r: Vec<String>)
    ensures
        texts(r@) == visible_spec(wins@),
{
    let mut out: Vec<String> = Vec::new();
    let mut i: usize = 0;
    while i < wins.len()
        invariant
            i <= wins@.len(),
            texts(out@) == visible_spec(wins@.subrange(0, i as int)),
        decreases wins.len() - i,
    {
        let ghost sub = wins@.subrange(0, i + 1);
        assert(sub.drop_last() =~= wins@.subrange(0, i as int));
        let w = &wins[i];
        let n = w.path.as_str().unicode_len();
        let absolute = n > 0 && w.path.as_str().get_char(0) == '/';
        if absolute && w.exists && !contains_text(&out, w.path.as_str()) {
            let ghost ov = out@;
            out.push(w.path.clone());
            assert(texts(out@) =~= texts(ov).push(w.path@));
        }
        i += 1;
    }
    assert(wins@.subrange(0, wins@.len() as int) =~= wins@);
    out
}

/// Sorts URIs, so that the comparison with the last broadcast ignores the
/// window order while the wire order stays fixed.
pub fn sorted_uris(mut uris: Vec<String>) -> (r: Vec<String>)
    ensures
        texts(r@).to_multiset() == texts(uris@).to_multiset(),
        r@.len() == uris@.len(),
        forall|i: int, j: int| 0 <= i < j < r@.len() ==> text_le(#[trigger] r@[i]@, #[trigger] r@[j]@),
{
    sort_strings(&mut uris);
    uris
}

/// Keeps the first of equal texts, in order.
fn distinct_sorted(sorted: &Vec<String>) -> (r: Vec<String>)
    requires
        forall|i: int, j: int| 0 <= i < j < sorted@.len() ==> text_le(#[trigger] sorted@[i]@, #[trigger] sorted@[j]@),
    ensures
        forall|i: int, j: int| 0 <= i < j < r@.len() ==> text_le(#[trigger] r@[i]@, #[trigger] r@[j]@),
        forall|i: int, j: int| 0 <= i < j < r@.len() ==> r@[i]@ != r@[j]@,
        forall|x: Seq<char>| texts(r@).contains(x) <==> texts(sorted@).contains(x),
{
    let mut out: Vec<String> = Vec::new();
    let ghost mut idx: Seq<int> = Seq::empty();
    let mut i: usize = 0;
    while i < sorted.len()
        invariant
            i <= sorted@.len(),
            forall|a: int, b: int| 0 <= a < b < sorted@.len() ==> text_le(#[trigger] sorted@[a]@, #[trigger] sorted@[b]@),
            idx.len() == out@.len(),
            forall|k: int| 0 <= k < idx.len() ==> 0 <= #[trigger] idx[k] < i && out@[k]@ == sorted@[idx[k]]@,
            forall|a: int, b: int| 0 <= a < b < idx.len() ==> #[trigger] idx[a] < #[trigger] idx[b],
            forall|a: int, b: int| 0 <= a < b < out@.len() ==> out@[a]@ != out@[b]@,
            forall|x: Seq<char>| texts(out@).contains(x) <==> texts(sorted@.subrange(0, i as int)).contains(x),
        decreases sorted.len() - i,
    {
        let ghost before = out@;
        let ghost pre = texts(sorted@.subrange(0, i as int));
        let ghost t1 = texts(sorted@.subrange(0, i + 1));
        assert(forall|x: Seq<char>| texts(before).contains(x) <==> pre.contains(x));
        assert(t1 =~= pre.push(sorted@[i as int]@));
        if !contains_text(&out, sorted[i].as_str()) {
            out.push(sorted[i].clone());
            proof {
                idx = idx.push(i as int);
                assert(texts(out@) =~= texts(before).push(sorted@[i as int]@));
                assert forall|a: int, b: int| 0 <= a < b < out@.len() implies out@[a]@ != out@[b]@ by {
                    if b == out@.len() - 1 {
                        assert(texts(before).contains(texts(before)[a]));
                    }
                }
                assert forall|x: Seq<char>| texts(out@).contains(x) <==> t1.contains(x) by {
                    if texts(out@).contains(x) {
                        let k = choose|k: int| 0 <= k < texts(out@).len() && #[trigger] texts(out@)[k] == x;
                        if k < before.len() {
                            assert(texts(before)[k] == x);
                            assert(texts(before).contains(x));
                            let m = choose|m: int| 0 <= m < pre.len() && #[trigger] pre[m] == x;
                            assert(t1[m] == x);
                        } else {
                            assert(t1[i as int] == x);
                        }
                    }
                    if t1.contains(x) {
                        let m = choose|m: int| 0 <= m < i + 1 && #[trigger] t1[m] == x;
                        if m < i {
                            assert(pre[m] == x);
                            assert(pre.contains(x));
                            let k = choose|k: int| 0 <= k < texts(before).len() && #[trigger] texts(before)[k] == x;
                            assert(texts(out@)[k] == x);
                        } else {
                            assert(texts(out@)[out@.len() - 1] == x);
                        }
                    }
                }
            }
        } else {
            proof {
                assert forall|x: Seq<char>| texts(out@).contains(x) <==> t1.contains(x) by {
                    if t1.contains(x) {
                        let m = choose|m: int| 0 <= m < i + 1 && #[trigger] t1[m] == x;
                        if m < i {
                            assert(pre[m] == x);
                            assert(pre.contains(x));
                        }
                    }
                    if texts(out@).contains(x) {
                        assert(pre.contains(x));
                        let m = choose|m: int| 0 <= m < pre.len() && #[trigger] pre[m] == x;
                        assert(t1[m] == x);
                    }
                }
            }
        }
        i += 1;
    }
    assert(sorted@.subrange(0, sorted@.len() as int) =~= sorted@);
    assert forall|a: int, b: int| 0 <= a < b < out@.len() implies text_le(#[trigger] out@[a]@, #[trigger] out@[b]@) by {
        assert(idx[a] < idx[b]);
    }
    out
}

/// The visible files' URIs: absolute existing paths, each once, in window
/// order, through the url crate's encoder.
pub fn visible_uris(wins: &Vec<WindowBuffer>) -> (r: Vec<String>)
    ensures
        texts(r@) == visible_spec(wins@).map_values(|p: Seq<char>| crate::uri::file_uri_of(p)),
{
    let paths = visible_paths(wins);
    let ghost pv = texts(paths@);
    proof {
        lemma_visible_absolute(wins@);
    }
    let mut out: Vec<String> = Vec::new();
    let mut i: usize = 0;
    while i < paths.len()
        invariant
            i <= paths@.len(),
            pv == texts(paths@),
            pv == visible_spec(wins@),
            forall|k: int| 0 <= k < pv.len() ==> is_absolute(#[trigger] pv[k]),
            texts(out@) == pv.subrange(0, i as int).map_values(|p: Seq<char>| crate::uri::file_uri_of(p)),
        decreases paths.len() - i,
    {
        assert(is_absolute(pv[i as int]));
        match crate::uri::to_uri(paths[i].as_str()) {
            Ok(u) => {
                let ghost ov = out@;
                let ghost uv = u@;
                assert(uv == crate::uri::file_uri_of(pv[i as int]));
                out.push(u);
                assert(texts(out@) =~= texts(ov).push(uv));
                assert(pv.subrange(0, i + 1).map_values(|p: Seq<char>| crate::uri::file_uri_of(p)) =~= pv.subrange(
                    0,
                    i as int,
                ).map_values(|p: Seq<char>| crate::uri::file_uri_of(p)).push(uv));
            },
            Err(_) => {
                assert(false);
            },
        }
        i += 1;
    }
    assert(pv.subrange(0, pv.len() as int) =~= pv);
    out
}

proof fn lemma_visible_absolute(wins: Seq<WindowBuffer>)
    ensures
        forall|k: int| 0 <= k < visible_spec(wins).len() ==> is_absolute(#[trigger] visible_spec(wins)[k]),
    decreases wins.len(),
{
    if wins.len() > 0 {
        lemma_visible_absolute(wins.drop_last());
        let rest = visible_spec(wins.drop_last());
        assert forall|k: int| 0 <= k < visible_spec(wins).len() implies is_absolute(#[trigger] visible_spec(wins)[k]) by {
            if k < rest.len() {
                assert(visible_spec(wins)[k] == rest[k]);
            }
        }
    }
}

/// Sends `visibleFilesDidChange` with the URIs sorted and each once, unless
/// they equal the last ones sent. True when it was sent.
pub fn handle_visible_files(cell: &mut ChangeCell, hub: &mut Hub, uris: Vec<String>) -> (sent: bool)
    requires
        old(hub).wf(),
    ensures
        final(hub).wf(),
        final(hub).next_id_spec() == old(hub).next_id_spec(),
        exists|sorted: Seq<String>| {
            &&& forall|x: Seq<char>| texts(sorted).contains(x) <==> texts(uris@).contains(x)
            &&& forall|i: int, j: int| 0 <= i < j < sorted.len() ==> text_le(#[trigger] sorted[i]@, #[trigger] sorted[j]@)
            &&& forall|i: int, j: int| 0 <= i < j < sorted.len() ==> sorted[i]@ != sorted[j]@
            &&& (sent, cell_view(*final(cell))) == observe_spec(
                cell_view(*old(cell)),
                notification_text("visibleFilesDidChange"@, visible_files_spec(sorted)),
            )
            &&& final(hub)@ == if sent {
                broadcast_spec(old(hub)@, notification_text("visibleFilesDidChange"@, visible_files_spec(sorted)))
            } else {
                old(hub)@
            }
        },
{
    let ordered = sorted_uris(uris);
    proof {
        broadcast use vstd::seq_lib::group_to_multiset_ensures;
        assert forall|x: Seq<char>| texts(ordered@).contains(x) <==> texts(uris@).contains(x) by {
            assert(texts(ordered@).contains(x) <==> texts(ordered@).to_multiset().count(x) > 0);
            assert(texts(uris@).contains(x) <==> texts(uris@).to_multiset().count(x) > 0);
        }
    }
    let sorted = distinct_sorted(&ordered);
    let ghost sv = sorted@;
    let arr = string_array(sorted);
    let ghost av = arr@;
    let mut e: Vec<(String, crate::json::Json)> = Vec::new();
    e.push(crate::json::entry("uris", arr));
    proof {
        crate::json::lemma_object_view(e);
    }
    assert(crate::json::entries_view(e@) =~= seq![("uris"@, av)]);
    let payload = crate::json::Json::Object(e);
    assert(payload@ == visible_files_spec(sv));
    let text = notification_text_of("visibleFilesDidChange", payload);
    broadcast_if_changed(cell, hub, text.as_str())
}

} // verus!
