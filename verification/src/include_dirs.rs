//! Header search-path assembly: the ordered set of directories the bridge
//! compiler searches, built from fixed wrapper and source-tree entries plus a
//! depth-first, symlink-excluding walk of the vendored-dependency subtree
//! that keeps every real directory bearing the header-directory marker name.
//! Order is significant — earlier entries take precedence — and is a pure
//! function of the walk, so repeated builds with unchanged inputs assemble
//! the identical sequence.

use vstd::prelude::*;

use crate::artifact::{join_path, spec_join_path};
use crate::text::str_eq;

verus! {

/// One entry a depth-first walk of the vendored subtree reported.
#[derive(Debug)]
pub struct WalkEntry {
    /// The full path of the entry.
    pub path: String,
    /// Its final name component.
    pub name: String,
    /// Whether the entry is a directory.
    pub is_dir: bool,
    /// Whether the entry is reached through a symbolic link.
    pub is_symlink: bool,
}

/// The mathematical value of a walk entry.
pub struct WalkEntryView {
    pub path: Seq<char>,
    pub name: Seq<char>,
    pub is_dir: bool,
    pub is_symlink: bool,
}

impl View for WalkEntry {
    type V = WalkEntryView;

    open spec fn view(&self) -> WalkEntryView {
        WalkEntryView {
            path: self.path@,
            name: self.name@,
            is_dir: self.is_dir,
            is_symlink: self.is_symlink,
        }
    }
}

impl DeepView for WalkEntry {
    type V = WalkEntryView;

    open spec fn deep_view(&self) -> WalkEntryView {
        self.view()
    }
}

/// Whether the assembler keeps a walk entry: a real directory, not reached
/// through a symbolic link, named exactly the marker.
pub open spec fn spec_keeps(e: WalkEntryView, marker: Seq<char>) -> bool {
    e.is_dir && !e.is_symlink && e.name == marker
}

/// The paths of the kept entries, in walk order.
pub open spec fn spec_scan(entries: Seq<WalkEntryView>, marker: Seq<char>) -> Seq<Seq<char>>
    decreases entries.len(),
{
    if entries.len() == 0 {
        Seq::empty()
    } else {
        let rest = spec_scan(entries.drop_last(), marker);
        if spec_keeps(entries.last(), marker) {
            rest.push(entries.last().path)
        } else {
            rest
        }
    }
}

/// How many entries the scan keeps.
pub open spec fn spec_keep_count(entries: Seq<WalkEntryView>, marker: Seq<char>) -> int
    decreases entries.len(),
{
    if entries.len() == 0 {
        0
    } else {
        spec_keep_count(entries.drop_last(), marker) + (if spec_keeps(entries.last(), marker) {
            1int
        } else {
            0int
        })
    }
}

/// Collects, in first-seen depth-first order, the path of every real,
/// non-symlinked directory named `marker` among the walked entries.
pub fn scan_header_dirs(entries: &Vec<WalkEntry>, marker: &str) -> (r: Vec<String>)
    ensures
        r.deep_view() == spec_scan(entries.deep_view(), marker@),
{
    let mut out: Vec<String> = Vec::new();
    let mut i: usize = 0;
    proof {
        assert(entries.deep_view().take(0) =~= Seq::<WalkEntryView>::empty());
        assert(out.deep_view() =~= Seq::<Seq<char>>::empty());
    }
    while i < entries.len()
        invariant
            i <= entries@.len(),
            out.deep_view() == spec_scan(entries.deep_view().take(i as int), marker@),
        decreases entries@.len() - i,
    {
        let ghost pre = entries.deep_view().take(i as int);
        let ghost cur = entries.deep_view().take(i + 1);
        proof {
            assert(cur.drop_last() =~= pre);
            assert(cur.last() == entries.deep_view()[i as int]);
            assert(entries.deep_view()[i as int] == entries@[i as int]@);
        }
        let e = &entries[i];
        if e.is_dir && !e.is_symlink && str_eq(e.name.as_str(), marker) {
            let ghost out_pre = out.deep_view();
            out.push(e.path.clone());
            proof {
                assert forall|j: int| 0 <= j < out@.len() implies out.deep_view()[j]
                    == out_pre.push(entries@[i as int]@.path)[j] by {
                    assert(out.deep_view()[j] == out@[j]@);
                }
                assert(out.deep_view() =~= out_pre.push(entries@[i as int]@.path));
            }
        }
        i = i + 1;
    }
    proof {
        assert(entries.deep_view().take(entries@.len() as int) =~= entries.deep_view());
    }
    out
}

/// The header directories of a resolved source tree: the wrapper's own
/// header directory, the tree's declared header directories, and the scanned
/// vendored subtree, in that order.
pub fn source_header_dirs(
    wrapper_root: &str,
    source_root: &str,
    marker: &str,
    entries: &Vec<WalkEntry>,
) -> (r: Vec<String>)
    ensures
        r.deep_view() == seq![
            spec_join_path(wrapper_root@, marker@),
            spec_join_path(source_root@, marker@),
            spec_join_path(source_root@, "platform/default/"@ + marker@),
        ] + spec_scan(entries.deep_view(), marker@),
{
    let mut out: Vec<String> = Vec::new();
    out.push(join_path(wrapper_root, marker));
    out.push(join_path(source_root, marker));
    let platform_sub = crate::text::concat2("platform/default/", marker);
    out.push(join_path(source_root, platform_sub.as_str()));
    let scanned = scan_header_dirs(entries, marker);
    let mut j: usize = 0;
    let ghost prefix = out.deep_view();
    proof {
        assert(prefix =~= seq![
            spec_join_path(wrapper_root@, marker@),
            spec_join_path(source_root@, marker@),
            spec_join_path(source_root@, "platform/default/"@ + marker@),
        ]);
        assert(scanned.deep_view().take(0) =~= Seq::<Seq<char>>::empty());
        assert(out.deep_view() =~= prefix + scanned.deep_view().take(0));
    }
    while j < scanned.len()
        invariant
            j <= scanned@.len(),
            out.deep_view() == prefix + scanned.deep_view().take(j as int),
        decreases scanned@.len() - j,
    {
        let ghost out_pre = out.deep_view();
        out.push(scanned[j].clone());
        proof {
            assert forall|k: int| 0 <= k < out@.len() implies out.deep_view()[k] == out_pre.push(
                scanned@[j as int]@,
            )[k] by {
                assert(out.deep_view()[k] == out@[k]@);
            }
            assert(out.deep_view() =~= out_pre.push(scanned@[j as int]@));
            assert(scanned.deep_view()[j as int] == scanned@[j as int]@);
            assert(out.deep_view() =~= prefix + scanned.deep_view().take(j + 1));
        }
        j = j + 1;
    }
    proof {
        assert(scanned.deep_view().take(scanned@.len() as int) =~= scanned.deep_view());
    }
    out
}

/// The header directories of the precompiled-artifact path: the wrapper's
/// own header directory, one header directory per bundled third-party tree,
/// and the extracted archive's header directory, in that order.
pub fn artifact_header_dirs(
    wrapper_root: &str,
    bundled: &Vec<String>,
    extraction_dir: &str,
    marker: &str,
) -> (r: Vec<String>)
    ensures
        r.deep_view().len() == bundled@.len() + 2,
        r.deep_view()[0] == spec_join_path(wrapper_root@, marker@),
        forall|i: int|
            0 <= i < bundled@.len() ==> r.deep_view()[i + 1] == spec_join_path(
                spec_join_path(wrapper_root@, bundled@[i]@),
                marker@,
            ),
        r.deep_view()[r.deep_view().len() - 1] == spec_join_path(extraction_dir@, marker@),
{
    let mut out: Vec<String> = Vec::new();
    out.push(join_path(wrapper_root, marker));
    let mut i: usize = 0;
    while i < bundled.len()
        invariant
            i <= bundled@.len(),
            out@.len() == i + 1,
            out.deep_view()[0] == spec_join_path(wrapper_root@, marker@),
            forall|k: int|
                0 <= k < i ==> out.deep_view()[k + 1] == spec_join_path(
                    spec_join_path(wrapper_root@, bundled@[k]@),
                    marker@,
                ),
        decreases bundled@.len() - i,
    {
        let ghost prev = out@;
        let base = join_path(wrapper_root, bundled[i].as_str());
        out.push(join_path(base.as_str(), marker));
        proof {
            assert(forall|k: int| 0 <= k < prev.len() ==> out@[k] == prev[k]);
        }
        i = i + 1;
    }
    let ghost prev = out@;
    out.push(join_path(extraction_dir, marker));
    proof {
        assert(forall|k: int| 0 <= k < prev.len() ==> out@[k] == prev[k]);
    }
    out
}

/// The scan keeps exactly the real, non-symlinked directories named the
/// marker — as many entries as the walk reported such directories, each
/// present in the result — and nothing else: every collected path comes from
/// a kept entry, so a symlinked marker directory contributes nothing.
pub proof fn lemma_scan_exact(entries: Seq<WalkEntryView>, marker: Seq<char>)
    ensures
        spec_scan(entries, marker).len() == spec_keep_count(entries, marker),
        forall|i: int|
            0 <= i < entries.len() && spec_keeps(entries[i], marker) ==> spec_scan(
                entries,
                marker,
            ).contains(entries[i].path),
        forall|q: Seq<char>|
            spec_scan(entries, marker).contains(q) ==> exists|i: int|
                0 <= i < entries.len() && spec_keeps(#[trigger] entries[i], marker)
                    && entries[i].path == q,
    decreases entries.len(),
{
    if entries.len() > 0 {
        lemma_scan_exact(entries.drop_last(), marker);
        let rest = spec_scan(entries.drop_last(), marker);
        let whole = spec_scan(entries, marker);
        assert forall|i: int|
            0 <= i < entries.len() && spec_keeps(entries[i], marker) implies whole.contains(
            entries[i].path,
        ) by {
            if i < entries.len() - 1 {
                assert(entries.drop_last()[i] == entries[i]);
                assert(rest.contains(entries[i].path));
                let m = choose|m: int| 0 <= m < rest.len() && rest[m] == entries[i].path;
                assert(whole[m] == entries[i].path);
            } else {
                assert(whole[whole.len() - 1] == entries[i].path);
            }
        }
        assert forall|q: Seq<char>| whole.contains(q) implies exists|i: int|
            0 <= i < entries.len() && spec_keeps(#[trigger] entries[i], marker) && entries[i].path
                == q by {
            let m = choose|m: int| 0 <= m < whole.len() && whole[m] == q;
            if spec_keeps(entries.last(), marker) && m == whole.len() - 1 {
                assert(spec_keeps(entries[entries.len() - 1], marker));
            } else {
                assert(rest[m] == q);
                assert(rest.contains(q));
                let i = choose|i: int|
                    0 <= i < entries.drop_last().len() && spec_keeps(
                        #[trigger] entries.drop_last()[i],
                        marker,
                    ) && entries.drop_last()[i].path == q;
                assert(entries[i] == entries.drop_last()[i]);
                assert(spec_keeps(entries[i], marker));
            }
        }
    }
}

} // verus!
