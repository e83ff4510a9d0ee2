//! The model directory: which of its files are models, and the order in
//! which they are listed.

use crate::app::{App, AppView};
use crate::hf::{is_gguf, is_gguf_name};
use crate::models::DownloadedModel;
use crate::text::chars_of;
use vstd::prelude::*;
use vstd::seq_lib::{to_multiset_build, to_multiset_insert};

verus! {

/// An entry of the model directory whose name is text, with what the
/// listing tells of it.
#[derive(Clone, Debug, PartialEq, Eq)]
pub struct FoundFile {
    pub file_name: String,
    pub path: String,
    /// Whether the entry is a regular file.
    pub is_file: bool,
    /// The length of the file, where it could be read.
    pub size: Option<u64>,
    /// When the file was last changed, on any clock that grows with time,
    /// where it could be read.
    pub modified: Option<u64>,
}

/// Whether the text `a` comes before `b` in the order of the dictionary,
/// character by character, each character counting by its code point.
pub open spec fn text_before(a: Seq<char>, b: Seq<char>) -> bool
    decreases a.len(),
{
    if b.len() == 0 {
        false
    } else if a.len() == 0 {
        true
    } else if (a[0] as u32) != (b[0] as u32) {
        (a[0] as u32) < (b[0] as u32)
    } else {
        text_before(a.drop_first(), b.drop_first())
    }
}

/// Whether a file changed at `a` is newer than one changed at `b`; a time
/// that could not be read counts as older than any that could.
pub open spec fn newer(a: Option<u64>, b: Option<u64>) -> bool {
    match (a, b) {
        (Some(x), Some(y)) => x > y,
        (Some(_), None) => true,
        (None, _) => false,
    }
}

/// Whether `a` is listed before `b`: the newer file first, and of two that
/// are equally new the one whose name comes first.
pub open spec fn listed_before(a: FoundFile, b: FoundFile) -> bool {
    newer(a.modified, b.modified) || (a.modified == b.modified && text_before(
        a.file_name@,
        b.file_name@,
    ))
}

/// `sorted` with `x` put in its place: before the files that it is listed
/// before, and behind all others.
pub open spec fn spec_insert(sorted: Seq<FoundFile>, x: FoundFile) -> Seq<FoundFile>
    decreases sorted.len(),
{
    if sorted.len() == 0 {
        seq![x]
    } else if listed_before(x, sorted.last()) {
        spec_insert(sorted.drop_last(), x).push(sorted.last())
    } else {
        sorted.push(x)
    }
}

/// The files in the order of the listing. Files that neither is listed
/// before the other keep the order in which they came.
pub open spec fn spec_sort(files: Seq<FoundFile>) -> Seq<FoundFile>
    decreases files.len(),
{
    if files.len() == 0 {
        Seq::empty()
    } else {
        spec_insert(spec_sort(files.drop_last()), files.last())
    }
}

/// Whether an entry is a model: a regular file whose name is that of a
/// model file.
pub open spec fn is_model_file(f: FoundFile) -> bool {
    f.is_file && is_gguf_name(f.file_name@)
}

/// The models among the entries, in their order.
pub open spec fn spec_model_files(found: Seq<FoundFile>) -> Seq<FoundFile>
    decreases found.len(),
{
    if found.len() == 0 {
        Seq::empty()
    } else if is_model_file(found.last()) {
        spec_model_files(found.drop_last()).push(found.last())
    } else {
        spec_model_files(found.drop_last())
    }
}

/// A model as it is listed.
pub open spec fn listed(f: FoundFile) -> DownloadedModel {
    DownloadedModel { file_name: f.file_name, path: f.path, size: f.size }
}

/// The list of downloaded models for the entries of the model directory.
pub open spec fn spec_downloaded_models(found: Seq<FoundFile>) -> Seq<DownloadedModel> {
    spec_sort(spec_model_files(found)).map_values(|f: FoundFile| listed(f))
}

/// Whether the text `a` comes before `b` in the order of the dictionary.
pub fn comes_before(a: &Vec<char>, b: &Vec<char>) -> (r: bool)
    ensures
        r == text_before(a@, b@),
{
    let mut i: usize = 0;
    assert(a@.skip(0) =~= a@ && b@.skip(0) =~= b@);
    while i < a.len() && i < b.len()
        invariant
            i <= a.len(),
            i <= b.len(),
            text_before(a@, b@) == text_before(a@.skip(i as int), b@.skip(i as int)),
        decreases a.len() - i,
    {
        proof {
            assert(a@.skip(i as int)[0] == a@[i as int]);
            assert(b@.skip(i as int)[0] == b@[i as int]);
            assert(a@.skip(i as int).drop_first() =~= a@.skip(i + 1));
            assert(b@.skip(i as int).drop_first() =~= b@.skip(i + 1));
        }
        if (a[i] as u32) != (b[i] as u32) {
            return (a[i] as u32) < (b[i] as u32);
        }
        i += 1;
    }
    i < b.len()
}

/// Whether `a` is listed before `b`.
pub fn is_listed_before(a: &FoundFile, b: &FoundFile) -> (r: bool)
    ensures
        r == listed_before(*a, *b),
{
    match (a.modified, b.modified) {
        (Some(x), Some(y)) => {
            if x != y {
                x > y
            } else {
                comes_before(&chars_of(a.file_name.as_str()), &chars_of(b.file_name.as_str()))
            }
        },
        (Some(_), None) => true,
        (None, Some(_)) => false,
        (None, None) => comes_before(
            &chars_of(a.file_name.as_str()),
            &chars_of(b.file_name.as_str()),
        ),
    }
}

proof fn lemma_insert_at(s: Seq<FoundFile>, x: FoundFile, p: int)
    requires
        0 <= p <= s.len(),
        forall|j: int| p <= j < s.len() ==> listed_before(x, #[trigger] s[j]),
        p == 0 || !listed_before(x, s[p - 1]),
    ensures
        spec_insert(s, x) == s.insert(p, x),
    decreases s.len(),
{
    if s.len() == 0 {
        assert(s.insert(p, x) =~= seq![x]);
    } else if p == s.len() {
        assert(s.insert(p, x) =~= s.push(x));
    } else {
        assert(listed_before(x, s[s.len() - 1]));
        let front = s.drop_last();
        assert forall|j: int| p <= j < front.len() implies listed_before(x, #[trigger] front[j]) by {
            assert(front[j] == s[j]);
        }
        lemma_insert_at(front, x, p);
        assert(s.insert(p, x) =~= front.insert(p, x).push(s.last()));
    }
}

/// The list of downloaded models for the entries of the model directory:
/// the regular files with a model's name, the newest first.
pub fn downloaded_models(found: Vec<FoundFile>) -> (list: Vec<DownloadedModel>)
    ensures
        list@ == spec_downloaded_models(found@),
{
    let ghost all = found@;
    let mut sorted: Vec<FoundFile> = Vec::new();
    for f in it: found
        invariant
            it.seq() == all,
            sorted@ == spec_sort(spec_model_files(all.take(it.index() as int))),
    {
        proof {
            let k = it.index() as int;
            assert(all.take(k + 1).drop_last() =~= all.take(k));
            assert(all.take(k + 1).last() == all[k]);
        }
        if f.is_file && is_gguf(f.file_name.as_str()) {
            let ghost before = sorted@;
            let mut p: usize = sorted.len();
            while p > 0 && is_listed_before(&f, &sorted[p - 1])
                invariant
                    p <= sorted.len(),
                    sorted@ == before,
                    forall|j: int| p <= j < sorted.len() ==> listed_before(f, #[trigger] sorted@[j]),
                decreases p,
            {
                p -= 1;
            }
            proof {
                lemma_insert_at(before, f, p as int);
                let models = spec_model_files(all.take(it.index() + 1));
                assert(models.drop_last() =~= spec_model_files(all.take(it.index() as int)));
            }
            sorted.insert(p, f);
        }
    }
    assert(all.take(all.len() as int) =~= all);
    let ghost in_order = sorted@;
    let mut list: Vec<DownloadedModel> = Vec::new();
    for f in it: sorted
        invariant
            it.seq() == in_order,
            list@ == in_order.take(it.index() as int).map_values(|f: FoundFile| listed(f)),
    {
        proof {
            let k = it.index() as int;
            assert(in_order.take(k + 1).map_values(|f: FoundFile| listed(f)) =~= in_order.take(
                k,
            ).map_values(|f: FoundFile| listed(f)).push(listed(in_order[k])));
        }
        list.push(DownloadedModel { file_name: f.file_name, path: f.path, size: f.size });
    }
    assert(in_order.take(in_order.len() as int) =~= in_order);
    list
}

/// Puts the list of downloaded models for the entries of the model
/// directory into the state.
pub fn scan_downloaded_models(app: &mut App, found: Vec<FoundFile>)
    requires
        old(app).wf(),
    ensures
        final(app).wf(),
        final(app)@ == (AppView { downloaded: spec_downloaded_models(found@), ..old(app)@ }),
{
    app.downloaded = downloaded_models(found);
}

/// Of two texts at most one comes before the other.
pub proof fn lemma_text_before_asymmetric(a: Seq<char>, b: Seq<char>)
    ensures
        !(text_before(a, b) && text_before(b, a)),
    decreases a.len(),
{
    if a.len() > 0 && b.len() > 0 && (a[0] as u32) == (b[0] as u32) {
        lemma_text_before_asymmetric(a.drop_first(), b.drop_first());
    }
}

/// Where `a` does not come before `b`, nor `b` before `c`, `a` does not
/// come before `c`.
pub proof fn lemma_text_not_before_transitive(a: Seq<char>, b: Seq<char>, c: Seq<char>)
    requires
        !text_before(a, b),
        !text_before(b, c),
    ensures
        !text_before(a, c),
    decreases a.len(),
{
    if c.len() > 0 && a.len() > 0 && b.len() > 0 && (a[0] as u32) == (b[0] as u32) && (
    b[0] as u32) == (c[0] as u32) {
        lemma_text_not_before_transitive(a.drop_first(), b.drop_first(), c.drop_first());
    }
}

/// Of two files at most one is listed before the other.
pub proof fn lemma_listed_before_asymmetric(a: FoundFile, b: FoundFile)
    ensures
        !(listed_before(a, b) && listed_before(b, a)),
{
    lemma_text_before_asymmetric(a.file_name@, b.file_name@);
}

/// Where `a` is not listed before `b`, nor `b` before `c`, `a` is not
/// listed before `c`.
pub proof fn lemma_not_listed_before_transitive(a: FoundFile, b: FoundFile, c: FoundFile)
    requires
        !listed_before(a, b),
        !listed_before(b, c),
    ensures
        !listed_before(a, c),
{
    if a.modified == b.modified && b.modified == c.modified {
        lemma_text_not_before_transitive(a.file_name@, b.file_name@, c.file_name@);
    }
}

/// Whether the files are in the order of the listing: none is listed before
/// one that stands in front of it.
pub open spec fn in_listing_order(files: Seq<FoundFile>) -> bool {
    forall|i: int, j: int|
        0 <= i < j < files.len() ==> !listed_before(#[trigger] files[j], #[trigger] files[i])
}

/// Putting a file in its place keeps the order, and adds the file and
/// nothing else.
pub proof fn lemma_insert_keeps_order(sorted: Seq<FoundFile>, x: FoundFile)
    requires
        in_listing_order(sorted),
    ensures
        in_listing_order(spec_insert(sorted, x)),
        exists|p: int| 0 <= p <= sorted.len() && spec_insert(sorted, x) == sorted.insert(p, x),
        spec_insert(sorted, x).to_multiset() == sorted.to_multiset().insert(x),
    decreases sorted.len(),
{
    if sorted.len() == 0 {
        assert(spec_insert(sorted, x) =~= sorted.insert(0, x));
        to_multiset_insert(sorted, 0, x);
    } else if listed_before(x, sorted.last()) {
        let last = sorted.last();
        let front = sorted.drop_last();
        assert forall|i: int, j: int| 0 <= i < j < front.len() implies !listed_before(
            #[trigger] front[j],
            #[trigger] front[i],
        ) by {
            assert(front[i] == sorted[i] && front[j] == sorted[j]);
        }
        lemma_insert_keeps_order(front, x);
        let p = choose|p: int| 0 <= p <= front.len() && spec_insert(front, x) == front.insert(p, x);
        let placed = front.insert(p, x);
        let r = placed.push(last);
        assert(r =~= sorted.insert(p, x));
        to_multiset_insert(sorted, p, x);
        lemma_listed_before_asymmetric(x, last);
        assert forall|i: int, j: int| 0 <= i < j < r.len() implies !listed_before(
            #[trigger] r[j],
            #[trigger] r[i],
        ) by {
            if j < placed.len() {
                assert(r[i] == placed[i] && r[j] == placed[j]);
            } else {
                assert(r[j] == last);
                if i < p {
                    assert(r[i] == sorted[i]);
                } else if i > p {
                    assert(r[i] == sorted[i - 1]);
                }
            }
        }
    } else {
        let r = sorted.push(x);
        assert(r =~= sorted.insert(sorted.len() as int, x));
        to_multiset_insert(sorted, sorted.len() as int, x);
        assert forall|i: int, j: int| 0 <= i < j < r.len() implies !listed_before(
            #[trigger] r[j],
            #[trigger] r[i],
        ) by {
            if j == sorted.len() {
                if i < sorted.len() - 1 {
                    assert(!listed_before(sorted[sorted.len() - 1], sorted[i]));
                    lemma_not_listed_before_transitive(x, sorted.last(), sorted[i]);
                }
            } else {
                assert(r[i] == sorted[i] && r[j] == sorted[j]);
            }
        }
    }
}

/// The listing is in order, and it holds the files that were given, each as
/// often as it was given.
pub proof fn lemma_sort_is_ordered_permutation(files: Seq<FoundFile>)
    ensures
        in_listing_order(spec_sort(files)),
        spec_sort(files).to_multiset() == files.to_multiset(),
        spec_sort(files).len() == files.len(),
    decreases files.len(),
{
    broadcast use vstd::seq_lib::to_multiset_len;

    if files.len() > 0 {
        let front = files.drop_last();
        lemma_sort_is_ordered_permutation(front);
        lemma_insert_keeps_order(spec_sort(front), files.last());
        to_multiset_build(front, files.last());
        assert(front.push(files.last()) =~= files);
        assert(spec_sort(files).to_multiset() =~= files.to_multiset());
    } else {
        assert(spec_sort(files) =~= files);
    }
}

} // verus!
