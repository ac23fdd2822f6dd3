//! The models found in the local models directory.
use vstd::prelude::*;
use vstd::string::*;
use crate::file_names::{is_model_file, is_model_file_name, model_suffix};
use crate::text::{
    ends_with, lemma_strip_all_suffix_done, lemma_strip_all_suffix_shape, repeated, strip_all_suffix,
    trim_end_matches_text,
};

verus! {

/// A model file found on disk.
#[derive(Debug, Clone)]
pub struct ModelInfo {
    pub name: String,
    pub filename: String,
    pub path: String,
    pub size_bytes: u64,
}

/// A model file with its texts as character sequences.
pub struct ModelInfoView {
    pub name: Seq<char>,
    pub filename: Seq<char>,
    pub path: Seq<char>,
    pub size_bytes: u64,
}

impl View for ModelInfo {
    type V = ModelInfoView;

    open spec fn view(&self) -> ModelInfoView {
        ModelInfoView {
            name: self.name@,
            filename: self.filename@,
            path: self.path@,
            size_bytes: self.size_bytes,
        }
    }
}

/// What was read of one entry of the models directory: its file name, its
/// full path, and its size where its metadata could be read.
#[derive(Debug)]
pub struct DirEntryFacts {
    pub file_name: String,
    pub path: String,
    pub size_bytes: Option<u64>,
}

/// A directory entry with its texts as character sequences.
pub struct DirEntryFactsView {
    pub file_name: Seq<char>,
    pub path: Seq<char>,
    pub size_bytes: Option<u64>,
}

impl View for DirEntryFacts {
    type V = DirEntryFactsView;

    open spec fn view(&self) -> DirEntryFactsView {
        DirEntryFactsView { file_name: self.file_name@, path: self.path@, size_bytes: self.size_bytes }
    }
}

/// Dashes and underscores are shown as spaces.
pub open spec fn spaced(c: char) -> char {
    if c == '-' || c == '_' {
        ' '
    } else {
        c
    }
}

/// The name shown for a model file: the file name without its trailing
/// `.gguf` suffixes, with dashes and underscores shown as spaces.
pub open spec fn display_name(file_name: Seq<char>) -> Seq<char> {
    strip_all_suffix(file_name, model_suffix()).map_values(|c: char| spaced(c))
}

/// The name shown for a model file.
pub fn model_display_name(file_name: &str) -> (r: String)
    ensures
        r@ == display_name(file_name@),
{
    let suffix = ".gguf";
    proof {
        reveal_strlit(".gguf");
        assert(suffix@ =~= model_suffix());
    }
    let stripped = trim_end_matches_text(file_name, suffix);
    let t = stripped.as_str();
    let n = t.unicode_len();
    let space = " ";
    proof {
        reveal_strlit(" ");
    }
    let mut out = String::new();
    let mut i: usize = 0;
    while i < n
        invariant
            n == t@.len(),
            t@ == strip_all_suffix(file_name@, model_suffix()),
            space@ == seq![' '],
            i <= n,
            out@ == t@.subrange(0, i as int).map_values(|c: char| spaced(c)),
        decreases n - i,
    {
        let c = t.get_char(i);
        if c == '-' || c == '_' {
            out.append(space);
        } else {
            out.append(t.substring_char(i, i + 1));
        }
        assert(out@ =~= t@.subrange(0, i + 1).map_values(|c: char| spaced(c)));
        i = i + 1;
    }
    assert(t@.subrange(0, n as int) =~= t@);
    out
}

/// Whether a directory entry is listed as a model.
pub open spec fn is_listed(e: DirEntryFactsView) -> bool {
    is_model_file_name(e.file_name) && e.size_bytes is Some
}

/// How a listed directory entry is described.
pub open spec fn info_of(e: DirEntryFactsView) -> ModelInfoView {
    ModelInfoView {
        name: display_name(e.file_name),
        filename: e.file_name,
        path: e.path,
        size_bytes: e.size_bytes->0,
    }
}

/// The models among the directory entries, in the order of the entries.
pub open spec fn models_of(entries: Seq<DirEntryFactsView>) -> Seq<ModelInfoView>
    decreases entries.len(),
{
    if entries.len() == 0 {
        Seq::empty()
    } else if is_listed(entries.last()) {
        models_of(entries.drop_last()).push(info_of(entries.last()))
    } else {
        models_of(entries.drop_last())
    }
}

/// The views of a vector of directory entries.
pub open spec fn entry_facts_views(v: Seq<DirEntryFacts>) -> Seq<DirEntryFactsView> {
    v.map_values(|e: DirEntryFacts| e@)
}

/// The views of a vector of model descriptions.
pub open spec fn info_views(v: Seq<ModelInfo>) -> Seq<ModelInfoView> {
    v.map_values(|m: ModelInfo| m@)
}

/// The models found among the entries of the models directory: the entries
/// whose extension is `gguf` and whose metadata could be read.
pub fn list_models(entries: &Vec<DirEntryFacts>) -> (r: Vec<ModelInfo>)
    ensures
        info_views(r@) == models_of(entry_facts_views(entries@)),
{
    let mut r: Vec<ModelInfo> = Vec::new();
    let n = entries.len();
    let mut i: usize = 0;
    while i < n
        invariant
            n == entries@.len(),
            i <= n,
            info_views(r@) == models_of(entry_facts_views(entries@).subrange(0, i as int)),
        decreases n - i,
    {
        let e = &entries[i];
        let ghost before = r@;
        let ghost views = entry_facts_views(entries@);
        assert(views.subrange(0, i + 1).drop_last() =~= views.subrange(0, i as int));
        assert(views.subrange(0, i + 1).last() == e@);
        if is_model_file(e.file_name.as_str()) {
            match e.size_bytes {
                Some(size) => {
                    let info = ModelInfo {
                        name: model_display_name(e.file_name.as_str()),
                        filename: e.file_name.clone(),
                        path: e.path.clone(),
                        size_bytes: size,
                    };
                    r.push(info);
                    assert(info_views(r@) =~= info_views(before).push(info_of(e@)));
                },
                None => {},
            }
        }
        i = i + 1;
    }
    assert(entry_facts_views(entries@).subrange(0, n as int) =~= entry_facts_views(entries@));
    r
}


/// A display name holds no dash or underscore, does not end with `.gguf`,
/// and is no longer than the file name it comes from.
pub proof fn lemma_display_name(file_name: Seq<char>)
    ensures
        forall|i: int|
            0 <= i < display_name(file_name).len() ==> #[trigger] display_name(file_name)[i] != '-'
                && display_name(file_name)[i] != '_',
        !ends_with(display_name(file_name), model_suffix()),
        display_name(file_name).len() <= file_name.len(),
{
    let t = strip_all_suffix(file_name, model_suffix());
    let d = display_name(file_name);
    lemma_strip_all_suffix_done(file_name, model_suffix());
    if ends_with(d, model_suffix()) {
        let k = d.len() - 5;
        assert forall|j: int| 0 <= j < 5 implies t[k + j] == model_suffix()[j] by {
            assert(d.subrange(k, d.len() as int)[j] == model_suffix()[j]);
            assert(d[k + j] == spaced(t[k + j]));
        }
        assert(t.subrange(t.len() - 5, t.len() as int) =~= model_suffix());
    }
}


/// A model description that reports a directory entry as it was read: its
/// file name, its path, the size read from its metadata, and its display
/// name.
pub open spec fn describes(m: ModelInfoView, e: DirEntryFactsView) -> bool {
    &&& m.filename == e.file_name
    &&& m.path == e.path
    &&& e.size_bytes == Some(m.size_bytes)
    &&& m.name == display_name(e.file_name)
}

/// Some entry that is a model file is reported by `m`.
pub open spec fn reports_some_entry(m: ModelInfoView, entries: Seq<DirEntryFactsView>) -> bool {
    exists|i: int|
        0 <= i < entries.len() && is_model_file_name(entries[i].file_name) && describes(
            m,
            #[trigger] entries[i],
        )
}

/// Some model in `models` reports the entry `e`.
pub open spec fn reported_by_some(e: DirEntryFactsView, models: Seq<ModelInfoView>) -> bool {
    exists|k: int| 0 <= k < models.len() && describes(#[trigger] models[k], e)
}

/// Every listed model reports a directory entry that is a model file with
/// readable metadata, with that entry's own size; and every such entry is
/// listed. No size is altered, whatever its value.
pub proof fn lemma_listed_models_report_entries(entries: Seq<DirEntryFactsView>)
    ensures
        forall|k: int|
            0 <= k < models_of(entries).len() ==> reports_some_entry(
                #[trigger] models_of(entries)[k],
                entries,
            ),
        forall|i: int|
            0 <= i < entries.len() && is_model_file_name(entries[i].file_name)
                && (#[trigger] entries[i]).size_bytes is Some ==> reported_by_some(
                entries[i],
                models_of(entries),
            ),
    decreases entries.len(),
{
    if entries.len() > 0 {
        let init = entries.drop_last();
        let last = entries.last();
        lemma_listed_models_report_entries(init);
        let prev = models_of(init);
        let out = models_of(entries);
        assert forall|k: int| 0 <= k < out.len() implies reports_some_entry(
            #[trigger] out[k],
            entries,
        ) by {
            if k < prev.len() {
                assert(out[k] == prev[k]);
                assert(reports_some_entry(prev[k], init));
                let i = choose|i: int|
                    0 <= i < init.len() && is_model_file_name(init[i].file_name) && describes(
                        prev[k],
                        #[trigger] init[i],
                    );
                assert(entries[i] == init[i]);
            } else {
                assert(is_listed(last));
                assert(out[k] == info_of(last));
                assert(entries[entries.len() - 1] == last);
            }
        }
        assert forall|i: int|
            0 <= i < entries.len() && is_model_file_name(entries[i].file_name)
                && (#[trigger] entries[i]).size_bytes is Some implies reported_by_some(
            entries[i],
            out,
        ) by {
            if i < init.len() {
                assert(init[i] == entries[i]);
                assert(reported_by_some(init[i], prev));
                let k = choose|k: int| 0 <= k < prev.len() && describes(#[trigger] prev[k], init[i]);
                assert(out[k] == prev[k]);
            } else {
                assert(entries[i] == last);
                assert(out[prev.len() as int] == info_of(last));
            }
        }
    }
}


/// The display name of a file name keeps its characters up to the trailing
/// copies of `.gguf`, one for one, showing each dash and underscore as a
/// space; what it leaves out is whole copies of `.gguf` only, and what it
/// keeps does not itself end with `.gguf`.
pub proof fn lemma_display_name_shape(file_name: Seq<char>)
    ensures
        model_suffix() == seq!['.', 'g', 'g', 'u', 'f'],
        ({
            let m = display_name(file_name).len() as int;
            &&& m <= file_name.len()
            &&& exists|n: nat|
                file_name =~= file_name.subrange(0, m) + #[trigger] repeated(model_suffix(), n)
            &&& !ends_with(file_name.subrange(0, m), model_suffix())
            &&& forall|i: int|
                0 <= i < m ==> #[trigger] display_name(file_name)[i] == if file_name[i] == '-'
                    || file_name[i] == '_' {
                    ' '
                } else {
                    file_name[i]
                }
        }),
{
    let sfx = seq!['.', 'g', 'g', 'u', 'f'];
    assert(model_suffix() =~= sfx);
    lemma_strip_all_suffix_shape(file_name, sfx);
    let t = strip_all_suffix(file_name, sfx);
    let n = choose|n: nat| file_name =~= t + #[trigger] repeated(sfx, n);
    let m = t.len() as int;
    assert(file_name.subrange(0, m) =~= t);
    assert forall|i: int| 0 <= i < m implies #[trigger] display_name(file_name)[i] == if file_name[i]
        == '-' || file_name[i] == '_' {
        ' '
    } else {
        file_name[i]
    } by {
        assert(file_name[i] == t[i]);
    }
}


/// The positions of the entries that are listed as models.
pub open spec fn listed_positions(entries: Seq<DirEntryFactsView>) -> Seq<int>
    decreases entries.len(),
{
    if entries.len() == 0 {
        Seq::empty()
    } else if is_listed(entries.last()) {
        listed_positions(entries.drop_last()).push(entries.len() - 1)
    } else {
        listed_positions(entries.drop_last())
    }
}

/// `idx` picks, in increasing order, exactly the entries that are model
/// files with readable metadata, and the `k`-th model reports the `k`-th
/// picked entry.
pub open spec fn lists_in_order(
    models: Seq<ModelInfoView>,
    entries: Seq<DirEntryFactsView>,
    idx: Seq<int>,
) -> bool {
    &&& idx.len() == models.len()
    &&& forall|k: int|
        0 <= k < idx.len() ==> 0 <= #[trigger] idx[k] < entries.len() && is_model_file_name(
            entries[idx[k]].file_name,
        ) && describes(models[k], entries[idx[k]])
    &&& forall|k: int, l: int| 0 <= k < l < idx.len() ==> #[trigger] idx[k] < #[trigger] idx[l]
    &&& forall|i: int|
        0 <= i < entries.len() && is_model_file_name(entries[i].file_name) && (#[trigger] entries[i]).size_bytes
            is Some ==> exists|k: int| 0 <= k < idx.len() && idx[k] == i
}

/// The models are listed in the order of the directory entries, one for
/// each entry that is a model file with readable metadata and none for any
/// other, each reporting its entry unaltered.
pub proof fn lemma_models_listed_in_order(entries: Seq<DirEntryFactsView>)
    ensures
        exists|idx: Seq<int>| lists_in_order(models_of(entries), entries, idx),
    decreases entries.len(),
{
    lemma_listed_positions(entries);
    assert(lists_in_order(models_of(entries), entries, listed_positions(entries)));
}

proof fn lemma_listed_positions(entries: Seq<DirEntryFactsView>)
    ensures
        lists_in_order(models_of(entries), entries, listed_positions(entries)),
    decreases entries.len(),
{
    if entries.len() > 0 {
        let init = entries.drop_last();
        lemma_listed_positions(init);
        let idx0 = listed_positions(init);
        let idx = listed_positions(entries);
        let out = models_of(entries);
        let prev = models_of(init);
        let n = entries.len() - 1;
        assert forall|k: int| 0 <= k < idx0.len() implies idx[k] == idx0[k] && out[k] == prev[k]
            && entries[idx0[k]] == init[idx0[k]] && idx0[k] < n by {}
        if is_listed(entries.last()) {
            assert(idx[idx0.len() as int] == n);
            assert(out[prev.len() as int] == info_of(entries.last()));
        }
        assert forall|k: int|
            0 <= k < idx.len() implies 0 <= #[trigger] idx[k] < entries.len() && is_model_file_name(
            entries[idx[k]].file_name,
        ) && describes(out[k], entries[idx[k]]) by {
            if k < idx0.len() {
                assert(idx[k] == idx0[k]);
            }
        }
        assert forall|k: int, l: int| 0 <= k < l < idx.len() implies #[trigger] idx[k]
            < #[trigger] idx[l] by {
            if l < idx0.len() {
                assert(idx[k] == idx0[k] && idx[l] == idx0[l]);
            } else {
                assert(idx[k] == idx0[k]);
            }
        }
        assert forall|i: int|
            0 <= i < entries.len() && is_model_file_name(entries[i].file_name) && (#[trigger] entries[i]).size_bytes
                is Some implies exists|k: int| 0 <= k < idx.len() && idx[k] == i by {
            if i < n {
                assert(init[i] == entries[i]);
                let k = choose|k: int| 0 <= k < idx0.len() && idx0[k] == i;
                assert(idx[k] == idx0[k]);
            } else {
                assert(entries[i] == entries.last());
                assert(idx[idx0.len() as int] == n);
            }
        }
    }
}

} // verus!
