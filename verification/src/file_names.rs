//! File-name rules: which files are models, and the name a download is
//! written under before it is complete.
use vstd::prelude::*;
use vstd::string::*;
use crate::text::{ends_with, ends_with_text};

verus! {

/// The file-name suffix of a GGUF model, `.gguf`.
pub open spec fn model_suffix() -> Seq<char> {
    seq!['.', 'g', 'g', 'u', 'f']
}

/// The extension given to a download in progress, `gguf.part`.
pub open spec fn partial_extension() -> Seq<char> {
    seq!['g', 'g', 'u', 'f', '.', 'p', 'a', 'r', 't']
}

/// A file name whose extension, in the sense of `Path::extension`, is `gguf`:
/// it ends with `.gguf` and something stands before that dot.
pub open spec fn is_model_file_name(name: Seq<char>) -> bool {
    name.len() > model_suffix().len() && ends_with(name, model_suffix())
}

/// The position of the last `.` in `name`, or -1 where there is none.
pub open spec fn last_dot(name: Seq<char>) -> int
    decreases name.len(),
{
    if name.len() == 0 {
        -1
    } else if name.last() == '.' {
        name.len() - 1
    } else {
        last_dot(name.drop_last())
    }
}

/// The stem of a file name as `Path::file_stem` splits it: everything before
/// the last `.`, unless that dot is the first character or there is none;
/// the name `..` is its own stem.
pub open spec fn file_stem(name: Seq<char>) -> Seq<char> {
    if name == seq!['.', '.'] {
        name
    } else if last_dot(name) > 0 {
        name.subrange(0, last_dot(name))
    } else {
        name
    }
}

/// The file name with its extension replaced by (or, without one, extended
/// by) the non-empty `ext`, as `Path::with_extension` does on a path whose
/// last component is this file name (so not `.` or `..`, which a path does
/// not have as its file name).
pub open spec fn with_extension(name: Seq<char>, ext: Seq<char>) -> Seq<char> {
    file_stem(name) + seq!['.'] + ext
}

proof fn lemma_last_dot_bounds(name: Seq<char>)
    ensures
        -1 <= last_dot(name) < name.len(),
        last_dot(name) >= 0 ==> name[last_dot(name)] == '.',
        forall|i: int| last_dot(name) < i < name.len() ==> name[i] != '.',
    decreases name.len(),
{
    if name.len() > 0 && name.last() != '.' {
        lemma_last_dot_bounds(name.drop_last());
        assert forall|i: int| last_dot(name) < i < name.len() implies name[i] != '.' by {
            if i < name.len() - 1 {
                assert(name[i] == name.drop_last()[i]);
            }
        }
    }
}

proof fn lemma_last_dot_unique(name: Seq<char>, k: int)
    requires
        0 <= k < name.len(),
        name[k] == '.',
        forall|i: int| k < i < name.len() ==> name[i] != '.',
    ensures
        last_dot(name) == k,
    decreases name.len(),
{
    if k < name.len() - 1 {
        let shorter = name.drop_last();
        assert forall|i: int| k < i < shorter.len() implies shorter[i] != '.' by {
            assert(shorter[i] == name[i]);
        }
        lemma_last_dot_unique(shorter, k);
    }
}

/// Whether `name` is the file name of a model (its extension is `gguf`).
pub fn is_model_file(name: &str) -> (r: bool)
    ensures
        r == is_model_file_name(name@),
{
    let suffix = ".gguf";
    proof {
        reveal_strlit(".gguf");
        assert(suffix@ =~= model_suffix());
    }
    name.unicode_len() > 5 && ends_with_text(name, suffix)
}

fn last_dot_index(name: &str, n: usize) -> (r: Option<usize>)
    requires
        n == name@.len(),
    ensures
        r matches Some(k) ==> k == last_dot(name@) && k < n,
        r is None ==> last_dot(name@) == -1,
{
    let mut i: usize = n;
    while i > 0
        invariant
            n == name@.len(),
            i <= n,
            forall|j: int| i <= j < n ==> name@[j] != '.',
        decreases i,
    {
        if name.get_char(i - 1) == '.' {
            proof {
                lemma_last_dot_unique(name@, i - 1);
            }
            return Some(i - 1);
        }
        i = i - 1;
    }
    proof {
        lemma_last_dot_bounds(name@);
    }
    None
}

/// The name under which a download of `file_name` is written until it is
/// complete: the file name with the extension `gguf.part`.
pub fn partial_download_name(file_name: &str) -> (r: String)
    ensures
        r@ == with_extension(file_name@, partial_extension()),
{
    let n = file_name.unicode_len();
    let parent = n == 2 && file_name.get_char(0) == '.' && file_name.get_char(1) == '.';
    proof {
        if n == 2 {
            if parent {
                assert(file_name@ =~= seq!['.', '.']);
            } else {
                assert(file_name@ != seq!['.', '.']) by {
                    if file_name@ == seq!['.', '.'] {
                        assert(file_name@[0] == '.' && file_name@[1] == '.');
                    }
                }
            }
        }
    }
    let stem_end = if parent {
        n
    } else {
        match last_dot_index(file_name, n) {
            Some(k) if k > 0 => k,
            _ => n,
        }
    };
    assert(file_name@.subrange(0, n as int) =~= file_name@);
    let mut out = file_name.substring_char(0, stem_end).to_owned();
    let ext = ".gguf.part";
    proof {
        reveal_strlit(".gguf.part");
        assert(ext@ =~= seq!['.'] + partial_extension());
    }
    out.append(ext);
    assert(out@ =~= with_extension(file_name@, partial_extension()));
    out
}

/// For a model file, the download in progress is written under the file
/// name followed by `.part`.
pub proof fn lemma_partial_name_of_model_file(name: Seq<char>)
    requires
        is_model_file_name(name),
    ensures
        with_extension(name, partial_extension()) =~= name + seq!['.', 'p', 'a', 'r', 't'],
{
    let k = name.len() - 5;
    let tail = name.subrange(k, name.len() as int);
    assert(tail == model_suffix());
    assert(name[k] == tail[0]);
    assert forall|i: int| k < i < name.len() implies name[i] != '.' by {
        assert(name[i] == tail[i - k]);
    }
    lemma_last_dot_unique(name, k);
    assert(name =~= name.subrange(0, k) + model_suffix());
}


/// A download in progress is never taken for a model: its name does not
/// have the `gguf` extension.
pub proof fn lemma_partial_name_is_not_a_model(name: Seq<char>)
    ensures
        !is_model_file_name(with_extension(name, partial_extension())),
{
    let w = with_extension(name, partial_extension());
    let k = w.len() - 5;
    assert(w[w.len() - 1] == 't');
    if is_model_file_name(w) {
        assert(w.subrange(k, w.len() as int)[4] == model_suffix()[4]);
    }
}


/// A model file name is one of more than five characters whose last five
/// are `.gguf`.
pub proof fn lemma_model_file_name_meaning(name: Seq<char>)
    ensures
        is_model_file_name(name) <==> (name.len() > 5 && name.subrange(
            name.len() - 5,
            name.len() as int,
        ) == seq!['.', 'g', 'g', 'u', 'f']),
{
}

/// The partial name of a file name without a dot, or whose only dot opens
/// it, is the name followed by `.gguf.part`; with a later dot, the part
/// after the last dot is replaced by `gguf.part`.
pub proof fn lemma_partial_name_cases(name: Seq<char>, k: int)
    ensures
        (forall|i: int| 0 < i < name.len() ==> name[i] != '.') && name != seq!['.', '.']
            ==> with_extension(name, partial_extension()) =~= name + seq![
            '.',
            'g',
            'g',
            'u',
            'f',
            '.',
            'p',
            'a',
            'r',
            't',
        ],
        0 < k < name.len() && name[k] == '.' && (forall|i: int| k < i < name.len() ==> name[i]
            != '.') && name != seq!['.', '.'] ==> with_extension(name, partial_extension())
            =~= name.subrange(0, k) + seq!['.', 'g', 'g', 'u', 'f', '.', 'p', 'a', 'r', 't'],
{
    lemma_last_dot_bounds(name);
    if 0 < k < name.len() && name[k] == '.' && (forall|i: int| k < i < name.len() ==> name[i]
        != '.') {
        lemma_last_dot_unique(name, k);
    }
}

} // verus!
