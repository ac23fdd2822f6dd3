//! Character-level text operations used for file names, URLs and messages.
use vstd::prelude::*;
use vstd::string::*;

verus! {

/// The character for a decimal digit.
pub open spec fn digit_char(d: nat) -> char {
    if d == 0 {
        '0'
    } else if d == 1 {
        '1'
    } else if d == 2 {
        '2'
    } else if d == 3 {
        '3'
    } else if d == 4 {
        '4'
    } else if d == 5 {
        '5'
    } else if d == 6 {
        '6'
    } else if d == 7 {
        '7'
    } else if d == 8 {
        '8'
    } else {
        '9'
    }
}

/// The decimal notation of `n`, without sign or leading zeros.
pub open spec fn decimal(n: nat) -> Seq<char>
    decreases n,
{
    if n < 10 {
        seq![digit_char(n)]
    } else {
        decimal(n / 10).push(digit_char(n % 10))
    }
}

fn digit_text(d: u64) -> (s: &'static str)
    requires
        d < 10,
    ensures
        s@ == seq![digit_char(d as nat)],
{
    if d == 0 {
        proof {
            reveal_strlit("0");
        }
        "0"
    } else if d == 1 {
        proof {
            reveal_strlit("1");
        }
        "1"
    } else if d == 2 {
        proof {
            reveal_strlit("2");
        }
        "2"
    } else if d == 3 {
        proof {
            reveal_strlit("3");
        }
        "3"
    } else if d == 4 {
        proof {
            reveal_strlit("4");
        }
        "4"
    } else if d == 5 {
        proof {
            reveal_strlit("5");
        }
        "5"
    } else if d == 6 {
        proof {
            reveal_strlit("6");
        }
        "6"
    } else if d == 7 {
        proof {
            reveal_strlit("7");
        }
        "7"
    } else if d == 8 {
        proof {
            reveal_strlit("8");
        }
        "8"
    } else {
        proof {
            reveal_strlit("9");
        }
        "9"
    }
}

/// Appends the decimal notation of `n` to `out`.
pub fn push_decimal(out: &mut String, n: u64)
    ensures
        final(out)@ == old(out)@ + decimal(n as nat),
    decreases n,
{
    if n >= 10 {
        push_decimal(out, n / 10);
    }
    out.append(digit_text(n % 10));
}


/// `s` ends with `suffix`.
pub open spec fn ends_with(s: Seq<char>, suffix: Seq<char>) -> bool {
    suffix.len() <= s.len() && s.subrange(s.len() - suffix.len(), s.len() as int) == suffix
}

/// `s` holds `pat` at position `i`.
pub open spec fn occurs_at(s: Seq<char>, pat: Seq<char>, i: int) -> bool {
    0 <= i && i + pat.len() <= s.len() && s.subrange(i, i + pat.len()) == pat
}

/// `s` holds `pat` somewhere.
pub open spec fn contains_text(s: Seq<char>, pat: Seq<char>) -> bool {
    exists|i: int| occurs_at(s, pat, i)
}

/// Whether the characters of `s` from `start` on begin with `pat`.
pub fn matches_at(s: &str, s_len: usize, start: usize, pat: &str, pat_len: usize) -> (r: bool)
    requires
        s_len == s@.len(),
        pat_len == pat@.len(),
    ensures
        r == occurs_at(s@, pat@, start as int),
{
    if start > s_len || pat_len > s_len - start {
        return false;
    }
    let mut j: usize = 0;
    while j < pat_len
        invariant
            s_len == s@.len(),
            pat_len == pat@.len(),
            start + pat_len <= s_len,
            j <= pat_len,
            forall|k: int| 0 <= k < j ==> s@[start + k] == pat@[k],
        decreases pat_len - j,
    {
        if s.get_char(start + j) != pat.get_char(j) {
            assert(s@.subrange(start as int, start + pat_len)[j as int] != pat@[j as int]);
            return false;
        }
        j = j + 1;
    }
    assert(s@.subrange(start as int, start + pat_len) =~= pat@);
    true
}

/// Whether `s` ends with `suffix`.
pub fn ends_with_text(s: &str, suffix: &str) -> (r: bool)
    ensures
        r == ends_with(s@, suffix@),
{
    let n = s.unicode_len();
    let k = suffix.unicode_len();
    if k > n {
        return false;
    }
    matches_at(s, n, n - k, suffix, k)
}


/// `s` with every trailing repetition of `suffix` removed, as
/// `str::trim_end_matches` does for a non-empty pattern.
pub open spec fn strip_all_suffix(s: Seq<char>, suffix: Seq<char>) -> Seq<char>
    decreases s.len(),
{
    if suffix.len() > 0 && ends_with(s, suffix) {
        strip_all_suffix(s.subrange(0, s.len() - suffix.len()), suffix)
    } else {
        s
    }
}

/// Removes every trailing repetition of `suffix` from `s`.
pub fn trim_end_matches_text(s: &str, suffix: &str) -> (r: String)
    requires
        suffix@.len() > 0,
    ensures
        r@ == strip_all_suffix(s@, suffix@),
{
    let n = s.unicode_len();
    let k = suffix.unicode_len();
    let mut end: usize = n;
    assert(s@.subrange(0, n as int) =~= s@);
    while end >= k && matches_at(s, n, end - k, suffix, k)
        invariant
            n == s@.len(),
            k == suffix@.len(),
            k > 0,
            end <= n,
            strip_all_suffix(s@, suffix@) == strip_all_suffix(s@.subrange(0, end as int), suffix@),
        decreases end,
    {
        let ghost prefix = s@.subrange(0, end as int);
        assert(prefix.subrange(prefix.len() - k, prefix.len() as int) =~= s@.subrange(
            end - k,
            end as int,
        ));
        assert(prefix.subrange(0, prefix.len() - k) =~= s@.subrange(0, end - k));
        end = end - k;
    }
    proof {
        let prefix = s@.subrange(0, end as int);
        if end >= k {
            assert(prefix.subrange(prefix.len() - k, prefix.len() as int) =~= s@.subrange(
                end - k,
                end as int,
            ));
        }
    }
    s.substring_char(0, end).to_owned()
}

/// `s` with each non-overlapping occurrence of `pat`, found from left to
/// right, replaced by `rep`, as `str::replace` does for a non-empty pattern.
pub open spec fn replace_all(s: Seq<char>, pat: Seq<char>, rep: Seq<char>) -> Seq<char>
    decreases s.len(),
{
    if pat.len() == 0 || s.len() < pat.len() {
        s
    } else if s.subrange(0, pat.len() as int) == pat {
        rep + replace_all(s.subrange(pat.len() as int, s.len() as int), pat, rep)
    } else {
        seq![s[0]] + replace_all(s.subrange(1, s.len() as int), pat, rep)
    }
}

/// Replaces each non-overlapping occurrence of `pat` in `s` by `rep`.
pub fn replace_text(s: &str, pat: &str, rep: &str) -> (r: String)
    requires
        pat@.len() > 0,
    ensures
        r@ == replace_all(s@, pat@, rep@),
{
    let n = s.unicode_len();
    let k = pat.unicode_len();
    let mut out = String::new();
    let mut i: usize = 0;
    assert(s@.subrange(0, n as int) =~= s@);
    while i < n
        invariant
            n == s@.len(),
            k == pat@.len(),
            k > 0,
            i <= n,
            out@ + replace_all(s@.subrange(i as int, n as int), pat@, rep@) == replace_all(
                s@,
                pat@,
                rep@,
            ),
        decreases n - i,
    {
        let ghost rest = s@.subrange(i as int, n as int);
        if matches_at(s, n, i, pat, k) {
            assert(rest.subrange(0, k as int) =~= s@.subrange(i as int, i + k));
            assert(rest.subrange(k as int, rest.len() as int) =~= s@.subrange(i + k, n as int));
            let ghost before = out@;
            out.append(rep);
            i = i + k;
            assert(out@ + replace_all(s@.subrange(i as int, n as int), pat@, rep@) =~= before + (
            rep@ + replace_all(s@.subrange(i as int, n as int), pat@, rep@)));
        } else {
            let one = s.substring_char(i, i + 1);
            assert(rest.subrange(1, rest.len() as int) =~= s@.subrange(i + 1, n as int));
            assert(one@ =~= seq![rest[0]]);
            proof {
                if rest.len() >= k {
                    assert(rest.subrange(0, k as int) =~= s@.subrange(i as int, i + k));
                } else {
                    assert(rest =~= seq![rest[0]] + s@.subrange(i + 1, n as int));
                }
            }
            let ghost before = out@;
            out.append(one);
            i = i + 1;
            assert(out@ + replace_all(s@.subrange(i as int, n as int), pat@, rep@) =~= before + (
            seq![rest[0]] + replace_all(s@.subrange(i as int, n as int), pat@, rep@)));
        }
    }
    out
}


/// Replacing a pattern that does not occur leaves the text as it is.
pub proof fn lemma_replace_absent(s: Seq<char>, pat: Seq<char>, rep: Seq<char>)
    requires
        !contains_text(s, pat),
    ensures
        replace_all(s, pat, rep) == s,
    decreases s.len(),
{
    if pat.len() > 0 && s.len() >= pat.len() {
        assert(!occurs_at(s, pat, 0));
        let rest = s.subrange(1, s.len() as int);
        assert forall|i: int| !occurs_at(rest, pat, i) by {
            if occurs_at(rest, pat, i) {
                assert(s.subrange(i + 1, i + 1 + pat.len()) =~= rest.subrange(i, i + pat.len()));
                assert(occurs_at(s, pat, i + 1));
            }
        }
        lemma_replace_absent(rest, pat, rep);
        assert(s =~= seq![s[0]] + rest);
    }
}

/// Replacing a pattern by a text of the same length keeps the length.
pub proof fn lemma_replace_keeps_length(s: Seq<char>, pat: Seq<char>, rep: Seq<char>)
    requires
        pat.len() == rep.len(),
    ensures
        replace_all(s, pat, rep).len() == s.len(),
    decreases s.len(),
{
    if pat.len() > 0 && s.len() >= pat.len() {
        if s.subrange(0, pat.len() as int) == pat {
            lemma_replace_keeps_length(s.subrange(pat.len() as int, s.len() as int), pat, rep);
        } else {
            lemma_replace_keeps_length(s.subrange(1, s.len() as int), pat, rep);
        }
    }
}


/// After every trailing repetition of a non-empty suffix is removed, the
/// text no longer ends with it.
pub proof fn lemma_strip_all_suffix_done(s: Seq<char>, suffix: Seq<char>)
    requires
        suffix.len() > 0,
    ensures
        !ends_with(strip_all_suffix(s, suffix), suffix),
        strip_all_suffix(s, suffix).len() <= s.len(),
    decreases s.len(),
{
    if ends_with(s, suffix) {
        lemma_strip_all_suffix_done(s.subrange(0, s.len() - suffix.len()), suffix);
    }
}


/// The number that a sequence of decimal digit characters denotes.
pub open spec fn digits_value(s: Seq<char>) -> int
    decreases s.len(),
{
    if s.len() == 0 {
        0
    } else {
        digits_value(s.drop_last()) * 10 + (s.last() as int - '0' as int)
    }
}

/// The decimal notation of `n` consists of digit characters, denotes `n`,
/// and starts with `0` only when it is `0` itself.
pub proof fn lemma_decimal_denotes(n: nat)
    ensures
        digits_value(decimal(n)) == n,
        forall|i: int| 0 <= i < decimal(n).len() ==> '0' <= #[trigger] decimal(n)[i] <= '9',
        decimal(n).len() >= 1,
        decimal(n).len() > 1 ==> decimal(n)[0] != '0',
    decreases n,
{
    let d = n % 10;
    assert(digit_char(d) as int - '0' as int == d);
    if n >= 10 {
        lemma_decimal_denotes(n / 10);
        let prev = decimal(n / 10);
        let full = decimal(n);
        assert(full == prev.push(digit_char(d)));
        assert(full.drop_last() =~= prev);
        assert(full.last() == digit_char(d));
        assert(digits_value(full) == digits_value(prev) * 10 + d);
        assert((n / 10) * 10 + n % 10 == n);
        assert forall|i: int| 0 <= i < full.len() implies '0' <= #[trigger] full[i] <= '9' by {
            if i < prev.len() {
                assert(full[i] == prev[i]);
            }
        }
        assert(full[0] == prev[0]);
        let q = n / 10;
        if q < 10 {
            assert(prev[0] == digit_char(q));
        } else {
            lemma_decimal_denotes(q / 10);
            assert(prev.len() == decimal(q / 10).len() + 1);
        }
    } else {
        let full = decimal(n);
        assert(full.drop_last() =~= Seq::<char>::empty());
        assert(digits_value(full) == digits_value(full.drop_last()) * 10 + d);
    }
}

/// Replacing a pattern whose first character occurs nowhere else in it by
/// a text that differs from it only in that first character rewrites
/// exactly the first character of each occurrence and keeps every other
/// character.
pub proof fn lemma_replace_marks_occurrences(s: Seq<char>, pat: Seq<char>, rep: Seq<char>)
    requires
        pat.len() > 0,
        rep.len() == pat.len(),
        forall|j: int| 0 < j < pat.len() ==> rep[j] == pat[j] && pat[j] != pat[0],
    ensures
        replace_all(s, pat, rep).len() == s.len(),
        forall|i: int|
            0 <= i < s.len() ==> #[trigger] replace_all(s, pat, rep)[i] == if occurs_at(s, pat, i) {
                rep[0]
            } else {
                s[i]
            },
    decreases s.len(),
{
    let k = pat.len() as int;
    let r = replace_all(s, pat, rep);
    if s.len() >= k {
        if s.subrange(0, k) == pat {
            let rest = s.subrange(k, s.len() as int);
            lemma_replace_marks_occurrences(rest, pat, rep);
            assert forall|i: int| 0 <= i < s.len() implies #[trigger] r[i] == if occurs_at(
                s,
                pat,
                i,
            ) {
                rep[0]
            } else {
                s[i]
            } by {
                if i == 0 {
                    assert(occurs_at(s, pat, 0));
                } else if i < k {
                    assert(s[i] == s.subrange(0, k)[i]);
                    if occurs_at(s, pat, i) {
                        assert(s[i] == s.subrange(i, i + k)[0]);
                    }
                } else {
                    assert(r[i] == replace_all(rest, pat, rep)[i - k]);
                    assert(rest[i - k] == s[i]);
                    if occurs_at(s, pat, i) {
                        assert(rest.subrange(i - k, i - k + pat.len()) =~= s.subrange(i, i + k));
                    }
                    if occurs_at(rest, pat, i - k) {
                        assert(rest.subrange(i - k, i - k + pat.len()) =~= s.subrange(i, i + k));
                    }
                }
            }
        } else {
            let rest = s.subrange(1, s.len() as int);
            lemma_replace_marks_occurrences(rest, pat, rep);
            assert forall|i: int| 0 <= i < s.len() implies #[trigger] r[i] == if occurs_at(
                s,
                pat,
                i,
            ) {
                rep[0]
            } else {
                s[i]
            } by {
                if i == 0 {
                    assert(!occurs_at(s, pat, 0));
                } else {
                    assert(r[i] == replace_all(rest, pat, rep)[i - 1]);
                    assert(rest[i - 1] == s[i]);
                    if occurs_at(s, pat, i) {
                        assert(rest.subrange(i - 1, i - 1 + k) =~= s.subrange(i, i + k));
                    }
                    if occurs_at(rest, pat, i - 1) {
                        assert(rest.subrange(i - 1, i - 1 + k) =~= s.subrange(i, i + k));
                    }
                }
            }
        }
    }
}

/// `n` copies of `s`, one after the other.
pub open spec fn repeated(s: Seq<char>, n: nat) -> Seq<char>
    decreases n,
{
    if n == 0 {
        Seq::empty()
    } else {
        repeated(s, (n - 1) as nat) + s
    }
}

/// Removing every trailing repetition of a suffix leaves a prefix of the
/// text that does not end with the suffix, followed in the text by whole
/// copies of the suffix only.
pub proof fn lemma_strip_all_suffix_shape(s: Seq<char>, suffix: Seq<char>)
    requires
        suffix.len() > 0,
    ensures
        exists|n: nat|
            s =~= strip_all_suffix(s, suffix) + #[trigger] repeated(suffix, n),
        !ends_with(strip_all_suffix(s, suffix), suffix),
    decreases s.len(),
{
    lemma_strip_all_suffix_done(s, suffix);
    let t = strip_all_suffix(s, suffix);
    if ends_with(s, suffix) {
        let shorter = s.subrange(0, s.len() - suffix.len());
        lemma_strip_all_suffix_shape(shorter, suffix);
        let n = choose|n: nat| shorter =~= t + #[trigger] repeated(suffix, n);
        assert(repeated(suffix, n + 1) == repeated(suffix, n) + suffix);
        assert(s =~= shorter + suffix);
        assert(s =~= t + repeated(suffix, n + 1));
    } else {
        assert(s =~= t + repeated(suffix, 0));
    }
}


/// A text ends with a suffix exactly when it is at least as long and its
/// last characters are those of the suffix, one for one.
pub proof fn lemma_ends_with_meaning(s: Seq<char>, suffix: Seq<char>)
    ensures
        ends_with(s, suffix) <==> (suffix.len() <= s.len() && forall|i: int|
            0 <= i < suffix.len() ==> s[s.len() - suffix.len() + i] == #[trigger] suffix[i]),
{
    if suffix.len() <= s.len() && forall|i: int|
        0 <= i < suffix.len() ==> s[s.len() - suffix.len() + i] == #[trigger] suffix[i] {
        assert(s.subrange(s.len() - suffix.len(), s.len() as int) =~= suffix);
    }
    if ends_with(s, suffix) {
        assert forall|i: int| 0 <= i < suffix.len() implies s[s.len() - suffix.len() + i]
            == #[trigger] suffix[i] by {
            assert(s.subrange(s.len() - suffix.len(), s.len() as int)[i] == suffix[i]);
        }
    }
}

} // verus!
