//! Small verified helpers over strings, stated on their `Seq<char>` views.

use vstd::prelude::*;
use vstd::string::*;

verus! {

/// The views of a sequence of owned strings, in order.
pub open spec fn texts(v: Seq<String>) -> Seq<Seq<char>> {
    Seq::new(v.len(), |i: int| v[i]@)
}

/// `suffix` is what `s` ends with.
pub open spec fn is_suffix(suffix: Seq<char>, s: Seq<char>) -> bool {
    suffix.len() <= s.len() && s.skip(s.len() - suffix.len()) == suffix
}

/// Length of the run of characters at the front of `s` that holds no `sep`.
pub open spec fn run_len(s: Seq<char>, sep: char) -> nat
    decreases s.len(),
{
    if s.len() == 0 || s[0] == sep {
        0
    } else {
        1 + run_len(s.drop_first(), sep)
    }
}

/// The pieces of `s` between occurrences of `sep`, in order, with the empty
/// pieces left out.
pub open spec fn split_nonempty_spec(s: Seq<char>, sep: char) -> Seq<Seq<char>>
    decreases s.len(),
{
    if s.len() == 0 {
        Seq::empty()
    } else {
        let k = run_len(s, sep) as int;
        let head = if k > 0 {
            seq![s.take(k)]
        } else {
            Seq::empty()
        };
        if k < s.len() {
            head + split_nonempty_spec(s.skip(k + 1), sep)
        } else {
            head
        }
    }
}

/// `run_len` is the first position that holds `sep`, or the length where
/// there is none.
pub proof fn lemma_run_len(s: Seq<char>, sep: char, k: int)
    requires
        0 <= k <= s.len(),
        forall|j: int| 0 <= j < k ==> s[j] != sep,
        k < s.len() ==> s[k] == sep,
    ensures
        run_len(s, sep) == k,
    decreases s.len(),
{
    if k > 0 {
        let t = s.drop_first();
        assert forall|j: int| 0 <= j < k - 1 implies t[j] != sep by {
            assert(t[j] == s[j + 1]);
        }
        lemma_run_len(t, sep, k - 1);
    }
}

/// Every piece of a split is non-empty and holds no separator.
pub proof fn lemma_split_pieces(s: Seq<char>, sep: char)
    ensures
        forall|i: int|
            0 <= i < split_nonempty_spec(s, sep).len() ==> {
                &&& (#[trigger] split_nonempty_spec(s, sep)[i]).len() > 0
                &&& !split_nonempty_spec(s, sep)[i].contains(sep)
            },
    decreases s.len(),
{
    if s.len() > 0 {
        let k = run_len(s, sep) as int;
        let whole = split_nonempty_spec(s, sep);
        lemma_run_bounds(s, sep);
        if k < s.len() {
            lemma_split_pieces(s.skip(k + 1), sep);
        }
        assert forall|i: int| 0 <= i < whole.len() implies {
            &&& (#[trigger] whole[i]).len() > 0
            &&& !whole[i].contains(sep)
        } by {
            if k > 0 && i == 0 {
                assert(whole[0] == s.take(k));
            } else if k > 0 {
                assert(whole[i] == split_nonempty_spec(s.skip(k + 1), sep)[i - 1]);
            } else {
                assert(whole[i] == split_nonempty_spec(s.skip(k + 1), sep)[i]);
            }
        }
    }
}

/// The run at the front of `s` ends within `s`, holds no separator, and is
/// followed by one unless it reaches the end.
pub proof fn lemma_run_bounds(s: Seq<char>, sep: char)
    ensures
        run_len(s, sep) <= s.len(),
        !s.take(run_len(s, sep) as int).contains(sep),
        run_len(s, sep) < s.len() ==> s[run_len(s, sep) as int] == sep,
    decreases s.len(),
{
    if s.len() == 0 || s[0] == sep {
    } else {
        let t = s.drop_first();
        lemma_run_bounds(t, sep);
        let k = run_len(s, sep) as int;
        assert forall|j: int| 0 <= j < k implies s.take(k)[j] != sep by {
            if j > 0 {
                assert(t.take(k - 1)[j - 1] == s[j]);
                assert(t.take(k - 1).contains(s[j]));
            }
        }
    }
}

/// The upper-case form of a text, as `str::to_uppercase` of the standard
/// library gives it. It is a function of the text alone.
pub uninterp spec fn uppercase(text: Seq<char>) -> Seq<char>;

/// Calls `str::to_uppercase`. Nothing is proved of the call: the contract
/// only names its result, the upper-case form of `s`.
#[verifier::external_body]
pub(crate) fn to_uppercase(s: &str) -> (upper: String)
    ensures
        upper@ == uppercase(s@),
{
    s.to_uppercase()
}

/// The characters of `s`, in order.
pub fn chars_of(s: &str) -> (v: Vec<char>)
    ensures
        v@ == s@,
{
    let mut v: Vec<char> = Vec::new();
    for c in it: s.chars()
        invariant
            it.seq() == s@,
            v@ == s@.take(it.index() as int),
    {
        v.push(c);
    }
    v
}

/// Whether two sequences of characters are the same.
pub fn chars_eq(a: &Vec<char>, b: &Vec<char>) -> (same: bool)
    ensures
        same == (a@ == b@),
{
    if a.len() != b.len() {
        return false;
    }
    let mut i: usize = 0;
    while i < a.len()
        invariant
            i <= a.len(),
            a.len() == b.len(),
            forall|j: int| 0 <= j < i ==> a[j] == b[j],
        decreases a.len() - i,
    {
        if a[i] != b[i] {
            return false;
        }
        i += 1;
    }
    assert(a@ =~= b@);
    true
}

/// Whether two strings hold the same text. The comparison is exact: case
/// and every character count.
pub fn str_eq(a: &str, b: &str) -> (same: bool)
    ensures
        same == (a@ == b@),
{
    let x = chars_of(a);
    let y = chars_of(b);
    chars_eq(&x, &y)
}

/// Whether `s` ends with `suffix`.
pub fn ends_with(s: &Vec<char>, suffix: &Vec<char>) -> (yes: bool)
    ensures
        yes == is_suffix(suffix@, s@),
{
    if suffix.len() > s.len() {
        return false;
    }
    let off: usize = s.len() - suffix.len();
    let mut i: usize = 0;
    while i < suffix.len()
        invariant
            i <= suffix.len(),
            off + suffix.len() == s.len(),
            forall|j: int| 0 <= j < i ==> s[off + j] == suffix[j],
        decreases suffix.len() - i,
    {
        if s[off + i] != suffix[i] {
            assert(s@.skip(off as int)[i as int] != suffix@[i as int]);
            return false;
        }
        i += 1;
    }
    assert(s@.skip(off as int) =~= suffix@);
    true
}

/// Splits `s` at every `sep` and keeps the non-empty pieces, in order.
pub fn split_nonempty(s: &str, sep: char) -> (parts: Vec<String>)
    ensures
        texts(parts@) == split_nonempty_spec(s@, sep),
{
    let chars = chars_of(s);
    let n: usize = chars.len();
    let mut parts: Vec<String> = Vec::new();
    let mut start: usize = 0;
    let mut i: usize = 0;
    assert(s@.skip(0) =~= s@);
    assert(texts(parts@) =~= Seq::<Seq<char>>::empty());
    while i < n
        invariant
            start <= i <= n,
            n == chars.len(),
            chars@ == s@,
            forall|j: int| start <= j < i ==> chars[j] != sep,
            texts(parts@) + split_nonempty_spec(s@.skip(start as int), sep)
                == split_nonempty_spec(s@, sep),
        decreases n - i,
    {
        if chars[i] == sep {
            let ghost rest = s@.skip(start as int);
            let ghost before = texts(parts@);
            proof {
                lemma_run_len(rest, sep, i - start);
                assert(rest.skip(i - start + 1) =~= s@.skip(i + 1));
                assert(rest.take(i - start) =~= s@.subrange(start as int, i as int));
            }
            if start < i {
                let piece = s.substring_char(start, i);
                parts.push(piece.to_owned());
                assert(texts(parts@) =~= before + seq![s@.subrange(start as int, i as int)]);
            }
            assert(texts(parts@) + split_nonempty_spec(s@.skip(i + 1), sep) =~= before
                + split_nonempty_spec(rest, sep));
            start = i + 1;
        }
        i += 1;
    }
    let ghost rest = s@.skip(start as int);
    let ghost before = texts(parts@);
    proof {
        lemma_run_len(rest, sep, n - start);
        assert(rest.take(n - start) =~= s@.subrange(start as int, n as int));
    }
    if start < n {
        let piece = s.substring_char(start, n);
        parts.push(piece.to_owned());
        assert(texts(parts@) =~= before + seq![s@.subrange(start as int, n as int)]);
    }
    assert(texts(parts@) =~= before + split_nonempty_spec(rest, sep));
    parts
}

/// `s` followed by `tail`, as a new string.
pub fn appended(s: &str, tail: &str) -> (joined: String)
    ensures
        joined@ == s@ + tail@,
{
    let mut joined = s.to_owned();
    joined.append(tail);
    joined
}

} // verus!
