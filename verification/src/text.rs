//! Character-level helpers on strings: suffix tests and whitespace tokenising.

use vstd::prelude::*;
use vstd::std_specs::iter::IteratorSpec;

verus! {

broadcast use vstd::string::group_string_axioms;

/// `suffix` is the tail of `s`.
pub open spec fn is_suffix(suffix: Seq<char>, s: Seq<char>) -> bool {
    suffix.len() <= s.len() && s.subrange(s.len() - suffix.len(), s.len() as int) == suffix
}

/// Appending one character: `String::push` adds `c` at the end and changes nothing else.
pub assume_specification[ String::push ](s: &mut String, c: char)
    ensures
        final(s)@ == old(s)@.push(c),
;

/// The characters of `s`, in order.
pub fn chars_of(s: &str) -> (v: Vec<char>)
    ensures
        v@ == s@,
{
    let mut it = s.chars();
    let mut v: Vec<char> = Vec::new();
    loop
        invariant
            it.obeys_prophetic_iter_laws(),
            it.decrease() is Some,
            v@ + it.remaining() == s@,
        ensures
            v@ == s@,
        decreases it.decrease()->0,
    {
        let ghost before = it.remaining();
        match it.next() {
            Some(c) => {
                v.push(c);
                assert(v@ + it.remaining() =~= (v@.drop_last() + before));
            },
            None => {
                assert(v@ + it.remaining() =~= v@);
                break ;
            },
        }
    }
    v
}

/// Copies `v[from..to]` into a new string.
pub fn string_of(v: &Vec<char>, from: usize, to: usize) -> (s: String)
    requires
        from <= to <= v.len(),
    ensures
        s@ == v@.subrange(from as int, to as int),
{
    let mut s = String::new();
    let mut i: usize = from;
    while i < to
        invariant
            from <= i <= to <= v.len(),
            s@ == v@.subrange(from as int, i as int),
        decreases to - i,
    {
        s.push(v[i]);
        i += 1;
        assert(s@ =~= v@.subrange(from as int, i as int));
    }
    s
}

/// Whether `a` and `b` hold the same characters.
pub fn same_text(a: &str, b: &str) -> (r: bool)
    ensures
        r == (a@ == b@),
{
    let x = chars_of(a);
    let y = chars_of(b);
    if x.len() != y.len() {
        return false;
    }
    let mut i: usize = 0;
    while i < x.len()
        invariant
            x@ == a@,
            y@ == b@,
            x.len() == y.len(),
            i <= x.len(),
            x@.take(i as int) == y@.take(i as int),
        decreases x.len() - i,
    {
        if x[i] != y[i] {
            assert(a@[i as int] != b@[i as int]);
            return false;
        }
        i += 1;
        assert(x@.take(i as int) =~= x@.take(i - 1).push(x@[i - 1]));
        assert(y@.take(i as int) =~= y@.take(i - 1).push(y@[i - 1]));
    }
    assert(x@ =~= x@.take(i as int));
    assert(y@ =~= y@.take(i as int));
    true
}

/// Whether `s` ends with `suffix`, character for character (case-sensitive, no patterns).
pub fn ends_with(s: &str, suffix: &str) -> (r: bool)
    ensures
        r == is_suffix(suffix@, s@),
{
    let x = chars_of(s);
    let y = chars_of(suffix);
    if y.len() > x.len() {
        return false;
    }
    let off: usize = x.len() - y.len();
    let mut i: usize = 0;
    while i < y.len()
        invariant
            x@ == s@,
            y@ == suffix@,
            off + y.len() == x.len(),
            i <= y.len(),
            x@.subrange(off as int, off + i) == y@.take(i as int),
        decreases y.len() - i,
    {
        if x[off + i] != y[i] {
            assert(s@.subrange(off as int, s@.len() as int)[i as int] == s@[off + i]);
            return false;
        }
        i += 1;
        assert(x@.subrange(off as int, off + i) =~= x@.subrange(off as int, off + i - 1).push(
            x@[off + i - 1],
        ));
        assert(y@.take(i as int) =~= y@.take(i - 1).push(y@[i - 1]));
    }
    assert(y@ =~= y@.take(i as int));
    true
}

/// The characters that separate the words of a command line: space, tab, line feed,
/// form feed and carriage return.
pub open spec fn is_space(c: char) -> bool {
    c == ' ' || c == '\t' || c == '\n' || c == '\x0c' || c == '\r'
}

/// Where the word that starts at `i` ends: the first position at or after `i` that
/// holds a separator, or the end of `s`.
pub open spec fn word_end(s: Seq<char>, i: int) -> int
    decreases s.len() - i,
{
    if 0 <= i < s.len() && !is_space(s[i]) {
        word_end(s, i + 1)
    } else {
        i
    }
}

/// The words of `s` from position `i` on: the maximal runs of characters that are not
/// separators, in order.
pub open spec fn words_from(s: Seq<char>, i: int) -> Seq<Seq<char>>
    decreases s.len() - i,
{
    if i < 0 || i >= s.len() {
        Seq::empty()
    } else if is_space(s[i]) {
        words_from(s, i + 1)
    } else {
        proof {
            lemma_word_end_bounds(s, i);
        }
        seq![s.subrange(i, word_end(s, i))] + words_from(s, word_end(s, i))
    }
}

/// The words of `s`.
pub open spec fn words(s: Seq<char>) -> Seq<Seq<char>> {
    words_from(s, 0)
}

/// The views of a vector of strings.
pub open spec fn texts(v: Seq<String>) -> Seq<Seq<char>> {
    v.map_values(|t: String| t@)
}

/// A word's end lies after its start and within the text.
pub proof fn lemma_word_end_bounds(s: Seq<char>, i: int)
    requires
        0 <= i <= s.len(),
    ensures
        i <= word_end(s, i) <= s.len(),
        i < s.len() && !is_space(s[i]) ==> i < word_end(s, i),
        forall|k: int| i <= k < word_end(s, i) ==> !is_space(#[trigger] s[k]),
        word_end(s, i) < s.len() ==> is_space(s[word_end(s, i)]),
    decreases s.len() - i,
{
    if i < s.len() && !is_space(s[i]) {
        lemma_word_end_bounds(s, i + 1);
    }
}

/// Every word is non-empty and holds no separator.
pub proof fn lemma_words_are_words(s: Seq<char>, i: int)
    requires
        0 <= i <= s.len(),
    ensures
        forall|k: int|
            0 <= k < words_from(s, i).len() ==> (#[trigger] words_from(s, i)[k]).len() > 0,
        forall|k: int, j: int|
            0 <= k < words_from(s, i).len() && 0 <= j < words_from(s, i)[k].len() ==> !is_space(
                #[trigger] words_from(s, i)[k][j],
            ),
    decreases s.len() - i,
{
    if i >= s.len() {
        assert(words_from(s, i).len() == 0);
    } else if is_space(s[i]) {
        lemma_words_are_words(s, i + 1);
        assert(words_from(s, i) == words_from(s, i + 1));
    } else {
        let e = word_end(s, i);
        lemma_word_end_bounds(s, i);
        lemma_words_are_words(s, e);
        let head = s.subrange(i, e);
        let rest = words_from(s, e);
        assert(words_from(s, i) =~= seq![head] + rest);
        assert forall|k: int| 0 <= k < words_from(s, i).len() implies (#[trigger] words_from(
            s,
            i,
        )[k]).len() > 0 by {
            if k > 0 {
                assert(words_from(s, i)[k] == rest[k - 1]);
            }
        }
        assert forall|k: int, j: int|
            0 <= k < words_from(s, i).len() && 0 <= j < words_from(s, i)[k].len() implies !is_space(
            #[trigger] words_from(s, i)[k][j],
        ) by {
            if k > 0 {
                assert(words_from(s, i)[k] == rest[k - 1]);
            } else {
                assert(head[j] == s[i + j]);
            }
        }
    }
}

/// Whether `c` separates words.
pub fn is_separator(c: char) -> (r: bool)
    ensures
        r == is_space(c),
{
    c == ' ' || c == '\t' || c == '\n' || c == '\x0c' || c == '\r'
}

/// Splits `s` into its words. No quoting and no escapes: every separator splits.
pub fn split_words(s: &str) -> (out: Vec<String>)
    ensures
        texts(out@) == words(s@),
{
    let cs = chars_of(s);
    let mut out: Vec<String> = Vec::new();
    let mut i: usize = 0;
    while i < cs.len()
        invariant
            cs@ == s@,
            i <= cs.len(),
            texts(out@) + words_from(cs@, i as int) == words(cs@),
        decreases cs.len() - i,
    {
        if is_separator(cs[i]) {
            i += 1;
        } else {
            let start: usize = i;
            while i < cs.len() && !is_separator(cs[i])
                invariant
                    start <= i <= cs.len(),
                    word_end(cs@, i as int) == word_end(cs@, start as int),
                decreases cs.len() - i,
            {
                i += 1;
            }
            let word = string_of(&cs, start, i);
            let ghost before = out@;
            out.push(word);
            assert(texts(out@) =~= texts(before) + seq![word@]);
            assert(texts(out@) + words_from(cs@, i as int) =~= texts(before) + (seq![word@]
                + words_from(cs@, i as int)));
        }
    }
    assert(texts(out@) + words_from(cs@, i as int) =~= texts(out@));
    out
}

/// Where the field that starts at `i` ends: the first position at or after `i` that
/// holds `sep`, or the end of `s`.
pub open spec fn field_end(s: Seq<char>, sep: char, i: int) -> int
    decreases s.len() - i,
{
    if 0 <= i < s.len() && s[i] != sep {
        field_end(s, sep, i + 1)
    } else {
        i
    }
}

/// The fields of `s` from position `i` on: what stands between one `sep` and the
/// next. A text without `sep` is one field; two in a row enclose an empty one.
pub open spec fn fields_from(s: Seq<char>, sep: char, i: int) -> Seq<Seq<char>>
    decreases s.len() - i,
{
    if i < 0 || i > s.len() {
        Seq::empty()
    } else if field_end(s, sep, i) >= s.len() {
        seq![s.subrange(i, s.len() as int)]
    } else {
        proof {
            lemma_field_end_bounds(s, sep, i);
        }
        seq![s.subrange(i, field_end(s, sep, i))] + fields_from(s, sep, field_end(s, sep, i) + 1)
    }
}

/// The fields of `s`.
pub open spec fn fields(s: Seq<char>, sep: char) -> Seq<Seq<char>> {
    fields_from(s, sep, 0)
}

/// A field's end lies at or after its start and within the text.
pub proof fn lemma_field_end_bounds(s: Seq<char>, sep: char, i: int)
    requires
        0 <= i <= s.len(),
    ensures
        i <= field_end(s, sep, i) <= s.len(),
        field_end(s, sep, i) < s.len() ==> s[field_end(s, sep, i)] == sep,
    decreases s.len() - i,
{
    if i < s.len() && s[i] != sep {
        lemma_field_end_bounds(s, sep, i + 1);
    }
}

/// Splits `s` at every `sep`.
pub fn split(s: &str, sep: char) -> (out: Vec<String>)
    ensures
        texts(out@) == fields(s@, sep),
        out@.len() > 0,
{
    let cs = chars_of(s);
    let mut out: Vec<String> = Vec::new();
    let mut start: usize = 0;
    let mut i: usize = 0;
    while i < cs.len()
        invariant
            cs@ == s@,
            start <= i <= cs.len(),
            field_end(cs@, sep, i as int) == field_end(cs@, sep, start as int),
            texts(out@) + fields_from(cs@, sep, start as int) == fields(cs@, sep),
        decreases cs.len() - i,
    {
        if cs[i] == sep {
            let field = string_of(&cs, start, i);
            let ghost before = out@;
            out.push(field);
            assert(texts(out@) =~= texts(before) + seq![field@]);
            assert(texts(out@) + fields_from(cs@, sep, i + 1) =~= texts(before) + (seq![field@]
                + fields_from(cs@, sep, i + 1)));
            start = i + 1;
        }
        i += 1;
    }
    let field = string_of(&cs, start, i);
    let ghost before = out@;
    out.push(field);
    assert(texts(out@) =~= texts(before) + seq![field@]);
    out
}

} // verus!
