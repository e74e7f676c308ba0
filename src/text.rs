//! Character-level reading of text: substrings, suffixes, lines and words.
use vstd::prelude::*;
use vstd::std_specs::iter::IteratorSpec;

verus! {

broadcast use vstd::string::group_string_axioms;

/// `needle` occurs in `hay` as a run of consecutive characters.
pub open spec fn occurs_in(hay: Seq<char>, needle: Seq<char>) -> bool {
    exists|i: int| 0 <= i && i + needle.len() <= hay.len() && #[trigger] hay.subrange(i, i + needle.len()) == needle
}

/// The characters of `s`, in order.
pub fn chars_of(s: &str) -> (r: Vec<char>)
    ensures
        r@ == s@,
{
    let mut r: Vec<char> = Vec::new();
    let mut it = s.chars();
    loop
        invariant
            r@ + it.remaining() == s@,
            it.decrease() is Some,
        ensures
            r@ == s@,
        decreases it.decrease()->0,
    {
        let ghost before = it.remaining();
        match it.next() {
            Some(c) => {
                r.push(c);
                assert(before =~= seq![c] + it.remaining());
                assert(r@ + it.remaining() =~= s@);
            },
            None => {
                assert(r@ =~= s@);
                break;
            },
        }
    }
    r
}

fn occurs_at(hay: &Vec<char>, needle: &Vec<char>, i: usize) -> (r: bool)
    requires
        i + needle@.len() <= hay@.len(),
    ensures
        r == (hay@.subrange(i as int, i + needle@.len()) == needle@),
{
    let hay_len: usize = hay.len();
    let mut j: usize = 0;
    while j < needle.len()
        invariant
            i + needle@.len() <= hay@.len(),
            hay_len == hay@.len(),
            j <= needle@.len(),
            hay@.subrange(i as int, i + j) == needle@.subrange(0, j as int),
        decreases needle@.len() - j,
    {
        let k: usize = i + j;
        if hay[k] != needle[j] {
            assert(hay@.subrange(i as int, i + needle@.len())[j as int] != needle@[j as int]);
            return false;
        }
        assert(hay@.subrange(i as int, i + j + 1) =~= hay@.subrange(i as int, i + j).push(hay@[i + j]));
        assert(needle@.subrange(0, j + 1) =~= needle@.subrange(0, j as int).push(needle@[j as int]));
        j = j + 1;
    }
    assert(needle@.subrange(0, needle@.len() as int) =~= needle@);
    true
}

/// Whether `needle` occurs in `hay`.
pub fn mentions(hay: &str, needle: &str) -> (r: bool)
    ensures
        r == occurs_in(hay@, needle@),
{
    let h = chars_of(hay);
    let n = chars_of(needle);
    if n.len() > h.len() {
        return false;
    }
    let mut i: usize = 0;
    let last: usize = h.len() - n.len();
    loop
        invariant
            last == h@.len() - n@.len(),
            h@ == hay@,
            n@ == needle@,
            n@.len() <= h@.len(),
            i <= last,
            forall|k: int| 0 <= k < i ==> #[trigger] h@.subrange(k, k + n@.len()) != n@,
        decreases last - i,
    {
        if occurs_at(&h, &n, i) {
            return true;
        }
        if i == last {
            return false;
        }
        i = i + 1;
    }
}

/// `s` ends with `suffix`.
pub open spec fn ends_with(s: Seq<char>, suffix: Seq<char>) -> bool {
    suffix.len() <= s.len() && s.subrange(s.len() - suffix.len(), s.len() as int) == suffix
}

/// Whether `s` ends with `suffix`.
pub fn ends_with_str(s: &str, suffix: &str) -> (r: bool)
    ensures
        r == ends_with(s@, suffix@),
{
    let h = chars_of(s);
    let n = chars_of(suffix);
    if n.len() > h.len() {
        return false;
    }
    occurs_at(&h, &n, h.len() - n.len())
}

/// Whitespace as Rust's `char::is_whitespace` has it: the characters of
/// Unicode's `White_Space` property.
pub open spec fn is_space(c: char) -> bool {
    let u = c as u32;
    (0x09 <= u <= 0x0D) || u == 0x20 || u == 0x85 || u == 0xA0 || u == 0x1680 || (0x2000 <= u
        <= 0x200A) || u == 0x2028 || u == 0x2029 || u == 0x202F || u == 0x205F || u == 0x3000
}

/// Whether `c` is whitespace.
pub fn is_whitespace(c: char) -> (r: bool)
    ensures
        r == is_space(c),
{
    let u = c as u32;
    (0x09 <= u && u <= 0x0D) || u == 0x20 || u == 0x85 || u == 0xA0 || u == 0x1680 || (0x2000 <= u
        && u <= 0x200A) || u == 0x2028 || u == 0x2029 || u == 0x202F || u == 0x205F || u == 0x3000
}

/// The pieces of `s` between newlines: one more than there are newlines.
pub open spec fn split_lines(s: Seq<char>) -> Seq<Seq<char>>
    decreases s.len(),
{
    if s.len() == 0 {
        seq![seq![]]
    } else if s.last() == '\n' {
        split_lines(s.drop_last()).push(seq![])
    } else {
        let p = split_lines(s.drop_last());
        p.update(p.len() - 1, p.last().push(s.last()))
    }
}

/// The words of `s`: its maximal runs of characters that are not whitespace.
pub open spec fn words(s: Seq<char>) -> Seq<Seq<char>>
    decreases s.len(),
{
    if s.len() == 0 {
        seq![]
    } else if is_space(s.last()) {
        words(s.drop_last())
    } else if s.len() >= 2 && !is_space(s[s.len() - 2]) {
        let p = words(s.drop_last());
        p.update(p.len() - 1, p.last().push(s.last()))
    } else {
        words(s.drop_last()).push(seq![s.last()])
    }
}

pub(crate) proof fn lemma_split_lines_nonempty(s: Seq<char>)
    ensures
        split_lines(s).len() >= 1,
    decreases s.len(),
{
    if s.len() > 0 {
        lemma_split_lines_nonempty(s.drop_last());
    }
}

pub(crate) proof fn lemma_words_of_word_end(s: Seq<char>)
    requires
        s.len() >= 1,
        !is_space(s.last()),
    ensures
        words(s).len() >= 1,
    decreases s.len(),
{
    if s.len() >= 2 && !is_space(s[s.len() - 2]) {
        lemma_words_of_word_end(s.drop_last());
    }
}

} // verus!
