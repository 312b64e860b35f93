//! White space in text: what counts as white space, the words between it,
//! and the collapsed and trimmed forms of a text.
use vstd::prelude::*;

verus! {

/// Whether `c` carries the Unicode `White_Space` property.
pub open spec fn is_white_space(c: char) -> bool {
    let n = c as u32;
    ||| 0x09 <= n <= 0x0D
    ||| n == 0x20
    ||| n == 0x85
    ||| n == 0xA0
    ||| n == 0x1680
    ||| 0x2000 <= n <= 0x200A
    ||| n == 0x2028
    ||| n == 0x2029
    ||| n == 0x202F
    ||| n == 0x205F
    ||| n == 0x3000
}

/// Decides [`is_white_space`].
pub fn white_space(c: char) -> (b: bool)
    ensures
        b == is_white_space(c),
{
    let n: u32 = c as u32;
    (0x09 <= n && n <= 0x0D) || n == 0x20 || n == 0x85 || n == 0xA0 || n == 0x1680 || (0x2000 <= n
        && n <= 0x200A) || n == 0x2028 || n == 0x2029 || n == 0x202F || n == 0x205F || n == 0x3000
}

/// The words of `s`: its maximal runs of characters that are not white space,
/// in order.
pub open spec fn split_words(s: Seq<char>) -> Seq<Seq<char>>
    decreases s.len(),
{
    if s.len() == 0 {
        Seq::empty()
    } else {
        let init = s.drop_last();
        let c = s.last();
        if is_white_space(c) {
            split_words(init)
        } else if init.len() > 0 && !is_white_space(init.last()) {
            let words = split_words(init);
            words.drop_last().push(words.last().push(c))
        } else {
            split_words(init).push(seq![c])
        }
    }
}

/// `s` with each run of white space replaced by one space.
pub open spec fn collapsed(s: Seq<char>) -> Seq<char>
    decreases s.len(),
{
    if s.len() == 0 {
        Seq::empty()
    } else {
        let init = s.drop_last();
        if !is_white_space(s.last()) {
            collapsed(init).push(s.last())
        } else if init.len() > 0 && is_white_space(init.last()) {
            collapsed(init)
        } else {
            collapsed(init).push(' ')
        }
    }
}

/// Whether the only white space in `s` is single spaces.
pub open spec fn is_collapsed(s: Seq<char>) -> bool {
    forall|i: int|
        0 <= i < s.len() && is_white_space(#[trigger] s[i]) ==> s[i] == ' ' && (i > 0
            ==> !is_white_space(s[i - 1]))
}

/// `s` without the white space at its two ends.
pub open spec fn trimmed(s: Seq<char>) -> Seq<char>
    decreases s.len(),
{
    if s.len() > 0 && is_white_space(s.first()) {
        trimmed(s.drop_first())
    } else if s.len() > 0 && is_white_space(s.last()) {
        trimmed(s.drop_last())
    } else {
        s
    }
}

/// `s` with each run of white space replaced by one space, and without the
/// space at its two ends.
pub open spec fn normalised(s: Seq<char>) -> Seq<char> {
    trimmed(collapsed(s))
}

/// The text of an optional string.
pub open spec fn text_of(s: Option<String>) -> Option<Seq<char>> {
    match s {
        Some(t) => Some(t@),
        None => None,
    }
}

/// Whether `s` holds nothing but white space.
pub open spec fn is_all_white_space(s: Seq<char>) -> bool {
    forall|i: int| 0 <= i < s.len() ==> is_white_space(#[trigger] s[i])
}

/// `String::push` appends the character to the string.
pub assume_specification[ std::string::String::push ](s: &mut std::string::String, c: char)
    ensures
        final(s)@ == old(s)@.push(c),
;

/// `regex::Regex::replace_all`, for the pattern `\\s+` and the replacement
/// `" "` only. The pattern matches each maximal run of characters with the
/// `White_Space` property, so the result is the text with every such run
/// replaced by one space. The pattern compiles, so nothing panics.
#[verifier::external_body]
fn replace_all(pattern: &str, text: &str, replacement: &str) -> (out: String)
    requires
        pattern@ == "\\s+"@,
        replacement@ == " "@,
    ensures
        out@ == collapsed(text@),
{
    regex::Regex::new(pattern).unwrap().replace_all(text, replacement).into_owned()
}

/// The characters of `s`, in order.
pub fn chars_of(s: &str) -> (v: Vec<char>)
    ensures
        v@ == s@,
{
    broadcast use vstd::string::group_string_axioms;

    let mut v: Vec<char> = Vec::new();
    for c in it: s.chars()
        invariant
            it.seq() == s@,
            v@ == s@.take(it.index()),
    {
        v.push(c);
    }
    assert(s@.take(s@.len() as int) == s@);
    v
}

/// The string made of the characters `v[from..to]`.
pub fn string_of_range(v: &Vec<char>, from: usize, to: usize) -> (s: String)
    requires
        from <= to <= v.len(),
    ensures
        s@ == v@.subrange(from as int, to as int),
{
    let mut s = String::new();
    let mut i: usize = from;
    while i < to
        invariant
            from <= i <= to <= v.len(),
            s@ == v@.subrange(from as int, i as int),
        decreases to - i,
    {
        s.push(v[i]);
        i += 1;
    }
    s
}

/// Replaces each run of white space in `text` by one space.
pub fn collapse_whitespace(text: &str) -> (out: String)
    ensures
        out@ == collapsed(text@),
{
    replace_all("\\s+", text, " ")
}

/// Removes the white space at the two ends of `text`.
pub fn trim(text: &str) -> (out: String)
    ensures
        out@ == trimmed(text@),
{
    let chars = chars_of(text);
    let mut start: usize = 0;
    assert(chars@.skip(0) == chars@);
    while start < chars.len() && white_space(chars[start])
        invariant
            start <= chars.len(),
            trimmed(chars@) == trimmed(chars@.skip(start as int)),
        decreases chars.len() - start,
    {
        assert(chars@.skip(start as int).drop_first() == chars@.skip(start + 1));
        start += 1;
    }
    let mut end: usize = chars.len();
    assert(chars@.skip(start as int) == chars@.subrange(start as int, end as int));
    while start < end && white_space(chars[end - 1])
        invariant
            start <= end <= chars.len(),
            start < chars.len() ==> !is_white_space(chars@[start as int]),
            trimmed(chars@) == trimmed(chars@.subrange(start as int, end as int)),
        decreases end - start,
    {
        assert(chars@.subrange(start as int, end as int).drop_last() == chars@.subrange(
            start as int,
            end - 1,
        ));
        end -= 1;
    }
    string_of_range(&chars, start, end)
}

/// A collapsed text is collapsed, is empty only where the text is, and ends
/// in white space only where the text does.
pub proof fn lemma_collapsed_shape(s: Seq<char>)
    ensures
        is_collapsed(collapsed(s)),
        s.len() > 0 ==> collapsed(s).len() > 0 && (is_white_space(collapsed(s).last())
            <==> is_white_space(s.last())),
        s.len() == 0 ==> collapsed(s).len() == 0,
    decreases s.len(),
{
    if s.len() > 0 {
        lemma_collapsed_shape(s.drop_last());
    }
}

/// Collapsing leaves a text whose only white space is single spaces as it is.
pub proof fn lemma_collapsed_fixed_point(s: Seq<char>)
    requires
        is_collapsed(s),
    ensures
        collapsed(s) == s,
    decreases s.len(),
{
    if s.len() > 0 {
        let init = s.drop_last();
        assert forall|i: int| 0 <= i < init.len() && is_white_space(#[trigger] init[i]) implies init[i]
            == ' ' && (i > 0 ==> !is_white_space(init[i - 1])) by {
            assert(init[i] == s[i]);
        }
        lemma_collapsed_fixed_point(init);
        assert(is_white_space(s[s.len() - 1]) ==> s[s.len() - 1] == ' ');
        assert(init.push(s.last()) == s);
    }
}

/// Collapsing white space is idempotent.
pub proof fn lemma_collapse_idempotent(s: Seq<char>)
    ensures
        collapsed(collapsed(s)) == collapsed(s),
{
    lemma_collapsed_shape(s);
    lemma_collapsed_fixed_point(collapsed(s));
}

/// Trimming takes a stretch out of a text that neither begins nor ends in
/// white space.
pub proof fn lemma_trimmed_shape(s: Seq<char>) -> (ends: (int, int))
    ensures
        0 <= ends.0 <= ends.1 <= s.len(),
        trimmed(s) == s.subrange(ends.0, ends.1),
        trimmed(s).len() > 0 ==> !is_white_space(trimmed(s).first()) && !is_white_space(
            trimmed(s).last(),
        ),
    decreases s.len(),
{
    if s.len() > 0 && is_white_space(s.first()) {
        let inner = lemma_trimmed_shape(s.drop_first());
        assert(s.drop_first().subrange(inner.0, inner.1) == s.subrange(inner.0 + 1, inner.1 + 1));
        (inner.0 + 1, inner.1 + 1)
    } else if s.len() > 0 && is_white_space(s.last()) {
        let inner = lemma_trimmed_shape(s.drop_last());
        assert(s.drop_last().subrange(inner.0, inner.1) == s.subrange(inner.0, inner.1));
        inner
    } else {
        assert(s.subrange(0, s.len() as int) == s);
        (0, s.len() as int)
    }
}

/// Normalising is idempotent.
pub proof fn lemma_normalise_idempotent(s: Seq<char>)
    ensures
        normalised(normalised(s)) == normalised(s),
{
    let once = collapsed(s);
    let ends = lemma_trimmed_shape(once);
    let kept = normalised(s);
    lemma_collapsed_shape(s);
    assert forall|i: int| 0 <= i < kept.len() && is_white_space(#[trigger] kept[i]) implies kept[i]
        == ' ' && (i > 0 ==> !is_white_space(kept[i - 1])) by {
        assert(kept[i] == once[ends.0 + i]);
        if i > 0 {
            assert(kept[i - 1] == once[ends.0 + i - 1]);
        }
    }
    lemma_collapsed_fixed_point(kept);
}

/// A text collapses to nothing or to a single space exactly where it holds
/// nothing but white space.
pub proof fn lemma_collapsed_blank(s: Seq<char>)
    ensures
        is_all_white_space(s) <==> (collapsed(s).len() == 0 || collapsed(s) == seq![' ']),
        !is_all_white_space(s) ==> exists|i: int|
            0 <= i < collapsed(s).len() && !is_white_space(#[trigger] collapsed(s)[i]),
    decreases s.len(),
{
    if s.len() > 0 {
        let init = s.drop_last();
        lemma_collapsed_blank(init);
        lemma_collapsed_shape(init);
        assert(is_all_white_space(s) <==> is_all_white_space(init) && is_white_space(s.last())) by {
            if is_all_white_space(init) && is_white_space(s.last()) {
                assert forall|i: int| 0 <= i < s.len() implies is_white_space(#[trigger] s[i]) by {
                    if i < init.len() {
                        assert(s[i] == init[i]);
                    }
                }
            }
            if is_all_white_space(s) {
                assert forall|i: int| 0 <= i < init.len() implies is_white_space(
                    #[trigger] init[i],
                ) by {
                    assert(init[i] == s[i]);
                }
            }
        }
        if !is_all_white_space(init) {
            let i = choose|i: int|
                0 <= i < collapsed(init).len() && !is_white_space(#[trigger] collapsed(init)[i]);
            assert(collapsed(s)[i] == collapsed(init)[i]);
            assert(seq![' '][0] == ' ');
        } else if !is_white_space(s.last()) {
            let last = collapsed(s).len() - 1;
            assert(!is_white_space(collapsed(s)[last]));
            assert(seq![' '][0] == ' ');
        } else {
            if init.len() == 0 {
                assert(collapsed(s) == seq![' ']);
            } else {
                assert(is_white_space(init[init.len() - 1]));
                assert(collapsed(init).len() > 0);
            }
        }
    } else {
        assert(seq![' '].len() == 1);
    }
}

/// Collapsing white space does not change the words of a text.
pub proof fn lemma_split_words_collapsed(s: Seq<char>)
    ensures
        split_words(collapsed(s)) == split_words(s),
    decreases s.len(),
{
    if s.len() > 0 {
        let init = s.drop_last();
        lemma_split_words_collapsed(init);
        lemma_collapsed_shape(init);
        if !is_white_space(s.last()) {
            assert(collapsed(init).push(s.last()).drop_last() == collapsed(init));
        } else if init.len() > 0 && is_white_space(init.last()) {
        } else {
            assert(collapsed(init).push(' ').drop_last() == collapsed(init));
        }
    }
}

/// White space in front of a text does not change its words.
pub proof fn lemma_split_words_skip_leading(s: Seq<char>)
    requires
        s.len() > 0,
        is_white_space(s.first()),
    ensures
        split_words(s.drop_first()) == split_words(s),
    decreases s.len(),
{
    let init = s.drop_last();
    let rest = s.drop_first();
    if s.len() == 1 {
        assert(s.last() == s.first());
        assert(split_words(init) == Seq::<Seq<char>>::empty());
        assert(split_words(rest) == Seq::<Seq<char>>::empty());
    } else {
        assert(init.first() == s.first());
        lemma_split_words_skip_leading(init);
        let rinit = rest.drop_last();
        assert(rinit == init.drop_first());
        assert(rest.last() == s.last());
        assert(split_words(rinit) == split_words(init));
        if rinit.len() > 0 {
            assert(rinit.last() == init.last());
        } else {
            assert(init.len() == 1);
            assert(init.last() == s.first());
        }
    }
}

/// Trimming does not change the words of a text.
pub proof fn lemma_split_words_trimmed(s: Seq<char>)
    ensures
        split_words(trimmed(s)) == split_words(s),
    decreases s.len(),
{
    if s.len() > 0 && is_white_space(s.first()) {
        lemma_split_words_skip_leading(s);
        lemma_split_words_trimmed(s.drop_first());
    } else if s.len() > 0 && is_white_space(s.last()) {
        lemma_split_words_trimmed(s.drop_last());
    }
}

} // verus!
