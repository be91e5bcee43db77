//! Text operations that the decoding takes from the standard library, and
//! what they are taken to compute.

use vstd::prelude::*;

verus! {

/// Whether a character has the Unicode property `White_Space`, the property
/// by which `str::trim` tells what to strip: the controls from tab to
/// carriage return, the space, next line, the no-break space, the ogham
/// space mark, the spaces from en quad to hair space, the line and paragraph
/// separators, the narrow no-break space, the medium mathematical space and
/// the ideographic space.
pub open spec fn white_space(c: char) -> bool {
    let code: u32 = c as u32;
    ||| 0x0009 <= code <= 0x000D
    ||| code == 0x0020
    ||| code == 0x0085
    ||| code == 0x00A0
    ||| code == 0x1680
    ||| 0x2000 <= code <= 0x200A
    ||| code == 0x2028
    ||| code == 0x2029
    ||| code == 0x202F
    ||| code == 0x205F
    ||| code == 0x3000
}

/// The upper-case form of a text, as `str::to_uppercase` gives it.
pub uninterp spec fn uppercase(text: Seq<char>) -> Seq<char>;

/// The view of an optional text.
pub open spec fn text_view(text: Option<String>) -> Option<Seq<char>> {
    match text {
        Some(s) => Some(s@),
        None => None,
    }
}

/// `text` without its leading white space.
pub open spec fn trimmed_start(text: Seq<char>) -> Seq<char>
    decreases text.len(),
{
    if text.len() > 0 && white_space(text.first()) {
        trimmed_start(text.drop_first())
    } else {
        text
    }
}

/// `text` without its trailing white space.
pub open spec fn trimmed_end(text: Seq<char>) -> Seq<char>
    decreases text.len(),
{
    if text.len() > 0 && white_space(text.last()) {
        trimmed_end(text.drop_last())
    } else {
        text
    }
}

/// `text` without its leading and trailing white space.
pub open spec fn trimmed(text: Seq<char>) -> Seq<char> {
    trimmed_end(trimmed_start(text))
}

/// Whether `text` neither begins nor ends with white space.
pub open spec fn is_trimmed(text: Seq<char>) -> bool {
    text.len() > 0 ==> !white_space(text.first()) && !white_space(text.last())
}

/// Calls `str::trim`: the result is the argument without the white space
/// that it begins and ends with, white space being the characters with the
/// Unicode property `White_Space`.
#[verifier::external_body]
pub(crate) fn trim<'a>(text: &'a str) -> (r: &'a str)
    ensures
        r@ == trimmed(text@),
{
    text.trim()
}

/// Calls `str::to_uppercase`: the result is the upper-case form of the
/// argument.
#[verifier::external_body]
pub(crate) fn to_uppercase(text: &str) -> (r: String)
    ensures
        r@ == uppercase(text@),
{
    text.to_uppercase()
}

/// What `trimmed_start` keeps is a tail of the text, cut where the leading
/// white space ends.
pub proof fn lemma_trimmed_start(text: Seq<char>)
    ensures
        exists|start: int|
            {
                &&& 0 <= start <= text.len()
                &&& #[trigger] text.subrange(start, text.len() as int) == trimmed_start(text)
                &&& forall|i: int| 0 <= i < start ==> white_space(#[trigger] text[i])
                &&& start < text.len() ==> !white_space(text[start])
            },
    decreases text.len(),
{
    if text.len() > 0 && white_space(text.first()) {
        let rest = text.drop_first();
        lemma_trimmed_start(rest);
        let inner = choose|start: int|
            {
                &&& 0 <= start <= rest.len()
                &&& #[trigger] rest.subrange(start, rest.len() as int) == trimmed_start(rest)
                &&& forall|i: int| 0 <= i < start ==> white_space(#[trigger] rest[i])
                &&& start < rest.len() ==> !white_space(rest[start])
            };
        let start = inner + 1;
        assert(text.subrange(start, text.len() as int) =~= rest.subrange(
            inner,
            rest.len() as int,
        ));
        assert forall|i: int| 0 <= i < start implies white_space(#[trigger] text[i]) by {
            if i > 0 {
                assert(text[i] == rest[i - 1]);
            }
        }
    } else {
        assert(text.subrange(0, text.len() as int) =~= text);
    }
}

/// What `trimmed_end` keeps is a head of the text, cut where the trailing
/// white space begins.
pub proof fn lemma_trimmed_end(text: Seq<char>)
    ensures
        exists|end: int|
            {
                &&& 0 <= end <= text.len()
                &&& #[trigger] text.subrange(0, end) == trimmed_end(text)
                &&& forall|i: int| end <= i < text.len() ==> white_space(#[trigger] text[i])
                &&& 0 < end ==> !white_space(text[end - 1])
            },
    decreases text.len(),
{
    if text.len() > 0 && white_space(text.last()) {
        let rest = text.drop_last();
        lemma_trimmed_end(rest);
        let end = choose|end: int|
            {
                &&& 0 <= end <= rest.len()
                &&& #[trigger] rest.subrange(0, end) == trimmed_end(rest)
                &&& forall|i: int| end <= i < rest.len() ==> white_space(#[trigger] rest[i])
                &&& 0 < end ==> !white_space(rest[end - 1])
            };
        assert(text.subrange(0, end) =~= rest.subrange(0, end));
        assert forall|i: int| end <= i < text.len() implies white_space(#[trigger] text[i]) by {
            if i < rest.len() {
                assert(text[i] == rest[i]);
            }
        }
    } else {
        assert(text.subrange(0, text.len() as int) =~= text);
    }
}

/// Trimming keeps one contiguous part of the text: all that lies before it
/// and all that lies after it is white space, and the part itself neither
/// begins nor ends with white space.
pub proof fn lemma_trimmed_is_middle(text: Seq<char>)
    ensures
        is_trimmed(trimmed(text)),
        exists|start: int, end: int|
            {
                &&& 0 <= start <= end <= text.len()
                &&& #[trigger] text.subrange(start, end) == trimmed(text)
                &&& forall|i: int| 0 <= i < start ==> white_space(#[trigger] text[i])
                &&& forall|i: int| end <= i < text.len() ==> white_space(#[trigger] text[i])
            },
{
    lemma_trimmed_start(text);
    let start = choose|start: int|
        {
            &&& 0 <= start <= text.len()
            &&& #[trigger] text.subrange(start, text.len() as int) == trimmed_start(text)
            &&& forall|i: int| 0 <= i < start ==> white_space(#[trigger] text[i])
            &&& start < text.len() ==> !white_space(text[start])
        };
    let tail = trimmed_start(text);
    lemma_trimmed_end(tail);
    let kept = choose|end: int|
        {
            &&& 0 <= end <= tail.len()
            &&& #[trigger] tail.subrange(0, end) == trimmed_end(tail)
            &&& forall|i: int| end <= i < tail.len() ==> white_space(#[trigger] tail[i])
            &&& 0 < end ==> !white_space(tail[end - 1])
        };
    let end = start + kept;
    assert(text.subrange(start, end) =~= tail.subrange(0, kept));
    assert forall|i: int| end <= i < text.len() implies white_space(#[trigger] text[i]) by {
        assert(text[i] == tail[i - start]);
    }
    if kept > 0 {
        assert(trimmed(text).first() == text[start]);
        assert(trimmed(text).last() == tail[kept - 1]);
    }
}

} // verus!
