//! Searching and comparing text, character by character.

use vstd::prelude::*;

verus! {

/// `text` with the view of what it holds.
pub open spec fn text_view(text: Option<String>) -> Option<Seq<char>> {
    match text {
        Some(text) => Some(text@),
        None => None,
    }
}

/// `needle` stands in `haystack` at offset `at`.
pub open spec fn occurs_at(haystack: Seq<char>, needle: Seq<char>, at: int) -> bool {
    &&& 0 <= at
    &&& at + needle.len() <= haystack.len()
    &&& haystack.subrange(at, at + needle.len()) == needle
}

/// `needle` stands somewhere in `haystack` as a contiguous run of characters.
pub open spec fn contains_text(haystack: Seq<char>, needle: Seq<char>) -> bool {
    exists|at: int| occurs_at(haystack, needle, at)
}

/// `haystack` begins with `needle`.
pub open spec fn starts_with_text(haystack: Seq<char>, needle: Seq<char>) -> bool {
    occurs_at(haystack, needle, 0)
}

/// The characters of `s`, in order.
pub fn chars_of(s: &str) -> (r: Vec<char>)
    ensures
        r@ == s@,
{
    let mut out: Vec<char> = Vec::new();
    for c in it: s.chars()
        invariant
            out@ == it.seq().take(it.index() as int),
            it.seq() == s@,
    {
        out.push(c);
    }
    out
}

/// Whether `needle` stands in `haystack` at offset `at`.
pub fn matches_at(haystack: &Vec<char>, needle: &Vec<char>, at: usize) -> (r: bool)
    ensures
        r == occurs_at(haystack@, needle@, at as int),
{
    if needle.len() > haystack.len() || at > haystack.len() - needle.len() {
        return false;
    }
    let mut k: usize = 0;
    while k < needle.len()
        invariant
            k <= needle.len(),
            at + needle.len() <= haystack.len(),
            forall|j: int| 0 <= j < k ==> haystack@[at + j] == needle@[j],
        decreases needle.len() - k,
    {
        if haystack[at + k] != needle[k] {
            proof {
                let window = haystack@.subrange(at as int, at + needle.len());
                assert(window[k as int] == haystack@[at + k]);
            }
            return false;
        }
        k += 1;
    }
    assert(haystack@.subrange(at as int, at + needle.len()) =~= needle@);
    true
}

/// Whether the two texts are the same, character by character.
pub fn same_text(a: &str, b: &str) -> (r: bool)
    ensures
        r == (a@ == b@),
{
    let first = chars_of(a);
    let second = chars_of(b);
    if first.len() != second.len() {
        return false;
    }
    proof {
        assert(first@.subrange(0, second.len() as int) =~= first@);
    }
    matches_at(&first, &second, 0)
}

/// Whether the characters `haystack` begin with `needle`.
pub fn starts_with_in(haystack: &Vec<char>, needle: &str) -> (r: bool)
    ensures
        r == starts_with_text(haystack@, needle@),
{
    let pattern = chars_of(needle);
    matches_at(haystack, &pattern, 0)
}

/// Whether `needle` stands somewhere in the characters `haystack`.
pub fn contains_in(haystack: &Vec<char>, needle: &str) -> (r: bool)
    ensures
        r == contains_text(haystack@, needle@),
{
    let pattern = chars_of(needle);
    if pattern.len() > haystack.len() {
        return false;
    }
    let last: usize = haystack.len() - pattern.len();
    let mut at: usize = 0;
    loop
        invariant
            last == haystack.len() - pattern.len(),
            at <= last,
            pattern@ == needle@,
            forall|j: int| 0 <= j < at ==> !occurs_at(haystack@, pattern@, j),
        decreases last - at,
    {
        if matches_at(haystack, &pattern, at) {
            return true;
        }
        if at == last {
            return false;
        }
        at += 1;
    }
}

/// Whether `haystack` begins with `needle`.
pub fn starts_with(haystack: &str, needle: &str) -> (r: bool)
    ensures
        r == starts_with_text(haystack@, needle@),
{
    let hay = chars_of(haystack);
    starts_with_in(&hay, needle)
}

/// Whether `needle` stands somewhere in `haystack`.
pub fn contains(haystack: &str, needle: &str) -> (r: bool)
    ensures
        r == contains_text(haystack@, needle@),
{
    let hay = chars_of(haystack);
    contains_in(&hay, needle)
}

/// Where `mark` stands first in `text`, if it stands there at all.
pub open spec fn first_index(text: Seq<char>, mark: char) -> Option<int>
    decreases text.len(),
{
    if text.len() == 0 {
        None
    } else if text[0] == mark {
        Some(0)
    } else {
        match first_index(text.drop_first(), mark) {
            Some(index) => Some(index + 1),
            None => None,
        }
    }
}

/// The pieces of `text` between its separators, empty pieces included: a text
/// without a separator is one piece.
pub open spec fn split_text(text: Seq<char>, separator: char) -> Seq<Seq<char>>
    decreases text.len(),
{
    match first_index(text, separator) {
        Some(index) => if 0 <= index < text.len() {
            seq![text.take(index)] + split_text(text.skip(index + 1), separator)
        } else {
            seq![text]
        },
        None => seq![text],
    }
}

/// What stands before the first `separator` of `text` and what stands after
/// it, where there is one.
pub open spec fn split_once_text(text: Seq<char>, separator: char) -> Option<
    (Seq<char>, Seq<char>),
> {
    match first_index(text, separator) {
        Some(index) => Some((text.take(index), text.skip(index + 1))),
        None => None,
    }
}

/// Where `first_index` finds `mark`, it stands, and nowhere before; where it
/// finds none, there is none.
pub proof fn lemma_first_index(text: Seq<char>, mark: char)
    ensures
        match first_index(text, mark) {
            Some(index) => 0 <= index < text.len() && text[index] == mark && forall|j: int|
                0 <= j < index ==> text[j] != mark,
            None => forall|j: int| 0 <= j < text.len() ==> text[j] != mark,
        },
    decreases text.len(),
{
    if text.len() > 0 && text[0] != mark {
        let rest = text.drop_first();
        lemma_first_index(rest, mark);
        match first_index(rest, mark) {
            Some(index) => {
                assert forall|j: int| 0 <= j < index + 1 implies text[j] != mark by {
                    if j > 0 {
                        assert(rest[j - 1] == text[j]);
                    }
                }
            },
            None => {
                assert forall|j: int| 0 <= j < text.len() implies text[j] != mark by {
                    if j > 0 {
                        assert(rest[j - 1] == text[j]);
                    }
                }
            },
        }
    }
}

/// The first place at which `mark` stands is the one before which it does not.
pub proof fn lemma_first_index_is(text: Seq<char>, mark: char, at: int)
    requires
        0 <= at < text.len(),
        text[at] == mark,
        forall|j: int| 0 <= j < at ==> text[j] != mark,
    ensures
        first_index(text, mark) == Some(at),
{
    lemma_first_index(text, mark);
}

/// Where `mark` stands first in `text` from `start` on.
pub fn find_from(text: &Vec<char>, start: usize, mark: char) -> (r: Option<usize>)
    requires
        start <= text.len(),
    ensures
        match r {
            Some(at) => start <= at < text.len() && first_index(text@.skip(start as int), mark)
                == Some(at - start),
            None => first_index(text@.skip(start as int), mark) is None,
        },
{
    let ghost rest = text@.skip(start as int);
    let mut at: usize = start;
    while at < text.len()
        invariant
            start <= at <= text.len(),
            rest == text@.skip(start as int),
            forall|j: int| 0 <= j < at - start ==> rest[j] != mark,
        decreases text.len() - at,
    {
        if text[at] == mark {
            proof {
                lemma_first_index_is(rest, mark, at - start);
            }
            return Some(at);
        }
        at += 1;
    }
    proof {
        lemma_first_index(rest, mark);
    }
    None
}

/// The characters of `text` from `from` up to `to`.
pub fn slice_of(text: &Vec<char>, from: usize, to: usize) -> (r: Vec<char>)
    requires
        from <= to <= text.len(),
    ensures
        r@ == text@.subrange(from as int, to as int),
{
    let mut out: Vec<char> = Vec::new();
    let mut at: usize = from;
    while at < to
        invariant
            from <= at <= to <= text.len(),
            out@ == text@.subrange(from as int, at as int),
        decreases to - at,
    {
        out.push(text[at]);
        proof {
            assert(out@ =~= text@.subrange(from as int, at + 1));
        }
        at += 1;
    }
    out
}

/// The views of `pieces`, in order.
pub open spec fn pieces_view(pieces: Seq<Vec<char>>) -> Seq<Seq<char>> {
    Seq::new(pieces.len(), |i: int| pieces[i]@)
}

/// The pieces of `text` between its separators, empty pieces included.
pub fn split(text: &str, separator: char) -> (r: Vec<Vec<char>>)
    ensures
        pieces_view(r@) == split_text(text@, separator),
{
    let chars = chars_of(text);
    let mut pieces: Vec<Vec<char>> = Vec::new();
    let mut start: usize = 0;
    proof {
        assert(chars@.skip(0) =~= chars@);
        assert(pieces_view(pieces@) =~= Seq::<Seq<char>>::empty());
    }
    loop
        invariant
            start <= chars.len(),
            chars@ == text@,
            split_text(text@, separator) == pieces_view(pieces@) + split_text(
                chars@.skip(start as int),
                separator,
            ),
        decreases chars.len() - start,
    {
        let ghost rest = chars@.skip(start as int);
        let ghost before = pieces_view(pieces@);
        match find_from(&chars, start, separator) {
            Some(at) => {
                let piece = slice_of(&chars, start, at);
                pieces.push(piece);
                proof {
                    assert(piece@ =~= rest.take(at - start));
                    assert(rest.skip(at - start + 1) =~= chars@.skip(at + 1));
                    assert(pieces_view(pieces@) =~= before + seq![rest.take(at - start)]);
                    assert(split_text(rest, separator) == seq![rest.take(at - start)] + split_text(
                        chars@.skip(at + 1),
                        separator,
                    ));
                }
                start = at + 1;
            },
            None => {
                let piece = slice_of(&chars, start, chars.len());
                pieces.push(piece);
                proof {
                    assert(piece@ =~= rest);
                    assert(split_text(rest, separator) == seq![rest]);
                    assert(pieces_view(pieces@) =~= before + seq![rest]);
                }
                return pieces;
            },
        }
    }
}

/// What stands before the first `separator` of `text` and what stands after
/// it, where there is one.
pub fn split_once(text: &Vec<char>, separator: char) -> (r: Option<(Vec<char>, Vec<char>)>)
    ensures
        (match r {
            Some((before, after)) => Some((before@, after@)),
            None => None,
        }) == split_once_text(text@, separator),
{
    proof {
        assert(text@.skip(0) =~= text@);
    }
    match find_from(text, 0, separator) {
        Some(at) => {
            let before = slice_of(text, 0, at);
            let after = slice_of(text, at + 1, text.len());
            proof {
                assert(before@ =~= text@.take(at as int));
                assert(after@ =~= text@.skip(at + 1));
            }
            Some((before, after))
        },
        None => None,
    }
}

/// Appends `c` to `text`. The body calls `String::push`, which appends the
/// character and changes nothing else.
#[verifier::external_body]
fn push_char(text: &mut String, c: char)
    ensures
        final(text)@ == old(text)@.push(c),
{
    text.push(c)
}

/// The text made of `chars`, in order.
pub fn text_of(chars: &Vec<char>) -> (r: String)
    ensures
        r@ == chars@,
{
    let mut out = String::new();
    let mut index: usize = 0;
    while index < chars.len()
        invariant
            index <= chars.len(),
            out@ == chars@.take(index as int),
        decreases chars.len() - index,
    {
        push_char(&mut out, chars[index]);
        proof {
            assert(out@ =~= chars@.take(index + 1));
        }
        index += 1;
    }
    proof {
        assert(chars@.take(index as int) =~= chars@);
    }
    out
}

/// What `String::from_utf8_lossy` makes of `bytes`: their text, with U+FFFD in
/// place of whatever is no UTF-8.
pub uninterp spec fn utf8_lossy(bytes: Seq<u8>) -> Seq<char>;

/// The text that `bytes` encode, for bytes that are UTF-8. The body calls
/// `core::str::from_utf8`, which accepts exactly the well-formed byte
/// sequences and hands back the same bytes as a `str`.
#[verifier::external_body]
pub(crate) fn utf8_text(bytes: &[u8]) -> (r: Option<&str>)
    ensures
        r is Some <==> vstd::utf8::valid_utf8(bytes@),
        r matches Some(text) ==> text@ == vstd::utf8::decode_utf8(bytes@),
{
    core::str::from_utf8(bytes).ok()
}

/// The text that `bytes` encode, readable whatever they hold. The body calls
/// `String::from_utf8_lossy`, which leaves well-formed UTF-8 as it is.
#[verifier::external_body]
pub(crate) fn lossy_text(bytes: &[u8]) -> (r: String)
    ensures
        r@ == utf8_lossy(bytes@),
        vstd::utf8::valid_utf8(bytes@) ==> r@ == vstd::utf8::decode_utf8(bytes@),
{
    String::from_utf8_lossy(bytes).into_owned()
}

/// The decimal digit for `d`.
pub open spec fn digit(d: nat) -> char
    recommends
        d < 10,
{
    if d == 0 {
        '0'
    } else if d == 1 {
        '1'
    } else if d == 2 {
        '2'
    } else if d == 3 {
        '3'
    } else if d == 4 {
        '4'
    } else if d == 5 {
        '5'
    } else if d == 6 {
        '6'
    } else if d == 7 {
        '7'
    } else if d == 8 {
        '8'
    } else {
        '9'
    }
}

/// `n` in decimal, without leading zeros.
pub open spec fn decimal(n: nat) -> Seq<char>
    decreases n,
{
    if n < 10 {
        seq![digit(n)]
    } else {
        decimal(n / 10).push(digit(n % 10))
    }
}

fn digit_of(d: usize) -> (r: char)
    requires
        d < 10,
    ensures
        r == digit(d as nat),
{
    if d == 0 {
        '0'
    } else if d == 1 {
        '1'
    } else if d == 2 {
        '2'
    } else if d == 3 {
        '3'
    } else if d == 4 {
        '4'
    } else if d == 5 {
        '5'
    } else if d == 6 {
        '6'
    } else if d == 7 {
        '7'
    } else if d == 8 {
        '8'
    } else {
        '9'
    }
}

/// `n` written in decimal.
pub fn decimal_text(n: usize) -> (r: String)
    ensures
        r@ == decimal(n as nat),
{
    // The digits from the least significant one up.
    let mut low_first: Vec<char> = Vec::new();
    let mut rest: usize = n;
    while rest >= 10
        invariant
            decimal(n as nat) == decimal(rest as nat) + low_first@.reverse(),
        decreases rest,
    {
        let ghost before = low_first@;
        low_first.push(digit_of(rest % 10));
        proof {
            assert(low_first@.reverse() =~= seq![digit((rest % 10) as nat)] + before.reverse());
            assert(decimal(rest as nat) =~= decimal((rest / 10) as nat) + seq![
                digit((rest % 10) as nat),
            ]);
        }
        rest = rest / 10;
    }
    let mut digits: Vec<char> = Vec::new();
    digits.push(digit_of(rest));
    let mut left: usize = low_first.len();
    while left > 0
        invariant
            left <= low_first.len(),
            digits@ == decimal(rest as nat) + low_first@.reverse().take(low_first.len() - left),
        decreases left,
    {
        left -= 1;
        digits.push(low_first[left]);
        proof {
            let turned = low_first@.reverse();
            assert(turned.take(low_first.len() - left) =~= turned.take(
                low_first.len() - left - 1,
            ).push(low_first@[left as int]));
        }
    }
    proof {
        assert(low_first@.reverse().take(low_first.len() as int) =~= low_first@.reverse());
    }
    text_of(&digits)
}

} // verus!
