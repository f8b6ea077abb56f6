//! Text handling for what is typed and what is handed to C code.

use vstd::prelude::*;
use vstd::utf8::encode_utf8;

verus! {

/// `String::push` appends the given character to the end of the string.
pub assume_specification[ String::push ](s: &mut String, c: char)
    ensures
        final(s)@ == old(s)@.push(c),
;

/// `String::pop` removes the last character and returns it, or returns `None` and leaves the
/// string alone if it is empty.
pub assume_specification[ String::pop ](s: &mut String) -> (last: Option<char>)
    ensures
        old(s)@.len() == 0 ==> last is None && final(s)@ == old(s)@,
        old(s)@.len() > 0 ==> last == Some(old(s)@.last()) && final(s)@ == old(s)@.drop_last(),
;

/// `String::clear` removes all contents.
pub assume_specification[ String::clear ](s: &mut String)
    ensures
        final(s)@ == Seq::<char>::empty(),
;

/// `String::into_bytes` hands out the bytes of the string, which are its UTF-8 encoding.
pub assume_specification[ String::into_bytes ](s: String) -> (bytes: Vec<u8>)
    ensures
        bytes@ == encode_utf8(s@),
;

/// The text of an optional string.
pub open spec fn view_of(text: Option<String>) -> Option<Seq<char>> {
    match text {
        Some(s) => Some(s@),
        None => None,
    }
}

/// A text that may be missing is there exactly when it is given, and is then that text, whole.
pub proof fn view_of_is_the_text(text: Option<String>)
    ensures
        text is None <==> view_of(text) is None,
        text matches Some(s) ==> view_of(text) == Some(s@),
{
}

/// The control characters: the C0 block, DEL, and the C1 block.
pub open spec fn control(c: char) -> bool {
    c <= '\u{1f}' || '\u{7f}' <= c <= '\u{9f}'
}

/// Whether a character is a control character.
pub fn is_control(c: char) -> (b: bool)
    ensures
        b == control(c),
{
    c <= '\u{1f}' || ('\u{7f}' <= c && c <= '\u{9f}')
}

/// What remains of typed text once the control characters are left out.
pub open spec fn printable(text: Seq<char>) -> Seq<char> {
    text.filter(|c: char| !control(c))
}

/// Text is taken in piece by piece: what remains of two texts in a row is what remains of the one,
/// then what remains of the other.
pub proof fn printable_joins(first: Seq<char>, second: Seq<char>)
    ensures
        printable(first + second) == printable(first) + printable(second),
{
    Seq::filter_distributes_over_add(first, second, |c: char| !control(c));
}

/// Of a single character nothing remains if it lies in the C0 block, in the C1 block, or is DEL;
/// any other character remains as it is. Of no text nothing remains.
pub proof fn printable_keeps_or_drops(c: char)
    ensures
        printable(Seq::empty()) == Seq::<char>::empty(),
        ((c as int) < 0x20 || 0x7f <= c as int <= 0x9f) ==> printable(seq![c]) == Seq::<
            char,
        >::empty(),
        !((c as int) < 0x20 || 0x7f <= c as int <= 0x9f) ==> printable(seq![c]) == seq![c],
{
    reveal_with_fuel(Seq::filter, 2);
    assert(seq![c].drop_last() =~= Seq::<char>::empty());
}

/// A text without control characters remains whole, each character in its place.
pub proof fn printable_text_remains(text: Seq<char>)
    requires
        forall|i: int|
            #![trigger text[i]]
            0 <= i < text.len() ==> !((text[i] as int) < 0x20 || 0x7f <= text[i] as int <= 0x9f),
    ensures
        printable(text) == text,
    decreases text.len(),
{
    reveal(Seq::filter);
    if text.len() > 0 {
        assert forall|i: int| #![trigger text.drop_last()[i]] 0 <= i < text.drop_last().len() implies !((
        text.drop_last()[i] as int) < 0x20 || 0x7f <= text.drop_last()[i] as int <= 0x9f) by {
            assert(text.drop_last()[i] == text[i]);
        }
        printable_text_remains(text.drop_last());
        assert(text.drop_last().push(text.last()) =~= text);
    }
}

/// Appends the printable characters of `text` to `line`, in order.
pub fn push_printable(line: &mut String, text: &str)
    ensures
        final(line)@ == old(line)@ + printable(text@),
{
    let ghost start = line@;
    proof {
        reveal(Seq::filter);
        assert(start + printable(text@.take(0)) =~= start);
    }
    for c in it: text.chars()
        invariant
            it.seq() == text@,
            line@ == start + printable(text@.take(it.index())),
    {
        proof {
            reveal(Seq::filter);
            assert(text@.take(it.index() + 1).drop_last() =~= text@.take(it.index()));
        }
        if !is_control(c) {
            line.push(c);
        }
    }
    proof {
        assert(text@.take(text@.len() as int) =~= text@);
    }
}

/// Whether a text holds the character that ends a C string.
pub open spec fn has_nul(text: Seq<char>) -> bool {
    text.contains('\0')
}

/// What a C string made of `text` holds: the text itself or, if a NUL inside it would cut it
/// short, nothing.
pub open spec fn c_text(text: Seq<char>) -> Seq<char> {
    if has_nul(text) {
        Seq::empty()
    } else {
        text
    }
}

/// C code gets a text whole or not at all: every character of it, of whatever length, if there is
/// no NUL in it, and otherwise nothing.
pub proof fn c_text_is_whole_or_empty(text: Seq<char>)
    ensures
        (forall|i: int| 0 <= i < text.len() ==> text[i] as int != 0) ==> c_text(text) == text,
        (exists|i: int| 0 <= i < text.len() && text[i] as int == 0) ==> c_text(text).len() == 0,
{
    if exists|i: int| 0 <= i < text.len() && text[i] as int == 0 {
        let i = choose|i: int| 0 <= i < text.len() && text[i] as int == 0;
        assert(text[i] == '\0');
        assert(text.contains('\0'));
    }
}

/// The text that can be handed to C code in place of `text`: empty where a NUL would cut it short.
pub fn c_string(text: &str) -> (reply: String)
    ensures
        reply@ == c_text(text@),
{
    for c in it: text.chars()
        invariant
            it.seq() == text@,
            forall|i: int| 0 <= i < it.index() ==> text@[i] != '\0',
    {
        if c == '\0' {
            return String::new();
        }
    }
    text.to_owned()
}

/// Overwrites every byte with zero.
fn scrub(bytes: &mut Vec<u8>)
    ensures
        final(bytes)@ == Seq::new(old(bytes)@.len(), |i: int| 0u8),
{
    let len: usize = bytes.len();
    for i in 0..len
        invariant
            bytes@.len() == len,
            forall|j: int| 0 <= j < i ==> bytes@[j] == 0,
    {
        bytes[i] = 0;
    }
}

/// What is left of a password once its buffer is scrubbed.
pub open spec fn scrubbed(password: Seq<char>) -> Seq<u8> {
    Seq::new(encode_utf8(password).len(), |i: int| 0u8)
}

/// Nothing of a password survives scrubbing: there are as many bytes as before, each of them zero,
/// and passwords of as many bytes leave the same.
pub proof fn scrubbing_leaves_zeros(password: Seq<char>, other: Seq<char>)
    ensures
        scrubbed(password).len() == encode_utf8(password).len(),
        forall|i: int| 0 <= i < scrubbed(password).len() ==> scrubbed(password)[i] == 0u8,
        encode_utf8(password).len() == encode_utf8(other).len() ==> scrubbed(password) == scrubbed(
            other,
        ),
{
}

/// Scrubs the buffer of a password that has been used, and hands the cleared buffer back.
///
/// Only the copy that this process owns is cleared.
pub fn zero(s: String) -> (cleared: Vec<u8>)
    ensures
        cleared@ == Seq::new(encode_utf8(s@).len(), |i: int| 0u8),
        cleared@ == scrubbed(s@),
{
    let mut bytes: Vec<u8> = s.into_bytes();
    scrub(&mut bytes);
    bytes
}

} // verus!
