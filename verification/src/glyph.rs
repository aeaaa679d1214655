//! The glyph atlas: which characters have a glyph, and which one.

use vstd::prelude::*;
use vstd::string::StringSliceAdditionalSpecFns;
use crate::font::{Glyph, FONT_DATA, LETTER_DATA};

verus! {

/// Whether the ASCII code `c` belongs to the supported set.
pub open spec fn is_supported(c: u8) -> bool {
    ||| 65 <= c <= 90  // A to Z
    ||| 97 <= c <= 122  // a to z
    ||| c == 123  // {
    ||| c == 125  // }
    ||| c == 95  // _
    ||| c == 32  // space
}

/// The position of a supported code in the font table.
pub open spec fn slot_of(c: u8) -> int
    recommends
        is_supported(c),
{
    if 65 <= c <= 90 {
        c - 65
    } else if 97 <= c <= 122 {
        c - 97 + 26
    } else if c == 123 {
        52
    } else if c == 125 {
        53
    } else if c == 95 {
        54
    } else {
        55
    }
}

/// The glyph of the ASCII code `c`, if it has one.
pub open spec fn glyph_of(c: u8) -> Option<Glyph> {
    if is_supported(c) {
        Some(FONT_DATA[slot_of(c)])
    } else {
        None
    }
}

/// The glyph of the character `c`, if it has one.
pub open spec fn glyph_of_char(c: char) -> Option<Glyph> {
    if (c as u32) < 128 {
        glyph_of(c as u32 as u8)
    } else {
        None
    }
}

/// The table of letters lists every supported code at its slot, and nothing
/// else.
pub proof fn lemma_letter_table(c: u8)
    ensures
        is_supported(c) ==> 0 <= slot_of(c) < 56 && LETTER_DATA[slot_of(c)] == c,
        forall|k: int| 0 <= k < 56 && LETTER_DATA[k] == c ==> is_supported(c) && k == slot_of(c),
{
}

/// Position of the first occurrence of `element` in `arr`.
pub fn index_u8<const N: usize>(arr: &[u8; N], element: u8) -> (found: Option<usize>)
    ensures
        match found {
            Some(i) => i < N && arr[i as int] == element && forall|j: int|
                0 <= j < i ==> arr[j] != element,
            None => forall|j: int| 0 <= j < N ==> arr[j] != element,
        },
{
    let mut i: usize = 0;
    while i < N
        invariant
            i <= N,
            forall|j: int| 0 <= j < i ==> arr[j] != element,
        decreases N - i,
    {
        if arr[i] == element {
            return Some(i);
        }
        i += 1;
    }
    None
}

/// The glyph of the ASCII code `c`, or `None` where the font has none.
pub fn lookup_byte(c: u8) -> (glyph: Option<Glyph>)
    ensures
        glyph == glyph_of(c),
{
    proof {
        lemma_letter_table(c);
    }
    match index_u8(&LETTER_DATA, c) {
        Some(slot) => Some(FONT_DATA[slot]),
        None => None,
    }
}

/// The glyph of the character `c`, or `None` where the font has none: for
/// every character beyond ASCII, and for the ASCII characters outside the
/// supported set.
pub fn lookup(c: char) -> (glyph: Option<Glyph>)
    ensures
        glyph == glyph_of_char(c),
{
    let code: u32 = c as u32;
    if code < 128 {
        lookup_byte(code as u8)
    } else {
        None
    }
}

/// The bytes of `s`, if there are exactly `N` of them.
pub fn string_to_bytes<const N: usize>(s: &str) -> (bytes: Option<[u8; N]>)
    ensures
        bytes is Some <==> s.spec_bytes().len() == N,
        bytes matches Some(out) ==> out@ == s.spec_bytes(),
{
    let source = s.as_bytes();
    if source.len() == N {
        let mut i: usize = 0;
        let mut out: [u8; N] = [0; N];
        while i < N
            invariant
                i <= N,
                source@ == s.spec_bytes(),
                source@.len() == N,
                forall|j: int| 0 <= j < i ==> out[j] == source[j],
            decreases N - i,
        {
            out[i] = source[i];
            i += 1;
        }
        assert(out@ =~= s.spec_bytes());
        Some(out)
    } else {
        None
    }
}

/// The glyphs of a text of `N` supported characters, one for each byte; `None`
/// as soon as one byte has no glyph.
pub fn text_to_bitmap<const N: usize>(text: &[u8; N]) -> (bitmaps: Option<[[[bool; 5]; 8]; N]>)
    ensures
        bitmaps is Some <==> forall|i: int| 0 <= i < N ==> is_supported(#[trigger] text[i]),
        bitmaps matches Some(glyphs) ==> forall|i: int|
            0 <= i < N ==> Some(#[trigger] glyphs[i]) == glyph_of(text[i]),
{
    let mut result = [[[false; 5]; 8]; N];
    let mut i: usize = 0;
    while i < N
        invariant
            i <= N,
            forall|j: int| 0 <= j < i ==> is_supported(#[trigger] text[j]),
            forall|j: int| 0 <= j < i ==> Some(#[trigger] result[j]) == glyph_of(text[j]),
        decreases N - i,
    {
        let c = text[i];
        proof {
            lemma_letter_table(c);
        }
        if let Some(slot) = index_u8(&LETTER_DATA, c) {
            result[i] = FONT_DATA[slot];
        } else {
            assert(!is_supported(text[i as int]));
            return None;
        }
        i += 1;
    }
    Some(result)
}

/// Whether at least one cell of `glyph` is inked.
pub open spec fn has_ink(glyph: Glyph) -> bool {
    exists|row: int, col: int| 0 <= row < 8 && 0 <= col < 5 && #[trigger] glyph[row][col]
}

/// Every supported character has a glyph of eight rows of five cells, and the
/// space is the only one whose glyph is empty.
pub proof fn lemma_supported_glyphs(c: u8)
    requires
        is_supported(c),
    ensures
        glyph_of(c) is Some,
        glyph_of(c).unwrap()@.len() == 8,
        forall|row: int| 0 <= row < 8 ==> (#[trigger] glyph_of(c).unwrap()[row])@.len() == 5,
        c != 32 ==> has_ink(glyph_of(c).unwrap()),
        c == 32 ==> !has_ink(glyph_of(c).unwrap()),
{
    let glyph = glyph_of(c).unwrap();
    if c != 32 {
        assert(glyph[3][0] || glyph[6][2] || glyph[5][3]);
    }
}

/// The glyphs that a message is drawn with: those of its supported bytes, in
/// the order of the message. A byte without a glyph contributes nothing.
pub open spec fn text_glyphs(message: Seq<u8>) -> Seq<Glyph> {
    message.filter_map(|c: u8| glyph_of(c))
}

/// The glyphs of the supported bytes of `message`, in order.
pub fn message_glyphs(message: &[u8]) -> (glyphs: Vec<Glyph>)
    ensures
        glyphs@ == text_glyphs(message@),
{
    let mut glyphs: Vec<Glyph> = Vec::new();
    let mut i: usize = 0;
    assert(message@.take(0) =~= Seq::<u8>::empty());
    while i < message.len()
        invariant
            i <= message@.len(),
            glyphs@ == text_glyphs(message@.take(i as int)),
        decreases message@.len() - i,
    {
        proof {
            message@.lemma_filter_map_take_succ(|c: u8| glyph_of(c), i as int);
        }
        if let Some(glyph) = lookup_byte(message[i]) {
            glyphs.push(glyph);
        }
        i += 1;
    }
    assert(message@.take(i as int) =~= message@);
    glyphs
}

/// The glyphs of two texts written one after the other are the glyphs of the
/// first followed by those of the second.
pub proof fn lemma_text_glyphs_concat(a: Seq<u8>, b: Seq<u8>)
    ensures
        text_glyphs(a + b) == text_glyphs(a) + text_glyphs(b),
    decreases b.len(),
{
    if b.len() == 0 {
        assert(a + b =~= a);
        assert(text_glyphs(a) + text_glyphs(b) =~= text_glyphs(a));
    } else {
        assert((a + b).drop_last() =~= a + b.drop_last());
        assert((a + b).last() == b.last());
        lemma_text_glyphs_concat(a, b.drop_last());
        assert(text_glyphs(a + b) =~= text_glyphs(a) + text_glyphs(b));
    }
}

/// A byte without a glyph is passed over in silence: the message is drawn
/// with the same glyphs as the message without that byte.
pub proof fn lemma_unsupported_byte_is_skipped(message: Seq<u8>, i: int)
    requires
        0 <= i < message.len(),
        !is_supported(message[i]),
    ensures
        text_glyphs(message) == text_glyphs(message.remove(i)),
{
    let head = message.take(i);
    let tail = message.skip(i + 1);
    let one = seq![message[i]];
    assert(message =~= head + one + tail);
    assert(message.remove(i) =~= head + tail);
    lemma_text_glyphs_concat(head, one);
    lemma_text_glyphs_concat(head + one, tail);
    lemma_text_glyphs_concat(head, tail);
    Seq::lemma_filter_map_singleton(message[i], |c: u8| glyph_of(c));
    assert(text_glyphs(one) =~= Seq::<Glyph>::empty());
    assert(text_glyphs(head) + text_glyphs(one) =~= text_glyphs(head));
}

} // verus!
