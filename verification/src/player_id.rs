//! Player UUIDs: their canonical text and their parsing.

use vstd::prelude::*;
use crate::text::push_char;

verus! {

/// The lowercase hexadecimal digit for a value below 16.
pub open spec fn hex_char(n: u128) -> char {
    if n < 10 {
        (48 + n) as char
    } else {
        (87 + n) as char
    }
}

/// The `i`-th hexadecimal digit of `v`, counting from the most significant.
pub open spec fn nibble(v: u128, i: int) -> u128 {
    (v >> (((31 - i) * 4) as u128)) & 0xf
}

/// Digits `from..to` of `v` as lowercase hexadecimal characters.
pub open spec fn hex_digits(v: u128, from: int, to: int) -> Seq<char> {
    Seq::new((to - from) as nat, |k: int| hex_char(nibble(v, from + k)))
}

/// The hyphenated lowercase text of a UUID, grouped 8-4-4-4-12,
/// e.g. `67e55044-10b1-426f-9247-bb680e5fe0c8`.
pub open spec fn hyphenated(v: u128) -> Seq<char> {
    hex_digits(v, 0, 8) + seq!['-'] + hex_digits(v, 8, 12) + seq!['-'] + hex_digits(v, 12, 16)
        + seq!['-'] + hex_digits(v, 16, 20) + seq!['-'] + hex_digits(v, 20, 32)
}

proof fn lemma_nibbles_determine_value(a: u128, b: u128)
    requires
        forall|i: int| 0 <= i < 32 ==> #[trigger] nibble(a, i) == nibble(b, i),
    ensures
        a == b,
{
    assert(nibble(a, 0) == nibble(b, 0));
    assert(nibble(a, 1) == nibble(b, 1));
    assert(nibble(a, 2) == nibble(b, 2));
    assert(nibble(a, 3) == nibble(b, 3));
    assert(nibble(a, 4) == nibble(b, 4));
    assert(nibble(a, 5) == nibble(b, 5));
    assert(nibble(a, 6) == nibble(b, 6));
    assert(nibble(a, 7) == nibble(b, 7));
    assert(nibble(a, 8) == nibble(b, 8));
    assert(nibble(a, 9) == nibble(b, 9));
    assert(nibble(a, 10) == nibble(b, 10));
    assert(nibble(a, 11) == nibble(b, 11));
    assert(nibble(a, 12) == nibble(b, 12));
    assert(nibble(a, 13) == nibble(b, 13));
    assert(nibble(a, 14) == nibble(b, 14));
    assert(nibble(a, 15) == nibble(b, 15));
    assert(nibble(a, 16) == nibble(b, 16));
    assert(nibble(a, 17) == nibble(b, 17));
    assert(nibble(a, 18) == nibble(b, 18));
    assert(nibble(a, 19) == nibble(b, 19));
    assert(nibble(a, 20) == nibble(b, 20));
    assert(nibble(a, 21) == nibble(b, 21));
    assert(nibble(a, 22) == nibble(b, 22));
    assert(nibble(a, 23) == nibble(b, 23));
    assert(nibble(a, 24) == nibble(b, 24));
    assert(nibble(a, 25) == nibble(b, 25));
    assert(nibble(a, 26) == nibble(b, 26));
    assert(nibble(a, 27) == nibble(b, 27));
    assert(nibble(a, 28) == nibble(b, 28));
    assert(nibble(a, 29) == nibble(b, 29));
    assert(nibble(a, 30) == nibble(b, 30));
    assert(nibble(a, 31) == nibble(b, 31));
    assert(a == b) by (bit_vector)
        requires
            (a >> 124u128) & 0xf == (b >> 124u128) & 0xf,
            (a >> 120u128) & 0xf == (b >> 120u128) & 0xf,
            (a >> 116u128) & 0xf == (b >> 116u128) & 0xf,
            (a >> 112u128) & 0xf == (b >> 112u128) & 0xf,
            (a >> 108u128) & 0xf == (b >> 108u128) & 0xf,
            (a >> 104u128) & 0xf == (b >> 104u128) & 0xf,
            (a >> 100u128) & 0xf == (b >> 100u128) & 0xf,
            (a >> 96u128) & 0xf == (b >> 96u128) & 0xf,
            (a >> 92u128) & 0xf == (b >> 92u128) & 0xf,
            (a >> 88u128) & 0xf == (b >> 88u128) & 0xf,
            (a >> 84u128) & 0xf == (b >> 84u128) & 0xf,
            (a >> 80u128) & 0xf == (b >> 80u128) & 0xf,
            (a >> 76u128) & 0xf == (b >> 76u128) & 0xf,
            (a >> 72u128) & 0xf == (b >> 72u128) & 0xf,
            (a >> 68u128) & 0xf == (b >> 68u128) & 0xf,
            (a >> 64u128) & 0xf == (b >> 64u128) & 0xf,
            (a >> 60u128) & 0xf == (b >> 60u128) & 0xf,
            (a >> 56u128) & 0xf == (b >> 56u128) & 0xf,
            (a >> 52u128) & 0xf == (b >> 52u128) & 0xf,
            (a >> 48u128) & 0xf == (b >> 48u128) & 0xf,
            (a >> 44u128) & 0xf == (b >> 44u128) & 0xf,
            (a >> 40u128) & 0xf == (b >> 40u128) & 0xf,
            (a >> 36u128) & 0xf == (b >> 36u128) & 0xf,
            (a >> 32u128) & 0xf == (b >> 32u128) & 0xf,
            (a >> 28u128) & 0xf == (b >> 28u128) & 0xf,
            (a >> 24u128) & 0xf == (b >> 24u128) & 0xf,
            (a >> 20u128) & 0xf == (b >> 20u128) & 0xf,
            (a >> 16u128) & 0xf == (b >> 16u128) & 0xf,
            (a >> 12u128) & 0xf == (b >> 12u128) & 0xf,
            (a >> 8u128) & 0xf == (b >> 8u128) & 0xf,
            (a >> 4u128) & 0xf == (b >> 4u128) & 0xf,
            (a >> 0u128) & 0xf == (b >> 0u128) & 0xf,
    ;
}

/// Different UUIDs have different texts, so a player's text identifies
/// the player.
pub proof fn lemma_hyphenated_injective(a: u128, b: u128)
    requires
        hyphenated(a) == hyphenated(b),
    ensures
        a == b,
{
    assert forall|i: int| 0 <= i < 32 implies #[trigger] nibble(a, i) == nibble(b, i) by {
        let p = if i < 8 { i } else if i < 12 { i + 1 } else if i < 16 { i + 2 } else if i < 20 { i + 3 } else { i + 4 };
        assert(hyphenated(a)[p] == hex_char(nibble(a, i)));
        assert(hyphenated(b)[p] == hex_char(nibble(b, i)));
        let sh = ((31 - i) * 4) as u128;
        let na = nibble(a, i);
        let nb = nibble(b, i);
        assert(na == (a >> sh) & 0xf && nb == (b >> sh) & 0xf);
        assert(na < 16 && nb < 16) by (bit_vector)
            requires
                na == (a >> sh) & 0xf,
                nb == (b >> sh) & 0xf,
        ;
    }
    lemma_nibbles_determine_value(a, b);
}

/// The UUID that the `uuid` crate reads from a text, if it reads one.
pub uninterp spec fn uuid_parse_str(text: Seq<char>) -> Option<u128>;

/// Reads a UUID with `uuid::Uuid::parse_str`, which accepts the simple,
/// hyphenated, braced and URN forms, and gives its 128-bit value
/// (`Uuid::as_u128`, most significant byte first). The contract names the
/// result and states one fact of the crate: the hyphenated text of a value
/// reads back as that value.
#[verifier::external_body]
fn parse_uuid_value(text: &str) -> (r: Option<u128>)
    ensures
        r == uuid_parse_str(text@),
        forall|v: u128| text@ == hyphenated(v) ==> r == Some(v),
{
    match uuid::Uuid::parse_str(text) {
        Ok(u) => Some(u.as_u128()),
        Err(_) => None,
    }
}

/// Parses the text of a UUID.
pub fn parse_uuid(text: &str) -> (r: Option<u128>)
    ensures
        r == uuid_parse_str(text@),
        forall|v: u128| text@ == hyphenated(v) ==> r == Some(v),
{
    parse_uuid_value(text)
}

fn push_hex_digits(s: &mut String, v: u128, from: usize, to: usize)
    requires
        from <= to <= 32,
    ensures
        final(s)@ == old(s)@ + hex_digits(v, from as int, to as int),
{
    let ghost start = s@;
    let mut i: usize = from;
    while i < to
        invariant
            from <= i <= to <= 32,
            s@ == start + hex_digits(v, from as int, i as int),
        decreases to - i,
    {
        let shift: u128 = ((31 - i) * 4) as u128;
        let n: u128 = (v >> shift) & 0xf;
        assert(n < 16) by (bit_vector)
            requires
                n == (v >> shift) & 0xf,
        ;
        let c: char = if n < 10 {
            ((48 + n) as u8) as char
        } else {
            ((87 + n) as u8) as char
        };
        assert(c == hex_char(nibble(v, i as int)));
        push_char(s, c);
        assert(hex_digits(v, from as int, i + 1) =~= hex_digits(v, from as int, i as int).push(c));
        i = i + 1;
    }
}

/// The hyphenated lowercase text of a UUID, as `Uuid`'s `Display` writes it.
pub fn uuid_text(v: u128) -> (r: String)
    ensures
        r@ == hyphenated(v),
{
    let mut s = String::new();
    push_hex_digits(&mut s, v, 0, 8);
    push_char(&mut s, '-');
    push_hex_digits(&mut s, v, 8, 12);
    push_char(&mut s, '-');
    push_hex_digits(&mut s, v, 12, 16);
    push_char(&mut s, '-');
    push_hex_digits(&mut s, v, 16, 20);
    push_char(&mut s, '-');
    push_hex_digits(&mut s, v, 20, 32);
    assert(s@ =~= hyphenated(v));
    s
}

} // verus!
