//! Identifiers: how agent, session and stream identifiers are cut from the
//! text of a random UUID.

use vstd::prelude::*;
use vstd::string::StrSliceExecFns;
use crate::text::{push_char, to_upper, upper};

verus! {

/// A lower-case hexadecimal digit.
pub open spec fn is_lower_hex(c: char) -> bool {
    ('0' <= c && c <= '9') || ('a' <= c && c <= 'f')
}

/// An upper-case hexadecimal digit.
pub open spec fn is_upper_hex(c: char) -> bool {
    ('0' <= c && c <= '9') || ('A' <= c && c <= 'F')
}

/// The hyphenated lower-case text of a UUID: 36 characters, hyphens after
/// the groups of 8, 4, 4 and 4 digits, hexadecimal digits elsewhere.
pub open spec fn is_uuid_text(s: Seq<char>) -> bool {
    &&& s.len() == 36
    &&& forall|i: int|
        0 <= i < 36 ==> if i == 8 || i == 13 || i == 18 || i == 23 {
            #[trigger] s[i] == '-'
        } else {
            is_lower_hex(s[i])
        }
}

/// A session or stream identifier: eight lower-case hexadecimal digits.
pub open spec fn is_short_id(s: Seq<char>) -> bool {
    &&& s.len() == 8
    &&& forall|i: int| 0 <= i < 8 ==> is_lower_hex(#[trigger] s[i])
}

/// An agent identifier: two groups of four upper-case hexadecimal digits
/// with a hyphen between them.
pub open spec fn is_agent_id(s: Seq<char>) -> bool {
    &&& s.len() == 9
    &&& s[4] == '-'
    &&& forall|i: int| 0 <= i < 9 && i != 4 ==> is_upper_hex(#[trigger] s[i])
}

/// The agent identifier cut from a text of at least eight characters: its
/// first four characters in upper case, a hyphen, its next four in upper
/// case.
pub open spec fn agent_id_of(text: Seq<char>) -> Seq<char> {
    text.subrange(0, 4).map_values(|c: char| upper(c)).push('-') + text.subrange(4, 8).map_values(
        |c: char| upper(c),
    )
}

/// `Uuid::new_v4` of the `uuid` crate, written out by its `Display`: the
/// text of a random UUID. Which UUID is not stated, only its shape.
#[verifier::external_body]
pub(crate) fn random_uuid_text() -> (r: String)
    ensures
        is_uuid_text(r@),
{
    uuid::Uuid::new_v4().to_string()
}

/// The first eight characters of `text`.
pub fn short_id_from(text: &str) -> (r: String)
    requires
        text@.len() >= 8,
    ensures
        r@ == text@.subrange(0, 8),
{
    text.substring_char(0, 8).to_owned()
}

/// The agent identifier cut from `text`.
pub fn agent_id_from(text: &str) -> (r: String)
    requires
        text@.len() >= 8,
    ensures
        r@ == agent_id_of(text@),
{
    let mut out = String::new();
    let mut i: usize = 0;
    while i < 8
        invariant
            i <= 8,
            text@.len() >= 8,
            i <= 4 ==> out@ == text@.subrange(0, i as int).map_values(|c: char| upper(c)),
            i > 4 ==> out@ == text@.subrange(0, 4).map_values(|c: char| upper(c)).push('-')
                + text@.subrange(4, i as int).map_values(|c: char| upper(c)),
        decreases 8 - i,
    {
        if i == 4 {
            push_char(&mut out, '-');
        }
        let c = text.get_char(i);
        push_char(&mut out, to_upper(c));
        i = i + 1;
    }
    out
}

/// A fresh agent identifier, cut from a random UUID.
pub fn generate_agent_id() -> (r: String)
    ensures
        is_agent_id(r@),
{
    let uuid = random_uuid_text();
    let id = agent_id_from(uuid.as_str());
    proof {
        lemma_agent_id_shape(uuid@);
    }
    id
}

/// A fresh session or stream identifier, cut from a random UUID.
pub fn generate_short_id() -> (r: String)
    ensures
        is_short_id(r@),
{
    let uuid = random_uuid_text();
    short_id_from(uuid.as_str())
}

/// The agent identifier cut from the text of a UUID has the shape of an
/// agent identifier.
pub proof fn lemma_agent_id_shape(text: Seq<char>)
    requires
        is_uuid_text(text),
    ensures
        is_agent_id(agent_id_of(text)),
{
    let id = agent_id_of(text);
    assert forall|i: int| 0 <= i < 9 && i != 4 implies is_upper_hex(#[trigger] id[i]) by {
        if i < 4 {
            assert(id[i] == upper(text[i]));
            assert(is_lower_hex(text[i]));
        } else {
            assert(id[i] == upper(text[i - 1]));
            assert(is_lower_hex(text[i - 1]));
        }
    }
}

/// The lower-case hexadecimal digit for a number below sixteen.
pub open spec fn hex_char(d: int) -> char {
    if d < 10 {
        (48 + d) as u8 as char
    } else {
        (87 + d) as u8 as char
    }
}

/// The number that a lower-case hexadecimal digit stands for.
pub open spec fn hex_value(c: char) -> int {
    if '0' <= c && c <= '9' {
        c as u8 - 48
    } else {
        c as u8 - 87
    }
}

/// The number `n`, below 2^32, as eight lower-case hexadecimal digits.
pub open spec fn hex8_text(n: nat) -> Seq<char> {
    seq![
        hex_char(((n / 0x1000_0000) % 16) as int),
        hex_char(((n / 0x100_0000) % 16) as int),
        hex_char(((n / 0x10_0000) % 16) as int),
        hex_char(((n / 0x1_0000) % 16) as int),
        hex_char(((n / 0x1000) % 16) as int),
        hex_char(((n / 0x100) % 16) as int),
        hex_char(((n / 0x10) % 16) as int),
        hex_char((n % 16) as int),
    ]
}

/// The number that a session identifier stands for as hexadecimal digits.
pub open spec fn short_id_number(s: Seq<char>) -> nat {
    (hex_value(s[0]) * 0x1000_0000 + hex_value(s[1]) * 0x100_0000 + hex_value(s[2]) * 0x10_0000 + hex_value(
        s[3],
    ) * 0x1_0000 + hex_value(s[4]) * 0x1000 + hex_value(s[5]) * 0x100 + hex_value(s[6]) * 0x10 + hex_value(
        s[7],
    )) as nat
}

/// A number written with eight digits to the base sixteen gives those
/// digits back, place by place.
proof fn lemma_digits_of_number(d0: int, d1: int, d2: int, d3: int, d4: int, d5: int, d6: int, d7: int)
    requires
        0 <= d0 < 16,
        0 <= d1 < 16,
        0 <= d2 < 16,
        0 <= d3 < 16,
        0 <= d4 < 16,
        0 <= d5 < 16,
        0 <= d6 < 16,
        0 <= d7 < 16,
    ensures
        ({
            let n = d0 * 0x1000_0000 + d1 * 0x100_0000 + d2 * 0x10_0000 + d3 * 0x1_0000 + d4 * 0x1000 + d5
                * 0x100 + d6 * 0x10 + d7;
            &&& 0 <= n < 0x1_0000_0000
            &&& (n / 0x1000_0000) % 16 == d0
            &&& (n / 0x100_0000) % 16 == d1
            &&& (n / 0x10_0000) % 16 == d2
            &&& (n / 0x1_0000) % 16 == d3
            &&& (n / 0x1000) % 16 == d4
            &&& (n / 0x100) % 16 == d5
            &&& (n / 0x10) % 16 == d6
            &&& n % 16 == d7
        }),
{
    let n = d0 * 0x1000_0000 + d1 * 0x100_0000 + d2 * 0x10_0000 + d3 * 0x1_0000 + d4 * 0x1000 + d5 * 0x100
        + d6 * 0x10 + d7;
    let a1 = d0 * 16 + d1;
    let a2 = a1 * 16 + d2;
    let a3 = a2 * 16 + d3;
    let a4 = a3 * 16 + d4;
    let a5 = a4 * 16 + d5;
    let a6 = a5 * 16 + d6;
    assert(n == a6 * 16 + d7);
    assert(n / 0x10 == a6);
    assert(n / 0x100 == a5) by {
        assert(n / 0x100 == (n / 0x10) / 16);
    }
    assert(n / 0x1000 == a4) by {
        assert(n / 0x1000 == (n / 0x100) / 16);
    }
    assert(n / 0x1_0000 == a3) by {
        assert(n / 0x1_0000 == (n / 0x1000) / 16);
    }
    assert(n / 0x10_0000 == a2) by {
        assert(n / 0x10_0000 == (n / 0x1_0000) / 16);
    }
    assert(n / 0x100_0000 == a1) by {
        assert(n / 0x100_0000 == (n / 0x10_0000) / 16);
    }
    assert(n / 0x1000_0000 == d0) by {
        assert(n / 0x1000_0000 == (n / 0x100_0000) / 16);
    }
}

/// A lower-case hexadecimal digit stands for a number below sixteen whose
/// digit it is.
proof fn lemma_hex_value(c: char)
    requires
        is_lower_hex(c),
    ensures
        0 <= hex_value(c) < 16,
        hex_char(hex_value(c)) == c,
{
}

/// Every session identifier is the text of a number below 2^32.
pub proof fn lemma_short_id_has_a_number(s: Seq<char>)
    requires
        is_short_id(s),
    ensures
        short_id_number(s) < 0x1_0000_0000,
        hex8_text(short_id_number(s)) == s,
{
    assert(is_lower_hex(s[0]) && is_lower_hex(s[1]) && is_lower_hex(s[2]) && is_lower_hex(s[3]));
    assert(is_lower_hex(s[4]) && is_lower_hex(s[5]) && is_lower_hex(s[6]) && is_lower_hex(s[7]));
    lemma_hex_value(s[0]);
    lemma_hex_value(s[1]);
    lemma_hex_value(s[2]);
    lemma_hex_value(s[3]);
    lemma_hex_value(s[4]);
    lemma_hex_value(s[5]);
    lemma_hex_value(s[6]);
    lemma_hex_value(s[7]);
    lemma_digits_of_number(
        hex_value(s[0]),
        hex_value(s[1]),
        hex_value(s[2]),
        hex_value(s[3]),
        hex_value(s[4]),
        hex_value(s[5]),
        hex_value(s[6]),
        hex_value(s[7]),
    );
    assert(hex8_text(short_id_number(s)) =~= s);
}

/// The lower-case hexadecimal digit for `d`.
fn hex_digit(d: u32) -> (c: char)
    requires
        d < 16,
    ensures
        c == hex_char(d as int),
        is_lower_hex(c),
{
    let b: u8 = d as u8;
    if b < 10 {
        (48u8 + b) as char
    } else {
        (87u8 + b) as char
    }
}

/// The number `n` as eight lower-case hexadecimal digits.
pub fn hex8(n: u32) -> (r: String)
    ensures
        r@ == hex8_text(n as nat),
        is_short_id(r@),
{
    let mut s = String::new();
    push_char(&mut s, hex_digit((n / 0x1000_0000) % 16));
    push_char(&mut s, hex_digit((n / 0x100_0000) % 16));
    push_char(&mut s, hex_digit((n / 0x10_0000) % 16));
    push_char(&mut s, hex_digit((n / 0x1_0000) % 16));
    push_char(&mut s, hex_digit((n / 0x1000) % 16));
    push_char(&mut s, hex_digit((n / 0x100) % 16));
    push_char(&mut s, hex_digit((n / 0x10) % 16));
    push_char(&mut s, hex_digit(n % 16));
    assert(s@ =~= hex8_text(n as nat));
    s
}

} // verus!
