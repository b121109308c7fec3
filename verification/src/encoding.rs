//! Standard base64 (RFC 4648: the alphabet `A-Z a-z 0-9 + /`, padded with `=`)
//! and the decoding that undoes it.
use vstd::prelude::*;

verus! {

/// The character of the standard alphabet for a six-bit value `v < 64`.
pub open spec fn base64_char(v: int) -> char {
    if v < 26 {
        (65 + v) as char
    } else if v < 52 {
        (97 + v - 26) as char
    } else if v < 62 {
        (48 + v - 52) as char
    } else if v == 62 {
        '+'
    } else {
        '/'
    }
}

/// The six-bit value of a character of the standard alphabet (0 for any other).
pub open spec fn base64_value(c: char) -> int {
    let u = c as int;
    if 65 <= u <= 90 {
        u - 65
    } else if 97 <= u <= 122 {
        u - 71
    } else if 48 <= u <= 57 {
        u + 4
    } else if u == 43 {
        62
    } else if u == 47 {
        63
    } else {
        0
    }
}

/// The standard base64 text of the bytes: each group of three bytes becomes four
/// characters of six bits each; a last group of one or two bytes is padded with
/// zero bits and then with `=` to four characters.
pub open spec fn base64_standard_text(bytes: Seq<u8>) -> Seq<char>
    decreases bytes.len(),
{
    if bytes.len() == 0 {
        Seq::empty()
    } else if bytes.len() == 1 {
        let b0 = bytes[0] as int;
        seq![base64_char(b0 / 4), base64_char((b0 % 4) * 16), '=', '=']
    } else if bytes.len() == 2 {
        let b0 = bytes[0] as int;
        let b1 = bytes[1] as int;
        seq![
            base64_char(b0 / 4),
            base64_char((b0 % 4) * 16 + b1 / 16),
            base64_char((b1 % 16) * 4),
            '=',
        ]
    } else {
        let b0 = bytes[0] as int;
        let b1 = bytes[1] as int;
        let b2 = bytes[2] as int;
        seq![
            base64_char(b0 / 4),
            base64_char((b0 % 4) * 16 + b1 / 16),
            base64_char((b1 % 16) * 4 + b2 / 64),
            base64_char(b2 % 64),
        ] + base64_standard_text(bytes.skip(3))
    }
}

/// The bytes of a standard base64 text: each group of four characters gives
/// three bytes, or fewer where the group ends in `=`.
pub open spec fn base64_decoded(text: Seq<char>) -> Seq<u8>
    decreases text.len(),
{
    if text.len() < 4 {
        Seq::empty()
    } else {
        let v0 = base64_value(text[0]);
        let v1 = base64_value(text[1]);
        let v2 = base64_value(text[2]);
        let v3 = base64_value(text[3]);
        let group = if text[2] == '=' {
            seq![(v0 * 4 + v1 / 16) as u8]
        } else if text[3] == '=' {
            seq![(v0 * 4 + v1 / 16) as u8, ((v1 % 16) * 16 + v2 / 4) as u8]
        } else {
            seq![
                (v0 * 4 + v1 / 16) as u8,
                ((v1 % 16) * 16 + v2 / 4) as u8,
                ((v2 % 4) * 64 + v3) as u8,
            ]
        };
        group + base64_decoded(text.skip(4))
    }
}

/// Every six-bit value is read back from its character, which is never `=`.
proof fn lemma_base64_char(v: int)
    requires
        0 <= v < 64,
    ensures
        base64_value(base64_char(v)) == v,
        base64_char(v) != '=',
{
}

/// Decoding the standard base64 text of bytes gives the bytes back.
pub proof fn lemma_base64_round_trip(bytes: Seq<u8>)
    ensures
        base64_decoded(base64_standard_text(bytes)) == bytes,
    decreases bytes.len(),
{
    if bytes.len() == 0 {
        return;
    }
    let b0 = bytes[0] as int;
    lemma_base64_char(b0 / 4);
    if bytes.len() == 1 {
        lemma_base64_char((b0 % 4) * 16);
        let t = base64_standard_text(bytes);
        assert(t == seq![base64_char(b0 / 4), base64_char((b0 % 4) * 16), '=', '=']);
        assert(t.skip(4) =~= Seq::<char>::empty());
        assert(base64_decoded(t.skip(4)) == Seq::<u8>::empty());
        assert(((b0 / 4) * 4 + ((b0 % 4) * 16) / 16) == b0);
        assert(base64_decoded(t) =~= bytes);
    } else if bytes.len() == 2 {
        let b1 = bytes[1] as int;
        lemma_base64_char((b0 % 4) * 16 + b1 / 16);
        lemma_base64_char((b1 % 16) * 4);
        let t = base64_standard_text(bytes);
        assert(t == seq![
            base64_char(b0 / 4),
            base64_char((b0 % 4) * 16 + b1 / 16),
            base64_char((b1 % 16) * 4),
            '=',
        ]);
        assert(t.skip(4) =~= Seq::<char>::empty());
        assert(base64_decoded(t.skip(4)) == Seq::<u8>::empty());
        assert(((b0 / 4) * 4 + ((b0 % 4) * 16 + b1 / 16) / 16) == b0);
        assert(((((b0 % 4) * 16 + b1 / 16) % 16) * 16 + ((b1 % 16) * 4) / 4) == b1);
        assert(base64_decoded(t) =~= bytes);
    } else {
        let b1 = bytes[1] as int;
        let b2 = bytes[2] as int;
        lemma_base64_char((b0 % 4) * 16 + b1 / 16);
        lemma_base64_char((b1 % 16) * 4 + b2 / 64);
        lemma_base64_char(b2 % 64);
        lemma_base64_round_trip(bytes.skip(3));
        let t = base64_standard_text(bytes);
        let head = seq![
            base64_char(b0 / 4),
            base64_char((b0 % 4) * 16 + b1 / 16),
            base64_char((b1 % 16) * 4 + b2 / 64),
            base64_char(b2 % 64),
        ];
        assert(t == head + base64_standard_text(bytes.skip(3)));
        assert(t.skip(4) =~= base64_standard_text(bytes.skip(3)));
        assert(t[2] == head[2] && t[3] == head[3]);
        assert(bytes =~= seq![bytes[0], bytes[1], bytes[2]] + bytes.skip(3));
        assert(base64_decoded(t) =~= bytes);
    }
}

} // verus!
