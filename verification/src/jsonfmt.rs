//! Verified building blocks for the line protocol's JSON text.
//!
//! The renderer protocol is this project's own format: one JSON object
//! per line, with a known tag and known fields.  These helpers produce
//! the canonical character sequences — decimal numbers, fixed-point
//! numbers, escaped strings — that the encoders in `protocol` concatenate,
//! each pinned to a specification-level sequence.

use vstd::prelude::*;

verus! {

/// The character of one decimal digit.
pub open spec fn digit_char(d: nat) -> char {
    if d == 0 {
        '0'
    } else if d == 1 {
        '1'
    } else if d == 2 {
        '2'
    } else if d == 3 {
        '3'
    } else if d == 4 {
        '4'
    } else if d == 5 {
        '5'
    } else if d == 6 {
        '6'
    } else if d == 7 {
        '7'
    } else if d == 8 {
        '8'
    } else {
        '9'
    }
}

/// The character of one lower-case hexadecimal digit.
pub open spec fn hex_char(d: nat) -> char {
    if d < 10 {
        digit_char(d)
    } else if d == 10 {
        'a'
    } else if d == 11 {
        'b'
    } else if d == 12 {
        'c'
    } else if d == 13 {
        'd'
    } else if d == 14 {
        'e'
    } else {
        'f'
    }
}

/// Decimal digits of `n`, most significant first.
pub open spec fn dec_digits(n: nat) -> Seq<char>
    decreases n,
{
    if n < 10 {
        seq![digit_char(n)]
    } else {
        dec_digits(n / 10).push(digit_char(n % 10))
    }
}

/// Four-digit zero-padded decimal of `f < 10000`.
pub open spec fn pad4(f: nat) -> Seq<char> {
    seq![
        digit_char((f / 1000) % 10),
        digit_char((f / 100) % 10),
        digit_char((f / 10) % 10),
        digit_char(f % 10),
    ]
}

/// Canonical fixed-point decimal of `v` at scale 10000: an optional
/// minus sign, the whole part, a point, and exactly four fraction digits.
pub open spec fn dec_fixed(v: int) -> Seq<char> {
    let mag = (if v < 0 {
        -v
    } else {
        v
    }) as nat;
    let sign: Seq<char> = if v < 0 {
        seq!['-']
    } else {
        Seq::empty()
    };
    sign + dec_digits(mag / 10000) + seq!['.'] + pad4(mag % 10000)
}

/// Canonical escape of one character inside a JSON string.
pub open spec fn esc_char(c: char) -> Seq<char> {
    if c == '"' {
        seq!['\\', '"']
    } else if c == '\\' {
        seq!['\\', '\\']
    } else if c == '\u{8}' {
        seq!['\\', 'b']
    } else if c == '\t' {
        seq!['\\', 't']
    } else if c == '\n' {
        seq!['\\', 'n']
    } else if c == '\u{c}' {
        seq!['\\', 'f']
    } else if c == '\r' {
        seq!['\\', 'r']
    } else if (c as u32) < 32 {
        seq!['\\', 'u', '0', '0', hex_char((c as u32 / 16) as nat), hex_char((c as u32 % 16) as nat)]
    } else {
        seq![c]
    }
}

/// Canonical escape of a whole string body.
pub open spec fn json_escaped(s: Seq<char>) -> Seq<char>
    decreases s.len(),
{
    if s.len() == 0 {
        Seq::empty()
    } else {
        json_escaped(s.drop_last()) + esc_char(s.last())
    }
}

/// A JSON string literal: quotes around the escaped body.
pub open spec fn spec_quoted(s: Seq<char>) -> Seq<char> {
    seq!['"'] + json_escaped(s) + seq!['"']
}

/// One decimal digit as a string slice.
pub fn digit_str(d: u8) -> (r: &'static str)
    requires
        d < 10,
    ensures
        r@ == seq![digit_char(d as nat)],
{
    proof {
        reveal_strlit("0");
        reveal_strlit("1");
        reveal_strlit("2");
        reveal_strlit("3");
        reveal_strlit("4");
        reveal_strlit("5");
        reveal_strlit("6");
        reveal_strlit("7");
        reveal_strlit("8");
        reveal_strlit("9");
    }
    match d {
        0 => "0",
        1 => "1",
        2 => "2",
        3 => "3",
        4 => "4",
        5 => "5",
        6 => "6",
        7 => "7",
        8 => "8",
        _ => "9",
    }
}

/// Append the decimal digits of `n`.
pub fn append_u64(out: &mut String, n: u64)
    ensures
        final(out)@ == old(out)@ + dec_digits(n as nat),
    decreases n,
{
    if n >= 10 {
        append_u64(out, n / 10);
    }
    out.append(digit_str((n % 10) as u8));
    proof {
        assert(out@ =~= old(out)@ + dec_digits(n as nat));
    }
}

/// Append the canonical fixed-point decimal of `v`.
pub fn append_fixed(out: &mut String, v: i64)
    requires
        -0x8000_0000_0000 <= v <= 0x8000_0000_0000,
    ensures
        final(out)@ == old(out)@ + dec_fixed(v as int),
{
    let ghost pre = out@;
    let mag: u64 = if v < 0 {
        (-v) as u64
    } else {
        v as u64
    };
    if v < 0 {
        out.append("-");
        proof {
            reveal_strlit("-");
        }
    }
    append_u64(out, mag / 10000);
    out.append(".");
    proof {
        reveal_strlit(".");
    }
    let f: u64 = mag % 10000;
    out.append(digit_str(((f / 1000) % 10) as u8));
    out.append(digit_str(((f / 100) % 10) as u8));
    out.append(digit_str(((f / 10) % 10) as u8));
    out.append(digit_str((f % 10) as u8));
    proof {
        assert(out@ =~= pre + dec_fixed(v as int));
    }
}

/// Append `true` or `false`.
pub fn append_bool(out: &mut String, b: bool)
    ensures
        b ==> final(out)@ == old(out)@ + "true"@,
        !b ==> final(out)@ == old(out)@ + "false"@,
{
    if b {
        out.append("true");
    } else {
        out.append("false");
    }
}

/// Append the canonical escape of the body of `s`.
pub fn append_escaped(out: &mut String, s: &str)
    ensures
        final(out)@ == old(out)@ + json_escaped(s@),
{
    let ghost pre = out@;
    let len = s.unicode_len();
    let mut i: usize = 0;
    proof {
        assert(s@.take(0) =~= Seq::<char>::empty());
        assert(pre + json_escaped(s@.take(0)) =~= pre);
    }
    while i < len
        invariant
            len == s@.len(),
            i <= len,
            out@ == pre + json_escaped(s@.take(i as int)),
        decreases len - i,
    {
        let c = s.get_char(i);
        let ghost mid = out@;
        proof {
            assert(s@.take(i as int + 1).drop_last() =~= s@.take(i as int));
            assert(s@.take(i as int + 1).last() == s@[i as int]);
        }
        if c == '"' {
            out.append("\\\"");
            proof {
                reveal_strlit("\\\"");
            }
        } else if c == '\\' {
            out.append("\\\\");
            proof {
                reveal_strlit("\\\\");
            }
        } else if c == '\u{8}' {
            out.append("\\b");
            proof {
                reveal_strlit("\\b");
            }
        } else if c == '\t' {
            out.append("\\t");
            proof {
                reveal_strlit("\\t");
            }
        } else if c == '\n' {
            out.append("\\n");
            proof {
                reveal_strlit("\\n");
            }
        } else if c == '\u{c}' {
            out.append("\\f");
            proof {
                reveal_strlit("\\f");
            }
        } else if c == '\r' {
            out.append("\\r");
            proof {
                reveal_strlit("\\r");
            }
        } else if (c as u32) < 32 {
            out.append("\\u00");
            proof {
                reveal_strlit("\\u00");
            }
            let code: u32 = c as u32;
            out.append(hex_str((code / 16) as u8));
            out.append(hex_str((code % 16) as u8));
        } else {
            out.append(s.substring_char(i, i + 1));
            proof {
                assert(s@.subrange(i as int, i as int + 1) =~= seq![s@[i as int]]);
            }
        }
        proof {
            assert(out@ =~= mid + esc_char(c));
            assert(out@ =~= pre + json_escaped(s@.take(i as int + 1)));
        }
        i = i + 1;
    }
    proof {
        assert(s@.take(len as int) =~= s@);
    }
}

/// One lower-case hexadecimal digit as a string slice.
pub fn hex_str(d: u8) -> (r: &'static str)
    requires
        d < 16,
    ensures
        r@ == seq![hex_char(d as nat)],
{
    if d < 10 {
        digit_str(d)
    } else {
        proof {
            reveal_strlit("a");
            reveal_strlit("b");
            reveal_strlit("c");
            reveal_strlit("d");
            reveal_strlit("e");
            reveal_strlit("f");
        }
        match d {
            10 => "a",
            11 => "b",
            12 => "c",
            13 => "d",
            14 => "e",
            _ => "f",
        }
    }
}

/// Append a quoted, escaped JSON string literal.
pub fn append_quoted(out: &mut String, s: &str)
    ensures
        final(out)@ == old(out)@ + spec_quoted(s@),
{
    let ghost pre = out@;
    out.append("\"");
    proof {
        reveal_strlit("\"");
    }
    append_escaped(out, s);
    out.append("\"");
    proof {
        assert(out@ =~= pre + spec_quoted(s@));
    }
}


/// Two hexadecimal digit values with the same digit character are equal.
pub proof fn lemma_hex_char_injective(x: nat, y: nat)
    requires
        x < 16,
        y < 16,
        hex_char(x) == hex_char(y),
    ensures
        x == y,
{
}

/// Head form of the escape: the first character's escape, then the rest.
pub proof fn lemma_json_escaped_head(s: Seq<char>)
    requires
        s.len() > 0,
    ensures
        json_escaped(s) == esc_char(s[0]) + json_escaped(s.skip(1)),
    decreases s.len(),
{
    if s.len() == 1 {
        assert(s.skip(1) =~= Seq::<char>::empty());
        assert(s.drop_last() =~= Seq::<char>::empty());
        assert(json_escaped(s) =~= esc_char(s[0]) + json_escaped(s.skip(1)));
    } else {
        lemma_json_escaped_head(s.drop_last());
        assert(s.drop_last()[0] == s[0]);
        assert(s.drop_last().skip(1) =~= s.skip(1).drop_last());
        assert(s.skip(1).last() == s.last());
        assert(json_escaped(s) =~= esc_char(s[0]) + json_escaped(s.skip(1)));
    }
}

/// Shape of one character's escape: a raw character stands alone; a
/// short escape is a backslash and a letter other than `u`; a control
/// escape is six characters starting `\u00` and carrying the two hex
/// digits of the code.
pub proof fn lemma_esc_char_shape(c: char)
    ensures
        esc_char(c).len() == 1 || esc_char(c).len() == 2 || esc_char(c).len() == 6,
        esc_char(c).len() == 1 ==> esc_char(c) == seq![c] && c as u32 >= 32 && c != '"' && c
            != '\\',
        esc_char(c).len() == 2 ==> esc_char(c)[0] == '\\' && esc_char(c)[1] != 'u',
        esc_char(c).len() == 6 ==> esc_char(c)[0] == '\\' && esc_char(c)[1] == 'u' && esc_char(
            c,
        )[2] == '0' && esc_char(c)[3] == '0' && esc_char(c)[4] == hex_char(
            ((c as u32) / 16) as nat,
        ) && esc_char(c)[5] == hex_char(((c as u32) % 16) as nat) && (c as u32) < 32 && (
        c as u32) != 8 && (c as u32) != 9 && (c as u32) != 10 && (c as u32) != 12 && (c as u32)
            != 13,
{
    if c == '"' {
        assert(esc_char(c).len() == 2 && esc_char(c)[0] == '\\' && esc_char(c)[1] == '"');
    } else if c == '\\' {
        assert(esc_char(c).len() == 2 && esc_char(c)[0] == '\\' && esc_char(c)[1] == '\\');
    } else if c == '\u{8}' {
        assert(esc_char(c).len() == 2 && esc_char(c)[0] == '\\' && esc_char(c)[1] == 'b');
    } else if c == '\t' {
        assert(esc_char(c).len() == 2 && esc_char(c)[0] == '\\' && esc_char(c)[1] == 't');
    } else if c == '\n' {
        assert(esc_char(c).len() == 2 && esc_char(c)[0] == '\\' && esc_char(c)[1] == 'n');
    } else if c == '\u{c}' {
        assert(esc_char(c).len() == 2 && esc_char(c)[0] == '\\' && esc_char(c)[1] == 'f');
    } else if c == '\r' {
        assert(esc_char(c).len() == 2 && esc_char(c)[0] == '\\' && esc_char(c)[1] == 'r');
    } else if (c as u32) < 32 {
        assert(esc_char(c).len() == 6);
        assert((c as u32) / 16 < 16 && (c as u32) % 16 < 16);
        assert(hex_char(((c as u32) / 16) as nat) != 'u' && hex_char(((c as u32) % 16) as nat)
            != 'u');
        vstd::utf8::char_u32_cast(c, c as u32);
        vstd::utf8::char_u32_cast('\u{8}', 8);
        vstd::utf8::char_u32_cast('\t', 9);
        vstd::utf8::char_u32_cast('\n', 10);
        vstd::utf8::char_u32_cast('\u{c}', 12);
        vstd::utf8::char_u32_cast('\r', 13);
        assert((c as u32) != 8 && (c as u32) != 9 && (c as u32) != 10 && (c as u32) != 12 && (
        c as u32) != 13);
    } else {
        assert(esc_char(c) == seq![c]);
    }
}

/// Different characters have different escapes.
pub proof fn lemma_esc_char_injective(a: char, b: char)
    requires
        esc_char(a) == esc_char(b),
    ensures
        a == b,
{
    lemma_esc_char_shape(a);
    lemma_esc_char_shape(b);
    if esc_char(a).len() == 1 {
        assert(esc_char(a)[0] == a && esc_char(b)[0] == b);
    } else if esc_char(a).len() == 2 {
        if a != b {
            assert(esc_char(a)[1] == esc_char(b)[1]);
            assert(false);
        }
    } else {
        assert(esc_char(a).len() == 6 && esc_char(b).len() == 6);
        lemma_hex_char_injective(((a as u32) / 16) as nat, ((b as u32) / 16) as nat);
        lemma_hex_char_injective(((a as u32) % 16) as nat, ((b as u32) % 16) as nat);
        assert(a as u32 == 16 * ((a as u32) / 16) + (a as u32) % 16);
        assert(b as u32 == 16 * ((b as u32) / 16) + (b as u32) % 16);
        assert(a as u32 == b as u32);
    }
}

/// Of two concatenations of an escape and a tail that form the same
/// text, the two escapes are the same.
pub proof fn lemma_esc_tokens_align(c1: char, c2: char, r1: Seq<char>, r2: Seq<char>)
    requires
        esc_char(c1) + r1 == esc_char(c2) + r2,
    ensures
        esc_char(c1) == esc_char(c2),
        r1 == r2,
{
    lemma_esc_char_shape(c1);
    lemma_esc_char_shape(c2);
    let x = esc_char(c1) + r1;
    assert(x[0] == esc_char(c1)[0]);
    assert(x[0] == esc_char(c2)[0]);
    if esc_char(c1)[0] == '\\' {
        assert(esc_char(c2)[0] == '\\');
        assert(esc_char(c1).len() != 1 && esc_char(c2).len() != 1);
        assert(x[1] == esc_char(c1)[1]);
        assert(x[1] == esc_char(c2)[1]);
        if esc_char(c1).len() == 2 {
            assert(esc_char(c1)[1] != 'u');
            assert(esc_char(c2).len() == 2);
        } else {
            assert(esc_char(c1)[1] == 'u');
            assert(esc_char(c2).len() == 6);
        }
    } else {
        assert(esc_char(c1).len() == 1);
        assert(esc_char(c2)[0] == x[0] && x[0] != '\\');
        assert(esc_char(c2).len() == 1);
    }
    assert(esc_char(c1).len() == esc_char(c2).len());
    assert forall|j: int| 0 <= j < esc_char(c1).len() implies esc_char(c1)[j] == esc_char(c2)[j] by {
        assert(x[j] == esc_char(c1)[j]);
        assert(x[j] == esc_char(c2)[j]);
    }
    assert(esc_char(c1) =~= esc_char(c2));
    assert(x.len() == esc_char(c1).len() + r1.len());
    assert((esc_char(c2) + r2).len() == esc_char(c2).len() + r2.len());
    assert(r1.len() == r2.len());
    assert forall|j: int| 0 <= j < r1.len() implies r1[j] == r2[j] by {
        assert(x[j + esc_char(c1).len()] == r1[j]);
        assert(x[j + esc_char(c2).len()] == r2[j]);
    }
    assert(r1 =~= r2);
}

/// An escaped body is empty only for the empty body.
pub proof fn lemma_json_escaped_empty(s: Seq<char>)
    requires
        json_escaped(s).len() == 0,
    ensures
        s.len() == 0,
{
    if s.len() > 0 {
        lemma_json_escaped_head(s);
        lemma_esc_char_shape(s[0]);
    }
}

/// Different bodies have different escaped forms.
pub proof fn lemma_json_escaped_injective(a: Seq<char>, b: Seq<char>)
    requires
        json_escaped(a) == json_escaped(b),
    ensures
        a == b,
    decreases a.len(),
{
    if a.len() == 0 {
        lemma_json_escaped_empty(b);
        assert(a =~= b);
    } else if b.len() == 0 {
        lemma_json_escaped_empty(a);
        assert(a =~= b);
    } else {
        lemma_json_escaped_head(a);
        lemma_json_escaped_head(b);
        lemma_esc_tokens_align(a[0], b[0], json_escaped(a.skip(1)), json_escaped(b.skip(1)));
        lemma_esc_char_injective(a[0], b[0]);
        lemma_json_escaped_injective(a.skip(1), b.skip(1));
        assert(seq![a[0]] + a.skip(1) =~= a);
        assert(seq![b[0]] + b.skip(1) =~= b);
    }
}

/// The value of one canonical lower-case hexadecimal digit, if the
/// character is one.
pub fn hex_val(c: char) -> (r: Option<u8>)
    ensures
        (r matches Some(v) ==> v < 16 && hex_char(v as nat) == c),
        r is None ==> forall|v: nat| v < 16 ==> hex_char(v) != c,
{
    match c {
        '0' => Some(0),
        '1' => Some(1),
        '2' => Some(2),
        '3' => Some(3),
        '4' => Some(4),
        '5' => Some(5),
        '6' => Some(6),
        '7' => Some(7),
        '8' => Some(8),
        '9' => Some(9),
        'a' => Some(10),
        'b' => Some(11),
        'c' => Some(12),
        'd' => Some(13),
        'e' => Some(14),
        'f' => Some(15),
        _ => None,
    }
}

/// Append the control character whose escape is `\u00` plus the two
/// hex digits, where such a character exists: codes below 32 that have
/// no short escape.
pub fn append_unescaped_control(m: &mut String, hi: u8, lo: u8) -> (ok: bool)
    requires
        hi < 16,
        lo < 16,
    ensures
        ok == (hi * 16 + lo < 32 && hi * 16 + lo != 8 && hi * 16 + lo != 9 && hi * 16 + lo != 10
            && hi * 16 + lo != 12 && hi * 16 + lo != 13),
        ok ==> final(m)@.len() == old(m)@.len() + 1 && final(m)@.drop_last() == old(m)@
            && esc_char(final(m)@.last()) == seq![
            '\\',
            'u',
            '0',
            '0',
            hex_char(hi as nat),
            hex_char(lo as nat),
        ],
        !ok ==> *final(m) == *old(m),
{
    let code: u32 = (hi as u32) * 16 + (lo as u32);
    if code == 8 || code == 9 || code == 10 || code == 12 || code == 13 || code >= 32 {
        return false;
    }
    if code == 0 {
        m.append("\u{0}");
        proof {
            reveal_strlit("\u{0}");
            assert("\u{0}"@ =~= seq!['\u{0}']);
            assert(code == 0);
            assert(esc_char('\u{0}') =~= seq![
                '\\',
                'u',
                '0',
                '0',
                hex_char((hi as nat)),
                hex_char((lo as nat)),
            ]);
        }
    } else if code == 1 {
        m.append("\u{1}");
        proof {
            reveal_strlit("\u{1}");
            assert("\u{1}"@ =~= seq!['\u{1}']);
            assert(code == 1);
            assert(esc_char('\u{1}') =~= seq![
                '\\',
                'u',
                '0',
                '0',
                hex_char((hi as nat)),
                hex_char((lo as nat)),
            ]);
        }
    } else if code == 2 {
        m.append("\u{2}");
        proof {
            reveal_strlit("\u{2}");
            assert("\u{2}"@ =~= seq!['\u{2}']);
            assert(code == 2);
            assert(esc_char('\u{2}') =~= seq![
                '\\',
                'u',
                '0',
                '0',
                hex_char((hi as nat)),
                hex_char((lo as nat)),
            ]);
        }
    } else if code == 3 {
        m.append("\u{3}");
        proof {
            reveal_strlit("\u{3}");
            assert("\u{3}"@ =~= seq!['\u{3}']);
            assert(code == 3);
            assert(esc_char('\u{3}') =~= seq![
                '\\',
                'u',
                '0',
                '0',
                hex_char((hi as nat)),
                hex_char((lo as nat)),
            ]);
        }
    } else if code == 4 {
        m.append("\u{4}");
        proof {
            reveal_strlit("\u{4}");
            assert("\u{4}"@ =~= seq!['\u{4}']);
            assert(code == 4);
            assert(esc_char('\u{4}') =~= seq![
                '\\',
                'u',
                '0',
                '0',
                hex_char((hi as nat)),
                hex_char((lo as nat)),
            ]);
        }
    } else if code == 5 {
        m.append("\u{5}");
        proof {
            reveal_strlit("\u{5}");
            assert("\u{5}"@ =~= seq!['\u{5}']);
            assert(code == 5);
            assert(esc_char('\u{5}') =~= seq![
                '\\',
                'u',
                '0',
                '0',
                hex_char((hi as nat)),
                hex_char((lo as nat)),
            ]);
        }
    } else if code == 6 {
        m.append("\u{6}");
        proof {
            reveal_strlit("\u{6}");
            assert("\u{6}"@ =~= seq!['\u{6}']);
            assert(code == 6);
            assert(esc_char('\u{6}') =~= seq![
                '\\',
                'u',
                '0',
                '0',
                hex_char((hi as nat)),
                hex_char((lo as nat)),
            ]);
        }
    } else if code == 7 {
        m.append("\u{7}");
        proof {
            reveal_strlit("\u{7}");
            assert("\u{7}"@ =~= seq!['\u{7}']);
            assert(code == 7);
            assert(esc_char('\u{7}') =~= seq![
                '\\',
                'u',
                '0',
                '0',
                hex_char((hi as nat)),
                hex_char((lo as nat)),
            ]);
        }
    } else if code == 11 {
        m.append("\u{b}");
        proof {
            reveal_strlit("\u{b}");
            assert("\u{b}"@ =~= seq!['\u{b}']);
            assert(code == 11);
            assert(esc_char('\u{b}') =~= seq![
                '\\',
                'u',
                '0',
                '0',
                hex_char((hi as nat)),
                hex_char((lo as nat)),
            ]);
        }
    } else if code == 14 {
        m.append("\u{e}");
        proof {
            reveal_strlit("\u{e}");
            assert("\u{e}"@ =~= seq!['\u{e}']);
            assert(code == 14);
            assert(esc_char('\u{e}') =~= seq![
                '\\',
                'u',
                '0',
                '0',
                hex_char((hi as nat)),
                hex_char((lo as nat)),
            ]);
        }
    } else if code == 15 {
        m.append("\u{f}");
        proof {
            reveal_strlit("\u{f}");
            assert("\u{f}"@ =~= seq!['\u{f}']);
            assert(code == 15);
            assert(esc_char('\u{f}') =~= seq![
                '\\',
                'u',
                '0',
                '0',
                hex_char((hi as nat)),
                hex_char((lo as nat)),
            ]);
        }
    } else if code == 16 {
        m.append("\u{10}");
        proof {
            reveal_strlit("\u{10}");
            assert("\u{10}"@ =~= seq!['\u{10}']);
            assert(code == 16);
            assert(esc_char('\u{10}') =~= seq![
                '\\',
                'u',
                '0',
                '0',
                hex_char((hi as nat)),
                hex_char((lo as nat)),
            ]);
        }
    } else if code == 17 {
        m.append("\u{11}");
        proof {
            reveal_strlit("\u{11}");
            assert("\u{11}"@ =~= seq!['\u{11}']);
            assert(code == 17);
            assert(esc_char('\u{11}') =~= seq![
                '\\',
                'u',
                '0',
                '0',
                hex_char((hi as nat)),
                hex_char((lo as nat)),
            ]);
        }
    } else if code == 18 {
        m.append("\u{12}");
        proof {
            reveal_strlit("\u{12}");
            assert("\u{12}"@ =~= seq!['\u{12}']);
            assert(code == 18);
            assert(esc_char('\u{12}') =~= seq![
                '\\',
                'u',
                '0',
                '0',
                hex_char((hi as nat)),
                hex_char((lo as nat)),
            ]);
        }
    } else if code == 19 {
        m.append("\u{13}");
        proof {
            reveal_strlit("\u{13}");
            assert("\u{13}"@ =~= seq!['\u{13}']);
            assert(code == 19);
            assert(esc_char('\u{13}') =~= seq![
                '\\',
                'u',
                '0',
                '0',
                hex_char((hi as nat)),
                hex_char((lo as nat)),
            ]);
        }
    } else if code == 20 {
        m.append("\u{14}");
        proof {
            reveal_strlit("\u{14}");
            assert("\u{14}"@ =~= seq!['\u{14}']);
            assert(code == 20);
            assert(esc_char('\u{14}') =~= seq![
                '\\',
                'u',
                '0',
                '0',
                hex_char((hi as nat)),
                hex_char((lo as nat)),
            ]);
        }
    } else if code == 21 {
        m.append("\u{15}");
        proof {
            reveal_strlit("\u{15}");
            assert("\u{15}"@ =~= seq!['\u{15}']);
            assert(code == 21);
            assert(esc_char('\u{15}') =~= seq![
                '\\',
                'u',
                '0',
                '0',
                hex_char((hi as nat)),
                hex_char((lo as nat)),
            ]);
        }
    } else if code == 22 {
        m.append("\u{16}");
        proof {
            reveal_strlit("\u{16}");
            assert("\u{16}"@ =~= seq!['\u{16}']);
            assert(code == 22);
            assert(esc_char('\u{16}') =~= seq![
                '\\',
                'u',
                '0',
                '0',
                hex_char((hi as nat)),
                hex_char((lo as nat)),
            ]);
        }
    } else if code == 23 {
        m.append("\u{17}");
        proof {
            reveal_strlit("\u{17}");
            assert("\u{17}"@ =~= seq!['\u{17}']);
            assert(code == 23);
            assert(esc_char('\u{17}') =~= seq![
                '\\',
                'u',
                '0',
                '0',
                hex_char((hi as nat)),
                hex_char((lo as nat)),
            ]);
        }
    } else if code == 24 {
        m.append("\u{18}");
        proof {
            reveal_strlit("\u{18}");
            assert("\u{18}"@ =~= seq!['\u{18}']);
            assert(code == 24);
            assert(esc_char('\u{18}') =~= seq![
                '\\',
                'u',
                '0',
                '0',
                hex_char((hi as nat)),
                hex_char((lo as nat)),
            ]);
        }
    } else if code == 25 {
        m.append("\u{19}");
        proof {
            reveal_strlit("\u{19}");
            assert("\u{19}"@ =~= seq!['\u{19}']);
            assert(code == 25);
            assert(esc_char('\u{19}') =~= seq![
                '\\',
                'u',
                '0',
                '0',
                hex_char((hi as nat)),
                hex_char((lo as nat)),
            ]);
        }
    } else if code == 26 {
        m.append("\u{1a}");
        proof {
            reveal_strlit("\u{1a}");
            assert("\u{1a}"@ =~= seq!['\u{1a}']);
            assert(code == 26);
            assert(esc_char('\u{1a}') =~= seq![
                '\\',
                'u',
                '0',
                '0',
                hex_char((hi as nat)),
                hex_char((lo as nat)),
            ]);
        }
    } else if code == 27 {
        m.append("\u{1b}");
        proof {
            reveal_strlit("\u{1b}");
            assert("\u{1b}"@ =~= seq!['\u{1b}']);
            assert(code == 27);
            assert(esc_char('\u{1b}') =~= seq![
                '\\',
                'u',
                '0',
                '0',
                hex_char((hi as nat)),
                hex_char((lo as nat)),
            ]);
        }
    } else if code == 28 {
        m.append("\u{1c}");
        proof {
            reveal_strlit("\u{1c}");
            assert("\u{1c}"@ =~= seq!['\u{1c}']);
            assert(code == 28);
            assert(esc_char('\u{1c}') =~= seq![
                '\\',
                'u',
                '0',
                '0',
                hex_char((hi as nat)),
                hex_char((lo as nat)),
            ]);
        }
    } else if code == 29 {
        m.append("\u{1d}");
        proof {
            reveal_strlit("\u{1d}");
            assert("\u{1d}"@ =~= seq!['\u{1d}']);
            assert(code == 29);
            assert(esc_char('\u{1d}') =~= seq![
                '\\',
                'u',
                '0',
                '0',
                hex_char((hi as nat)),
                hex_char((lo as nat)),
            ]);
        }
    } else if code == 30 {
        m.append("\u{1e}");
        proof {
            reveal_strlit("\u{1e}");
            assert("\u{1e}"@ =~= seq!['\u{1e}']);
            assert(code == 30);
            assert(esc_char('\u{1e}') =~= seq![
                '\\',
                'u',
                '0',
                '0',
                hex_char((hi as nat)),
                hex_char((lo as nat)),
            ]);
        }
    } else {
        m.append("\u{1f}");
        proof {
            reveal_strlit("\u{1f}");
            assert("\u{1f}"@ =~= seq!['\u{1f}']);
            assert(code == 31);
            assert(esc_char('\u{1f}') =~= seq![
                '\\',
                'u',
                '0',
                '0',
                hex_char((hi as nat)),
                hex_char((lo as nat)),
            ]);
        }
    }
    true
}

} // verus!
