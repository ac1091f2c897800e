//! Job identifiers: 128-bit UUIDs, written and read as text by the `uuid`
//! crate.

use vstd::prelude::*;

verus! {

/// The lowercase hexadecimal digit for `d`, which is below sixteen.
pub open spec fn hex_char(d: nat) -> char {
    if d < 10 {
        crate::text::digit_char(d)
    } else if d == 10 {
        'a'
    } else if d == 11 {
        'b'
    } else if d == 12 {
        'c'
    } else if d == 13 {
        'd'
    } else if d == 14 {
        'e'
    } else {
        'f'
    }
}

/// The last `count` hexadecimal digits of `v`, most significant first,
/// padded with zeros.
pub open spec fn hex_digits(v: nat, count: nat) -> Seq<char>
    decreases count,
{
    if count == 0 {
        Seq::empty()
    } else {
        hex_digits(v / 16, (count - 1) as nat).push(hex_char(v % 16))
    }
}

/// The hyphenated text of an id: its 32 lowercase hexadecimal digits in
/// groups of 8, 4, 4, 4 and 12, separated by hyphens.
pub open spec fn hyphenated(id: u128) -> Seq<char> {
    let h = hex_digits(id as nat, 32);
    h.subrange(0, 8) + seq!['-'] + h.subrange(8, 12) + seq!['-'] + h.subrange(12, 16) + seq!['-']
        + h.subrange(16, 20) + seq!['-'] + h.subrange(20, 32)
}

/// The value of a hexadecimal digit in either case, or `None` for any
/// other character.
pub open spec fn hex_value(c: char) -> Option<nat> {
    if '0' <= c && c <= '9' {
        Some((c as int - '0' as int) as nat)
    } else if 'a' <= c && c <= 'f' {
        Some((c as int - 'a' as int + 10) as nat)
    } else if 'A' <= c && c <= 'F' {
        Some((c as int - 'A' as int + 10) as nat)
    } else {
        None
    }
}

/// Every character of `t` is a hexadecimal digit.
pub open spec fn all_hex(t: Seq<char>) -> bool {
    forall|i: int| 0 <= i < t.len() ==> #[trigger] hex_value(t[i]) is Some
}

/// The number that hexadecimal digits denote, most significant first.
pub open spec fn hex_number(t: Seq<char>) -> nat
    decreases t.len(),
{
    if t.len() == 0 {
        0
    } else {
        hex_number(t.drop_last()) * 16 + hex_value(t.last())->0
    }
}

/// The 32 digits of a 36-character hyphenated text, its hyphens left out.
pub open spec fn hyphenated_digits(t: Seq<char>) -> Seq<char> {
    t.subrange(0, 8) + t.subrange(9, 13) + t.subrange(14, 18) + t.subrange(19, 23) + t.subrange(
        24,
        36,
    )
}

/// The value of a hyphenated text: 36 characters, hyphens at positions 8,
/// 13, 18 and 23, hexadecimal digits (of either case) everywhere else.
pub open spec fn hyphenated_value(t: Seq<char>) -> Option<nat> {
    if t.len() == 36 && t[8] == '-' && t[13] == '-' && t[18] == '-' && t[23] == '-' && all_hex(
        hyphenated_digits(t),
    ) {
        Some(hex_number(hyphenated_digits(t)))
    } else {
        None
    }
}

/// `c` and `d` are the same letter ignoring ASCII case, or the same
/// character.
pub open spec fn same_ignoring_ascii_case(c: char, d: char) -> bool {
    c == d || ('a' <= d && d <= 'z' && c as int == d as int - 32) || ('A' <= d && d <= 'Z' && c as int
        == d as int + 32)
}

/// The first nine characters of `t` spell `urn:uuid:` in any ASCII case.
pub open spec fn has_urn_prefix(t: Seq<char>) -> bool {
    t.len() >= 9 && forall|i: int|
        0 <= i < 9 ==> same_ignoring_ascii_case(#[trigger] t[i], "urn:uuid:"@[i])
}

/// The 128-bit value that `uuid::Uuid::parse_str` reads from a text, or
/// `None` where it refuses the text. It accepts four layouts, with
/// hexadecimal digits of either case: 32 digits; the hyphenated form; the
/// hyphenated form in braces; and the hyphenated form after `urn:uuid:`
/// (that prefix in any case).
pub open spec fn uuid_text_value(s: Seq<char>) -> Option<nat> {
    if s.len() == 32 {
        if all_hex(s) {
            Some(hex_number(s))
        } else {
            None
        }
    } else if s.len() == 36 {
        hyphenated_value(s)
    } else if s.len() == 38 && s[0] == '{' && s[37] == '}' {
        hyphenated_value(s.subrange(1, 37))
    } else if s.len() == 45 && has_urn_prefix(s) {
        hyphenated_value(s.subrange(9, 45))
    } else {
        None
    }
}

/// Sixteen to the `n`-th power.
pub open spec fn pow16(n: nat) -> nat
    decreases n,
{
    if n == 0 {
        1
    } else {
        16 * pow16((n - 1) as nat)
    }
}

proof fn lemma_pow16_positive(n: nat)
    ensures
        pow16(n) > 0,
    decreases n,
{
    if n > 0 {
        lemma_pow16_positive((n - 1) as nat);
    }
}

proof fn lemma_hex_char_injective(a: nat, b: nat)
    requires
        a < 16,
        b < 16,
        hex_char(a) == hex_char(b),
    ensures
        a == b,
{
}

/// Equal digit strings come from numbers that agree in those digits.
proof fn lemma_hex_digits_determine(a: nat, b: nat, n: nat)
    requires
        hex_digits(a, n) == hex_digits(b, n),
    ensures
        a % pow16(n) == b % pow16(n),
    decreases n,
{
    lemma_pow16_positive(n);
    if n > 0 {
        let m = (n - 1) as nat;
        let ha = hex_digits(a, n);
        let hb = hex_digits(b, n);
        assert(ha.drop_last() =~= hex_digits(a / 16, m));
        assert(hb.drop_last() =~= hex_digits(b / 16, m));
        assert(ha.last() == hex_char(a % 16));
        assert(hb.last() == hex_char(b % 16));
        lemma_hex_char_injective(a % 16, b % 16);
        lemma_hex_digits_determine(a / 16, b / 16, m);
        lemma_pow16_positive(m);
        vstd::arithmetic::div_mod::lemma_mod_breakdown(a as int, 16, pow16(m) as int);
        vstd::arithmetic::div_mod::lemma_mod_breakdown(b as int, 16, pow16(m) as int);
    }
}

proof fn lemma_hex_digits_len(v: nat, n: nat)
    ensures
        hex_digits(v, n).len() == n,
    decreases n,
{
    if n > 0 {
        lemma_hex_digits_len(v / 16, (n - 1) as nat);
    }
}

/// Two ids with the same hyphenated text are the same id.
pub proof fn lemma_hyphenated_injective(a: u128, b: u128)
    requires
        hyphenated(a) == hyphenated(b),
    ensures
        a == b,
{
    let ha = hex_digits(a as nat, 32);
    let hb = hex_digits(b as nat, 32);
    lemma_hex_digits_len(a as nat, 32);
    lemma_hex_digits_len(b as nat, 32);
    let ta = hyphenated(a);
    let tb = hyphenated(b);
    assert(ta.len() == 36);
    assert forall|i: int| 0 <= i < 32 implies ha[i] == hb[i] by {
        let j = if i < 8 { i } else if i < 12 { i + 1 } else if i < 16 { i + 2 } else if i < 20 { i + 3 } else { i + 4 };
        assert(ta[j] == ha[i]);
        assert(tb[j] == hb[i]);
    }
    assert(ha =~= hb);
    lemma_hex_digits_determine(a as nat, b as nat, 32);
    reveal_with_fuel(pow16, 33);
    assert(pow16(32) == 0x1_0000_0000_0000_0000_0000_0000_0000_0000);
    vstd::arithmetic::div_mod::lemma_small_mod(a as nat, pow16(32));
    vstd::arithmetic::div_mod::lemma_small_mod(b as nat, pow16(32));
}

proof fn lemma_hex_value_of_char(d: nat)
    requires
        d < 16,
    ensures
        hex_value(hex_char(d)) == Some(d),
{
}

/// Reading back `count` padded digits of `v` gives `v` modulo 16^count.
proof fn lemma_hex_number_of_digits(v: nat, count: nat)
    ensures
        all_hex(hex_digits(v, count)),
        hex_number(hex_digits(v, count)) == v % pow16(count),
    decreases count,
{
    lemma_pow16_positive(count);
    if count == 0 {
        assert(hex_digits(v, 0) =~= Seq::<char>::empty());
        vstd::arithmetic::div_mod::lemma_mod_self_0(1);
        assert(v % 1 == 0) by (nonlinear_arith);
    } else {
        let m = (count - 1) as nat;
        let t = hex_digits(v, count);
        lemma_hex_number_of_digits(v / 16, m);
        assert(t.drop_last() =~= hex_digits(v / 16, m));
        lemma_hex_value_of_char(v % 16);
        assert forall|i: int| 0 <= i < t.len() implies #[trigger] hex_value(t[i]) is Some by {
            if i < t.len() - 1 {
                assert(t[i] == t.drop_last()[i]);
            }
        }
        lemma_pow16_positive(m);
        vstd::arithmetic::div_mod::lemma_mod_breakdown(v as int, 16, pow16(m) as int);
    }
}

/// The hyphenated text of an id reads back as that id.
pub proof fn lemma_hyphenated_roundtrip(x: u128)
    ensures
        uuid_text_value(hyphenated(x)) == Some(x as nat),
{
    let h = hex_digits(x as nat, 32);
    let t = hyphenated(x);
    lemma_hex_digits_len(x as nat, 32);
    assert(t.len() == 36);
    assert(hyphenated_digits(t) =~= h);
    lemma_hex_number_of_digits(x as nat, 32);
    reveal_with_fuel(pow16, 33);
    assert(pow16(32) == 0x1_0000_0000_0000_0000_0000_0000_0000_0000);
    vstd::arithmetic::div_mod::lemma_small_mod(x as nat, pow16(32));
}

/// `uuid::Uuid::from_u128` then `to_string`: the hyphenated lowercase text
/// of the id.
#[verifier::external_body]
pub(crate) fn id_text(id: u128) -> (r: String)
    ensures
        r@ == hyphenated(id),
{
    uuid::Uuid::from_u128(id).to_string()
}

/// The message of the error that `uuid::Uuid::parse_str` gives for a text it
/// refuses. The parser's error records only what it found in the text (a
/// length, a character and its place, a group), so the message is a
/// function of the text alone.
pub uninterp spec fn uuid_error_text(s: Seq<char>) -> Seq<char>;

/// `uuid::Uuid::parse_str` then `as_u128`: the id a text denotes, in any of
/// the four layouts the parser accepts. On refusal the `uuid` error's
/// message, the text's `uuid_error_text`, is handed back.
#[verifier::external_body]
pub(crate) fn parse_id(s: &str) -> (r: Result<u128, String>)
    ensures
        r is Ok <==> uuid_text_value(s@) is Some,
        r matches Ok(v) ==> uuid_text_value(s@) == Some(v as nat),
        r matches Err(m) ==> m@ == uuid_error_text(s@),
{
    match uuid::Uuid::parse_str(s) {
        Ok(u) => Ok(u.as_u128()),
        Err(e) => Err(e.to_string()),
    }
}

} // verus!
