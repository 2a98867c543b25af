//! Verified text codecs: decimal numerals, hexadecimal byte strings, and the
//! prefixed identifier format (`acc_<n>`, `ses_<n>`) used inside access-token
//! claims.  Formatting and parsing are proved to be exact inverses on the
//! canonical forms.

use vstd::prelude::*;

verus! {

// ---------------------------------------------------------------------------
// Decimal numerals
// ---------------------------------------------------------------------------

pub open spec fn is_dec_digit(c: char) -> bool {
    '0' <= c && c <= '9'
}

pub open spec fn digit_val(c: char) -> nat
    recommends
        is_dec_digit(c),
{
    (c as nat - '0' as nat) as nat
}

pub open spec fn dec_char(d: nat) -> char
    recommends
        d < 10,
{
    if d == 0 {
        '0'
    } else if d == 1 {
        '1'
    } else if d == 2 {
        '2'
    } else if d == 3 {
        '3'
    } else if d == 4 {
        '4'
    } else if d == 5 {
        '5'
    } else if d == 6 {
        '6'
    } else if d == 7 {
        '7'
    } else if d == 8 {
        '8'
    } else {
        '9'
    }
}

/// The canonical decimal numeral of `n` (no leading zeros, `0` for zero).
pub open spec fn dec_digits_of(n: nat) -> Seq<char>
    decreases n,
{
    if n < 10 {
        seq![dec_char(n)]
    } else {
        dec_digits_of(n / 10).push(dec_char(n % 10))
    }
}

/// The numeric value of a digit string.
pub open spec fn dec_val(s: Seq<char>) -> nat
    decreases s.len(),
{
    if s.len() == 0 {
        0
    } else {
        dec_val(s.drop_last()) * 10 + digit_val(s.last())
    }
}

/// A canonical numeral: nonempty, digits only, no leading zero.
pub open spec fn is_canonical_dec(s: Seq<char>) -> bool {
    &&& s.len() > 0
    &&& forall|k: int| 0 <= k < s.len() ==> is_dec_digit(#[trigger] s[k])
    &&& (s.len() > 1 ==> s[0] != '0')
}

proof fn lemma_dec_char_digit(d: nat)
    requires
        d < 10,
    ensures
        is_dec_digit(dec_char(d)),
        digit_val(dec_char(d)) == d,
{
}

proof fn lemma_digit_dec_char(c: char)
    requires
        is_dec_digit(c),
    ensures
        dec_char(digit_val(c)) == c,
{
}

proof fn lemma_dec_val_singleton(c: char)
    ensures
        dec_val(seq![c]) == digit_val(c),
{
    assert(seq![c].drop_last() =~= Seq::<char>::empty());
    assert(dec_val(Seq::<char>::empty()) == 0);
    assert(seq![c].last() == c);
}

/// The canonical numeral of `n` is canonical and evaluates back to `n`.
pub proof fn lemma_dec_digits_of_val(n: nat)
    ensures
        is_canonical_dec(dec_digits_of(n)),
        dec_val(dec_digits_of(n)) == n,
        n > 0 ==> dec_digits_of(n)[0] != '0',
    decreases n,
{
    if n < 10 {
        lemma_dec_char_digit(n);
        lemma_dec_val_singleton(dec_char(n));
        assert(dec_digits_of(n) =~= seq![dec_char(n)]);
    } else {
        lemma_dec_digits_of_val(n / 10);
        lemma_dec_char_digit(n % 10);
        let prev = dec_digits_of(n / 10);
        let whole = prev.push(dec_char(n % 10));
        assert(whole.drop_last() =~= prev);
        assert(whole.last() == dec_char(n % 10));
        assert(dec_val(whole) == dec_val(prev) * 10 + (n % 10));
        assert(prev[0] == whole[0]);
        assert(prev[0] != '0');
        assert(forall|k: int| 0 <= k < whole.len() ==> is_dec_digit(#[trigger] whole[k]));
    }
}

/// A nonzero-leading digit string has a nonzero value.
proof fn lemma_dec_val_nonzero(s: Seq<char>)
    requires
        s.len() > 0,
        forall|k: int| 0 <= k < s.len() ==> is_dec_digit(#[trigger] s[k]),
        s[0] != '0',
    ensures
        dec_val(s) >= 1,
    decreases s.len(),
{
    if s.len() == 1 {
        assert(digit_val(s[0]) >= 1);
    } else {
        let pre = s.drop_last();
        assert(pre[0] == s[0]);
        lemma_dec_val_nonzero(pre);
    }
}

/// A canonical numeral is the canonical numeral of its own value.
pub proof fn lemma_canonical_dec_unique(s: Seq<char>)
    requires
        is_canonical_dec(s),
    ensures
        dec_digits_of(dec_val(s)) == s,
    decreases s.len(),
{
    if s.len() == 1 {
        lemma_digit_dec_char(s[0]);
        assert(s =~= seq![s[0]]);
        lemma_dec_val_singleton(s[0]);
        assert(dec_val(s) == digit_val(s[0]));
        assert(dec_digits_of(dec_val(s)) =~= seq![dec_char(digit_val(s[0]))]);
        assert(dec_digits_of(dec_val(s)) =~= s);
    } else {
        let pre = s.drop_last();
        let d = digit_val(s.last());
        assert(pre[0] == s[0]);
        lemma_canonical_dec_unique(pre);
        lemma_dec_val_nonzero(pre);
        assert(dec_val(s) == dec_val(pre) * 10 + d);
        assert(d < 10);
        assert(dec_val(s) / 10 == dec_val(pre)) by (nonlinear_arith)
            requires
                d < 10,
                dec_val(s) == dec_val(pre) * 10 + d,
        ;
        assert(dec_val(s) % 10 == d) by (nonlinear_arith)
            requires
                d < 10,
                dec_val(s) == dec_val(pre) * 10 + d,
        ;
        assert(dec_val(s) >= 10) by (nonlinear_arith)
            requires
                dec_val(pre) >= 1,
                d < 10,
                dec_val(s) == dec_val(pre) * 10 + d,
        ;
        lemma_digit_dec_char(s.last());
        assert(dec_digits_of(dec_val(s)) =~= pre.push(s.last()));
        assert(pre.push(s.last()) =~= s);
    }
}

/// Values of prefixes grow with the prefix.
proof fn lemma_dec_val_prefix_le(s: Seq<char>, i: int, j: int)
    requires
        0 <= i <= j <= s.len(),
        forall|k: int| 0 <= k < s.len() ==> is_dec_digit(#[trigger] s[k]),
    ensures
        dec_val(s.subrange(0, i)) <= dec_val(s.subrange(0, j)),
    decreases j - i,
{
    if i < j {
        let shorter = s.subrange(0, j - 1);
        let longer = s.subrange(0, j);
        assert(longer.drop_last() =~= shorter);
        assert(dec_val(longer) == dec_val(shorter) * 10 + digit_val(longer.last()));
        assert(dec_val(shorter) * 10 >= dec_val(shorter)) by (nonlinear_arith);
        lemma_dec_val_prefix_le(s, i, j - 1);
    }
}

/// A single decimal digit as a string slice.
fn digit_str(d: u64) -> (r: &'static str)
    requires
        d < 10,
    ensures
        r@ =~= seq![dec_char(d as nat)],
{
    proof {
        reveal_strlit("0");
        reveal_strlit("1");
        reveal_strlit("2");
        reveal_strlit("3");
        reveal_strlit("4");
        reveal_strlit("5");
        reveal_strlit("6");
        reveal_strlit("7");
        reveal_strlit("8");
        reveal_strlit("9");
    }
    if d == 0 {
        "0"
    } else if d == 1 {
        "1"
    } else if d == 2 {
        "2"
    } else if d == 3 {
        "3"
    } else if d == 4 {
        "4"
    } else if d == 5 {
        "5"
    } else if d == 6 {
        "6"
    } else if d == 7 {
        "7"
    } else if d == 8 {
        "8"
    } else {
        "9"
    }
}

/// Formats `n` as its canonical decimal numeral.
pub fn u64_to_dec_string(n: u64) -> (r: String)
    ensures
        r@ == dec_digits_of(n as nat),
    decreases n,
{
    if n < 10 {
        String::from_str(digit_str(n))
    } else {
        let mut s = u64_to_dec_string(n / 10);
        s.append(digit_str(n % 10));
        proof {
            assert(s@ =~= dec_digits_of((n / 10) as nat).push(dec_char((n % 10) as nat)));
        }
        s
    }
}

/// Parses a canonical decimal numeral; rejects anything else.
pub fn parse_dec_u64(s: &str) -> (r: Option<u64>)
    ensures
        match r {
            Some(v) => is_canonical_dec(s@) && dec_val(s@) == v,
            None => !is_canonical_dec(s@) || dec_val(s@) > u64::MAX,
        },
{
    let len = s.unicode_len();
    if len == 0 {
        return None;
    }
    let first = s.get_char(0);
    if !(first >= '0' && first <= '9') {
        return None;
    }
    if first == '0' && len > 1 {
        return None;
    }
    let mut acc: u64 = 0;
    let mut i: usize = 0;
    while i < len
        invariant
            0 <= i <= len,
            len == s@.len(),
            forall|k: int| 0 <= k < i ==> is_dec_digit(#[trigger] s@[k]),
            s@.len() > 1 ==> s@[0] != '0',
            is_dec_digit(s@[0]),
            acc == dec_val(s@.subrange(0, i as int)),
        decreases len - i,
    {
        let c = s.get_char(i);
        if !(c >= '0' && c <= '9') {
            return None;
        }
        let d: u64 = (c as u32 - '0' as u32) as u64;
        proof {
            assert(d == digit_val(s@[i as int]));
            let longer = s@.subrange(0, i + 1);
            assert(longer.drop_last() =~= s@.subrange(0, i as int));
            assert(dec_val(longer) == acc * 10 + d);
        }
        if acc > (u64::MAX - d) / 10 {
            proof {
                let longer = s@.subrange(0, i + 1);
                assert(dec_val(longer) > u64::MAX) by (nonlinear_arith)
                    requires
                        acc > (u64::MAX - d) / 10,
                        d < 10,
                        dec_val(longer) == acc * 10 + d,
                ;
                assert(s@.subrange(0, s@.len() as int) =~= s@);
                if forall|k: int| 0 <= k < s@.len() ==> is_dec_digit(#[trigger] s@[k]) {
                    lemma_dec_val_prefix_le(s@, i + 1, s@.len() as int);
                    assert(dec_val(s@) > u64::MAX);
                }
            }
            return None;
        }
        acc = acc * 10 + d;
        i = i + 1;
    }
    proof {
        assert(s@.subrange(0, len as int) =~= s@);
    }
    Some(acc)
}

// ---------------------------------------------------------------------------
// String equality for slices
// ---------------------------------------------------------------------------

/// Character-wise equality of two string slices.
pub fn str_eq(a: &str, b: &str) -> (r: bool)
    ensures
        r == (a@ == b@),
{
    let alen = a.unicode_len();
    let blen = b.unicode_len();
    if alen != blen {
        return false;
    }
    let mut i: usize = 0;
    while i < alen
        invariant
            0 <= i <= alen,
            alen == a@.len(),
            alen == b@.len(),
            forall|k: int| 0 <= k < i ==> a@[k] == b@[k],
        decreases alen - i,
    {
        if a.get_char(i) != b.get_char(i) {
            return false;
        }
        i = i + 1;
    }
    proof {
        assert(a@ =~= b@);
    }
    true
}

// ---------------------------------------------------------------------------
// Prefixed identifiers
// ---------------------------------------------------------------------------

/// The text form of an identifier under a table prefix.
pub open spec fn named_id(prefix: Seq<char>, id: nat) -> Seq<char> {
    prefix + dec_digits_of(id)
}

/// Renders `id` in the prefixed identifier format.
pub fn format_named_id(prefix: &str, id: u64) -> (r: String)
    ensures
        r@ == named_id(prefix@, id as nat),
{
    let mut s = prefix.to_owned();
    let digits = u64_to_dec_string(id);
    s.append(digits.as_str());
    s
}

/// Parses the prefixed identifier format; accepts exactly the strings
/// produced by [`format_named_id`] for this prefix.
pub fn parse_named_id(prefix: &str, s: &str) -> (r: Option<u64>)
    ensures
        match r {
            Some(v) => s@ == named_id(prefix@, v as nat),
            None => forall|v: u64| s@ != named_id(prefix@, v as nat),
        },
{
    let plen = prefix.unicode_len();
    let slen = s.unicode_len();
    proof {
        lemma_named_id_shape(prefix@);
    }
    if slen <= plen {
        return None;
    }
    let mut i: usize = 0;
    while i < plen
        invariant
            0 <= i <= plen,
            plen == prefix@.len(),
            plen < slen,
            slen == s@.len(),
            forall|k: int| 0 <= k < i ==> s@[k] == prefix@[k],
        decreases plen - i,
    {
        if s.get_char(i) != prefix.get_char(i) {
            proof {
                lemma_named_id_shape(prefix@);
            }
            return None;
        }
        i = i + 1;
    }
    let rest = s.substring_char(plen, slen);
    let parsed = parse_dec_u64(rest);
    proof {
        lemma_named_id_shape(prefix@);
        assert(s@ =~= s@.subrange(0, plen as int) + rest@);
        assert(s@.subrange(0, plen as int) =~= prefix@);
    }
    match parsed {
        Some(v) => {
            proof {
                lemma_canonical_dec_unique(rest@);
            }
            Some(v)
        },
        None => {
            proof {
                assert forall|v: u64| s@ != named_id(prefix@, v as nat) by {
                    lemma_dec_digits_of_val(v as nat);
                    if s@ == named_id(prefix@, v as nat) {
                        assert(rest@ =~= dec_digits_of(v as nat));
                    }
                }
            }
            None
        },
    }
}

/// Every string of the prefixed format begins with the prefix and continues
/// with the canonical numeral.
proof fn lemma_named_id_shape(prefix: Seq<char>)
    ensures
        forall|v: u64|
            {
                let t = #[trigger] named_id(prefix, v as nat);
                t.len() > prefix.len() && t.subrange(0, prefix.len() as int) =~= prefix
                    && t.subrange(prefix.len() as int, t.len() as int) =~= dec_digits_of(v as nat)
            },
{
    assert forall|v: u64|
        {
            let t = #[trigger] named_id(prefix, v as nat);
            t.len() > prefix.len() && t.subrange(0, prefix.len() as int) =~= prefix && t.subrange(
                prefix.len() as int,
                t.len() as int,
            ) =~= dec_digits_of(v as nat)
        } by {
        lemma_dec_digits_of_val(v as nat);
        let t = named_id(prefix, v as nat);
        assert(t.subrange(0, prefix.len() as int) =~= prefix);
        assert(t.subrange(prefix.len() as int, t.len() as int) =~= dec_digits_of(v as nat));
    }
}

/// Two identifiers with the same text form under one prefix are equal.
pub proof fn lemma_named_id_injective(prefix: Seq<char>, x: u64, y: u64)
    requires
        named_id(prefix, x as nat) == named_id(prefix, y as nat),
    ensures
        x == y,
{
    lemma_named_id_shape(prefix);
    lemma_dec_digits_of_val(x as nat);
    lemma_dec_digits_of_val(y as nat);
    let tx = named_id(prefix, x as nat);
    let ty = named_id(prefix, y as nat);
    assert(tx.subrange(prefix.len() as int, tx.len() as int) =~= dec_digits_of(x as nat));
    assert(ty.subrange(prefix.len() as int, ty.len() as int) =~= dec_digits_of(y as nat));
    assert(dec_digits_of(x as nat) == dec_digits_of(y as nat));
    assert(dec_val(dec_digits_of(x as nat)) == x);
}

// ---------------------------------------------------------------------------
// Hexadecimal byte strings
// ---------------------------------------------------------------------------

pub open spec fn hex_char(d: nat) -> char
    recommends
        d < 16,
{
    if d < 10 {
        dec_char(d)
    } else if d == 10 {
        'a'
    } else if d == 11 {
        'b'
    } else if d == 12 {
        'c'
    } else if d == 13 {
        'd'
    } else if d == 14 {
        'e'
    } else {
        'f'
    }
}

/// Lower-case hexadecimal rendering of a byte string, two digits per byte.
pub open spec fn hex_of_bytes(bs: Seq<u8>) -> Seq<char>
    decreases bs.len(),
{
    if bs.len() == 0 {
        Seq::<char>::empty()
    } else {
        hex_of_bytes(bs.drop_last()) + seq![
            hex_char((bs.last() / 16) as nat),
            hex_char((bs.last() % 16) as nat),
        ]
    }
}

pub proof fn lemma_hex_of_bytes_len(bs: Seq<u8>)
    ensures
        hex_of_bytes(bs).len() == 2 * bs.len(),
    decreases bs.len(),
{
    if bs.len() > 0 {
        lemma_hex_of_bytes_len(bs.drop_last());
    }
}

/// A lower-case hexadecimal digit.
pub open spec fn is_hex_digit(c: char) -> bool {
    ('0' <= c && c <= '9') || ('a' <= c && c <= 'f')
}

/// Hexadecimal renderings consist of hexadecimal digits alone.
pub proof fn lemma_hex_of_bytes_digits(bs: Seq<u8>)
    ensures
        forall|i: int|
            0 <= i < hex_of_bytes(bs).len() ==> is_hex_digit(#[trigger] hex_of_bytes(bs)[i]),
    decreases bs.len(),
{
    if bs.len() > 0 {
        lemma_hex_of_bytes_digits(bs.drop_last());
        let prefix = hex_of_bytes(bs.drop_last());
        assert forall|i: int|
            0 <= i < hex_of_bytes(bs).len() implies is_hex_digit(
            #[trigger] hex_of_bytes(bs)[i],
        ) by {
            if i < prefix.len() {
                assert(hex_of_bytes(bs)[i] == prefix[i]);
            } else {
                assert(is_hex_digit(hex_char((bs.last() / 16) as nat)));
                assert(is_hex_digit(hex_char((bs.last() % 16) as nat)));
            }
        }
    }
}

/// A single hexadecimal digit as a string slice.
fn hex_digit_str(d: u8) -> (r: &'static str)
    requires
        d < 16,
    ensures
        r@ =~= seq![hex_char(d as nat)],
{
    proof {
        reveal_strlit("a");
        reveal_strlit("b");
        reveal_strlit("c");
        reveal_strlit("d");
        reveal_strlit("e");
        reveal_strlit("f");
    }
    if d < 10 {
        digit_str(d as u64)
    } else if d == 10 {
        "a"
    } else if d == 11 {
        "b"
    } else if d == 12 {
        "c"
    } else if d == 13 {
        "d"
    } else if d == 14 {
        "e"
    } else {
        "f"
    }
}

/// Renders a byte string as lower-case hexadecimal.
pub fn bytes_to_hex(bytes: &Vec<u8>) -> (r: String)
    ensures
        r@ == hex_of_bytes(bytes@),
{
    let mut s = String::new();
    let mut i: usize = 0;
    while i < bytes.len()
        invariant
            0 <= i <= bytes@.len(),
            s@ == hex_of_bytes(bytes@.subrange(0, i as int)),
        decreases bytes@.len() - i,
    {
        let b = bytes[i];
        s.append(hex_digit_str(b / 16));
        s.append(hex_digit_str(b % 16));
        proof {
            let longer = bytes@.subrange(0, i + 1);
            assert(longer.drop_last() =~= bytes@.subrange(0, i as int));
            assert(s@ =~= hex_of_bytes(longer));
        }
        i = i + 1;
    }
    proof {
        assert(bytes@.subrange(0, bytes@.len() as int) =~= bytes@);
    }
    s
}

} // verus!
