//! Payloads sent to, and replies read from, an Ethereum wallet extension.

use vstd::prelude::*;
use vstd::string::StringSliceAdditionalSpecFns;
use crate::text::{chars_of, string_from_chars};

verus! {

// ---------------------------------------------------------------------------
// Hex encoding of a message to sign
// ---------------------------------------------------------------------------

/// The sixteen lowercase hexadecimal digits.
pub open spec fn hex_alphabet() -> Seq<char> {
    seq!['0', '1', '2', '3', '4', '5', '6', '7', '8', '9', 'a', 'b', 'c', 'd', 'e', 'f']
}

/// The lowercase digit of `n`, for `0 <= n < 16`.
pub open spec fn hex_digit(n: int) -> char {
    hex_alphabet()[n]
}

/// Each byte as two lowercase hexadecimal digits, high digit first.
pub open spec fn hex_of_bytes(b: Seq<u8>) -> Seq<char> {
    Seq::new(
        2 * b.len(),
        |i: int|
            if i % 2 == 0 {
                hex_digit(b[i / 2] as int / 16)
            } else {
                hex_digit(b[i / 2] as int % 16)
            },
    )
}

/// `0x` followed by the bytes in hexadecimal.
pub open spec fn hex_payload(b: Seq<u8>) -> Seq<char> {
    seq!['0', 'x'] + hex_of_bytes(b)
}

/// The value of a hexadecimal digit, either case.
pub open spec fn hex_value(c: char) -> Option<int> {
    if '0' <= c && c <= '9' {
        Some(c as int - '0' as int)
    } else if 'a' <= c && c <= 'f' {
        Some(c as int - 'a' as int + 10)
    } else if 'A' <= c && c <= 'F' {
        Some(c as int - 'A' as int + 10)
    } else {
        None
    }
}

/// The message to sign, as the `personal_sign` request carries it: `0x` and
/// the UTF-8 bytes of `message` in lowercase hexadecimal.
pub fn personal_sign_payload(message: &str) -> (r: String)
    ensures
        r@ == hex_payload(message.spec_bytes()),
{
    let bytes = message.as_bytes();
    let digits: [char; 16] = ['0', '1', '2', '3', '4', '5', '6', '7', '8', '9', 'a', 'b', 'c', 'd', 'e', 'f'];
    assert(digits@ =~= hex_alphabet());
    let mut out: Vec<char> = Vec::new();
    out.push('0');
    out.push('x');
    let n = bytes.len();
    let mut i: usize = 0;
    while i < n
        invariant
            n == bytes@.len(),
            bytes@ == message.spec_bytes(),
            digits@ == hex_alphabet(),
            i <= n,
            out@.len() == 2 + 2 * i,
            out@[0] == '0',
            out@[1] == 'x',
            forall|k: int|
                0 <= k < 2 * i ==> #[trigger] out@[2 + k] == hex_of_bytes(bytes@)[k],
        decreases n - i,
    {
        let b = bytes[i];
        let hi = (b / 16) as usize;
        let lo = (b % 16) as usize;
        out.push(digits[hi]);
        out.push(digits[lo]);
        proof {
            assert(hex_of_bytes(bytes@)[2 * i as int] == hex_digit(b as int / 16));
            assert(hex_of_bytes(bytes@)[2 * i + 1] == hex_digit(b as int % 16));
        }
        i = i + 1;
    }
    assert forall|k: int| 0 <= k < out@.len() implies out@[k] == hex_payload(bytes@)[k] by {
        if k >= 2 {
            assert(out@[2 + (k - 2)] == hex_of_bytes(bytes@)[k - 2]);
        }
    }
    assert(out@ =~= hex_payload(bytes@));
    string_from_chars(&out)
}

/// Lowercase form of a string, as std's `str::to_lowercase` computes it
/// (Unicode lowercase mapping, character by character).
pub uninterp spec fn lowercase(s: Seq<char>) -> Seq<char>;

/// Trusted: std's `str::to_lowercase`. The contract only ties the result to
/// the argument through `lowercase`; the Unicode mapping itself is not
/// written out.
#[verifier::external_body]
fn to_lowercase(s: &str) -> (r: String)
    ensures
        r@ == lowercase(s@),
{
    s.to_lowercase()
}

/// The two parameters of a `personal_sign` request for `message` signed by
/// `address`: the hex payload and the lowercased address.
pub fn personal_sign_params(message: &str, address: &str) -> (r: (String, String))
    ensures
        r.0@ == hex_payload(message.spec_bytes()),
        r.1@ == lowercase(address@),
{
    (personal_sign_payload(message), to_lowercase(address))
}

/// The hex payload spells the message's bytes: every byte is recovered from
/// its two digits.
pub proof fn law_payload_spells_bytes(b: Seq<u8>, i: int)
    requires
        0 <= i < b.len(),
    ensures
        hex_payload(b).len() == 2 + 2 * b.len(),
        hex_value(hex_payload(b)[2 + 2 * i]) is Some,
        hex_value(hex_payload(b)[3 + 2 * i]) is Some,
        hex_value(hex_payload(b)[2 + 2 * i])->0 * 16 + hex_value(hex_payload(b)[3 + 2 * i])->0
            == b[i],
{
    let p = hex_payload(b);
    let h = hex_of_bytes(b);
    assert(p[2 + 2 * i] == h[2 * i]);
    assert(p[3 + 2 * i] == h[2 * i + 1]);
    assert((2 * i) / 2 == i);
    assert((2 * i + 1) / 2 == i);
    assert((2 * i) % 2 == 0);
    assert((2 * i + 1) % 2 == 1);
    lemma_hex_value_of_digit(b[i] as int / 16);
    lemma_hex_value_of_digit(b[i] as int % 16);
}

/// Reading back a digit gives its value.
pub proof fn lemma_hex_value_of_digit(n: int)
    requires
        0 <= n < 16,
    ensures
        hex_value(hex_digit(n)) == Some(n),
{
    let a = hex_alphabet();
    if n == 0 { assert(a[0] == '0'); }
    else if n == 1 { assert(a[1] == '1'); }
    else if n == 2 { assert(a[2] == '2'); }
    else if n == 3 { assert(a[3] == '3'); }
    else if n == 4 { assert(a[4] == '4'); }
    else if n == 5 { assert(a[5] == '5'); }
    else if n == 6 { assert(a[6] == '6'); }
    else if n == 7 { assert(a[7] == '7'); }
    else if n == 8 { assert(a[8] == '8'); }
    else if n == 9 { assert(a[9] == '9'); }
    else if n == 10 { assert(a[10] == 'a'); }
    else if n == 11 { assert(a[11] == 'b'); }
    else if n == 12 { assert(a[12] == 'c'); }
    else if n == 13 { assert(a[13] == 'd'); }
    else if n == 14 { assert(a[14] == 'e'); }
    else { assert(a[15] == 'f'); }
}

// ---------------------------------------------------------------------------
// Chain id reply
// ---------------------------------------------------------------------------

/// Why a chain id could not be read; the kinds of std's integer parser.
#[derive(Clone, Copy, Debug, PartialEq, Eq, Structural)]
pub enum ChainIdError {
    /// Nothing left to parse.
    Empty,
    /// A character that is not a hexadecimal digit.
    InvalidDigit,
    /// The value does not fit in 64 bits.
    PosOverflow,
}

/// `s` with every leading `0x` removed, as `trim_start_matches("0x")` does.
pub open spec fn strip_0x(s: Seq<char>) -> Seq<char>
    decreases s.len(),
{
    if s.len() >= 2 && s[0] == '0' && s[1] == 'x' {
        strip_0x(s.subrange(2, s.len() as int))
    } else {
        s
    }
}

/// Reads `digits` left to right onto `acc`, stopping at the first character
/// that is not a hexadecimal digit or that makes the value exceed 64 bits.
pub open spec fn accumulate(digits: Seq<char>, acc: int) -> Result<int, ChainIdError>
    decreases digits.len(),
{
    if digits.len() == 0 {
        Ok(acc)
    } else {
        match hex_value(digits[0]) {
            None => Err(ChainIdError::InvalidDigit),
            Some(d) => if acc * 16 + d > u64::MAX {
                Err(ChainIdError::PosOverflow)
            } else {
                accumulate(digits.drop_first(), acc * 16 + d)
            },
        }
    }
}

/// Hexadecimal reading of a 64-bit unsigned integer, as std's
/// `u64::from_str_radix(t, 16)`: empty input is `Empty`; a lone sign is an
/// invalid digit; one leading `+` is allowed.
pub open spec fn radix16(t: Seq<char>) -> Result<int, ChainIdError> {
    if t.len() == 0 {
        Err(ChainIdError::Empty)
    } else if t.len() == 1 && (t[0] == '+' || t[0] == '-') {
        Err(ChainIdError::InvalidDigit)
    } else if t[0] == '+' {
        accumulate(t.drop_first(), 0)
    } else {
        accumulate(t, 0)
    }
}

/// The chain id that a `eth_chainId` reply `hex` denotes.
pub open spec fn chain_id_of(hex: Seq<char>) -> Result<u64, ChainIdError> {
    match radix16(strip_0x(hex)) {
        Ok(v) => Ok(v as u64),
        Err(e) => Err(e),
    }
}

fn hex_value_exec(c: char) -> (r: Option<u64>)
    ensures
        match hex_value(c) {
            Some(v) => r == Some(v as u64),
            None => r is None,
        },
{
    if '0' <= c && c <= '9' {
        Some((c as u32 - '0' as u32) as u64)
    } else if 'a' <= c && c <= 'f' {
        Some((c as u32 - 'a' as u32 + 10) as u64)
    } else if 'A' <= c && c <= 'F' {
        Some((c as u32 - 'A' as u32 + 10) as u64)
    } else {
        None
    }
}

/// Reads a chain id reply such as `0x1` (see `chain_id_of`).
pub fn parse_chain_id(hex: &str) -> (r: Result<u64, ChainIdError>)
    ensures
        r == chain_id_of(hex@),
{
    let c = chars_of(hex);
    let n = c.len();
    let mut start: usize = 0;
    assert(c@.subrange(0, n as int) =~= c@);
    while n >= 2 && start <= n - 2 && c[start] == '0' && c[start + 1] == 'x'
        invariant
            c@ == hex@,
            n == c@.len(),
            start <= n,
            strip_0x(hex@) == strip_0x(c@.subrange(start as int, n as int)),
        decreases n - start,
    {
        assert(c@.subrange(start as int, n as int).subrange(2, (n - start) as int)
            =~= c@.subrange(start + 2, n as int));
        start = start + 2;
    }
    let ghost t = c@.subrange(start as int, n as int);
    assert(strip_0x(t) == t);
    if start == n {
        return Err(ChainIdError::Empty);
    }
    if n - start == 1 && (c[start] == '+' || c[start] == '-') {
        return Err(ChainIdError::InvalidDigit);
    }
    let mut i: usize = if c[start] == '+' { start + 1 } else { start };
    let ghost digits = c@.subrange(i as int, n as int);
    assert(t[0] == '+' ==> digits =~= t.drop_first());
    assert(t[0] != '+' ==> digits =~= t);
    assert(radix16(strip_0x(hex@)) == accumulate(digits, 0));
    let mut acc: u64 = 0;
    while i < n
        invariant
            radix16(strip_0x(hex@)) == accumulate(digits, 0),
            n == c@.len(),
            i <= n,
            accumulate(digits, 0) == accumulate(c@.subrange(i as int, n as int), acc as int),
        decreases n - i,
    {
        let ghost rest = c@.subrange(i as int, n as int);
        assert(rest[0] == c@[i as int]);
        assert(rest.drop_first() =~= c@.subrange(i + 1, n as int));
        match hex_value_exec(c[i]) {
            None => {
                return Err(ChainIdError::InvalidDigit);
            },
            Some(d) => {
                let m = acc.checked_mul(16);
                match m {
                    None => {
                        return Err(ChainIdError::PosOverflow);
                    },
                    Some(m) => {
                        match m.checked_add(d) {
                            None => {
                                return Err(ChainIdError::PosOverflow);
                            },
                            Some(v) => {
                                acc = v;
                            },
                        }
                    },
                }
            },
        }
        i = i + 1;
    }
    assert(c@.subrange(n as int, n as int).len() == 0);
    Ok(acc)
}

impl ChainIdError {
    /// The message std's `ParseIntError` displays for this kind.
    pub fn message(&self) -> (r: String)
        ensures
            r@ == chain_id_error_message(*self),
    {
        match self {
            ChainIdError::Empty => String::from_str("cannot parse integer from empty string"),
            ChainIdError::InvalidDigit => String::from_str("invalid digit found in string"),
            ChainIdError::PosOverflow => String::from_str("number too large to fit in target type"),
        }
    }
}

pub open spec fn chain_id_error_message(e: ChainIdError) -> Seq<char> {
    match e {
        ChainIdError::Empty => "cannot parse integer from empty string"@,
        ChainIdError::InvalidDigit => "invalid digit found in string"@,
        ChainIdError::PosOverflow => "number too large to fit in target type"@,
    }
}

/// Message when the `eth_chainId` reply is not a string.
pub open spec fn chain_id_not_string_message() -> Seq<char> {
    "eth_chainId: not a string"@
}

/// The chain id from an `eth_chainId` reply: `reply` is the reply when it
/// is a string. A reply that is not a string, or does not parse, gives the
/// error message the wallet panel shows.
pub fn chain_id_from_reply(reply: Option<String>) -> (r: Result<u64, String>)
    ensures
        match reply {
            None => r matches Err(m) && m@ == chain_id_not_string_message(),
            Some(h) => match chain_id_of(h@) {
                Ok(v) => r == Ok::<u64, String>(v),
                Err(e) => r matches Err(m) && m@ == chain_id_error_message(e),
            },
        },
{
    match reply {
        None => Err(String::from_str("eth_chainId: not a string")),
        Some(h) => match parse_chain_id(h.as_str()) {
            Ok(v) => Ok(v),
            Err(e) => Err(e.message()),
        },
    }
}

/// Leading `0x` prefixes do not change the chain id a reply denotes.
pub proof fn law_prefix_ignored(s: Seq<char>)
    ensures
        chain_id_of(seq!['0', 'x'] + s) == chain_id_of(s),
{
    let p = seq!['0', 'x'] + s;
    assert(p.subrange(2, p.len() as int) =~= s);
}

/// The lowercase hexadecimal numeral of `n`, without leading zeros.
pub open spec fn lower_hex(n: nat) -> Seq<char>
    decreases n,
{
    if n < 16 {
        seq![hex_digit(n as int)]
    } else {
        lower_hex(n / 16).push(hex_digit((n % 16) as int))
    }
}

/// Reading a concatenation reads the first part, then goes on with the second.
pub proof fn lemma_accumulate_append(a: Seq<char>, b: Seq<char>, acc: int)
    ensures
        accumulate(a + b, acc) == match accumulate(a, acc) {
            Ok(v) => accumulate(b, v),
            Err(e) => Err(e),
        },
    decreases a.len(),
{
    if a.len() == 0 {
        assert(a + b =~= b);
    } else {
        assert((a + b)[0] == a[0]);
        assert((a + b).drop_first() =~= a.drop_first() + b);
        match hex_value(a[0]) {
            Some(d) => {
                if acc * 16 + d <= u64::MAX {
                    lemma_accumulate_append(a.drop_first(), b, acc * 16 + d);
                }
            },
            None => {},
        }
    }
}

proof fn lemma_lower_hex(n: nat)
    requires
        n <= u64::MAX,
    ensures
        lower_hex(n).len() >= 1,
        accumulate(lower_hex(n), 0) == Ok::<int, ChainIdError>(n as int),
        forall|i: int| 0 <= i < lower_hex(n).len() ==> #[trigger] hex_value(lower_hex(n)[i]) is Some,
    decreases n,
{
    if n < 16 {
        lemma_hex_value_of_digit(n as int);
        let s = lower_hex(n);
        assert(s.drop_first().len() == 0);
        assert(accumulate(s.drop_first(), n as int) == Ok::<int, ChainIdError>(n as int));
        assert(hex_value(s[0]) == Some(n as int));
    } else {
        let q = n / 16;
        let r = (n % 16) as int;
        lemma_lower_hex(q);
        lemma_hex_value_of_digit(r);
        let a = lower_hex(q);
        let b = seq![hex_digit(r)];
        assert(lower_hex(n) =~= a + b);
        lemma_accumulate_append(a, b, 0);
        assert(q * 16 + r == n);
        assert(b.drop_first().len() == 0);
        assert(accumulate(b.drop_first(), n as int) == Ok::<int, ChainIdError>(n as int));
        assert(hex_value(b[0]) == Some(r));
        assert(accumulate(b, q as int) == Ok::<int, ChainIdError>(n as int));
        assert forall|i: int| 0 <= i < lower_hex(n).len() implies #[trigger] hex_value(lower_hex(n)[i]) is Some by {
            if i < a.len() {
                assert(lower_hex(n)[i] == a[i]);
            }
        }
    }
}

/// A chain id reply in the usual form, `0x` and the lowercase hexadecimal
/// numeral of the id, reads back as that id.
pub proof fn law_chain_id_round_trip(id: u64)
    ensures
        chain_id_of(seq!['0', 'x'] + lower_hex(id as nat)) == Ok::<u64, ChainIdError>(id),
{
    let t = lower_hex(id as nat);
    lemma_lower_hex(id as nat);
    law_prefix_ignored(t);
    assert(hex_value(t[0]) is Some);
    if t.len() >= 2 {
        assert(hex_value(t[1]) is Some);
    }
    assert(strip_0x(t) == t);
}

proof fn lemma_accumulate_bounded(digits: Seq<char>, acc: int)
    requires
        0 <= acc <= u64::MAX,
    ensures
        accumulate(digits, acc) matches Ok(x) ==> 0 <= x <= u64::MAX,
    decreases digits.len(),
{
    if digits.len() > 0 {
        if let Some(d) = hex_value(digits[0]) {
            if acc * 16 + d <= u64::MAX {
                lemma_accumulate_bounded(digits.drop_first(), acc * 16 + d);
            }
        }
    }
}

/// Each digit of the payload is the standard lowercase hexadecimal digit of
/// its nibble: the high nibble of byte `i` at position `2 + 2i`, the low
/// nibble right after it, both taken from `0123456789abcdef`.
pub proof fn law_payload_digits_are_standard(b: Seq<u8>, i: int)
    requires
        0 <= i < b.len(),
    ensures
        hex_payload(b)[0] == '0',
        hex_payload(b)[1] == 'x',
        hex_payload(b)[2 + 2 * i] == seq![
            '0', '1', '2', '3', '4', '5', '6', '7', '8', '9', 'a', 'b', 'c', 'd', 'e', 'f'
        ][b[i] as int / 16],
        hex_payload(b)[3 + 2 * i] == seq![
            '0', '1', '2', '3', '4', '5', '6', '7', '8', '9', 'a', 'b', 'c', 'd', 'e', 'f'
        ][b[i] as int % 16],
{
    let h = hex_of_bytes(b);
    assert(hex_payload(b)[2 + 2 * i] == h[2 * i]);
    assert(hex_payload(b)[3 + 2 * i] == h[2 * i + 1]);
    assert((2 * i) / 2 == i);
    assert((2 * i + 1) / 2 == i);
    assert((2 * i) % 2 == 0);
    assert((2 * i + 1) % 2 == 1);
}

/// A hexadecimal digit is worth its distance from `0`, from `a` plus ten, or
/// from `A` plus ten; no other character is a digit. Hence a chain id is read
/// with the usual digit values.
pub proof fn law_digit_values(c: char)
    ensures
        '0' <= c <= '9' ==> hex_value(c) == Some(c as int - 48),
        'a' <= c <= 'f' ==> hex_value(c) == Some(c as int - 97 + 10),
        'A' <= c <= 'F' ==> hex_value(c) == Some(c as int - 65 + 10),
        !('0' <= c <= '9' || 'a' <= c <= 'f' || 'A' <= c <= 'F') ==> hex_value(c) is None,
{
}

/// Reading one more digit multiplies the value read so far by sixteen and
/// adds the digit's arithmetic value (`0`-`9`, `a`-`f`, `A`-`F`), as long as
/// the result fits in 64 bits.
pub proof fn law_chain_id_digit_step(s: Seq<char>, c: char, v: u64)
    requires
        chain_id_of(s) == Ok::<u64, ChainIdError>(v),
        s.len() >= 1,
        s[0] != '0',
        s[0] != '+',
        '0' <= c <= '9' || 'a' <= c <= 'f',
    ensures
        ({
            let d = if '0' <= c <= '9' { c as int - 48 } else { c as int - 97 + 10 };
            v * 16 + d <= u64::MAX ==> chain_id_of(s.push(c)) == Ok::<u64, ChainIdError>(
                (v * 16 + d) as u64,
            )
        }),
{
    let d = if '0' <= c <= '9' { c as int - 48 } else { c as int - 97 + 10 };
    lemma_accumulate_bounded(s, 0);
    assert(strip_0x(s) == s);
    assert(strip_0x(s.push(c)) == s.push(c));
    assert(s.push(c)[0] == s[0]);
    assert(radix16(s) == accumulate(s, 0));
    assert(s.push(c).len() >= 2);
    assert(radix16(s.push(c)) == accumulate(s.push(c), 0));
    lemma_accumulate_append(s, seq![c], 0);
    assert(s + seq![c] =~= s.push(c));
    assert(seq![c].drop_first().len() == 0);
    assert(hex_value(c) == Some(d));
    if v * 16 + d <= u64::MAX {
        assert(accumulate(seq![c].drop_first(), v * 16 + d) == Ok::<int, ChainIdError>(v * 16 + d));
        assert(accumulate(seq![c], v as int) == Ok::<int, ChainIdError>(v * 16 + d));
    }
}

} // verus!
