use vstd::prelude::*;

use vstd::string::StrSliceExecFns;

verus! {

/// Whether `c` is an ASCII hexadecimal digit.
pub open spec fn is_hex_digit(c: char) -> bool {
    ||| '0' as int <= c as int <= '9' as int
    ||| 'a' as int <= c as int <= 'f' as int
    ||| 'A' as int <= c as int <= 'F' as int
}

/// The numeric value of an ASCII hexadecimal digit.
pub open spec fn hex_digit_value(c: char) -> int {
    if '0' as int <= c as int <= '9' as int {
        c as int - '0' as int
    } else if 'a' as int <= c as int <= 'f' as int {
        c as int - 'a' as int + 10
    } else {
        c as int - 'A' as int + 10
    }
}

/// A transaction-hash literal: `0x` followed by 64 hexadecimal digits.
pub open spec fn is_tx_hash_literal(s: Seq<char>) -> bool {
    s.len() == 66 && s[0] == '0' && s[1] == 'x' && forall|i: int|
        2 <= i < 66 ==> is_hex_digit(#[trigger] s[i])
}

/// The byte the digit pair at positions `2 + 2k` and `3 + 2k` denotes.
pub open spec fn tx_hash_byte(s: Seq<char>, k: int) -> int {
    16 * hex_digit_value(s[2 + 2 * k]) + hex_digit_value(s[3 + 2 * k])
}

/// The 32 bytes a transaction-hash literal denotes.
pub open spec fn tx_hash_bytes(s: Seq<char>) -> Seq<u8> {
    Seq::new(32, |k: int| tx_hash_byte(s, k) as u8)
}

/// The numeric value of `c` as a hexadecimal digit, if it is one.
pub fn hex_value(c: char) -> (r: Option<u8>)
    ensures
        r is Some <==> is_hex_digit(c),
        r matches Some(v) ==> v == hex_digit_value(c) && v < 16,
{
    let x = c as u32;
    if x >= '0' as u32 && x <= '9' as u32 {
        Some((x - '0' as u32) as u8)
    } else if x >= 'a' as u32 && x <= 'f' as u32 {
        Some((x - 'a' as u32 + 10) as u8)
    } else if x >= 'A' as u32 && x <= 'F' as u32 {
        Some((x - 'A' as u32 + 10) as u8)
    } else {
        None
    }
}

/// Parses a `0x`-prefixed 64-digit transaction-hash literal into its 32
/// bytes; `None` when the text is no such literal.
pub fn parse_tx_hash(s: &str) -> (r: Option<Vec<u8>>)
    ensures
        r is Some <==> is_tx_hash_literal(s@),
        r matches Some(b) ==> b@ == tx_hash_bytes(s@),
{
    let n = s.unicode_len();
    if n != 66 {
        return None;
    }
    if !(s.get_char(0) == '0') || !(s.get_char(1) == 'x') {
        return None;
    }
    let mut out: Vec<u8> = Vec::new();
    for k in 0..32usize
        invariant
            out@.len() == k,
            forall|i: int| 2 <= i < 2 + 2 * k ==> is_hex_digit(#[trigger] s@[i]),
            forall|j: int| 0 <= j < k ==> (#[trigger] out@[j]) as int == tx_hash_byte(s@, j),
    {
        let c1 = s.get_char(2 + 2 * k);
        let c2 = s.get_char(3 + 2 * k);
        let v1 = match hex_value(c1) {
            Some(v) => v,
            None => {
                return None;
            },
        };
        let v2 = match hex_value(c2) {
            Some(v) => v,
            None => {
                return None;
            },
        };
        out.push(16 * v1 + v2);
    }
    proof {
        assert forall|i: int| 2 <= i < 66 implies is_hex_digit(#[trigger] s@[i]) by {
            assert(i < 2 + 2 * 32);
        }
        assert(is_tx_hash_literal(s@));
        assert(out@ =~= tx_hash_bytes(s@));
    }
    Some(out)
}

/// The code point of `c`, with an ASCII capital folded to lower case.
pub open spec fn folded_code(c: char) -> int {
    if 'A' as int <= c as int <= 'Z' as int {
        c as int + 32
    } else {
        c as int
    }
}

/// Whether two strings spell the same text up to ASCII case.
pub open spec fn ci_equal(a: Seq<char>, b: Seq<char>) -> bool {
    a.len() == b.len() && forall|i: int|
        0 <= i < a.len() ==> folded_code(a[i]) == folded_code(b[i])
}

/// Compares two strings with ASCII capitals folded to lower case, the way
/// chain addresses are matched regardless of how they were spelled.
pub fn str_ci_equal(a: &str, b: &str) -> (r: bool)
    ensures
        r == ci_equal(a@, b@),
{
    let la = a.unicode_len();
    let lb = b.unicode_len();
    if la != lb {
        return false;
    }
    for i in 0..la
        invariant
            forall|j: int| 0 <= j < i ==> folded_code(a@[j]) == folded_code(b@[j]),
    {
        let ca = a.get_char(i) as u32;
        let cb = b.get_char(i) as u32;
        let fa = if ca >= 'A' as u32 && ca <= 'Z' as u32 {
            ca + 32
        } else {
            ca
        };
        let fb = if cb >= 'A' as u32 && cb <= 'Z' as u32 {
            cb + 32
        } else {
            cb
        };
        if fa != fb {
            assert(folded_code(a@[i as int]) != folded_code(b@[i as int]));
            return false;
        }
    }
    true
}

} // verus!
