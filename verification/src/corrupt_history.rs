//! The names under which unreadable history documents are set aside: each name binds the
//! instant of the quarantine and a random nonce, and sorts by both; names from before the
//! nonce carry only the instant.
use vstd::prelude::*;

use crate::digest::{hex_encode, lower_hex};
use crate::text::{append_chars, chars_of, push_char, string_of};

verus! {

/// How long a history call to the history owner may take, in milliseconds; it covers reading
/// an oversized or corrupt document, setting it aside, and a durable write.
pub const AGENT_HISTORY_TIMEOUT_MS: u64 = 90_000;

/// The digit character of a value below ten.
pub open spec fn digit_char(d: nat) -> char {
    (48 + d) as char
}

/// The decimal digits of `n`, most significant first, without leading zeros.
pub open spec fn decimal_digits(n: nat) -> Seq<char>
    decreases n,
{
    if n < 10 {
        seq![digit_char(n)]
    } else {
        decimal_digits(n / 10).push(digit_char(n % 10))
    }
}

/// Whether every character is an ASCII digit.
pub open spec fn all_digits(s: Seq<char>) -> bool {
    forall|i: int| 0 <= i < s.len() ==> '0' <= #[trigger] s[i] <= '9'
}

/// The value of a text of decimal digits.
pub open spec fn digits_value(s: Seq<char>) -> nat
    decreases s.len(),
{
    if s.len() == 0 {
        0
    } else {
        digits_value(s.drop_last()) * 10 + ((s.last() as int - 48) as nat)
    }
}

/// The value of a lowercase hexadecimal digit.
pub open spec fn hex_value_of(c: char) -> nat {
    if '0' <= c <= '9' {
        (c as int - 48) as nat
    } else {
        (c as int - 87) as nat
    }
}

/// Whether every character is a lowercase hexadecimal digit.
pub open spec fn all_lower_hex(s: Seq<char>) -> bool {
    forall|i: int| 0 <= i < s.len() ==> ('0' <= #[trigger] s[i] <= '9' || 'a' <= s[i] <= 'f')
}

/// The value of a text of hexadecimal digits.
pub open spec fn hex_value(s: Seq<char>) -> nat
    decreases s.len(),
{
    if s.len() == 0 {
        0
    } else {
        hex_value(s.drop_last()) * 16 + hex_value_of(s.last())
    }
}

pub open spec fn corrupt_prefix() -> Seq<char> {
    "agent-history.corrupt-"@
}

pub open spec fn corrupt_suffix() -> Seq<char> {
    ".json"@
}

/// The name of a quarantined history: the instant in milliseconds and the nonce in lowercase
/// hexadecimal.
pub open spec fn corrupt_name(timestamp: u64, nonce: Seq<u8>) -> Seq<char> {
    corrupt_prefix() + decimal_digits(timestamp as nat) + "-"@ + lower_hex(nonce) + corrupt_suffix()
}

fn digit_of(d: u64) -> (c: char)
    requires
        d < 10,
    ensures
        c == digit_char(d as nat),
{
    let code = 48 + d as u8;
    proof {
        assert(code < 128);
    }
    code as char
}

/// The decimal digits of `n`.
pub fn decimal_string(n: u64) -> (text: String)
    ensures
        text@ == decimal_digits(n as nat),
{
    let mut digits: Vec<char> = Vec::new();
    let mut m = n;
    while m >= 10
        invariant
            decimal_digits(n as nat) == decimal_digits(m as nat) + digits@,
        decreases m,
    {
        let d = digit_of(m % 10);
        let ghost before = digits@;
        digits.insert(0, d);
        proof {
            assert(decimal_digits(m as nat) == decimal_digits((m / 10) as nat).push(digit_char((m % 10) as nat)));
            assert(digits@ =~= seq![d] + before);
            assert(decimal_digits((m / 10) as nat).push(d) + before =~= decimal_digits((m / 10) as nat) + digits@);
        }
        m = m / 10;
    }
    let d = digit_of(m);
    let ghost before = digits@;
    digits.insert(0, d);
    assert(digits@ =~= decimal_digits(m as nat) + before);
    string_of(&digits, 0, digits.len())
}

/// The name under which a corrupt history is set aside at `timestamp` with `nonce`.
pub fn corrupt_history_file_name(timestamp: u64, nonce: [u8; 16]) -> (name: String)
    ensures
        name@ == corrupt_name(timestamp, nonce@),
{
    let mut name = String::new();
    append_chars(&mut name, "agent-history.corrupt-");
    let digits = decimal_string(timestamp);
    append_chars(&mut name, digits.as_str());
    push_char(&mut name, '-');
    let hex = hex_encode(&nonce);
    append_chars(&mut name, hex.as_str());
    append_chars(&mut name, ".json");
    proof {
        reveal_strlit("-");
    }
    assert(name@ =~= corrupt_name(timestamp, nonce@));
    name
}

/// Whether `i` is the position of the first `-` of `s`.
pub open spec fn is_first_dash(s: Seq<char>, i: int) -> bool {
    &&& 0 <= i < s.len()
    &&& s[i] == '-'
    &&& forall|j: int| 0 <= j < i ==> s[j] != '-'
}

/// The instant of a text of digits, if it is one that fits.
pub open spec fn instant_of(s: Seq<char>) -> Option<u64> {
    if s.len() > 0 && all_digits(s) && digits_value(s) <= u64::MAX {
        Some(digits_value(s) as u64)
    } else {
        None
    }
}

/// The nonce of a text of 32 lowercase hexadecimal digits, if it is one.
pub open spec fn nonce_of(s: Seq<char>) -> Option<u128> {
    if s.len() == 32 && all_lower_hex(s) && hex_value(s) <= u128::MAX {
        Some(hex_value(s) as u128)
    } else {
        None
    }
}

/// How a quarantined history name sorts: by its instant, then its nonce, which is zero for
/// names without one; `None` for any other name.
pub open spec fn corrupt_sort_key(name: Seq<char>) -> Option<(u64, u128)> {
    let p = corrupt_prefix().len();
    let q = corrupt_suffix().len();
    if name.len() < p + q || name.subrange(0, p as int) != corrupt_prefix()
        || name.subrange(name.len() - q, name.len() as int) != corrupt_suffix() {
        None
    } else {
        let stem = name.subrange(p as int, name.len() - q);
        if exists|i: int| is_first_dash(stem, i) {
            let i = choose|i: int| is_first_dash(stem, i);
            match (instant_of(stem.subrange(0, i)), nonce_of(stem.subrange(i + 1, stem.len() as int))) {
                (Some(instant), Some(nonce)) => Some((instant, nonce)),
                _ => None,
            }
        } else {
            match instant_of(stem) {
                Some(instant) => Some((instant, 0u128)),
                None => None,
            }
        }
    }
}

proof fn lemma_digits_value_grows(s: Seq<char>, k: int, j: int)
    requires
        0 <= k <= j <= s.len(),
        all_digits(s),
    ensures
        digits_value(s.subrange(0, k)) <= digits_value(s.subrange(0, j)),
    decreases j - k,
{
    if k < j {
        lemma_digits_value_grows(s, k, j - 1);
        assert(s.subrange(0, j).drop_last() =~= s.subrange(0, j - 1));
    }
}

fn parse_instant(chars: &Vec<char>, lo: usize, hi: usize) -> (instant: Option<u64>)
    requires
        lo <= hi <= chars@.len(),
    ensures
        instant == instant_of(chars@.subrange(lo as int, hi as int)),
{
    let ghost s = chars@.subrange(lo as int, hi as int);
    if lo == hi {
        return None;
    }
    let mut value: u64 = 0;
    let mut k: usize = lo;
    while k < hi
        invariant
            lo <= k <= hi <= chars@.len(),
            s == chars@.subrange(lo as int, hi as int),
            all_digits(s.subrange(0, k - lo)),
            value == digits_value(s.subrange(0, k - lo)),
        decreases hi - k,
    {
        let c = chars[k];
        if !('0' <= c && c <= '9') {
            assert(s[k - lo] == c);
            return None;
        }
        let d = (c as u32 - 48) as u64;
        assert(s.subrange(0, k + 1 - lo).drop_last() =~= s.subrange(0, k - lo));
        if value > (u64::MAX - d) / 10 {
            proof {
                assert(s.subrange(0, k + 1 - lo)[k - lo] == c);
                assert(all_digits(s.subrange(0, k + 1 - lo)));
                assert(digits_value(s.subrange(0, k + 1 - lo)) > u64::MAX);
                if all_digits(s) {
                    lemma_digits_value_grows(s, k + 1 - lo, s.len() as int);
                    assert(s.subrange(0, s.len() as int) =~= s);
                }
            }
            return None;
        }
        value = value * 10 + d;
        k = k + 1;
    }
    assert(s.subrange(0, k - lo) =~= s);
    Some(value)
}

fn parse_nonce(chars: &Vec<char>, lo: usize, hi: usize) -> (nonce: Option<u128>)
    requires
        lo <= hi <= chars@.len(),
    ensures
        nonce == nonce_of(chars@.subrange(lo as int, hi as int)),
{
    let ghost s = chars@.subrange(lo as int, hi as int);
    if hi - lo != 32 {
        return None;
    }
    let mut value: u128 = 0;
    let mut k: usize = lo;
    while k < hi
        invariant
            lo <= k <= hi <= chars@.len(),
            hi - lo == 32,
            s == chars@.subrange(lo as int, hi as int),
            all_lower_hex(s.subrange(0, k - lo)),
            value == hex_value(s.subrange(0, k - lo)),
            value < pow16(k - lo),
        decreases hi - k,
    {
        let c = chars[k];
        let d: u128 = if '0' <= c && c <= '9' {
            (c as u32 - 48) as u128
        } else if 'a' <= c && c <= 'f' {
            (c as u32 - 87) as u128
        } else {
            assert(s[k - lo] == c);
            return None;
        };
        assert(s.subrange(0, k + 1 - lo).drop_last() =~= s.subrange(0, k - lo));
        proof {
            lemma_pow16_bound(k - lo);
            assert(value * 16 + d < pow16(k + 1 - lo)) by (nonlinear_arith)
                requires
                    value < pow16(k - lo),
                    d < 16,
                    pow16(k + 1 - lo) == pow16(k - lo) * 16,
            ;
        }
        value = value * 16 + d;
        k = k + 1;
    }
    assert(s.subrange(0, k - lo) =~= s);
    Some(value)
}

/// Sixteen to the power `n`.
pub open spec fn pow16(n: int) -> int
    decreases n,
{
    if n <= 0 {
        1
    } else {
        16 * pow16(n - 1)
    }
}

proof fn lemma_pow16_bound(n: int)
    requires
        0 <= n < 32,
    ensures
        pow16(n + 1) == pow16(n) * 16,
        pow16(n + 1) <= pow16(32),
        pow16(32) == 0x1_0000_0000_0000_0000_0000_0000_0000_0000,
    decreases 32 - n,
{
    reveal_with_fuel(pow16, 33);
    if n + 1 < 32 {
        lemma_pow16_bound(n + 1);
    }
}

/// How a quarantined history file name sorts, if it is one.
pub fn corrupt_history_sort_key(name: &str) -> (key: Option<(u64, u128)>)
    ensures
        key == corrupt_sort_key(name@),
{
    proof {
        reveal_strlit("agent-history.corrupt-");
        reveal_strlit(".json");
    }
    let chars = chars_of(name);
    let prefix = chars_of("agent-history.corrupt-");
    let suffix = chars_of(".json");
    let n = chars.len();
    let p = prefix.len();
    let q = suffix.len();
    if n < p + q {
        return None;
    }
    let mut i: usize = 0;
    while i < p
        invariant
            i <= p <= n,
            chars@ == name@,
            n == chars@.len(),
            p == prefix@.len(),
            prefix@ == corrupt_prefix(),
            forall|j: int| 0 <= j < i ==> chars@[j] == prefix@[j],
        decreases p - i,
    {
        if chars[i] != prefix[i] {
            assert(name@.subrange(0, p as int)[i as int] != corrupt_prefix()[i as int]);
            return None;
        }
        i = i + 1;
    }
    assert(name@.subrange(0, p as int) =~= corrupt_prefix());
    let mut j: usize = 0;
    while j < q
        invariant
            j <= q,
            p + q <= n,
            chars@ == name@,
            n == chars@.len(),
            q == suffix@.len(),
            suffix@ == corrupt_suffix(),
            forall|t: int| 0 <= t < j ==> chars@[n - q + t] == suffix@[t],
        decreases q - j,
    {
        if chars[n - q + j] != suffix[j] {
            assert(name@.subrange(n - q, n as int)[j as int] != corrupt_suffix()[j as int]);
            return None;
        }
        j = j + 1;
    }
    assert(name@.subrange(n - q, n as int) =~= corrupt_suffix());
    let lo = p;
    let hi = n - q;
    let ghost stem = name@.subrange(lo as int, hi as int);
    let mut dash = lo;
    while dash < hi && chars[dash] != '-'
        invariant
            lo <= dash <= hi <= n,
            n == chars@.len(),
            chars@ == name@,
            stem == name@.subrange(lo as int, hi as int),
            forall|t: int| lo <= t < dash ==> chars@[t] != '-',
        decreases hi - dash,
    {
        dash = dash + 1;
    }
    if dash == hi {
        proof {
            assert forall|t: int| !is_first_dash(stem, t) by {
                if 0 <= t < stem.len() {
                    assert(stem[t] == chars@[lo + t]);
                }
            }
        }
        return match parse_instant(&chars, lo, hi) {
            Some(instant) => Some((instant, 0u128)),
            None => None,
        };
    }
    proof {
        let d = dash - lo;
        assert(is_first_dash(stem, d)) by {
            assert forall|t: int| 0 <= t < d implies stem[t] != '-' by {
                assert(stem[t] == chars@[lo + t]);
            }
        }
        assert forall|t: int| is_first_dash(stem, t) implies t == d by {
            if t < d {
                assert(stem[t] == chars@[lo + t]);
            } else if t > d {
                assert(stem[d] == '-');
            }
        }
        assert(stem.subrange(0, d) =~= chars@.subrange(lo as int, dash as int));
        assert(stem.subrange(d + 1, stem.len() as int) =~= chars@.subrange(dash + 1, hi as int));
    }
    let instant = parse_instant(&chars, lo, dash);
    let nonce = parse_nonce(&chars, dash + 1, hi);
    match (instant, nonce) {
        (Some(instant), Some(nonce)) => Some((instant, nonce)),
        _ => None,
    }
}


/// The value of bytes read most significant first.
pub open spec fn big_endian(bytes: Seq<u8>) -> nat
    decreases bytes.len(),
{
    if bytes.len() == 0 {
        0
    } else {
        big_endian(bytes.drop_last()) * 256 + bytes.last() as nat
    }
}

proof fn lemma_decimal_digits(n: nat)
    ensures
        decimal_digits(n).len() > 0,
        all_digits(decimal_digits(n)),
        digits_value(decimal_digits(n)) == n,
    decreases n,
{
    if n >= 10 {
        lemma_decimal_digits(n / 10);
        let s = decimal_digits(n);
        assert(s.drop_last() =~= decimal_digits(n / 10));
        assert(forall|i: int| 0 <= i < s.len() - 1 ==> s[i] == decimal_digits(n / 10)[i]);
        assert(s.last() as int == 48 + n % 10);
        assert(digits_value(s) == digits_value(decimal_digits(n / 10)) * 10 + n % 10);
        assert(n == (n / 10) * 10 + n % 10);
        assert(digits_value(s) == n);
    } else {
        let s = decimal_digits(n);
        assert(s.last() as int == 48 + n);
        assert(s.drop_last() =~= Seq::<char>::empty());
        assert(digits_value(Seq::<char>::empty()) == 0);
        assert(digits_value(s) == n);
    }
}

proof fn lemma_lower_hex_value(bytes: Seq<u8>)
    ensures
        lower_hex(bytes).len() == 2 * bytes.len(),
        all_lower_hex(lower_hex(bytes)),
        hex_value(lower_hex(bytes)) == big_endian(bytes),
    decreases bytes.len(),
{
    if bytes.len() > 0 {
        let head = bytes.drop_last();
        lemma_lower_hex_value(head);
        let b = bytes.last();
        let x = crate::digest::hex_digit(b / 16);
        let y = crate::digest::hex_digit(b % 16);
        let t = lower_hex(bytes);
        assert(t =~= lower_hex(head) + seq![x, y]);
        assert(t.drop_last() =~= lower_hex(head).push(x));
        assert(t.drop_last().drop_last() =~= lower_hex(head));
        assert(hex_value_of(x) == b / 16);
        assert(hex_value_of(y) == b % 16);
        assert(forall|i: int| 0 <= i < lower_hex(head).len() ==> t[i] == lower_hex(head)[i]);
        assert(t.drop_last().last() == x);
        assert(t.last() == y);
        assert(hex_value(t.drop_last()) == hex_value(lower_hex(head)) * 16 + hex_value_of(x));
        assert(hex_value(t) == hex_value(t.drop_last()) * 16 + hex_value_of(y));
        assert(b as int == (b / 16) * 16 + b % 16);
        assert(hex_value(t) == big_endian(head) * 256 + b);
    } else {
        assert(lower_hex(bytes) =~= Seq::<char>::empty());
        assert(hex_value(Seq::<char>::empty()) == 0);
    }
}

proof fn lemma_hex_value_bound(s: Seq<char>)
    requires
        all_lower_hex(s),
    ensures
        hex_value(s) < pow16(s.len() as int),
    decreases s.len(),
{
    if s.len() > 0 {
        assert(all_lower_hex(s.drop_last()) ) by {
            assert(forall|i: int| 0 <= i < s.len() - 1 ==> s.drop_last()[i] == s[i]);
        }
        lemma_hex_value_bound(s.drop_last());
        assert(hex_value_of(s.last()) < 16) by {
            assert(s.last() == s[s.len() - 1]);
        }
    }
}

/// The name made for a quarantined history sorts by exactly the instant and the nonce it was
/// made with, the nonce read as a big-endian number.
pub proof fn lemma_corrupt_name_sorts_by_its_instant_and_nonce(timestamp: u64, nonce: Seq<u8>)
    requires
        nonce.len() == 16,
    ensures
        corrupt_sort_key(corrupt_name(timestamp, nonce)) == Some((timestamp, big_endian(nonce) as u128)),
{
    reveal_strlit("agent-history.corrupt-");
    reveal_strlit(".json");
    reveal_strlit("-");
    let digits = decimal_digits(timestamp as nat);
    let hex = lower_hex(nonce);
    lemma_decimal_digits(timestamp as nat);
    lemma_lower_hex_value(nonce);
    lemma_hex_value_bound(hex);
    lemma_pow16_bound(31);
    let name = corrupt_name(timestamp, nonce);
    let p = corrupt_prefix().len();
    let q = corrupt_suffix().len();
    let stem = digits + "-"@ + hex;
    assert(name =~= corrupt_prefix() + stem + corrupt_suffix());
    assert(name.subrange(0, p as int) =~= corrupt_prefix());
    assert(name.subrange(name.len() - q, name.len() as int) =~= corrupt_suffix());
    assert(name.subrange(p as int, name.len() - q) =~= stem);
    let d = digits.len() as int;
    assert(is_first_dash(stem, d)) by {
        assert forall|j: int| 0 <= j < d implies stem[j] != '-' by {
            assert(stem[j] == digits[j]);
        }
    }
    assert forall|i: int| is_first_dash(stem, i) implies i == d by {
        if i < d {
            assert(stem[i] == digits[i]);
        }
    }
    assert(stem.subrange(0, d) =~= digits);
    assert(stem.subrange(d + 1, stem.len() as int) =~= hex);
}

} // verus!
