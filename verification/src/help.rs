//! Byte-level helpers behind header parsing: locating separators, trimming,
//! reading unsigned numbers, and looking keys up in `;`-separated
//! `key=value` header values.

use vstd::prelude::*;
use vstd::slice::slice_to_vec;
use vstd::string::StringSliceAdditionalSpecFns;
use vstd::utf8::{decode_utf8, valid_utf8};

verus! {

/// An ASCII decimal digit.
pub open spec fn is_digit(b: u8) -> bool {
    48 <= b <= 57
}

/// An ASCII hexadecimal digit, either case.
pub open spec fn is_hex_digit(b: u8) -> bool {
    is_digit(b) || (97 <= b <= 102) || (65 <= b <= 70)
}

/// The numeric value of a hexadecimal digit.
pub open spec fn hex_val(b: u8) -> u8 {
    if is_digit(b) {
        (b - 48) as u8
    } else if 97 <= b <= 102 {
        (b - 87) as u8
    } else {
        (b - 55) as u8
    }
}

/// ASCII whitespace as it appears around header parameters.
pub open spec fn is_space(b: u8) -> bool {
    b == 32 || b == 9 || b == 10 || b == 13
}

/// The position of the first occurrence of `b` in `s`.
pub open spec fn find_byte(s: Seq<u8>, b: u8) -> Option<int>
    decreases s.len(),
{
    if s.len() == 0 {
        None
    } else if s[0] == b {
        Some(0)
    } else {
        match find_byte(s.drop_first(), b) {
            Some(i) => Some(i + 1),
            None => None,
        }
    }
}

/// `find_byte` returns the first position of `b`, or nothing when `b` does
/// not occur.
pub proof fn lemma_find_byte(s: Seq<u8>, b: u8)
    ensures
        match find_byte(s, b) {
            Some(i) => 0 <= i < s.len() && s[i] == b && (forall|j: int| 0 <= j < i ==> s[j] != b),
            None => forall|j: int| 0 <= j < s.len() ==> s[j] != b,
        },
    decreases s.len(),
{
    if s.len() > 0 && s[0] != b {
        let t = s.drop_first();
        lemma_find_byte(t, b);
        match find_byte(t, b) {
            Some(i) => {
                assert(s[i + 1] == t[i]);
                assert forall|j: int| 0 <= j < i + 1 implies s[j] != b by {
                    if j > 0 {
                        assert(t[j - 1] != b);
                    }
                }
            },
            None => {
                assert forall|j: int| 0 <= j < s.len() implies s[j] != b by {
                    if j > 0 {
                        assert(t[j - 1] != b);
                    }
                }
            },
        }
    }
}

/// The position of the last occurrence of `b` in `s`.
pub open spec fn rfind_byte(s: Seq<u8>, b: u8) -> Option<int>
    decreases s.len(),
{
    if s.len() == 0 {
        None
    } else if s[s.len() - 1] == b {
        Some(s.len() - 1)
    } else {
        rfind_byte(s.drop_last(), b)
    }
}

/// `rfind_byte` returns the last position of `b`, or nothing when `b` does
/// not occur.
pub proof fn lemma_rfind_byte(s: Seq<u8>, b: u8)
    ensures
        match rfind_byte(s, b) {
            Some(i) => 0 <= i < s.len() && s[i] == b && (forall|j: int|
                i < j < s.len() ==> s[j] != b),
            None => forall|j: int| 0 <= j < s.len() ==> s[j] != b,
        },
    decreases s.len(),
{
    if s.len() > 0 && s[s.len() - 1] != b {
        let t = s.drop_last();
        lemma_rfind_byte(t, b);
        match rfind_byte(t, b) {
            Some(i) => {
                assert(s[i] == t[i]);
                assert forall|j: int| i < j < s.len() implies s[j] != b by {
                    if j < s.len() - 1 {
                        assert(t[j] != b);
                    }
                }
            },
            None => {
                assert forall|j: int| 0 <= j < s.len() implies s[j] != b by {
                    if j < s.len() - 1 {
                        assert(t[j] != b);
                    }
                }
            },
        }
    }
}

/// The position of the first occurrence of the two-byte pattern `a b` in `s`.
pub open spec fn find_pair(s: Seq<u8>, a: u8, b: u8) -> Option<int>
    decreases s.len(),
{
    if s.len() < 2 {
        None
    } else if s[0] == a && s[1] == b {
        Some(0)
    } else {
        match find_pair(s.drop_first(), a, b) {
            Some(i) => Some(i + 1),
            None => None,
        }
    }
}

/// `find_pair` returns the first position of the pattern, or nothing when
/// the pattern does not occur.
pub proof fn lemma_find_pair(s: Seq<u8>, a: u8, b: u8)
    ensures
        match find_pair(s, a, b) {
            Some(i) => 0 <= i && i + 2 <= s.len() && s[i] == a && s[i + 1] == b && (forall|j: int|
                0 <= j < i ==> !(#[trigger] s[j] == a && s[j + 1] == b)),
            None => forall|j: int| 0 <= j && j + 2 <= s.len() ==> !(#[trigger] s[j] == a && s[j + 1] == b),
        },
    decreases s.len(),
{
    if s.len() >= 2 && !(s[0] == a && s[1] == b) {
        let t = s.drop_first();
        lemma_find_pair(t, a, b);
        match find_pair(t, a, b) {
            Some(i) => {
                assert(s[i + 1] == t[i] && s[i + 2] == t[i + 1]);
                assert forall|j: int| 0 <= j < i + 1 implies !(#[trigger] s[j] == a && s[j + 1]
                    == b) by {
                    if j > 0 {
                        assert(!(t[j - 1] == a && t[j] == b));
                    }
                }
            },
            None => {
                assert forall|j: int| 0 <= j && j + 2 <= s.len() implies !(#[trigger] s[j] == a
                    && s[j + 1] == b) by {
                    if j > 0 {
                        assert(!(t[j - 1] == a && t[j] == b));
                    }
                }
            },
        }
    }
}

/// First position of `b` in `s`, as executable code.
pub fn find_byte_at(s: &[u8], b: u8) -> (r: Option<usize>)
    ensures
        match r {
            Some(i) => find_byte(s@, b) == Some(i as int),
            None => find_byte(s@, b) is None,
        },
{
    proof {
        lemma_find_byte(s@, b);
    }
    let mut i: usize = 0;
    while i < s.len()
        invariant
            0 <= i <= s@.len(),
            forall|j: int| 0 <= j < i ==> s@[j] != b,
            match find_byte(s@, b) {
                Some(k) => 0 <= k < s@.len() && s@[k] == b && (forall|j: int|
                    0 <= j < k ==> s@[j] != b),
                None => forall|j: int| 0 <= j < s@.len() ==> s@[j] != b,
            },
        decreases s@.len() - i,
    {
        if s[i] == b {
            return Some(i);
        }
        i = i + 1;
    }
    None
}

/// Last position of `b` in `s`, as executable code.
pub fn rfind_byte_at(s: &[u8], b: u8) -> (r: Option<usize>)
    ensures
        match r {
            Some(i) => rfind_byte(s@, b) == Some(i as int),
            None => rfind_byte(s@, b) is None,
        },
{
    proof {
        lemma_rfind_byte(s@, b);
    }
    let mut i: usize = s.len();
    while i > 0
        invariant
            0 <= i <= s@.len(),
            forall|j: int| i <= j < s@.len() ==> s@[j] != b,
            match rfind_byte(s@, b) {
                Some(k) => 0 <= k < s@.len() && s@[k] == b && (forall|j: int|
                    k < j < s@.len() ==> s@[j] != b),
                None => forall|j: int| 0 <= j < s@.len() ==> s@[j] != b,
            },
        decreases i,
    {
        i = i - 1;
        if s[i] == b {
            return Some(i);
        }
    }
    None
}

/// First position of the two-byte pattern `a b` in `s`, as executable code.
pub fn find_pair_at(s: &[u8], a: u8, b: u8) -> (r: Option<usize>)
    ensures
        match r {
            Some(i) => find_pair(s@, a, b) == Some(i as int),
            None => find_pair(s@, a, b) is None,
        },
{
    proof {
        lemma_find_pair(s@, a, b);
    }
    if s.len() < 2 {
        return None;
    }
    let mut i: usize = 0;
    while i < s.len() - 1
        invariant
            s@.len() >= 2,
            0 <= i <= s@.len(),
            forall|j: int| 0 <= j < i ==> !(#[trigger] s@[j] == a && s@[j + 1] == b),
            match find_pair(s@, a, b) {
                Some(k) => 0 <= k && k + 2 <= s@.len() && s@[k] == a && s@[k + 1] == b && (forall|
                    j: int,
                |
                    0 <= j < k ==> !(#[trigger] s@[j] == a && s@[j + 1] == b)),
                None => forall|j: int|
                    0 <= j && j + 2 <= s@.len() ==> !(#[trigger] s@[j] == a && s@[j + 1] == b),
            },
        decreases s@.len() - i,
    {
        if s[i] == a && s[i + 1] == b {
            return Some(i);
        }
        i = i + 1;
    }
    None
}

/// Whether two byte slices hold the same bytes.
pub fn bytes_eq(x: &[u8], y: &[u8]) -> (r: bool)
    ensures
        r <==> x@ == y@,
{
    if x.len() != y.len() {
        proof {
            assert(x@ != y@);
        }
        return false;
    }
    let mut i: usize = 0;
    while i < x.len()
        invariant
            0 <= i <= x@.len(),
            x@.len() == y@.len(),
            forall|j: int| 0 <= j < i ==> x@[j] == y@[j],
        decreases x@.len() - i,
    {
        if x[i] != y[i] {
            return false;
        }
        i = i + 1;
    }
    proof {
        assert(x@ =~= y@);
    }
    true
}

/// `s` without leading whitespace.
pub open spec fn trim_start_spec(s: Seq<u8>) -> Seq<u8>
    decreases s.len(),
{
    if s.len() > 0 && is_space(s[0]) {
        trim_start_spec(s.drop_first())
    } else {
        s
    }
}

/// `s` without trailing whitespace.
pub open spec fn trim_end_spec(s: Seq<u8>) -> Seq<u8>
    decreases s.len(),
{
    if s.len() > 0 && is_space(s[s.len() - 1]) {
        trim_end_spec(s.drop_last())
    } else {
        s
    }
}

/// `s` without leading and trailing whitespace.
pub open spec fn trim_spec(s: Seq<u8>) -> Seq<u8> {
    trim_end_spec(trim_start_spec(s))
}

/// Skipping exactly the leading run of whitespace is what `trim_start_spec`
/// computes.
proof fn lemma_trim_start_skip(s: Seq<u8>, k: int)
    requires
        0 <= k <= s.len(),
        forall|j: int| 0 <= j < k ==> is_space(s[j]),
        k < s.len() ==> !is_space(s[k]),
    ensures
        trim_start_spec(s) == s.skip(k),
    decreases k,
{
    if k == 0 {
        assert(s.skip(0) =~= s);
    } else {
        lemma_trim_start_skip(s.drop_first(), k - 1);
        assert(s.drop_first().skip(k - 1) =~= s.skip(k));
    }
}

/// Taking exactly up to the trailing run of whitespace is what
/// `trim_end_spec` computes.
proof fn lemma_trim_end_take(s: Seq<u8>, m: int)
    requires
        0 <= m <= s.len(),
        forall|j: int| m <= j < s.len() ==> is_space(s[j]),
        m > 0 ==> !is_space(s[m - 1]),
    ensures
        trim_end_spec(s) == s.take(m),
    decreases s.len() - m,
{
    if m == s.len() {
        assert(s.take(m) =~= s);
    } else {
        lemma_trim_end_take(s.drop_last(), m);
        assert(s.drop_last().take(m) =~= s.take(m));
    }
}

/// `s` without leading and trailing whitespace, as executable code.
pub fn trim_slice<'a>(s: &'a [u8]) -> (r: &'a [u8])
    ensures
        r@ == trim_spec(s@),
{
    let mut start: usize = 0;
    while start < s.len() && (s[start] == 32 || s[start] == 9 || s[start] == 10 || s[start] == 13)
        invariant
            0 <= start <= s@.len(),
            forall|j: int| 0 <= j < start ==> is_space(s@[j]),
        decreases s@.len() - start,
    {
        start = start + 1;
    }
    proof {
        lemma_trim_start_skip(s@, start as int);
    }
    let mut end: usize = s.len();
    while end > start && (s[end - 1] == 32 || s[end - 1] == 9 || s[end - 1] == 10 || s[end - 1]
        == 13)
        invariant
            start <= end <= s@.len(),
            forall|j: int| end <= j < s@.len() ==> is_space(s@[j]),
        decreases end,
    {
        end = end - 1;
    }
    proof {
        let t = s@.skip(start as int);
        lemma_trim_end_take(t, end - start);
        assert(trim_spec(s@) == t.take(end - start));
        assert(t.take(end - start) =~= s@.subrange(start as int, end as int));
    }
    &s[start..end]
}

/// Every byte of `s` is a decimal digit.
pub open spec fn all_digits(s: Seq<u8>) -> bool {
    forall|j: int| 0 <= j < s.len() ==> is_digit(#[trigger] s[j])
}

/// The number written by the digits of `s`, most significant first.
pub open spec fn digits_value(s: Seq<u8>) -> nat
    decreases s.len(),
{
    if s.len() == 0 {
        0
    } else {
        digits_value(s.drop_last()) * 10 + (s[s.len() - 1] - 48) as nat
    }
}

/// `s` without one leading `+` sign.
pub open spec fn strip_plus(s: Seq<u8>) -> Seq<u8> {
    if s.len() > 0 && s[0] == 43 {
        s.drop_first()
    } else {
        s
    }
}

/// The unsigned number `s` spells, exactly as the standard library reads
/// one: an optional `+`, then at least one decimal digit, and the value
/// must fit in 64 bits; anything else is rejected.
pub open spec fn parse_u64_spec(s: Seq<u8>) -> Option<u64> {
    let d = strip_plus(s);
    if d.len() > 0 && all_digits(d) && digits_value(d) <= u64::MAX {
        Some(digits_value(d) as u64)
    } else {
        None
    }
}

/// Reading more digits never makes the number smaller.
proof fn lemma_digits_value_prefix(s: Seq<u8>, i: int)
    requires
        0 <= i <= s.len(),
    ensures
        digits_value(s.take(i)) <= digits_value(s),
    decreases s.len(),
{
    if i == s.len() {
        assert(s.take(i) =~= s);
    } else {
        assert(s.drop_last().take(i) =~= s.take(i));
        lemma_digits_value_prefix(s.drop_last(), i);
    }
}

/// One more digit multiplies the value by ten and adds the digit.
proof fn lemma_digits_value_step(s: Seq<u8>, i: int)
    requires
        0 <= i < s.len(),
    ensures
        digits_value(s.take(i + 1)) == digits_value(s.take(i)) * 10 + (s[i] - 48) as nat,
{
    assert(s.take(i + 1).drop_last() =~= s.take(i));
    assert(s.take(i + 1)[i] == s[i]);
}

/// The unsigned number `s` spells, as executable code.
pub fn parse_u64(s: &[u8]) -> (r: Option<u64>)
    ensures
        r == parse_u64_spec(s@),
{
    let d: &[u8] = if s.len() > 0 && s[0] == 43 {
        &s[1..s.len()]
    } else {
        s
    };
    proof {
        assert(d@ =~= strip_plus(s@));
    }
    if d.len() == 0 {
        return None;
    }
    let mut acc: u64 = 0;
    let mut i: usize = 0;
    while i < d.len()
        invariant
            0 <= i <= d@.len(),
            d@.len() > 0,
            d@ == strip_plus(s@),
            all_digits(d@.take(i as int)),
            acc == digits_value(d@.take(i as int)),
        decreases d@.len() - i,
    {
        let c = d[i];
        if c < 48 || c > 57 {
            proof {
                assert(!is_digit(d@[i as int]));
            }
            return None;
        }
        let dig = (c - 48) as u64;
        proof {
            lemma_digits_value_step(d@, i as int);
        }
        let next = match acc.checked_mul(10) {
            Some(m) => m.checked_add(dig),
            None => None,
        };
        match next {
            Some(v) => {
                acc = v;
                i = i + 1;
                proof {
                    assert(all_digits(d@.take(i as int)));
                }
            },
            None => {
                proof {
                    assert(digits_value(d@.take(i as int + 1)) > u64::MAX);
                    lemma_digits_value_prefix(d@, i as int + 1);
                }
                return None;
            },
        }
    }
    proof {
        assert(d@.take(d@.len() as int) =~= d@);
    }
    Some(acc)
}

/// The value of one trimmed `key=value` segment, when its key is `key`.
pub open spec fn seg_value_raw(seg: Seq<u8>, key: Seq<u8>) -> Option<Seq<u8>> {
    let t = trim_spec(seg);
    match find_byte(t, 61) {
        Some(i) => if t.take(i) == key {
            Some(t.skip(i + 1))
        } else {
            None
        },
        None => None,
    }
}

/// The value of the first `;`-separated segment of `s` whose key is `key`.
pub open spec fn lookup_raw(s: Seq<u8>, key: Seq<u8>) -> Option<Seq<u8>>
    decreases s.len(),
    via lookup_raw_dec
{
    match find_byte(s, 59) {
        Some(i) => match seg_value_raw(s.take(i), key) {
            Some(v) => Some(v),
            None => lookup_raw(s.skip(i + 1), key),
        },
        None => seg_value_raw(s, key),
    }
}

#[via_fn]
proof fn lookup_raw_dec(s: Seq<u8>, key: Seq<u8>) {
    lemma_find_byte(s, 59);
}

/// The number in the first `;`-separated segment of `s` whose key is `key`
/// and whose value reads as an unsigned number; segments with the right key
/// but an unreadable value are passed over.
pub open spec fn lookup_u64(s: Seq<u8>, key: Seq<u8>) -> Option<u64>
    decreases s.len(),
    via lookup_u64_dec
{
    match find_byte(s, 59) {
        Some(i) => match seg_value_num(s.take(i), key) {
            Some(v) => Some(v),
            None => lookup_u64(s.skip(i + 1), key),
        },
        None => seg_value_num(s, key),
    }
}

#[via_fn]
proof fn lookup_u64_dec(s: Seq<u8>, key: Seq<u8>) {
    lemma_find_byte(s, 59);
}

/// The number of one trimmed `key=value` segment, when its key is `key` and
/// its value reads as an unsigned number.
pub open spec fn seg_value_num(seg: Seq<u8>, key: Seq<u8>) -> Option<u64> {
    match seg_value_raw(seg, key) {
        Some(v) => parse_u64_spec(v),
        None => None,
    }
}

/// The value of one `key=value` segment, as executable code.
fn seg_value(seg: &[u8], key: &[u8]) -> (r: Option<Vec<u8>>)
    ensures
        match r {
            Some(v) => seg_value_raw(seg@, key@) == Some(v@),
            None => seg_value_raw(seg@, key@) is None,
        },
{
    let t = trim_slice(seg);
    proof {
        lemma_find_byte(t@, 61);
    }
    match find_byte_at(t, 61) {
        Some(i) => {
            let (k, rest0) = t.split_at(i);
            proof {
                assert(k@ =~= trim_spec(seg@).take(i as int));
                assert(rest0@.subrange(1, rest0@.len() as int) =~= trim_spec(seg@).skip(
                    i as int + 1,
                ));
            }
            if bytes_eq(k, key) {
                let v = &rest0[1..rest0.len()];
                Some(slice_to_vec(v))
            } else {
                None
            }
        },
        None => None,
    }
}

/// The value of the first segment of `s` whose key is `key`, as executable
/// code.
pub fn lookup_value(s: &[u8], key: &[u8]) -> (r: Option<Vec<u8>>)
    ensures
        match r {
            Some(v) => lookup_raw(s@, key@) == Some(v@),
            None => lookup_raw(s@, key@) is None,
        },
    decreases s@.len(),
{
    proof {
        lemma_find_byte(s@, 59);
    }
    match find_byte_at(s, 59) {
        Some(i) => {
            let (head, tail0) = s.split_at(i);
            let rest = &tail0[1..tail0.len()];
            proof {
                assert(head@ =~= s@.take(i as int));
                assert(rest@ =~= s@.skip(i as int + 1));
            }
            match seg_value(head, key) {
                Some(v) => Some(v),
                None => lookup_value(rest, key),
            }
        },
        None => seg_value(s, key),
    }
}

/// The number in the first segment of `s` whose key is `key` and whose
/// value reads as a number, as executable code.
pub fn lookup_num(s: &[u8], key: &[u8]) -> (r: Option<u64>)
    ensures
        r == lookup_u64(s@, key@),
    decreases s@.len(),
{
    proof {
        lemma_find_byte(s@, 59);
    }
    match find_byte_at(s, 59) {
        Some(i) => {
            let (head, tail0) = s.split_at(i);
            let rest = &tail0[1..tail0.len()];
            proof {
                assert(head@ =~= s@.take(i as int));
                assert(rest@ =~= s@.skip(i as int + 1));
            }
            let found = match seg_value(head, key) {
                Some(v) => parse_u64(v.as_slice()),
                None => None,
            };
            match found {
                Some(v) => Some(v),
                None => lookup_num(rest, key),
            }
        },
        None => {
            match seg_value(s, key) {
                Some(v) => parse_u64(v.as_slice()),
                None => None,
            }
        },
    }
}

/// Reads a `;`-separated list of `key=value` pairs and returns the number
/// stored under `key`, or nothing when `key` is absent or its value is not
/// an unsigned 64-bit number.
pub fn parse_str(target: &str, key: &str) -> (r: Option<u64>)
    ensures
        r == lookup_u64(target.spec_bytes(), key.spec_bytes()),
{
    lookup_num(target.as_bytes(), key.as_bytes())
}

/// `s` with every `%`-escape of two hexadecimal digits replaced by the
/// escaped byte; a `%` not followed by two hexadecimal digits stays.
pub open spec fn pct_decoded(s: Seq<u8>) -> Seq<u8>
    decreases s.len(),
{
    if s.len() == 0 {
        Seq::empty()
    } else if s[0] == 37 && s.len() >= 3 && is_hex_digit(s[1]) && is_hex_digit(s[2]) {
        seq![(hex_val(s[1]) * 16 + hex_val(s[2])) as u8] + pct_decoded(s.skip(3))
    } else {
        seq![s[0]] + pct_decoded(s.skip(1))
    }
}

/// Relies on percent_encoding::percent_decode: each `%` followed by two
/// hexadecimal digits becomes the escaped byte, every other byte is kept
/// as it stands.
#[verifier::external_body]
pub(crate) fn percent_decode_bytes(s: &[u8]) -> (r: Vec<u8>)
    ensures
        r@ == pct_decoded(s@),
{
    percent_encoding::percent_decode(s).collect()
}

/// The characters of a byte sequence: its UTF-8 reading, or no characters
/// at all where it is not UTF-8.
pub open spec fn text_of(b: Seq<u8>) -> Seq<char> {
    if valid_utf8(b) {
        decode_utf8(b)
    } else {
        Seq::empty()
    }
}

/// Relies on String::from_utf8: valid UTF-8 decodes to the string holding
/// exactly those bytes, and nothing else is accepted (here the reject case
/// becomes the empty string).
#[verifier::external_body]
pub(crate) fn utf8_or_empty(b: Vec<u8>) -> (r: String)
    ensures
        r@ == text_of(b@),
{
    match String::from_utf8(b) {
        Ok(s) => s,
        Err(_) => String::new(),
    }
}

/// What follows the last `''` marker, reading markers left to right; `s`
/// itself when there is none.
pub open spec fn after_last_marker(s: Seq<u8>) -> Seq<u8>
    decreases s.len(),
    via after_last_marker_dec
{
    match find_pair(s, 39, 39) {
        Some(i) => after_last_marker(s.skip(i + 2)),
        None => s,
    }
}

#[via_fn]
proof fn after_last_marker_dec(s: Seq<u8>) {
    lemma_find_pair(s, 39, 39);
}

/// What follows the last `''` marker, as executable code.
pub fn after_last_marker_slice<'a>(s: &'a [u8]) -> (r: &'a [u8])
    ensures
        r@ == after_last_marker(s@),
    decreases s@.len(),
{
    proof {
        lemma_find_pair(s@, 39, 39);
    }
    match find_pair_at(s, 39, 39) {
        Some(i) => {
            let n = s.len();
            let rest = &s[i + 2..n];
            proof {
                assert(rest@ =~= s@.skip(i as int + 2));
            }
            after_last_marker_slice(rest)
        },
        None => s,
    }
}

/// `s` with every leading and trailing double quote removed.
pub open spec fn trim_quotes(s: Seq<u8>) -> Seq<u8>
    decreases s.len(),
{
    if s.len() > 0 && s[0] == 34 {
        trim_quotes(s.drop_first())
    } else if s.len() > 0 && s[s.len() - 1] == 34 {
        trim_quotes(s.drop_last())
    } else {
        s
    }
}

/// `s` with every leading and trailing double quote removed, as executable
/// code.
pub fn trim_quotes_slice<'a>(s: &'a [u8]) -> (r: &'a [u8])
    ensures
        r@ == trim_quotes(s@),
    decreases s@.len(),
{
    if s.len() > 0 && s[0] == 34 {
        let t = &s[1..s.len()];
        proof {
            assert(t@ =~= s@.drop_first());
        }
        trim_quotes_slice(t)
    } else if s.len() > 0 && s[s.len() - 1] == 34 {
        let t = &s[0..s.len() - 1];
        proof {
            assert(t@ =~= s@.drop_last());
        }
        trim_quotes_slice(t)
    } else {
        s
    }
}

/// The URL up to its query part.
pub open spec fn strip_query(url: Seq<u8>) -> Seq<u8> {
    match find_byte(url, 63) {
        Some(i) => url.take(i),
        None => url,
    }
}

/// The last `/`-separated segment of the URL's path part.
pub open spec fn last_segment(url: Seq<u8>) -> Seq<u8> {
    let p = strip_query(url);
    match rfind_byte(p, 47) {
        Some(i) => p.skip(i + 1),
        None => p,
    }
}

/// The name the URL ends in: its last path segment, percent-decoded; or
/// nothing when that segment is empty. The query part never contributes.
pub open spec fn url_tail_name(url: Seq<u8>) -> Option<Seq<u8>> {
    if last_segment(url).len() > 0 {
        Some(pct_decoded(last_segment(url)))
    } else {
        None
    }
}

/// The percent-decoded last path segment of `url`, or nothing when the
/// path ends in a separator.
pub fn get_last_part_and_decode(url: &str) -> (r: Option<String>)
    ensures
        match r {
            Some(name) => url_tail_name(url.spec_bytes()) is Some && name@ == text_of(
                url_tail_name(url.spec_bytes()).unwrap(),
            ),
            None => url_tail_name(url.spec_bytes()) is None,
        },
{
    let bytes = url.as_bytes();
    proof {
        lemma_find_byte(bytes@, 63);
    }
    let path: &[u8] = match find_byte_at(bytes, 63) {
        Some(i) => &bytes[0..i],
        None => bytes,
    };
    proof {
        assert(path@ =~= strip_query(bytes@));
        lemma_rfind_byte(path@, 47);
    }
    let path_len = path.len();
    let seg: &[u8] = match rfind_byte_at(path, 47) {
        Some(i) => &path[i + 1..path_len],
        None => path,
    };
    proof {
        assert(seg@ =~= last_segment(bytes@));
    }
    if seg.len() == 0 {
        None
    } else {
        Some(utf8_or_empty(percent_decode_bytes(seg)))
    }
}

/// Relies on String::push: appends exactly one character at the end.
#[verifier::external_body]
pub(crate) fn push_char(s: &mut String, c: char)
    ensures
        final(s)@ == old(s)@.push(c),
{
    s.push(c);
}

/// Appends the characters of `v` to `s`.
pub(crate) fn append_chars(s: &mut String, v: &Vec<char>)
    ensures
        final(s)@ == old(s)@ + v@,
{
    let mut i: usize = 0;
    while i < v.len()
        invariant
            0 <= i <= v@.len(),
            s@ == old(s)@ + v@.take(i as int),
        decreases v@.len() - i,
    {
        push_char(s, v[i]);
        proof {
            assert(old(s)@ + v@.take(i as int + 1) =~= (old(s)@ + v@.take(i as int)).push(
                v@[i as int],
            ));
        }
        i = i + 1;
    }
    proof {
        assert(old(s)@ + v@.take(v@.len() as int) =~= old(s)@ + v@);
    }
}

/// The decimal writing of `n`, most significant digit first, without signs
/// or leading zeroes (zero itself is the single digit `0`).
pub open spec fn dec_digits(n: nat) -> Seq<char>
    decreases n,
{
    if n < 10 {
        seq![((48 + n) as u8) as char]
    } else {
        dec_digits(n / 10).push(((48 + n % 10) as u8) as char)
    }
}

/// Appends the decimal writing of `n` to `out`.
fn push_decimal(out: &mut Vec<char>, n: u64)
    ensures
        final(out)@ == old(out)@ + dec_digits(n as nat),
    decreases n,
{
    if n >= 10 {
        proof {
            assert(n / 10 < n) by (nonlinear_arith)
                requires
                    n >= 10,
            ;
        }
        push_decimal(out, n / 10);
        out.push((48 + (n % 10) as u8) as char);
        proof {
            assert(old(out)@ + dec_digits(n as nat) =~= (old(out)@ + dec_digits(
                n as nat / 10,
            )).push(((48 + n as nat % 10) as u8) as char));
        }
    } else {
        out.push((48 + n as u8) as char);
        proof {
            assert(old(out)@ + dec_digits(n as nat) =~= old(out)@.push(((48 + n as nat) as u8) as char));
        }
    }
}

/// The decimal writing of `n`.
pub fn u64_to_string(n: u64) -> (r: String)
    ensures
        r@ == dec_digits(n as nat),
{
    let mut digits: Vec<char> = Vec::new();
    push_decimal(&mut digits, n);
    let mut s = String::new();
    append_chars(&mut s, &digits);
    s
}

/// The bytes behind an optional header value.
pub open spec fn opt_bytes(o: Option<&str>) -> Option<Seq<u8>> {
    match o {
        Some(s) => Some(s.spec_bytes()),
        None => None,
    }
}

/// The bytes of the stand-in name used when a URL offers no usable last
/// path segment.
pub open spec fn remote_file_bytes() -> Seq<u8> {
    "Remote File".spec_bytes()
}

/// The name taken from the URL: its percent-decoded last path segment, or
/// the stand-in name when that segment is empty.
pub open spec fn default_or_url_name(url: Seq<u8>) -> Seq<u8> {
    match url_tail_name(url) {
        Some(b) => b,
        None => remote_file_bytes(),
    }
}

/// The filename a response carries, tried in order: the `filename*`
/// parameter of the content-disposition header (percent-decoded, after its
/// last `''` marker), else its plain `filename` parameter with quotes
/// stripped, else the URL's percent-decoded last path segment, else the
/// stand-in name.
pub open spec fn filename_bytes(cd: Option<Seq<u8>>, url: Seq<u8>) -> Seq<u8> {
    match cd {
        Some(h) => match lookup_raw(h, "filename*".spec_bytes()) {
            Some(v) => after_last_marker(pct_decoded(v)),
            None => match lookup_raw(h, "filename".spec_bytes()) {
                Some(v) => trim_quotes(v),
                None => default_or_url_name(url),
            },
        },
        None => default_or_url_name(url),
    }
}

/// The characters of the derived filename.
pub open spec fn derived_text(cd: Option<Seq<u8>>, url: Seq<u8>) -> Seq<char> {
    text_of(filename_bytes(cd, url))
}

/// The name taken from the URL, as executable code.
fn default_name(url: &str) -> (r: String)
    ensures
        r@ == text_of(default_or_url_name(url.spec_bytes())),
{
    match get_last_part_and_decode(url) {
        Some(name) => name,
        None => {
            proof {
                vstd::utf8::encode_utf8_valid_utf8("Remote File"@);
                vstd::utf8::encode_utf8_decode_utf8("Remote File"@);
            }
            "Remote File".to_owned()
        },
    }
}

/// Derives the filename of an ingested profile from the response's
/// content-disposition header and the URL it was fetched from, trying the
/// `filename*` parameter, the `filename` parameter, the URL's last path
/// segment and the stand-in name, in that order.
pub fn derive_filename(disposition: Option<&str>, url: &str) -> (r: String)
    ensures
        r@ == derived_text(opt_bytes(disposition), url.spec_bytes()),
{
    match disposition {
        Some(h) => {
            let hb = h.as_bytes();
            match lookup_value(hb, "filename*".as_bytes()) {
                Some(v) => {
                    let dec = percent_decode_bytes(v.as_slice());
                    let tail = after_last_marker_slice(dec.as_slice());
                    utf8_or_empty(slice_to_vec(tail))
                },
                None => {
                    match lookup_value(hb, "filename".as_bytes()) {
                        Some(v) => {
                            let t = trim_quotes_slice(v.as_slice());
                            utf8_or_empty(slice_to_vec(t))
                        },
                        None => default_name(url),
                    }
                },
            }
        },
        None => default_name(url),
    }
}

} // verus!
