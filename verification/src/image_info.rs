//! The encoded image payload: `width:height:data`, with the pixel data in
//! standard base64.  Splitting, dimension parsing and assembly are verified
//! here; only the base64 conversion itself is the outside crate's work.

use vstd::prelude::*;

use crate::chars::str_chars;

verus! {

/// Whether `c` is a decimal digit.
pub open spec fn is_digit(c: char) -> bool {
    48 <= c as u32 <= 57
}

/// The value of a decimal digit; zero for any other character.
pub open spec fn digit_val(c: char) -> nat {
    if is_digit(c) {
        (c as u32 - 48) as nat
    } else {
        0
    }
}

/// Whether every character of `s` is a decimal digit.
pub open spec fn all_digits(s: Seq<char>) -> bool {
    forall|j: int| 0 <= j < s.len() ==> is_digit(s[j])
}

/// The number a digit string denotes.
pub open spec fn digits_val(s: Seq<char>) -> nat
    decreases s.len(),
{
    if s.len() == 0 {
        0
    } else {
        digits_val(s.drop_last()) * 10 + digit_val(s.last())
    }
}

/// What a dimension field of the payload denotes: a non-empty all-digit
/// string whose value fits a `u32`; anything else is rejected.
pub open spec fn spec_parse_dim(s: Seq<char>) -> Option<u32> {
    if s.len() >= 1 && all_digits(s) && digits_val(s) <= u32::MAX {
        Some(digits_val(s) as u32)
    } else {
        None
    }
}

/// The digit character for one decimal value.
pub open spec fn digit_char(d: int) -> char {
    if d == 0 {
        '0'
    } else if d == 1 {
        '1'
    } else if d == 2 {
        '2'
    } else if d == 3 {
        '3'
    } else if d == 4 {
        '4'
    } else if d == 5 {
        '5'
    } else if d == 6 {
        '6'
    } else if d == 7 {
        '7'
    } else if d == 8 {
        '8'
    } else {
        '9'
    }
}

/// The decimal digit string of a number, most significant digit first.
pub open spec fn spec_dec_digits(n: nat) -> Seq<char>
    decreases n,
{
    if n < 10 {
        seq![digit_char(n as int)]
    } else {
        spec_dec_digits(n / 10).push(digit_char((n % 10) as int))
    }
}

proof fn lemma_digits_val_prefix_le(s: Seq<char>, i: int)
    requires
        0 <= i <= s.len(),
    ensures
        digits_val(s.subrange(0, i)) <= digits_val(s),
    decreases s.len() - i,
{
    if i == s.len() {
        assert(s.subrange(0, i) =~= s);
    } else {
        let p = s.subrange(0, i);
        let q = s.subrange(0, i + 1);
        assert(q.drop_last() =~= p);
        assert(q.last() == s[i]);
        assert(digits_val(q) == digits_val(p) * 10 + digit_val(s[i]));
        lemma_digits_val_prefix_le(s, i + 1);
    }
}

/// Parses a dimension field, exactly as [`spec_parse_dim`] says.
pub fn parse_dim(v: &Vec<char>) -> (r: Option<u32>)
    ensures
        r == spec_parse_dim(v@),
{
    let n = v.len();
    if n == 0 {
        return None;
    }
    let mut acc: u64 = 0;
    let mut i: usize = 0;
    while i < n
        invariant
            n == v@.len(),
            i <= n,
            acc == digits_val(v@.subrange(0, i as int)),
            acc <= u32::MAX,
            forall|j: int| 0 <= j < i ==> is_digit(v@[j]),
        decreases n - i,
    {
        let u = v[i] as u32;
        if u < 48 || u > 57 {
            proof {
                assert(!is_digit(v@[i as int]));
            }
            return None;
        }
        let d = (u - 48) as u64;
        proof {
            assert(v@.subrange(0, i as int + 1).drop_last() =~= v@.subrange(0, i as int));
            assert(v@.subrange(0, i as int + 1).last() == v@[i as int]);
        }
        acc = acc * 10 + d;
        i += 1;
        if acc > 0xFFFF_FFFF {
            proof {
                lemma_digits_val_prefix_le(v@, i as int);
            }
            return None;
        }
    }
    proof {
        assert(v@.subrange(0, n as int) =~= v@);
    }
    Some(acc as u32)
}

/// The digit character for a value below ten.
fn digit_str(d: u64) -> (r: &'static str)
    requires
        d < 10,
    ensures
        r@ == seq![digit_char(d as int)],
{
    proof {
        reveal_strlit("0");
        reveal_strlit("1");
        reveal_strlit("2");
        reveal_strlit("3");
        reveal_strlit("4");
        reveal_strlit("5");
        reveal_strlit("6");
        reveal_strlit("7");
        reveal_strlit("8");
        reveal_strlit("9");
    }
    let r: &'static str = match d {
        0 => "0",
        1 => "1",
        2 => "2",
        3 => "3",
        4 => "4",
        5 => "5",
        6 => "6",
        7 => "7",
        8 => "8",
        _ => "9",
    };
    proof {
        assert(r@ =~= seq![digit_char(d as int)]);
    }
    r
}

/// The decimal digit string of a number.
pub fn dec_digits_of(n: u64) -> (s: String)
    ensures
        s@ == spec_dec_digits(n as nat),
    decreases n,
{
    if n < 10 {
        String::from_str(digit_str(n))
    } else {
        proof {
            assert(n / 10 < n) by (nonlinear_arith)
                requires
                    n >= 10,
            ;
        }
        let mut s = dec_digits_of(n / 10);
        s.append(digit_str(n % 10));
        s
    }
}

/// The base64 encoding, with the standard alphabet and padding, of a byte
/// sequence; a function of the bytes alone.
pub uninterp spec fn b64_of(b: Seq<u8>) -> Seq<char>;

/// Relies on base64's `STANDARD` engine `encode`: the standard-alphabet,
/// padded encoding of the bytes.
#[verifier::external_body]
fn b64_encode(bytes: &[u8]) -> (r: String)
    ensures
        r@ == b64_of(bytes@),
{
    base64::Engine::encode(&base64::engine::general_purpose::STANDARD, bytes)
}

/// Relies on base64's `STANDARD` engine `decode`: decoding a canonical
/// standard-alphabet encoding returns the encoded bytes, and — because that
/// engine requires canonical padding and zero trailing bits — nothing but a
/// canonical encoding is accepted.
#[verifier::external_body]
fn b64_decode(s: &str) -> (r: Option<Vec<u8>>)
    ensures
        forall|b: Seq<u8>| s@ == b64_of(b) ==> r is Some && r->0@ == b,
        r is Some ==> s@ == b64_of((r->0)@),
{
    match base64::Engine::decode(&base64::engine::general_purpose::STANDARD, s) {
        Ok(v) => Some(v),
        Err(_) => None,
    }
}

/// The index of the first `:` in `s`, or `s.len()` when there is none.
pub open spec fn first_colon(s: Seq<char>) -> int
    decreases s.len(),
{
    if s.len() == 0 {
        0
    } else if s[0] == ':' {
        0
    } else {
        1 + first_colon(s.drop_first())
    }
}

proof fn lemma_first_colon_at(s: Seq<char>, i: int)
    requires
        0 <= i <= s.len(),
        forall|j: int| 0 <= j < i ==> s[j] != ':',
        i == s.len() || s[i] == ':',
    ensures
        first_colon(s) == i,
    decreases i,
{
    if i == 0 {
    } else {
        let t = s.drop_first();
        assert(s[0] != ':');
        lemma_first_colon_at(t, i - 1);
    }
}

/// How a payload string splits: the text before the first `:` as the width,
/// the text between the first and second `:` as the height, and everything
/// after the second `:` as the still-encoded pixel data.
pub open spec fn spec_split_image_info(s: Seq<char>) -> Option<(u32, u32, Seq<char>)> {
    let i = first_colon(s);
    if i == s.len() {
        None
    } else {
        let w_str = s.subrange(0, i);
        let rest = s.subrange(i + 1, s.len() as int);
        let j = first_colon(rest);
        if j == rest.len() {
            None
        } else {
            let h_str = rest.subrange(0, j);
            let payload = rest.subrange(j + 1, rest.len() as int);
            match (spec_parse_dim(w_str), spec_parse_dim(h_str)) {
                (Some(w), Some(h)) => Some((w, h, payload)),
                _ => None,
            }
        }
    }
}

/// Splits a payload string into dimensions and the still-encoded pixel data,
/// exactly as [`spec_split_image_info`] says.
pub fn split_image_info(s: &str) -> (r: Option<(u32, u32, String)>)
    ensures
        ({
            match spec_split_image_info(s@) {
                None => r is None,
                Some((w, h, p)) => r is Some && (r->0).0 == w && (r->0).1 == h && (r->0).2@ == p,
            }
        }),
{
    let v = str_chars(s);
    let n = v.len();
    let mut i: usize = 0;
    while i < n && v[i] != ':'
        invariant
            n == v@.len(),
            i <= n,
            forall|j: int| 0 <= j < i ==> v@[j] != ':',
        decreases n - i,
    {
        i += 1;
    }
    proof {
        lemma_first_colon_at(v@, i as int);
    }
    if i == n {
        return None;
    }
    let ghost rest = v@.subrange(i as int + 1, n as int);
    let mut j: usize = i + 1;
    while j < n && v[j] != ':'
        invariant
            n == v@.len(),
            i < j <= n,
            forall|k: int| i < k < j ==> v@[k] != ':',
        decreases n - j,
    {
        j += 1;
    }
    proof {
        assert(forall|k: int| 0 <= k < j - i - 1 ==> rest[k] == v@[k + i + 1] && rest[k] != ':');
        assert(j < n ==> rest[j - i - 1] == v@[j as int]);
        lemma_first_colon_at(rest, j - i - 1);
    }
    if j == n {
        return None;
    }
    let w_chars = crate::chars::subvec(&v, 0, i);
    let h_chars = crate::chars::subvec(&v, i + 1, j);
    proof {
        assert(h_chars@ =~= rest.subrange(0, j - i - 1));
    }
    let w = match parse_dim(&w_chars) {
        Some(w) => w,
        None => {
            return None;
        },
    };
    let h = match parse_dim(&h_chars) {
        Some(h) => h,
        None => {
            return None;
        },
    };
    let payload_str = s.substring_char(j + 1, n);
    let payload = String::from_str(payload_str);
    proof {
        assert(payload@ =~= rest.subrange(j - i - 1 + 1, rest.len() as int));
    }
    Some((w, h, payload))
}

/// Splits a payload string and decodes its pixel data.  The data decodes
/// whenever it is a canonical base64 encoding; in particular everything
/// [`image_info_of`] built comes back as it went in.
pub fn parse_image_info(s: &str) -> (r: Option<(u32, u32, Vec<u8>)>)
    ensures
        spec_split_image_info(s@) is None ==> r is None,
        r is Some ==> spec_split_image_info(s@) is Some,
        r is Some ==> ({
            let (w, h, p) = spec_split_image_info(s@)->0;
            (r->0).0 == w && (r->0).1 == h && p == b64_of((r->0).2@)
        }),
        (forall|b: Seq<u8>|
            spec_split_image_info(s@) is Some && (spec_split_image_info(s@)->0).2 == b64_of(b)
                ==> r is Some),
{
    match split_image_info(s) {
        Some((w, h, payload)) => {
            match b64_decode(payload.as_str()) {
                Some(bytes) => Some((w, h, bytes)),
                None => None,
            }
        },
        None => None,
    }
}

/// The payload string for an image: `width:height:` followed by the base64
/// pixel data.
pub open spec fn spec_image_info(w: u32, h: u32, b: Seq<u8>) -> Seq<char> {
    spec_dec_digits(w as nat) + seq![':'] + spec_dec_digits(h as nat) + seq![':'] + b64_of(b)
}

/// Builds the payload string for an image.
pub fn image_info_of(width: u32, height: u32, bytes: &[u8]) -> (s: String)
    ensures
        s@ == spec_image_info(width, height, bytes@),
{
    proof {
        reveal_strlit(":");
    }
    let mut s = dec_digits_of(width as u64);
    s.append(":");
    let h = dec_digits_of(height as u64);
    s.append(h.as_str());
    s.append(":");
    let enc = b64_encode(bytes);
    s.append(enc.as_str());
    proof {
        assert(":"@ =~= seq![':']);
    }
    s
}

} // verus!
