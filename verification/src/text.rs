//! Text helpers: comparison, building, and decimal integers, all stated over
//! `Seq<char>`.

use vstd::prelude::*;

verus! {

/// Whether the two texts hold the same characters.
pub(crate) fn str_eq(a: &str, b: &str) -> (r: bool)
    ensures
        r == (a@ == b@),
{
    let x = a.to_owned();
    let y = b.to_owned();
    x == y
}

/// Calls `String::push` of std, which vstd leaves unspecified: the character
/// is appended at the end.
#[verifier::external_body]
pub(crate) fn push_char(s: &mut String, c: char)
    ensures
        final(s)@ == old(s)@.push(c),
{
    s.push(c)
}

/// The characters of `s`, in order.
pub fn chars_of(s: &str) -> (v: Vec<char>)
    ensures
        v@ == s@,
{
    let mut v: Vec<char> = Vec::new();
    for c in it: s.chars()
        invariant
            v@ == it.seq().take(it.index() as int),
            it.seq() == s@,
    {
        v.push(c);
    }
    v
}

/// A string holding the characters of `v`, in order.
pub fn text_of(v: &Vec<char>) -> (s: String)
    ensures
        s@ == v@,
{
    let mut s = String::new();
    let mut i: usize = 0;
    while i < v.len()
        invariant
            i <= v.len(),
            s@ == v@.take(i as int),
        decreases v.len() - i,
    {
        push_char(&mut s, v[i]);
        i += 1;
    }
    s
}

/// Whether `c` is one of the ten decimal digits.
pub open spec fn is_digit(c: char) -> bool {
    '0' <= c && c <= '9'
}

/// The number that the decimal digit `c` stands for.
pub open spec fn digit_of(c: char) -> int {
    c as int - 48
}

/// The number that a run of decimal digits stands for.
pub open spec fn digits_value(s: Seq<char>) -> int
    decreases s.len(),
{
    if s.len() == 0 {
        0
    } else {
        10 * digits_value(s.drop_last()) + digit_of(s.last())
    }
}

pub open spec fn all_digits(s: Seq<char>) -> bool {
    forall|i: int| 0 <= i < s.len() ==> is_digit(#[trigger] s[i])
}

/// The part of `s` behind its sign, if it has one.
pub open spec fn unsigned_part(s: Seq<char>) -> Seq<char> {
    if s.len() > 0 && (s[0] == '-' || s[0] == '+') {
        s.subrange(1, s.len() as int)
    } else {
        s
    }
}

/// The integer that `s` denotes: an optional sign, then at least one decimal
/// digit and nothing else, with a value that fits in 64 bits.
pub open spec fn int_of_text(s: Seq<char>) -> Option<i64> {
    let body = unsigned_part(s);
    let magnitude = digits_value(body);
    let v = if s.len() > 0 && s[0] == '-' {
        -magnitude
    } else {
        magnitude
    };
    if body.len() > 0 && all_digits(body) && i64::MIN <= v <= i64::MAX {
        Some(v as i64)
    } else {
        None
    }
}

proof fn lemma_digits_grow(s: Seq<char>, k: int)
    requires
        all_digits(s),
        0 <= k <= s.len(),
    ensures
        0 <= digits_value(s.take(k)) <= digits_value(s),
    decreases s.len(),
{
    if s.len() == 0 {
        assert(s.take(k) =~= s);
    } else if k == s.len() {
        assert(s.take(k) =~= s);
        lemma_digits_grow(s.drop_last(), k - 1);
        assert(is_digit(s.last()));
    } else {
        lemma_digits_grow(s.drop_last(), k);
        assert(s.drop_last().take(k) =~= s.take(k));
        assert(is_digit(s.last()));
    }
}

/// Reads a decimal integer.
pub fn parse_int(s: &str) -> (r: Option<i64>)
    ensures
        r == int_of_text(s@),
{
    let chars = chars_of(s);
    let n = chars.len();
    if n == 0 {
        return None;
    }
    let negative = chars[0] == '-';
    let start: usize = if chars[0] == '-' || chars[0] == '+' {
        1
    } else {
        0
    };
    if start == n {
        return None;
    }
    let ghost body = unsigned_part(s@);
    let mut acc: i128 = 0;
    let mut i: usize = start;
    while i < n
        invariant
            start <= i <= n,
            n == chars@.len(),
            chars@ == s@,
            body == s@.subrange(start as int, n as int),
            body == unsigned_part(s@),
            all_digits(body.take(i - start)),
            acc == digits_value(body.take(i - start)),
            0 <= acc <= 0x8000_0000_0000_0000,
        decreases n - i,
    {
        let c = chars[i];
        assert(body[i - start] == c);
        if !(c >= '0' && c <= '9') {
            assert(!is_digit(body[i - start]));
            return None;
        }
        let d: i128 = (c as u8 - 48) as i128;
        let next: i128 = acc * 10 + d;
        proof {
            let now = body.take(i - start + 1);
            assert(now.drop_last() =~= body.take(i - start));
            assert(now.last() == c);
            assert(all_digits(now));
            assert(digits_value(now) == next);
        }
        if next > 0x8000_0000_0000_0000 {
            proof {
                if all_digits(body) {
                    lemma_digits_grow(body, i - start + 1);
                }
            }
            return None;
        }
        acc = next;
        i += 1;
    }
    proof {
        assert(body.take(n - start) =~= body);
    }
    if negative {
        Some((-acc) as i64)
    } else if acc == 0x8000_0000_0000_0000 {
        None
    } else {
        Some(acc as i64)
    }
}

/// The character of the decimal digit `d`.
pub open spec fn digit_char(d: int) -> char {
    ((d + 48) as u8) as char
}

/// The decimal digits of `n`, without leading zeros.
pub open spec fn text_of_nat(n: nat) -> Seq<char>
    decreases n,
{
    if n < 10 {
        seq![digit_char(n as int)]
    } else {
        text_of_nat(n / 10).push(digit_char((n % 10) as int))
    }
}

/// The decimal form of `i`, with a minus sign where it is negative.
pub open spec fn text_of_int(i: int) -> Seq<char> {
    if i < 0 {
        seq!['-'] + text_of_nat((-i) as nat)
    } else {
        text_of_nat(i as nat)
    }
}

/// The decimal digits of a number are digits, and denote the number.
pub proof fn lemma_digits_of_nat(n: nat)
    ensures
        text_of_nat(n).len() >= 1,
        all_digits(text_of_nat(n)),
        digits_value(text_of_nat(n)) == n,
    decreases n,
{
    if n < 10 {
        let s = text_of_nat(n);
        assert(s.drop_last() =~= Seq::<char>::empty());
        assert(digits_value(s.drop_last()) == 0);
    } else {
        lemma_digits_of_nat(n / 10);
        let s = text_of_nat(n);
        assert(s.drop_last() =~= text_of_nat(n / 10));
        assert(s.last() == digit_char((n % 10) as int));
    }
}

/// What is written is read back: the decimal form of an integer denotes
/// that integer.
pub proof fn lemma_written_is_read(i: i64)
    ensures
        int_of_text(text_of_int(i as int)) == Some(i),
{
    if i < 0 {
        let digits = text_of_nat((-i) as nat);
        let s = text_of_int(i as int);
        lemma_digits_of_nat((-i) as nat);
        assert(s[0] == '-');
        assert(unsigned_part(s) =~= digits);
    } else {
        let s = text_of_int(i as int);
        lemma_digits_of_nat(i as nat);
        assert(is_digit(s[0]));
        assert(unsigned_part(s) == s);
    }
}

fn push_nat(s: &mut String, n: u128)
    ensures
        final(s)@ == old(s)@ + text_of_nat(n as nat),
    decreases n,
{
    if n >= 10 {
        push_nat(s, n / 10);
    }
    let d: u8 = (n % 10) as u8;
    push_char(s, (d + 48) as char);
    proof {
        if n < 10 {
            assert(old(s)@.push(digit_char(n as int)) =~= old(s)@ + text_of_nat(n as nat));
        } else {
            assert((old(s)@ + text_of_nat((n / 10) as nat)).push(digit_char((n % 10) as int))
                =~= old(s)@ + text_of_nat(n as nat));
        }
    }
}

/// Writes an integer in decimal.
pub fn int_to_text(i: i64) -> (r: String)
    ensures
        r@ == text_of_int(i as int),
{
    let mut s = String::new();
    if i < 0 {
        push_char(&mut s, '-');
        let magnitude: u128 = if i == i64::MIN {
            0x8000_0000_0000_0000
        } else {
            (-i) as u128
        };
        push_nat(&mut s, magnitude);
        assert(s@ =~= text_of_int(i as int));
    } else {
        push_nat(&mut s, i as u128);
        assert(s@ =~= text_of_int(i as int));
    }
    s
}

/// Writes an integer of up to 128 bits in decimal.
pub fn wide_to_text(i: i128) -> (r: String)
    ensures
        r@ == text_of_int(i as int),
{
    let mut s = String::new();
    if i < 0 {
        push_char(&mut s, '-');
        let magnitude: u128 = if i == i128::MIN {
            0x8000_0000_0000_0000_0000_0000_0000_0000
        } else {
            (-i) as u128
        };
        push_nat(&mut s, magnitude);
        assert(s@ =~= text_of_int(i as int));
    } else {
        push_nat(&mut s, i as u128);
        assert(s@ =~= text_of_int(i as int));
    }
    s
}

/// Writes a count in decimal.
pub fn usize_to_text(n: usize) -> (r: String)
    ensures
        r@ == text_of_nat(n as nat),
{
    let mut s = String::new();
    push_nat(&mut s, n as u128);
    assert(s@ =~= text_of_nat(n as nat));
    s
}

/// Writes a natural number in decimal.
pub fn nat_to_text(n: u128) -> (r: String)
    ensures
        r@ == text_of_nat(n as nat),
{
    let mut s = String::new();
    push_nat(&mut s, n);
    assert(s@ =~= text_of_nat(n as nat));
    s
}

/// The number of bytes that a text takes when it is stored.
pub open spec fn byte_length(s: Seq<char>) -> nat {
    vstd::utf8::encode_utf8(s).len()
}

/// The number of bytes of `s`.
pub fn byte_len(s: &str) -> (r: usize)
    ensures
        r == byte_length(s@),
{
    s.as_bytes().len()
}

/// Whether `c` occurs in `s`.
pub fn contains_char(s: &str, c: char) -> (r: bool)
    ensures
        r == s@.contains(c),
{
    let chars = chars_of(s);
    let mut i: usize = 0;
    while i < chars.len()
        invariant
            i <= chars@.len(),
            chars@ == s@,
            forall|j: int| 0 <= j < i ==> chars@[j] != c,
        decreases chars@.len() - i,
    {
        if chars[i] == c {
            return true;
        }
        i += 1;
    }
    false
}

/// Whether `c` is a capital letter of the Latin alphabet.
pub open spec fn is_upper(c: char) -> bool {
    'A' <= c && c <= 'Z'
}

/// Whether `c` is a small letter of the Latin alphabet.
pub open spec fn is_lower(c: char) -> bool {
    'a' <= c && c <= 'z'
}

/// Whether `c` is a letter of the Latin alphabet or a decimal digit.
pub open spec fn is_alphanumeric(c: char) -> bool {
    is_digit(c) || is_upper(c) || is_lower(c)
}

/// Whether a decimal digit occurs in `s`.
pub fn any_digit(s: &str) -> (r: bool)
    ensures
        r == exists|i: int| 0 <= i < s@.len() && is_digit(#[trigger] s@[i]),
{
    let chars = chars_of(s);
    let mut i: usize = 0;
    while i < chars.len()
        invariant
            i <= chars@.len(),
            chars@ == s@,
            forall|j: int| 0 <= j < i ==> !is_digit(#[trigger] chars@[j]),
        decreases chars@.len() - i,
    {
        if chars[i] >= '0' && chars[i] <= '9' {
            return true;
        }
        i += 1;
    }
    false
}

/// Whether a capital letter occurs in `s`.
pub fn any_upper(s: &str) -> (r: bool)
    ensures
        r == exists|i: int| 0 <= i < s@.len() && is_upper(#[trigger] s@[i]),
{
    let chars = chars_of(s);
    let mut i: usize = 0;
    while i < chars.len()
        invariant
            i <= chars@.len(),
            chars@ == s@,
            forall|j: int| 0 <= j < i ==> !is_upper(#[trigger] chars@[j]),
        decreases chars@.len() - i,
    {
        if chars[i] >= 'A' && chars[i] <= 'Z' {
            return true;
        }
        i += 1;
    }
    false
}

/// Whether `s` holds only letters, digits and underscores.
pub fn all_word_chars(s: &str) -> (r: bool)
    ensures
        r == forall|i: int|
            0 <= i < s@.len() ==> is_alphanumeric(#[trigger] s@[i]) || s@[i] == '_',
{
    let chars = chars_of(s);
    let mut i: usize = 0;
    while i < chars.len()
        invariant
            i <= chars@.len(),
            chars@ == s@,
            forall|j: int|
                0 <= j < i ==> is_alphanumeric(#[trigger] chars@[j]) || chars@[j] == '_',
        decreases chars@.len() - i,
    {
        let c = chars[i];
        let word = (c >= '0' && c <= '9') || (c >= 'A' && c <= 'Z') || (c >= 'a' && c <= 'z') || c
            == '_';
        if !word {
            assert(!(is_alphanumeric(s@[i as int]) || s@[i as int] == '_'));
            return false;
        }
        i += 1;
    }
    true
}

/// The path of `name` inside `scope`: the two joined by a dot, or `name`
/// alone at the root.
pub open spec fn scoped(scope: Seq<char>, name: Seq<char>) -> Seq<char> {
    if scope.len() == 0 {
        name
    } else {
        scope + seq!['.'] + name
    }
}

/// Joins a scope and a name into a path.
pub fn scoped_key(scope: &str, name: &str) -> (r: String)
    ensures
        r@ == scoped(scope@, name@),
{
    let scope_chars = chars_of(scope);
    if scope_chars.len() == 0 {
        name.to_owned()
    } else {
        let mut r = scope.to_owned();
        push_char(&mut r, '.');
        r.append(name);
        assert(r@ =~= scope@ + seq!['.'] + name@);
        r
    }
}

} // verus!
