//! Text helpers.

use vstd::prelude::*;

verus! {

/// The characters with the Unicode property `White_Space`.
pub open spec fn white_space(c: char) -> bool {
    ||| '\u{9}' <= c <= '\u{d}'
    ||| c == '\u{20}'
    ||| c == '\u{85}'
    ||| c == '\u{a0}'
    ||| c == '\u{1680}'
    ||| '\u{2000}' <= c <= '\u{200a}'
    ||| c == '\u{2028}'
    ||| c == '\u{2029}'
    ||| c == '\u{202f}'
    ||| c == '\u{205f}'
    ||| c == '\u{3000}'
}

/// Text without the white space it starts with.
pub open spec fn trimmed_start(s: Seq<char>) -> Seq<char>
    decreases s.len(),
{
    if s.len() > 0 && white_space(s[0]) {
        trimmed_start(s.skip(1))
    } else {
        s
    }
}

/// Text without the white space it ends with.
pub open spec fn trimmed_end(s: Seq<char>) -> Seq<char>
    decreases s.len(),
{
    if s.len() > 0 && white_space(s.last()) {
        trimmed_end(s.drop_last())
    } else {
        s
    }
}

/// Text without the white space at both ends.
pub open spec fn trimmed(s: Seq<char>) -> Seq<char> {
    trimmed_end(trimmed_start(s))
}

/// `str::trim`: the text without the white space at both ends, as Unicode defines white space.
#[verifier::external_body]
pub(crate) fn str_trim(s: &str) -> (r: &str)
    ensures
        r@ == trimmed(s@),
{
    s.trim()
}

/// `std::str::from_utf8`: the text that bytes encode, which exists exactly where they are valid
/// UTF-8.
#[verifier::external_body]
pub(crate) fn utf8_text(bytes: &[u8]) -> (r: Option<&str>)
    ensures
        r is Some <==> vstd::utf8::valid_utf8(bytes@),
        r matches Some(text) ==> vstd::utf8::encode_utf8(text@) == bytes@,
{
    std::str::from_utf8(bytes).ok()
}

/// Whether two texts are the same.
pub fn same_text(a: &str, b: &str) -> (r: bool)
    ensures
        r == (a@ == b@),
{
    let x: String = a.to_owned();
    let y: String = b.to_owned();
    x == y
}

/// A letter of ASCII in lower case; other characters stay as they are.
pub open spec fn ascii_lower(c: char) -> char {
    if 'A' <= c <= 'Z' {
        (c as int + 32) as char
    } else {
        c
    }
}

/// A letter of ASCII in lower case; other characters stay as they are.
pub fn lower(c: char) -> (r: char)
    ensures
        r == ascii_lower(c),
{
    if 'A' <= c && c <= 'Z' {
        (c as u8 + 32) as char
    } else {
        c
    }
}

/// Whether a text starts with another.
pub fn has_prefix(s: &str, prefix: &str) -> (r: bool)
    ensures
        r == prefix@.is_prefix_of(s@),
{
    let len: usize = prefix.unicode_len();
    if s.unicode_len() < len {
        return false;
    }
    let mut i: usize = 0;
    while i < len
        invariant
            i <= len,
            len == prefix@.len(),
            len <= s@.len(),
            forall|j: int| 0 <= j < i ==> #[trigger] prefix@[j] == s@[j],
        decreases len - i,
    {
        if s.get_char(i) != prefix.get_char(i) {
            assert(prefix@[i as int] != s@.take(len as int)[i as int]);
            return false;
        }
        i = i + 1;
    }
    assert(prefix@ =~= s@.take(len as int));
    true
}

/// Whether a text holds a character.
pub fn holds_char(s: &str, wanted: char) -> (r: bool)
    ensures
        r == s@.contains(wanted),
{
    for c in iter: s.chars()
        invariant
            iter.seq() == s@,
            forall|i: int| 0 <= i < iter.index() ==> #[trigger] s@[i] != wanted,
    {
        if c == wanted {
            assert(s@[iter.index()] == wanted);
            return true;
        }
    }
    false
}

/// `String::push`: adds one character at the end.
pub assume_specification[ String::push ](s: &mut String, c: char)
    ensures
        final(s)@ == old(s)@.push(c),
;

/// The character of a decimal digit.
pub open spec fn digit(d: nat) -> char {
    (48 + d) as char
}

/// A number in decimal.
pub open spec fn decimal(n: nat) -> Seq<char>
    decreases n,
{
    if n < 10 {
        seq![digit(n)]
    } else {
        decimal(n / 10).push(digit(n % 10))
    }
}

/// Adds a number in decimal.
pub fn push_decimal(s: &mut String, n: u64)
    ensures
        final(s)@ == old(s)@ + decimal(n as nat),
    decreases n,
{
    if n >= 10 {
        push_decimal(s, n / 10);
    }
    s.push((48u8 + (n % 10) as u8) as char);
    assert(s@ =~= old(s)@ + decimal(n as nat));
}

/// A decimal text is not empty.
pub proof fn lemma_decimal_nonempty(n: nat)
    ensures
        decimal(n).len() > 0,
{
}

/// Different numbers have different decimal texts.
pub proof fn decimal_names_one_number(a: nat, b: nat)
    requires
        decimal(a) == decimal(b),
    ensures
        a == b,
    decreases a,
{
    lemma_decimal_nonempty(a / 10);
    lemma_decimal_nonempty(b / 10);
    assert(decimal(a).last() == digit(a % 10));
    assert(decimal(b).last() == digit(b % 10));
    assert(digit(a % 10) as int == 48 + a % 10);
    assert(digit(b % 10) as int == 48 + b % 10);
    if a >= 10 {
        if b >= 10 {
            assert(decimal(a).drop_last() =~= decimal(a / 10));
            assert(decimal(b).drop_last() =~= decimal(b / 10));
            decimal_names_one_number(a / 10, b / 10);
        } else {
            assert(decimal(a).len() == decimal(a / 10).len() + 1);
        }
    } else if b >= 10 {
        assert(decimal(b).len() == decimal(b / 10).len() + 1);
    }
}

/// The character is a decimal digit.
pub open spec fn is_digit(c: char) -> bool {
    '0' <= c <= '9'
}

/// The number that decimal digits name.
pub open spec fn digits_value(s: Seq<char>) -> nat
    decreases s.len(),
{
    if s.len() == 0 {
        0
    } else {
        (digits_value(s.drop_last()) * 10 + (s.last() as int - 48)) as nat
    }
}

/// A number without its plus sign, if it has one.
pub open spec fn unsigned_part(s: Seq<char>) -> Seq<char> {
    if s.len() > 0 && s[0] == '+' {
        s.skip(1)
    } else {
        s
    }
}

/// Every character is a decimal digit.
pub open spec fn all_digits(s: Seq<char>) -> bool {
    forall|i: int| 0 <= i < s.len() ==> is_digit(#[trigger] s[i])
}

/// The number that a text names: decimal digits, at least one, behind a plus sign if there is one.
pub open spec fn parsed_decimal(s: Seq<char>) -> Option<nat> {
    let digits = unsigned_part(s);
    if digits.len() > 0 && all_digits(digits) {
        Some(digits_value(digits))
    } else {
        None
    }
}

/// The number that a text names, if it is no larger than `max`.
pub fn parse_decimal(s: &str, max: u64) -> (r: Option<u64>)
    ensures
        r is Some <==> parsed_decimal(s@) is Some && parsed_decimal(s@)->Some_0 <= max,
        r matches Some(n) ==> n == parsed_decimal(s@)->Some_0,
{
    let len: usize = s.unicode_len();
    let start: usize = if len > 0 && s.get_char(0) == '+' {
        1
    } else {
        0
    };
    let ghost digits = unsigned_part(s@);
    if start == len {
        return None;
    }
    let mut value: u64 = 0;
    let mut over: bool = false;
    let mut i: usize = start;
    assert(digits.take(0) =~= Seq::empty());
    while i < len
        invariant
            start <= i <= len,
            len == s@.len(),
            start == if s@.len() > 0 && s@[0] == '+' {
                1int
            } else {
                0int
            },
            digits == unsigned_part(s@),
            forall|j: int| 0 <= j < i - start ==> is_digit(#[trigger] digits[j]),
            !over ==> value == digits_value(digits.take(i - start)) && value <= max,
            over ==> digits_value(digits.take(i - start)) > max,
        decreases len - i,
    {
        let c: char = s.get_char(i);
        assert(digits[i - start] == c);
        if c < '0' || c > '9' {
            assert(!is_digit(digits[i - start]));
            assert(!all_digits(digits));
            return None;
        }
        assert(digits.take(i - start + 1).drop_last() =~= digits.take(i - start));
        if !over {
            let d: u64 = c as u64 - 48;
            match value.checked_mul(10) {
                None => {
                    over = true;
                },
                Some(shifted) => match shifted.checked_add(d) {
                    None => {
                        over = true;
                    },
                    Some(sum) => {
                        if sum > max {
                            over = true;
                        } else {
                            value = sum;
                        }
                    },
                },
            }
        }
        i = i + 1;
    }
    assert(digits.take(i - start) =~= digits);
    if over {
        None
    } else {
        Some(value)
    }
}

/// The character of a hexadecimal digit.
pub open spec fn hex_digit(d: nat) -> char {
    if d < 10 {
        (48 + d) as char
    } else {
        (87 + d) as char
    }
}

/// A number in hexadecimal.
pub open spec fn hexadecimal(n: nat) -> Seq<char>
    decreases n,
{
    if n < 16 {
        seq![hex_digit(n)]
    } else {
        hexadecimal(n / 16).push(hex_digit(n % 16))
    }
}

/// Adds a number in hexadecimal.
pub fn push_hexadecimal(s: &mut String, n: u64)
    ensures
        final(s)@ == old(s)@ + hexadecimal(n as nat),
    decreases n,
{
    if n >= 16 {
        push_hexadecimal(s, n / 16);
    }
    let d: u8 = (n % 16) as u8;
    if d < 10 {
        s.push((48u8 + d) as char);
    } else {
        s.push((87u8 + d) as char);
    }
    assert(s@ =~= old(s)@ + hexadecimal(n as nat));
}

/// A number written in decimal is read back, and nothing larger than the limit is.
pub proof fn written_numbers_are_read_back(text: &mut String, n: u64, read: &str, max: u64, r: Option<u64>)
    requires
        text@.len() == 0,
        call_ensures(push_decimal, (text, n), ()),
        read@ == final(text)@,
        call_ensures(parse_decimal, (read, max), r),
    ensures
        r is Some <==> n <= max,
        r is Some ==> r->Some_0 == n,
{
    assert(read@ =~= decimal(n as nat));
    lemma_decimal_is_read(n as nat);
    lemma_decimal_nonempty(n as nat);
    assert(read@[0] != '+');
}

proof fn lemma_decimal_is_read(n: nat)
    ensures
        all_digits(decimal(n)),
        decimal(n).len() > 0,
        digits_value(decimal(n)) == n,
    decreases n,
{
    let d = decimal(n);
    assert(digit(n % 10) as int == 48 + n % 10);
    if n < 10 {
        assert(d.drop_last() =~= Seq::empty());
        assert(digits_value(d.drop_last()) == 0);
    } else {
        lemma_decimal_is_read(n / 10);
        assert(d.drop_last() =~= decimal(n / 10));
        assert(d.last() == digit(n % 10));
        assert forall|i: int| 0 <= i < d.len() implies is_digit(#[trigger] d[i]) by {
            if i < d.len() - 1 {
                assert(decimal(n / 10)[i] == d[i]);
            }
        }
    }
}

/// One more digit behind a number makes it ten times as large, and adds the digit. A single digit
/// names itself, and a plus sign before a number changes nothing.
pub proof fn digits_weigh_ten_times_the_next(
    front: &str,
    whole: &str,
    c: char,
    max: u64,
    before: Option<u64>,
    r: Option<u64>,
)
    requires
        whole@ == front@.push(c),
        call_ensures(parse_decimal, (front, max), before),
        call_ensures(parse_decimal, (whole, max), r),
        max == u64::MAX,
    ensures
        before is Some && '0' <= c <= '9' && before->Some_0 * 10 + (c as u32 - 48) <= u64::MAX ==> r
            == Some((before->Some_0 * 10 + (c as u32 - 48)) as u64),
        (front@.len() == 0 || front@ == seq!['+']) && '0' <= c <= '9' ==> r == Some(
            (c as u32 - 48) as u64,
        ),
        !('0' <= c <= '9') ==> r is None,
{
    let digits = unsigned_part(whole@);
    assert(whole@.last() == c);
    if front@.len() > 0 {
        assert(whole@[0] == front@[0]);
        assert(digits =~= unsigned_part(front@).push(c));
        assert(digits.drop_last() =~= unsigned_part(front@));
        assert(digits.last() == c);
        if front@ == seq!['+'] {
            assert(unsigned_part(front@) =~= Seq::empty());
            assert(digits_value(unsigned_part(front@)) == 0);
        }
    } else {
        assert(whole@ =~= seq![c]);
        if c == '+' {
            assert(digits =~= Seq::empty());
        } else {
            assert(digits.drop_last() =~= Seq::empty());
            assert(digits_value(digits.drop_last()) == 0);
        }
    }
    if !('0' <= c <= '9') && digits.len() > 0 {
        assert(digits[digits.len() - 1] == c);
        assert(!is_digit(digits[digits.len() - 1]));
    }
    if before is Some && '0' <= c <= '9' {
        let d = unsigned_part(front@);
        assert forall|i: int| 0 <= i < digits.len() implies is_digit(#[trigger] digits[i]) by {
            if i < d.len() {
                assert(d[i] == digits[i]);
            }
        }
    }
    if (front@.len() == 0 || front@ == seq!['+']) && '0' <= c <= '9' {
        assert(digits =~= seq![c]);
        assert(is_digit(digits[0]));
        assert(all_digits(digits));
    }
}

/// A plus sign before a number changes nothing.
pub proof fn plus_sign_changes_nothing(
    plain: &str,
    signed: &str,
    max: u64,
    r: Option<u64>,
    s: Option<u64>,
)
    requires
        plain@.len() == 0 || plain@[0] != '+',
        signed@ == seq!['+'] + plain@,
        call_ensures(parse_decimal, (plain, max), r),
        call_ensures(parse_decimal, (signed, max), s),
    ensures
        r == s,
{
    assert(unsigned_part(signed@) =~= plain@);
}

/// A number in hexadecimal is what sixteen goes into it how often, behind which stands the rest,
/// and what is less than sixteen is one digit.
pub proof fn hexadecimal_counts_in_sixteens(
    text: &mut String,
    shorter: &mut String,
    n: u64,
)
    requires
        text@.len() == 0,
        shorter@.len() == 0,
        call_ensures(push_hexadecimal, (text, n), ()),
        call_ensures(push_hexadecimal, (shorter, (n / 16) as u64), ()),
    ensures
        n >= 16 ==> final(text)@.drop_last() == final(shorter)@,
        n < 16 ==> final(text)@.len() == 1,
        n % 16 < 10 ==> final(text)@.last() as u32 == 48 + n % 16,
        n % 16 >= 10 ==> final(text)@.last() as u32 == 87 + n % 16,
{
    assert(final(text)@ =~= hexadecimal(n as nat));
    assert(final(shorter)@ =~= hexadecimal((n / 16) as nat));
}

/// A letter becomes the small one that stands thirty-two places on, and everything else stays.
pub proof fn capitals_become_small(c: char, r: char)
    requires
        call_ensures(lower, (c,), r),
    ensures
        'A' <= c <= 'Z' ==> r as u32 == c as u32 + 32,
        !('A' <= c <= 'Z') ==> r == c,
        'a' <= c <= 'z' ==> r == c,
{
}

/// A text is the same as another where every character is, and starts with one that its first
/// characters are.
pub proof fn texts_are_held_character_by_character(
    a: &str,
    b: &str,
    same: bool,
    starts: bool,
    wanted: char,
    holds: bool,
    i: int,
)
    requires
        call_ensures(same_text, (a, b), same),
        call_ensures(has_prefix, (a, b), starts),
        call_ensures(holds_char, (a, wanted), holds),
    ensures
        same <==> a@ =~= b@,
        same ==> starts,
        starts && 0 <= i < b@.len() ==> i < a@.len() && a@[i] == b@[i],
        b@.len() == 0 ==> starts,
        !starts ==> a@.len() < b@.len() || (exists|k: int|
            0 <= k < b@.len() && #[trigger] a@[k] != b@[k]),
        holds ==> exists|k: int| 0 <= k < a@.len() && #[trigger] a@[k] == wanted,
        !holds && 0 <= i < a@.len() ==> a@[i] != wanted,
{
    if !starts && a@.len() >= b@.len() {
        if forall|k: int| 0 <= k < b@.len() ==> #[trigger] a@[k] == b@[k] {
            assert(a@.subrange(0, b@.len() as int) =~= b@);
        }
    }
    if starts && 0 <= i < b@.len() {
        assert(a@.subrange(0, b@.len() as int)[i] == b@[i]);
    }
}

} // verus!
