//! Small text helpers shared by the parsers and formatters of the crate.

use vstd::prelude::*;

verus! {

/// The result of `str::to_lowercase` on a text.
pub uninterp spec fn lowercase_of(text: Seq<char>) -> Seq<char>;

/// Calls `str::to_lowercase`, which maps every character to its Unicode
/// lowercase form. The contract only names the result.
#[verifier::external_body]
pub(crate) fn to_lowercase(text: &str) -> (lowered: String)
    ensures
        lowered@ == lowercase_of(text@),
{
    text.to_lowercase()
}

/// `String::push` appends one character at the end and changes nothing else.
pub assume_specification[ String::push ](text: &mut String, c: char)
    ensures
        final(text)@ == old(text)@.push(c),
;

/// Whether `c` is one of the ten ASCII digits.
pub open spec fn is_digit(c: char) -> bool {
    '0' <= c <= '9'
}

/// Whether `c` is an ASCII letter or an ASCII digit.
pub open spec fn is_ascii_alphanumeric(c: char) -> bool {
    ('0' <= c <= '9') || ('a' <= c <= 'z') || ('A' <= c <= 'Z')
}

/// Tests one character for being an ASCII letter or digit.
pub fn char_is_ascii_alphanumeric(c: char) -> (yes: bool)
    ensures
        yes == is_ascii_alphanumeric(c),
{
    ('0' <= c && c <= '9') || ('a' <= c && c <= 'z') || ('A' <= c && c <= 'Z')
}

/// Whether `prefix` is how `text` begins.
pub open spec fn has_prefix(text: Seq<char>, prefix: Seq<char>) -> bool {
    prefix.len() <= text.len() && text.subrange(0, prefix.len() as int) == prefix
}

/// Tests whether `text` begins with `prefix`, character by character.
pub fn starts_with(text: &str, prefix: &str) -> (yes: bool)
    ensures
        yes == has_prefix(text@, prefix@),
{
    let n: usize = prefix.unicode_len();
    if text.unicode_len() < n {
        return false;
    }
    let mut i: usize = 0;
    while i < n
        invariant
            n == prefix@.len(),
            n <= text@.len(),
            i <= n,
            text@.subrange(0, i as int) == prefix@.subrange(0, i as int),
        decreases n - i,
    {
        if text.get_char(i) != prefix.get_char(i) {
            assert(text@.subrange(0, n as int)[i as int] != prefix@[i as int]);
            return false;
        }
        assert(text@.subrange(0, i + 1) =~= text@.subrange(0, i as int).push(text@[i as int]));
        assert(prefix@.subrange(0, i + 1) =~= prefix@.subrange(0, i as int).push(
            prefix@[i as int],
        ));
        i += 1;
    }
    assert(prefix@.subrange(0, n as int) =~= prefix@);
    true
}

/// Tests whether two texts hold the same characters.
pub fn same_text(a: &str, b: &str) -> (yes: bool)
    ensures
        yes == (a@ == b@),
{
    if a.unicode_len() != b.unicode_len() {
        return false;
    }
    let yes = starts_with(a, b);
    assert(a@.subrange(0, a@.len() as int) =~= a@);
    yes
}

/// The character that shows a value below ten.
pub open spec fn digit_char(d: int) -> char {
    ((48 + d) as u8) as char
}

/// The decimal digits of a positive number, most significant first; nothing
/// for zero.
pub open spec fn digits(n: nat) -> Seq<char>
    decreases n,
{
    if n == 0 {
        Seq::empty()
    } else {
        digits(n / 10).push(digit_char((n % 10) as int))
    }
}

/// A number that is not negative in decimal: its digits, or one zero.
pub open spec fn natural(n: nat) -> Seq<char> {
    if n == 0 {
        seq!['0']
    } else {
        digits(n)
    }
}

/// A number in decimal, filled with zeros on the left up to `width`
/// characters. A number with more digits than that is written in full.
pub open spec fn zero_padded(n: nat, width: nat) -> Seq<char> {
    if natural(n).len() >= width {
        natural(n)
    } else {
        Seq::new((width - natural(n).len()) as nat, |i: int| '0') + natural(n)
    }
}

/// The digits of a number are digits.
pub proof fn digits_are_digits(n: nat)
    ensures
        forall|i: int| 0 <= i < digits(n).len() ==> is_digit(#[trigger] digits(n)[i]),
    decreases n,
{
    if n != 0 {
        digits_are_digits(n / 10);
        let last = digit_char((n % 10) as int);
        assert(is_digit(last));
        assert forall|i: int| 0 <= i < digits(n).len() implies is_digit(
            #[trigger] digits(n)[i],
        ) by {
            if i < digits(n / 10).len() {
                assert(digits(n)[i] == digits(n / 10)[i]);
            } else {
                assert(digits(n)[i] == last);
            }
        }
    }
}

/// The first digit of a positive number is not a zero.
pub proof fn digits_have_no_leading_zero(n: nat)
    requires
        n > 0,
    ensures
        digits(n).len() > 0,
        digits(n)[0] != '0',
    decreases n,
{
    if n >= 10 {
        digits_have_no_leading_zero(n / 10);
        assert(digits(n)[0] == digits(n / 10)[0]);
    } else {
        assert(digits(n / 10) =~= Seq::<char>::empty());
        assert(digits(n)[0] == digit_char((n % 10) as int));
    }
}

/// Two numbers with the same digits are the same number.
pub proof fn digits_are_injective(a: nat, b: nat)
    requires
        digits(a) == digits(b),
    ensures
        a == b,
    decreases a,
{
    if a == 0 {
        if b != 0 {
            assert(digits(b).len() == digits(b / 10).len() + 1);
        }
    } else {
        assert(digits(a).len() == digits(a / 10).len() + 1);
        if b == 0 {
            assert(digits(b).len() == 0);
        } else {
            let da = digits(a / 10).push(digit_char((a % 10) as int));
            let db = digits(b / 10).push(digit_char((b % 10) as int));
            assert(da == db);
            assert(da.last() == db.last());
            assert(digit_char((a % 10) as int) == digit_char((b % 10) as int));
            assert(a % 10 == b % 10);
            assert(da.drop_last() =~= digits(a / 10));
            assert(db.drop_last() =~= digits(b / 10));
            digits_are_injective(a / 10, b / 10);
        }
    }
}

/// Two numbers that are written alike are the same number.
pub proof fn natural_is_injective(a: nat, b: nat)
    requires
        natural(a) == natural(b),
    ensures
        a == b,
{
    if a == 0 && b != 0 {
        digits_have_no_leading_zero(b);
        assert(natural(a)[0] == '0');
    } else if a != 0 && b == 0 {
        digits_have_no_leading_zero(a);
        assert(natural(b)[0] == '0');
    } else if a != 0 {
        digits_are_injective(a, b);
    }
}

/// Two numbers that are written alike, filled with zeros to the same width,
/// are the same number.
pub proof fn zero_padded_is_injective(a: nat, b: nat, width: nat)
    requires
        zero_padded(a, width) == zero_padded(b, width),
    ensures
        a == b,
{
    let da = natural(a);
    let db = natural(b);
    let pa = zero_padded(a, width);
    let pb = zero_padded(b, width);
    if a != 0 {
        digits_have_no_leading_zero(a);
    }
    if b != 0 {
        digits_have_no_leading_zero(b);
    }
    assert(da.len() >= 1 && db.len() >= 1);
    if da.len() >= width && db.len() >= width {
        natural_is_injective(a, b);
    } else if da.len() < width && db.len() < width {
        let za = Seq::new((width - da.len()) as nat, |i: int| '0');
        let zb = Seq::new((width - db.len()) as nat, |i: int| '0');
        if da.len() == db.len() {
            assert(da =~= pa.subrange(width - da.len(), width as int));
            assert(db =~= pb.subrange(width - db.len(), width as int));
            natural_is_injective(a, b);
        } else if da.len() < db.len() {
            let at = width - db.len();
            assert(pa[at] == za[at]);
            assert(pb[at] == db[0]);
        } else {
            let at = width - da.len();
            assert(pb[at] == zb[at]);
            assert(pa[at] == da[0]);
        }
    } else if da.len() >= width {
        assert(pa.len() == da.len());
        assert(pb.len() == width);
        let zb = Seq::new((width - db.len()) as nat, |i: int| '0');
        assert(pb[0] == zb[0]);
        assert(pa[0] == da[0]);
    } else {
        assert(pb.len() == db.len());
        assert(pa.len() == width);
        let za = Seq::new((width - da.len()) as nat, |i: int| '0');
        assert(pa[0] == za[0]);
        assert(pb[0] == db[0]);
    }
}

/// Ten to the power of `k`.
pub open spec fn pow10(k: nat) -> nat
    decreases k,
{
    if k == 0 {
        1
    } else {
        10 * pow10((k - 1) as nat)
    }
}

/// A number below ten to the power of `k` has at most `k` digits.
pub proof fn digits_fit(n: nat, k: nat)
    requires
        n < pow10(k),
    ensures
        digits(n).len() <= k,
    decreases k,
{
    if n != 0 {
        assert(k > 0);
        assert(n / 10 < pow10((k - 1) as nat));
        digits_fit(n / 10, (k - 1) as nat);
    }
}

/// A number below ten to the power of the width, filled with zeros, has
/// exactly the width.
pub proof fn zero_padded_has_width(n: nat, width: nat)
    requires
        n < pow10(width),
        width >= 1,
    ensures
        zero_padded(n, width).len() == width,
{
    digits_fit(n, width);
}

/// A number that is filled with zeros has at least the width asked for, and
/// holds digits only.
pub proof fn zero_padded_is_digits(n: nat, width: nat)
    ensures
        zero_padded(n, width).len() >= width,
        zero_padded(n, width).len() >= 1,
        forall|i: int|
            0 <= i < zero_padded(n, width).len() ==> is_digit(#[trigger] zero_padded(n, width)[i]),
{
    digits_are_digits(n);
    if n != 0 {
        digits_have_no_leading_zero(n);
    }
    let d = natural(n);
    assert forall|i: int| 0 <= i < d.len() implies is_digit(#[trigger] d[i]) by {}
    if d.len() < width {
        let z = Seq::new((width - d.len()) as nat, |i: int| '0');
        assert forall|i: int| 0 <= i < zero_padded(n, width).len() implies is_digit(
            #[trigger] zero_padded(n, width)[i],
        ) by {
            if i < z.len() {
                assert(zero_padded(n, width)[i] == z[i]);
            } else {
                assert(zero_padded(n, width)[i] == d[i - z.len()]);
            }
        }
    }
}

/// Appends the digits of `n` to `out`.
fn push_digits(out: &mut String, n: u64)
    ensures
        final(out)@ == old(out)@ + digits(n as nat),
{
    let mut low_first: Vec<char> = Vec::new();
    let mut rest: u64 = n;
    while rest > 0
        invariant
            digits(n as nat) == digits(rest as nat) + low_first@.reverse(),
        decreases rest,
    {
        let d: u8 = (rest % 10) as u8;
        let c: char = (48u8 + d) as char;
        proof {
            let before = low_first@;
            let after = before.push(c);
            assert(c == digit_char((rest % 10) as int));
            assert(after.reverse() =~= seq![c] + before.reverse());
            assert(digits(rest as nat) == digits((rest / 10) as nat).push(c));
            assert(digits(n as nat) =~= digits((rest / 10) as nat) + after.reverse());
        }
        low_first.push(c);
        rest = rest / 10;
    }
    let ghost start = out@;
    let mut left: usize = low_first.len();
    while left > 0
        invariant
            left <= low_first@.len(),
            out@ == start + low_first@.reverse().subrange(0, low_first@.len() - left),
        decreases left,
    {
        left -= 1;
        proof {
            let rev = low_first@.reverse();
            let k = low_first@.len() - left - 1;
            assert(rev[k] == low_first@[left as int]);
            assert(rev.subrange(0, k + 1) =~= rev.subrange(0, k).push(rev[k]));
            assert((start + rev.subrange(0, k)).push(rev[k]) =~= start + rev.subrange(0, k + 1));
        }
        out.push(low_first[left]);
    }
    proof {
        let rev = low_first@.reverse();
        assert(rev.subrange(0, rev.len() as int) =~= rev);
        assert(digits(n as nat) =~= rev);
    }
}

/// Writes a number without a sign in decimal.
pub fn unsigned_decimal_text(n: u64) -> (text: String)
    ensures
        text@ == natural(n as nat),
{
    let mut text = String::new();
    if n == 0 {
        text.push('0');
        assert(text@ =~= seq!['0']);
    } else {
        push_digits(&mut text, n);
        assert(text@ =~= digits(n as nat));
    }
    text
}

/// Writes a number in decimal, filled with zeros on the left up to `width`
/// characters.
pub fn zero_padded_text(n: u32, width: usize) -> (text: String)
    ensures
        text@ == zero_padded(n as nat, width as nat),
{
    let body = unsigned_decimal_text(n as u64);
    let len: usize = body.as_str().unicode_len();
    let mut text = String::new();
    if len < width {
        let mut i: usize = 0;
        while i < width - len
            invariant
                len < width,
                i <= width - len,
                text@ == Seq::new(i as nat, |k: int| '0'),
            decreases width - len - i,
        {
            text.push('0');
            i += 1;
            assert(text@ =~= Seq::new(i as nat, |k: int| '0'));
        }
    }
    text.append(body.as_str());
    assert(text@ =~= zero_padded(n as nat, width as nat));
    text
}

/// The character that shows a value below sixteen in uppercase hexadecimal.
pub open spec fn upper_hex_char(d: int) -> char {
    if d < 10 {
        ((48 + d) as u8) as char
    } else {
        ((55 + d) as u8) as char
    }
}

/// Bytes in uppercase hexadecimal: two characters for every byte, the high
/// half first.
pub open spec fn hex_upper(bytes: Seq<u8>) -> Seq<char>
    decreases bytes.len(),
{
    if bytes.len() == 0 {
        Seq::empty()
    } else {
        hex_upper(bytes.drop_last()).push(upper_hex_char(bytes.last() as int / 16)).push(
            upper_hex_char(bytes.last() as int % 16),
        )
    }
}

/// Writes a value below sixteen in uppercase hexadecimal.
fn upper_hex_digit(d: u8) -> (c: char)
    requires
        d < 16,
    ensures
        c == upper_hex_char(d as int),
{
    if d < 10 {
        (48u8 + d) as char
    } else {
        (55u8 + d) as char
    }
}

/// Writes bytes in uppercase hexadecimal.
pub fn hex_upper_text(bytes: &[u8]) -> (text: String)
    ensures
        text@ == hex_upper(bytes@),
{
    let mut text = String::new();
    let mut i: usize = 0;
    assert(bytes@.subrange(0, 0) =~= Seq::<u8>::empty());
    while i < bytes.len()
        invariant
            i <= bytes@.len(),
            text@ == hex_upper(bytes@.subrange(0, i as int)),
        decreases bytes@.len() - i,
    {
        let byte = bytes[i];
        proof {
            let head = bytes@.subrange(0, i + 1);
            assert(head.drop_last() =~= bytes@.subrange(0, i as int));
            assert(head.last() == byte);
        }
        text.push(upper_hex_digit(byte / 16));
        text.push(upper_hex_digit(byte % 16));
        i += 1;
    }
    assert(bytes@.subrange(0, bytes@.len() as int) =~= bytes@);
    text
}

} // verus!
