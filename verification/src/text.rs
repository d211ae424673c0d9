//! Character-level helpers shared by the rest of the crate.
//!
//! Strings are modelled by their view, a `Seq<char>`. Scanning is done on a
//! `Vec<char>` obtained with [`chars_of`]; results are built with
//! [`append_chars`] and friends.

use vstd::prelude::*;
use vstd::std_specs::iter::IteratorSpec;

verus! {

/// std's `==` on string slices (`<str as PartialEq>::eq`): true exactly when
/// both hold the same characters.
pub assume_specification[ <str as PartialEq>::eq ](a: &str, b: &str) -> (r: bool)
    ensures
        r == (a@ == b@),
;

/// std's `String::push`: the character is appended at the end.
pub assume_specification[ String::push ](s: &mut String, c: char)
    ensures
        final(s)@ == old(s)@.push(c),
;

/// What `str::to_lowercase` makes of the text `s`.
pub uninterp spec fn lowercase(s: Seq<char>) -> Seq<char>;

/// std's `str::to_lowercase`: the result depends on the characters of the
/// argument alone; it is named [`lowercase`].
pub assume_specification[ str::to_lowercase ](s: &str) -> (r: String)
    ensures
        r@ == lowercase(s@),
;

/// What `char::to_uppercase` makes of the character `c`: one character or
/// several.
pub uninterp spec fn uppercase(c: char) -> Seq<char>;

/// std's `char::to_uppercase`, collected into a string: the result depends
/// on the character alone; it is named [`uppercase`].
#[verifier::external_body]
pub(crate) fn to_uppercase(c: char) -> (r: String)
    ensures
        r@ == uppercase(c),
{
    c.to_uppercase().collect()
}

/// The characters of `s`, in order.
pub fn chars_of(s: &str) -> (out: Vec<char>)
    ensures
        out@ == s@,
{
    let mut out: Vec<char> = Vec::new();
    let mut it = s.chars();
    loop
        invariant
            it.obeys_prophetic_iter_laws(),
            it.decrease() is Some,
            out@ + it.remaining() == s@,
        ensures
            out@ == s@,
        decreases it.decrease()->0,
    {
        match it.next() {
            Some(c) => {
                out.push(c);
            },
            None => {
                assert(out@ + it.remaining() =~= out@);
                break ;
            },
        }
    }
    out
}

/// Appends `cs[from..to]` to `out`.
pub fn append_range(out: &mut String, cs: &[char], from: usize, to: usize)
    requires
        from <= to <= cs@.len(),
    ensures
        final(out)@ == old(out)@ + cs@.subrange(from as int, to as int),
{
    let mut i: usize = from;
    while i < to
        invariant
            from <= i <= to <= cs@.len(),
            out@ == old(out)@ + cs@.subrange(from as int, i as int),
        decreases to - i,
    {
        out.push(cs[i]);
        assert(cs@.subrange(from as int, i + 1) =~= cs@.subrange(from as int, i as int).push(
            cs@[i as int],
        ));
        i += 1;
    }
}

/// Appends all of `cs` to `out`.
pub fn append_chars(out: &mut String, cs: &[char])
    ensures
        final(out)@ == old(out)@ + cs@,
{
    assert(cs@.subrange(0, cs@.len() as int) =~= cs@);
    append_range(out, cs, 0, cs.len());
}

/// Appends the characters of `s` to `out`.
pub fn append_str(out: &mut String, s: &str)
    ensures
        final(out)@ == old(out)@ + s@,
{
    let cs = chars_of(s);
    append_chars(out, cs.as_slice());
}

/// A string holding exactly `cs`.
pub fn string_of(cs: &[char]) -> (out: String)
    ensures
        out@ == cs@,
{
    let mut out = String::new();
    append_chars(&mut out, cs);
    assert(Seq::<char>::empty() + cs@ =~= cs@);
    out
}

/// The characters `cs[from..to]`.
pub fn sub_chars(cs: &[char], from: usize, to: usize) -> (out: Vec<char>)
    requires
        from <= to <= cs@.len(),
    ensures
        out@ == cs@.subrange(from as int, to as int),
{
    let mut out: Vec<char> = Vec::new();
    let mut i: usize = from;
    while i < to
        invariant
            from <= i <= to <= cs@.len(),
            out@ == cs@.subrange(from as int, i as int),
        decreases to - i,
    {
        out.push(cs[i]);
        assert(cs@.subrange(from as int, i + 1) =~= cs@.subrange(from as int, i as int).push(
            cs@[i as int],
        ));
        i += 1;
    }
    out
}

/// Whether `a` and `b` hold the same characters.
pub fn same_chars(a: &[char], b: &[char]) -> (r: bool)
    ensures
        r == (a@ == b@),
{
    if a.len() != b.len() {
        return false;
    }
    let r = starts_with(a, b);
    assert(a@.subrange(0, b@.len() as int) =~= a@);
    r
}

/// `a` followed by `b`.
pub fn concat(a: &str, b: &str) -> (out: String)
    ensures
        out@ == a@ + b@,
{
    let mut out = String::new();
    append_str(&mut out, a);
    append_str(&mut out, b);
    assert(Seq::<char>::empty() + a@ + b@ =~= a@ + b@);
    out
}

/// Whether `cs` begins with `prefix`.
pub fn starts_with(cs: &[char], prefix: &[char]) -> (r: bool)
    ensures
        r == prefix@.is_prefix_of(cs@),
{
    if prefix.len() > cs.len() {
        return false;
    }
    let mut i: usize = 0;
    while i < prefix.len()
        invariant
            i <= prefix@.len() <= cs@.len(),
            forall|j: int| 0 <= j < i ==> prefix@[j] == cs@[j],
        decreases prefix.len() - i,
    {
        if prefix[i] != cs[i] {
            assert(cs@.subrange(0, prefix@.len() as int)[i as int] == cs@[i as int]);
            return false;
        }
        i += 1;
    }
    true
}

/// Whether `cs` ends with `suffix`.
pub fn ends_with(cs: &[char], suffix: &[char]) -> (r: bool)
    ensures
        r == suffix@.is_suffix_of(cs@),
{
    if suffix.len() > cs.len() {
        return false;
    }
    let base: usize = cs.len() - suffix.len();
    let mut i: usize = 0;
    while i < suffix.len()
        invariant
            i <= suffix@.len() <= cs@.len(),
            base + suffix@.len() == cs@.len(),
            cs@.len() <= usize::MAX,
            forall|j: int| 0 <= j < i ==> suffix@[j] == cs@[base + j],
        decreases suffix.len() - i,
    {
        if suffix[i] != cs[base + i] {
            assert(cs@.subrange(base as int, cs@.len() as int)[i as int] == cs@[base + i]);
            return false;
        }
        i += 1;
    }
    true
}

/// Whether `c` is the first `c` of `s` at index `i`.
pub open spec fn is_first_at(s: Seq<char>, c: char, i: int) -> bool {
    0 <= i < s.len() && s[i] == c && forall|j: int| 0 <= j < i ==> s[j] != c
}

/// Whether `c` is the last `c` of `s` at index `i`.
pub open spec fn is_last_at(s: Seq<char>, c: char, i: int) -> bool {
    0 <= i < s.len() && s[i] == c && forall|j: int| i < j < s.len() ==> s[j] != c
}

/// Index of the first `c` in `s`, or the length of `s` if it holds none.
pub open spec fn index_of(s: Seq<char>, c: char) -> int {
    if exists|i: int| is_first_at(s, c, i) {
        choose|i: int| is_first_at(s, c, i)
    } else {
        s.len() as int
    }
}

/// Index of the last `c` in `s`, or the length of `s` if it holds none.
pub open spec fn last_index_of(s: Seq<char>, c: char) -> int {
    if exists|i: int| is_last_at(s, c, i) {
        choose|i: int| is_last_at(s, c, i)
    } else {
        s.len() as int
    }
}

/// Index of the first `c` in `cs`, or `cs.len()`.
pub fn find_char(cs: &[char], c: char) -> (r: usize)
    ensures
        r == index_of(cs@, c),
        r <= cs@.len(),
        r < cs@.len() ==> is_first_at(cs@, c, r as int),
        r == cs@.len() ==> !cs@.contains(c),
{
    let mut i: usize = 0;
    while i < cs.len()
        invariant
            i <= cs@.len(),
            forall|j: int| 0 <= j < i ==> cs@[j] != c,
        decreases cs.len() - i,
    {
        if cs[i] == c {
            assert(is_first_at(cs@, c, i as int));
            return i;
        }
        i += 1;
    }
    i
}

/// Index of the last `c` in `cs`, or `cs.len()`.
pub fn rfind_char(cs: &[char], c: char) -> (r: usize)
    ensures
        r == last_index_of(cs@, c),
        r <= cs@.len(),
        r < cs@.len() ==> is_last_at(cs@, c, r as int),
        r == cs@.len() ==> !cs@.contains(c),
{
    let mut i: usize = cs.len();
    while i > 0
        invariant
            i <= cs@.len(),
            forall|j: int| i <= j < cs@.len() ==> cs@[j] != c,
        decreases i,
    {
        i -= 1;
        if cs[i] == c {
            assert(is_last_at(cs@, c, i as int));
            return i;
        }
    }
    cs.len()
}

/// A character with ASCII upper-case letters folded to lower case, as its
/// code point.
pub open spec fn fold_ascii(c: char) -> u32 {
    let u = c as u32;
    if 65 <= u <= 90 {
        (u + 32) as u32
    } else {
        u
    }
}

/// Equality of two strings up to the case of ASCII letters.
pub open spec fn eq_fold(a: Seq<char>, b: Seq<char>) -> bool {
    a.len() == b.len() && forall|i: int| 0 <= i < a.len() ==> fold_ascii(a[i]) == fold_ascii(b[i])
}

fn fold_char(c: char) -> (r: u32)
    ensures
        r == fold_ascii(c),
{
    let u: u32 = c as u32;
    if 65 <= u && u <= 90 {
        u + 32
    } else {
        u
    }
}

/// Whether `a` and `b` are equal up to the case of ASCII letters.
pub fn eq_ignore_ascii_case(a: &[char], b: &[char]) -> (r: bool)
    ensures
        r == eq_fold(a@, b@),
{
    if a.len() != b.len() {
        return false;
    }
    let mut i: usize = 0;
    while i < a.len()
        invariant
            i <= a@.len(),
            a@.len() == b@.len(),
            forall|j: int| 0 <= j < i ==> fold_ascii(a@[j]) == fold_ascii(b@[j]),
        decreases a.len() - i,
    {
        if fold_char(a[i]) != fold_char(b[i]) {
            return false;
        }
        i += 1;
    }
    true
}

/// Whether `c` is white space: the code points with Unicode's `White_Space`
/// property.
pub open spec fn is_whitespace(c: char) -> bool {
    let u = c as u32;
    ||| 0x09 <= u <= 0x0D
    ||| u == 0x20
    ||| u == 0x85
    ||| u == 0xA0
    ||| u == 0x1680
    ||| 0x2000 <= u <= 0x200A
    ||| u == 0x2028
    ||| u == 0x2029
    ||| u == 0x202F
    ||| u == 0x205F
    ||| u == 0x3000
}

/// Whether `s` holds nothing but white space.
pub open spec fn is_blank(s: Seq<char>) -> bool {
    forall|i: int| 0 <= i < s.len() ==> is_whitespace(#[trigger] s[i])
}

fn whitespace(c: char) -> (r: bool)
    ensures
        r == is_whitespace(c),
{
    let u: u32 = c as u32;
    (0x09 <= u && u <= 0x0D) || u == 0x20 || u == 0x85 || u == 0xA0 || u == 0x1680 || (0x2000 <= u
        && u <= 0x200A) || u == 0x2028 || u == 0x2029 || u == 0x202F || u == 0x205F || u == 0x3000
}

/// Whether `cs` holds nothing but white space.
pub fn blank(cs: &[char]) -> (r: bool)
    ensures
        r == is_blank(cs@),
{
    let mut i: usize = 0;
    while i < cs.len()
        invariant
            i <= cs@.len(),
            forall|j: int| 0 <= j < i ==> is_whitespace(#[trigger] cs@[j]),
        decreases cs.len() - i,
    {
        if !whitespace(cs[i]) {
            return false;
        }
        i += 1;
    }
    true
}

/// The decimal digit `d` as a character.
pub open spec fn digit_char(d: int) -> char {
    if d == 0 {
        '0'
    } else if d == 1 {
        '1'
    } else if d == 2 {
        '2'
    } else if d == 3 {
        '3'
    } else if d == 4 {
        '4'
    } else if d == 5 {
        '5'
    } else if d == 6 {
        '6'
    } else if d == 7 {
        '7'
    } else if d == 8 {
        '8'
    } else {
        '9'
    }
}

/// `n` in decimal, without leading zeros.
pub open spec fn decimal(n: nat) -> Seq<char>
    decreases n,
{
    if n < 10 {
        seq![digit_char(n as int)]
    } else {
        decimal(n / 10).push(digit_char((n % 10) as int))
    }
}

/// A number in decimal has at least one digit, and its last digit is that
/// of its remainder by ten.
pub proof fn lemma_decimal_last(n: nat)
    ensures
        decimal(n).len() > 0,
        decimal(n).last() == digit_char((n % 10) as int),
{
}

fn digit_of(d: u8) -> (c: char)
    requires
        d < 10,
    ensures
        c == digit_char(d as int),
{
    if d == 0 {
        '0'
    } else if d == 1 {
        '1'
    } else if d == 2 {
        '2'
    } else if d == 3 {
        '3'
    } else if d == 4 {
        '4'
    } else if d == 5 {
        '5'
    } else if d == 6 {
        '6'
    } else if d == 7 {
        '7'
    } else if d == 8 {
        '8'
    } else {
        '9'
    }
}

/// Appends `n` in decimal to `out`.
pub fn append_decimal(out: &mut String, n: u128)
    ensures
        final(out)@ == old(out)@ + decimal(n as nat),
{
    // The digits, lowest first.
    let mut low_first: Vec<char> = Vec::new();
    let mut rest: u128 = n;
    while rest >= 10
        invariant
            forall|tail: Seq<char>| #[trigger]
                (decimal(rest as nat) + low_first@.reverse() + tail) == decimal(n as nat) + tail,
        decreases rest,
    {
        let d: u8 = (rest % 10) as u8;
        let c = digit_of(d);
        proof {
            let next = (rest / 10) as nat;
            let before = low_first@;
            let after = low_first@.push(c);
            assert(after.reverse() =~= seq![c] + before.reverse());
            assert forall|tail: Seq<char>| #[trigger]
                (decimal(next) + after.reverse() + tail) == decimal(n as nat) + tail by {
                assert(decimal(rest as nat) == decimal(next).push(c));
                assert(decimal(next) + after.reverse() + tail =~= decimal(rest as nat)
                    + before.reverse() + tail);
            }
        }
        low_first.push(c);
        rest = rest / 10;
    }
    let c = digit_of(rest as u8);
    out.push(c);
    let mut i: usize = low_first.len();
    proof {
        assert(decimal(rest as nat) =~= seq![c]);
        assert(decimal(rest as nat) + low_first@.reverse() + Seq::<char>::empty() == decimal(
            n as nat,
        ) + Seq::<char>::empty());
        assert(seq![c] + low_first@.reverse() =~= decimal(n as nat));
        assert(low_first@.reverse().take(0) =~= Seq::<char>::empty());
        assert(old(out)@.push(c) =~= old(out)@ + seq![c]);
    }
    while i > 0
        invariant
            i <= low_first@.len(),
            out@ == old(out)@ + seq![c] + low_first@.reverse().take(low_first@.len() - i),
            seq![c] + low_first@.reverse() == decimal(n as nat),
        decreases i,
    {
        i -= 1;
        out.push(low_first[i]);
        proof {
            let r = low_first@.reverse();
            let k = low_first@.len() - i;
            assert(r.take(k) =~= r.take(k - 1).push(r[k - 1]));
            assert(r[k - 1] == low_first@[i as int]);
        }
    }
    proof {
        let r = low_first@.reverse();
        assert(r.take(low_first@.len() as int) =~= r);
        assert(old(out)@ + seq![c] + r =~= old(out)@ + (seq![c] + r));
    }
}

/// Whether `c` is an ASCII decimal digit.
pub open spec fn is_digit(c: char) -> bool {
    48 <= c as u32 <= 57
}

/// The value of the decimal digit `c`.
pub open spec fn digit_value(c: char) -> nat {
    (c as u32 - 48) as nat
}

/// Whether `s` holds nothing but decimal digits.
pub open spec fn all_digits(s: Seq<char>) -> bool {
    forall|i: int| 0 <= i < s.len() ==> is_digit(#[trigger] s[i])
}

/// The number that the decimal digits `s` write.
pub open spec fn digits_value(s: Seq<char>) -> nat
    decreases s.len(),
{
    if s.len() == 0 {
        0
    } else {
        digits_value(s.drop_last()) * 10 + digit_value(s.last())
    }
}

/// `s` without a leading plus sign.
pub open spec fn without_plus(s: Seq<char>) -> Seq<char> {
    if s.len() > 0 && s[0] == '+' {
        s.drop_first()
    } else {
        s
    }
}

/// The port that `s` writes: an optional plus sign, then decimal digits
/// whose value fits sixteen bits.
pub open spec fn port_of(s: Seq<char>) -> Option<u16> {
    let d = without_plus(s);
    if d.len() > 0 && all_digits(d) && digits_value(d) <= u16::MAX {
        Some(digits_value(d) as u16)
    } else {
        None
    }
}

/// A longer run of digits never writes a smaller number than its prefix.
pub proof fn lemma_digits_value_grows(s: Seq<char>, k: int)
    requires
        0 <= k <= s.len(),
    ensures
        digits_value(s.take(k)) <= digits_value(s),
    decreases s.len(),
{
    if k == s.len() {
        assert(s.take(k) =~= s);
    } else {
        assert(s.drop_last().take(k) =~= s.take(k));
        lemma_digits_value_grows(s.drop_last(), k);
    }
}

/// One more digit multiplies by ten and adds the digit.
pub proof fn lemma_digits_value_step(s: Seq<char>, k: int)
    requires
        0 <= k < s.len(),
    ensures
        digits_value(s.take(k + 1)) == digits_value(s.take(k)) * 10 + digit_value(s[k]),
{
    assert(s.take(k + 1).drop_last() =~= s.take(k));
    assert(s.take(k + 1).last() == s[k]);
}

/// Reads a port number as `str::parse::<u16>` does.
pub fn parse_port(cs: &[char]) -> (r: Option<u16>)
    ensures
        r == port_of(cs@),
{
    let start: usize = if cs.len() > 0 && cs[0] == '+' {
        1
    } else {
        0
    };
    let ghost d = without_plus(cs@);
    assert(d =~= cs@.subrange(start as int, cs@.len() as int));
    if start == cs.len() {
        return None;
    }
    let mut value: u32 = 0;
    let mut i: usize = start;
    assert(d.take(0) =~= Seq::<char>::empty());
    while i < cs.len()
        invariant
            start <= i <= cs@.len(),
            d == without_plus(cs@),
            d.len() == cs@.len() - start,
            forall|j: int| 0 <= j < d.len() ==> d[j] == cs@[start + j],
            forall|j: int| 0 <= j < i - start ==> is_digit(#[trigger] d[j]),
            value == digits_value(d.take(i - start)),
            value <= u16::MAX,
        decreases cs.len() - i,
    {
        let u: u32 = cs[i] as u32;
        let ghost k = i - start;
        assert(d[k] == cs@[i as int]);
        if u < 48 || u > 57 {
            assert(!is_digit(d[k]));
            return None;
        }
        proof {
            lemma_digits_value_step(d, k);
        }
        value = value * 10 + (u - 48);
        if value > 65535 {
            proof {
                lemma_digits_value_grows(d, k + 1);
            }
            return None;
        }
        i += 1;
    }
    assert(d.take(i - start) =~= d);
    Some(value as u16)
}

/// `s` without a leading plus or minus sign.
pub open spec fn without_sign(s: Seq<char>) -> Seq<char> {
    if s.len() > 0 && (s[0] == '+' || s[0] == '-') {
        s.drop_first()
    } else {
        s
    }
}

/// The integer that `s` writes: an optional sign, then decimal digits
/// whose value fits sixty-four bits with a sign.
pub open spec fn integer_of(s: Seq<char>) -> Option<i64> {
    let d = without_sign(s);
    if d.len() > 0 && all_digits(d) {
        if s[0] == '-' {
            if digits_value(d) <= 0x8000_0000_0000_0000 {
                Some((-digits_value(d)) as i64)
            } else {
                None
            }
        } else if digits_value(d) <= i64::MAX {
            Some(digits_value(d) as i64)
        } else {
            None
        }
    } else {
        None
    }
}

/// Reads the digits `cs[start..]` as a number up to `limit`.
fn parse_digits(cs: &[char], start: usize, limit: u64) -> (r: Option<u64>)
    requires
        start <= cs@.len(),
    ensures
        ({
            let d = cs@.skip(start as int);
            r == if d.len() > 0 && all_digits(d) && digits_value(d) <= limit {
                Some(digits_value(d) as u64)
            } else {
                None
            }
        }),
{
    let ghost d = cs@.skip(start as int);
    if start == cs.len() {
        return None;
    }
    let mut value: u128 = 0;
    let mut i: usize = start;
    assert(d.take(0) =~= Seq::<char>::empty());
    while i < cs.len()
        invariant
            start <= i <= cs@.len(),
            d == cs@.skip(start as int),
            forall|j: int| 0 <= j < i - start ==> is_digit(#[trigger] d[j]),
            value == digits_value(d.take(i - start)),
            value <= limit,
        decreases cs.len() - i,
    {
        let u: u32 = cs[i] as u32;
        let ghost k = i - start;
        assert(d[k] == cs@[i as int]);
        if u < 48 || u > 57 {
            assert(!is_digit(d[k]));
            return None;
        }
        proof {
            lemma_digits_value_step(d, k);
        }
        value = value * 10 + (u - 48) as u128;
        if value > limit as u128 {
            proof {
                lemma_digits_value_grows(d, k + 1);
            }
            return None;
        }
        i += 1;
    }
    assert(d.take(i - start) =~= d);
    Some(value as u64)
}

/// Reads an integer as `str::parse::<i64>` does.
pub fn parse_integer(cs: &[char]) -> (r: Option<i64>)
    ensures
        r == integer_of(cs@),
{
    if cs.len() == 0 {
        return None;
    }
    let negative = cs[0] == '-';
    let start: usize = if cs[0] == '+' || cs[0] == '-' {
        1
    } else {
        0
    };
    assert(cs@.skip(start as int) =~= without_sign(cs@));
    if negative {
        match parse_digits(cs, start, 0x8000_0000_0000_0000) {
            Some(m) => {
                if m == 0x8000_0000_0000_0000 {
                    Some(i64::MIN)
                } else {
                    Some(0 - (m as i64))
                }
            },
            None => None,
        }
    } else {
        match parse_digits(cs, start, 0x7fff_ffff_ffff_ffff) {
            Some(m) => Some(m as i64),
            None => None,
        }
    }
}

/// `s` without the white space at its start.
pub open spec fn trim_start(s: Seq<char>) -> Seq<char>
    decreases s.len(),
{
    if s.len() > 0 && is_whitespace(s[0]) {
        trim_start(s.drop_first())
    } else {
        s
    }
}

/// `s` without the white space at its end.
pub open spec fn trim_end(s: Seq<char>) -> Seq<char>
    decreases s.len(),
{
    if s.len() > 0 && is_whitespace(s.last()) {
        trim_end(s.drop_last())
    } else {
        s
    }
}

/// `s` without the white space at its start and at its end.
pub open spec fn trimmed(s: Seq<char>) -> Seq<char> {
    trim_end(trim_start(s))
}

/// The characters of `cs` without the white space at both ends.
pub fn trim(cs: &[char]) -> (out: Vec<char>)
    ensures
        out@ == trimmed(cs@),
{
    let mut start: usize = 0;
    assert(cs@.skip(0) =~= cs@);
    while start < cs.len() && whitespace(cs[start])
        invariant
            start <= cs@.len(),
            trim_start(cs@) == trim_start(cs@.skip(start as int)),
        decreases cs.len() - start,
    {
        assert(cs@.skip(start as int).drop_first() =~= cs@.skip(start + 1));
        start += 1;
    }
    let ghost rest = cs@.skip(start as int);
    assert(trim_start(cs@) == rest);
    let mut end: usize = cs.len();
    assert(cs@.subrange(start as int, end as int) =~= rest);
    while end > start && whitespace(cs[end - 1])
        invariant
            start <= end <= cs@.len(),
            trim_end(rest) == trim_end(cs@.subrange(start as int, end as int)),
        decreases end,
    {
        assert(cs@.subrange(start as int, end as int).drop_last() =~= cs@.subrange(
            start as int,
            end - 1,
        ));
        end -= 1;
    }
    sub_chars(cs, start, end)
}

/// The texts `parts`, with `separator` between each two.
pub open spec fn joined(parts: Seq<Seq<char>>, separator: Seq<char>) -> Seq<char>
    decreases parts.len(),
{
    if parts.len() == 0 {
        Seq::empty()
    } else if parts.len() == 1 {
        parts[0]
    } else {
        joined(parts.drop_last(), separator) + separator + parts.last()
    }
}

/// Whether `needle` occurs in `s`.
pub open spec fn occurs_in(needle: Seq<char>, s: Seq<char>) -> bool {
    exists|i: int| 0 <= i <= s.len() - needle.len() && #[trigger] s.subrange(i, i + needle.len()) == needle
}

/// Whether `needle` occurs in `cs`.
pub fn contains(cs: &[char], needle: &[char]) -> (r: bool)
    ensures
        r == occurs_in(needle@, cs@),
{
    if needle.len() > cs.len() {
        return false;
    }
    if needle.len() == 0 {
        assert(cs@.subrange(0int, 0int + needle@.len()) =~= needle@);
        return true;
    }
    let last: usize = cs.len() - needle.len();
    let mut i: usize = 0;
    while i <= last
        invariant
            i <= last + 1,
            last < usize::MAX,
            last + needle@.len() == cs@.len(),
            cs@.len() <= usize::MAX,
            forall|j: int| 0 <= j < i ==> #[trigger] cs@.subrange(j, j + needle@.len()) != needle@,
        decreases last + 1 - i,
    {
        let window = sub_chars(cs, i, i + needle.len());
        if same_chars(window.as_slice(), needle) {
            return true;
        }
        i += 1;
    }
    false
}

} // verus!
