//! Text: searching it, and writing and reading decimal numbers.
use vstd::prelude::*;
use vstd::string::*;

verus! {

/// `pattern` stands in `text` at position `at`.
pub open spec fn occurs_at(text: Seq<char>, pattern: Seq<char>, at: int) -> bool {
    &&& 0 <= at <= text.len() - pattern.len()
    &&& text.subrange(at, at + pattern.len()) == pattern
}

/// `pattern` stands somewhere in `text`.
pub open spec fn has_text(text: Seq<char>, pattern: Seq<char>) -> bool {
    exists|at: int| #[trigger] occurs_at(text, pattern, at)
}

/// `text` begins with `prefix`.
pub open spec fn has_prefix(text: Seq<char>, prefix: Seq<char>) -> bool {
    occurs_at(text, prefix, 0)
}

/// The texts that a list of strings holds.
pub open spec fn texts(list: Seq<String>) -> Seq<Seq<char>> {
    list.map_values(|s: String| s@)
}

/// The decimal digit of value `d`.
pub open spec fn digit(d: int) -> char {
    (d + '0' as int) as char
}

/// `n` in decimal, without leading zeros.
pub open spec fn decimal_nat(n: nat) -> Seq<char>
    decreases n,
{
    if n < 10 {
        seq![digit(n as int)]
    } else {
        decimal_nat(n / 10).push(digit((n % 10) as int))
    }
}

/// `i` in decimal, with a leading minus sign where it is negative.
pub open spec fn decimal(i: int) -> Seq<char> {
    if i < 0 {
        "-"@ + decimal_nat((-i) as nat)
    } else {
        decimal_nat(i as nat)
    }
}

/// `c` is one of the ten ASCII digits.
pub open spec fn is_digit(c: char) -> bool {
    '0' <= c <= '9'
}

/// `text` is one ASCII digit or more, and nothing else.
pub open spec fn is_digits(text: Seq<char>) -> bool {
    &&& text.len() > 0
    &&& forall|i: int| 0 <= i < text.len() ==> is_digit(#[trigger] text[i])
}

/// The number that a row of digits stands for.
pub open spec fn digits_value(text: Seq<char>) -> int
    decreases text.len(),
{
    if text.len() == 0 {
        0
    } else {
        digits_value(text.drop_last()) * 10 + (text.last() as int - '0' as int)
    }
}

/// The integer that `text` writes: an optional sign, then digits only.
pub open spec fn integer_value(text: Seq<char>) -> Option<int> {
    if text.len() == 0 {
        None
    } else if text[0] == '-' {
        if is_digits(text.drop_first()) {
            Some(-digits_value(text.drop_first()))
        } else {
            None
        }
    } else if text[0] == '+' {
        if is_digits(text.drop_first()) {
            Some(digits_value(text.drop_first()))
        } else {
            None
        }
    } else if is_digits(text) {
        Some(digits_value(text))
    } else {
        None
    }
}

/// The 32-bit integer that `text` writes, where it writes one that fits.
pub open spec fn i32_value(text: Seq<char>) -> Option<i32> {
    match integer_value(text) {
        Some(v) => if i32::MIN <= v <= i32::MAX {
            Some(v as i32)
        } else {
            None
        },
        None => None,
    }
}

/// The characters of `s`.
fn chars_of(s: &str) -> (chars: Vec<char>)
    ensures
        chars@ == s@,
{
    let mut chars: Vec<char> = Vec::new();
    for c in it: s.chars()
        invariant
            it.seq() == s@,
            chars@ == s@.take(it.index() as int),
    {
        chars.push(c);
    }
    chars
}

/// Whether `pattern` stands at position `at` of `text`.
fn stands_at(text: &Vec<char>, pattern: &Vec<char>, at: usize) -> (found: bool)
    requires
        at + pattern@.len() <= text@.len(),
    ensures
        found == occurs_at(text@, pattern@, at as int),
{
    let length: usize = text.len();
    let mut i: usize = 0;
    while i < pattern.len()
        invariant
            at + pattern@.len() <= text@.len() == length,
            i <= pattern@.len(),
            forall|k: int| 0 <= k < i ==> text@[at + k] == #[trigger] pattern@[k],
        decreases pattern@.len() - i,
    {
        if text[at + i] != pattern[i] {
            assert(text@.subrange(at as int, at + pattern@.len())[i as int] != pattern@[i as int]);
            return false;
        }
        i += 1;
    }
    assert(text@.subrange(at as int, at + pattern@.len()) =~= pattern@);
    true
}

/// Whether two texts are the same.
pub fn same_text(a: &str, b: &str) -> (same: bool)
    ensures
        same == (a@ == b@),
{
    let left: String = a.to_owned();
    let right: String = b.to_owned();
    left == right
}

/// Whether `text` begins with `prefix`.
pub fn text_starts_with(text: &str, prefix: &str) -> (found: bool)
    ensures
        found == has_prefix(text@, prefix@),
{
    let t = chars_of(text);
    let p = chars_of(prefix);
    p.len() <= t.len() && stands_at(&t, &p, 0)
}

/// Whether `pattern` stands somewhere in `text`.
pub fn text_contains(text: &str, pattern: &str) -> (found: bool)
    ensures
        found == has_text(text@, pattern@),
{
    let t = chars_of(text);
    let p = chars_of(pattern);
    if p.len() > t.len() {
        return false;
    }
    let last: usize = t.len() - p.len();
    let mut at: usize = 0;
    while at <= last
        invariant
            last == t@.len() - p@.len(),
            at <= last + 1,
            t@ == text@,
            p@ == pattern@,
            forall|k: int| 0 <= k < at ==> !#[trigger] occurs_at(t@, p@, k),
        decreases last + 1 - at,
    {
        if stands_at(&t, &p, at) {
            return true;
        }
        if at == last {
            assert(forall|k: int| !#[trigger] occurs_at(t@, p@, k));
            return false;
        }
        at += 1;
    }
    false
}

/// Appends the digit of value `d`.
fn push_digit(out: &mut String, d: u32)
    requires
        d < 10,
    ensures
        final(out)@ == old(out)@.push(digit(d as int)),
{
    proof {
        reveal_strlit("0");
        reveal_strlit("1");
        reveal_strlit("2");
        reveal_strlit("3");
        reveal_strlit("4");
        reveal_strlit("5");
        reveal_strlit("6");
        reveal_strlit("7");
        reveal_strlit("8");
        reveal_strlit("9");
    }
    let written: &str = match d {
        0 => "0",
        1 => "1",
        2 => "2",
        3 => "3",
        4 => "4",
        5 => "5",
        6 => "6",
        7 => "7",
        8 => "8",
        _ => "9",
    };
    assert(written@ =~= seq![digit(d as int)]);
    out.append(written);
    assert(out@ =~= old(out)@.push(digit(d as int)));
}

/// Appends `n` in decimal.
pub fn push_decimal(out: &mut String, n: u32)
    ensures
        final(out)@ == old(out)@ + decimal_nat(n as nat),
    decreases n,
{
    if n >= 10 {
        push_decimal(out, n / 10);
    }
    push_digit(out, n % 10);
    assert(out@ =~= old(out)@ + decimal_nat(n as nat));
}

/// Appends `i` in decimal, with its minus sign where it is negative.
pub fn push_signed_decimal(out: &mut String, i: i32)
    ensures
        final(out)@ == old(out)@ + decimal(i as int),
{
    if i < 0 {
        out.append("-");
        let magnitude: i64 = -(i as i64);
        push_decimal(out, magnitude as u32);
        assert(out@ =~= old(out)@ + decimal(i as int));
    } else {
        push_decimal(out, i as u32);
    }
}

/// A row of digits that goes on stands for no smaller number.
proof fn lemma_digits_value_grows(text: Seq<char>, shorter: int)
    requires
        forall|i: int| 0 <= i < text.len() ==> is_digit(#[trigger] text[i]),
        0 <= shorter <= text.len(),
    ensures
        0 <= digits_value(text.take(shorter)) <= digits_value(text),
    decreases text.len(),
{
    if shorter == text.len() {
        assert(text.take(shorter) =~= text);
        if text.len() > 0 {
            lemma_digits_value_grows(text.drop_last(), 0);
            assert(is_digit(text.last()));
            assert(text.drop_last().take(0) =~= Seq::<char>::empty());
        }
    } else {
        lemma_digits_value_grows(text.drop_last(), shorter);
        assert(text.drop_last().take(shorter) =~= text.take(shorter));
        assert(is_digit(text.last()));
    }
}

/// The number that the digits of `chars` from `from` on stand for, where they are digits and
/// it is at most `limit`.
fn digits_up_to(chars: &Vec<char>, from: usize, limit: u32) -> (value: Option<u32>)
    requires
        from <= chars@.len(),
        limit <= 0x8000_0000,
    ensures
        ({
            let rest = chars@.skip(from as int);
            match value {
                Some(v) => is_digits(rest) && v == digits_value(rest) && v <= limit,
                None => !is_digits(rest) || digits_value(rest) > limit,
            }
        }),
{
    let ghost rest = chars@.skip(from as int);
    if from == chars.len() {
        return None;
    }
    let mut value: u64 = 0;
    let mut over: bool = false;
    let mut i: usize = from;
    while i < chars.len()
        invariant
            from <= i <= chars@.len(),
            limit <= 0x8000_0000,
            value <= limit,
            rest == chars@.skip(from as int),
            forall|k: int| 0 <= k < i - from ==> is_digit(#[trigger] rest[k]),
            !over ==> value == digits_value(rest.take(i - from)),
            over ==> digits_value(rest.take(i - from)) > limit,
        decreases chars@.len() - i,
    {
        let c: char = chars[i];
        assert(rest[i - from] == c);
        if c < '0' || c > '9' {
            return None;
        }
        let next: u64 = value * 10 + (c as u64 - '0' as u64);
        proof {
            let longer = rest.take(i + 1 - from);
            assert(longer.drop_last() =~= rest.take(i - from));
            assert(longer.last() == c);
        }
        if over || next > limit as u64 {
            over = true;
        } else {
            value = next;
        }
        i += 1;
    }
    assert(rest.take(i - from) =~= rest);
    if over {
        None
    } else {
        Some(value as u32)
    }
}

/// Reads a 32-bit integer: an optional sign, then digits only.
pub fn parse_i32(text: &str) -> (value: Option<i32>)
    ensures
        value == i32_value(text@),
{
    let chars = chars_of(text);
    if chars.len() == 0 {
        return None;
    }
    proof {
        assert(chars@.skip(0) =~= chars@);
        assert(chars@.skip(1) =~= chars@.drop_first());
        if is_digits(chars@) {
            lemma_digits_value_grows(chars@, 0);
        }
        if is_digits(chars@.drop_first()) {
            lemma_digits_value_grows(chars@.drop_first(), 0);
        }
    }
    let first: char = chars[0];
    if first == '-' {
        match digits_up_to(&chars, 1, 0x8000_0000) {
            Some(v) => Some((-(v as i64)) as i32),
            None => None,
        }
    } else {
        let from: usize = if first == '+' { 1 } else { 0 };
        match digits_up_to(&chars, from, 0x7fff_ffff) {
            Some(v) => Some(v as i32),
            None => None,
        }
    }
}

proof fn lemma_decimal_nat_value(n: nat)
    ensures
        is_digits(decimal_nat(n)),
        digits_value(decimal_nat(n)) == n,
    decreases n,
{
    let text = decimal_nat(n);
    if n < 10 {
        assert(digits_value(text.drop_last()) == 0);
    } else {
        lemma_decimal_nat_value(n / 10);
        assert(text.drop_last() =~= decimal_nat(n / 10));
    }
}

/// A text holds another exactly where it is some text, the other, and some text.
pub proof fn law_has_text(text: Seq<char>, pattern: Seq<char>)
    ensures
        has_text(text, pattern) <==> (exists|before: Seq<char>, after: Seq<char>|
            text == #[trigger] (before + pattern + after)),
{
    if has_text(text, pattern) {
        let at = choose|at: int| #[trigger] occurs_at(text, pattern, at);
        let before = text.take(at);
        let after = text.skip(at + pattern.len());
        assert(text =~= before + pattern + after) by {
            assert(text.subrange(at, at + pattern.len()) == pattern);
            assert forall|i: int| at <= i < at + pattern.len() implies text[i] == pattern[i
                - at] by {
                assert(text.subrange(at, at + pattern.len())[i - at] == text[i]);
            }
        }
    }
    if exists|before: Seq<char>, after: Seq<char>|
        text == #[trigger] (before + pattern + after) {
        let (before, after) = choose|before: Seq<char>, after: Seq<char>|
            text == #[trigger] (before + pattern + after);
        let at = before.len() as int;
        assert(text.subrange(at, at + pattern.len()) =~= pattern);
        assert(occurs_at(text, pattern, at));
    }
}

/// A text begins with another exactly where it is the other and some text.
pub proof fn law_has_prefix(text: Seq<char>, prefix: Seq<char>)
    ensures
        has_prefix(text, prefix) <==> prefix.is_prefix_of(text),
        has_prefix(text, prefix) <==> (exists|after: Seq<char>|
            text == #[trigger] (prefix + after)),
{
    if has_prefix(text, prefix) {
        assert(text =~= prefix + text.skip(prefix.len() as int)) by {
            assert forall|i: int| 0 <= i < prefix.len() implies text[i] == prefix[i] by {
                assert(text.subrange(0, prefix.len() as int)[i] == text[i]);
            }
        }
    }
    if exists|after: Seq<char>| text == #[trigger] (prefix + after) {
        assert(text.subrange(0, prefix.len() as int) =~= prefix);
    }
    if prefix.is_prefix_of(text) {
        assert(text.subrange(0, prefix.len() as int) =~= prefix);
    }
}

/// The texts of a list are those of its strings, one for one.
pub proof fn law_texts(list: Seq<String>)
    ensures
        texts(list).len() == list.len(),
        forall|i: int| 0 <= i < list.len() ==> #[trigger] texts(list)[i] == list[i]@,
{
}

/// A number below ten is one digit; a larger one is that of its tens, then the digit of its
/// ones.
pub proof fn law_decimal_digits(n: nat)
    ensures
        n < 10 ==> decimal_nat(n) == seq![(48 + n) as char],
        n >= 10 ==> decimal_nat(n) == decimal_nat(n / 10) + seq![(48 + n % 10) as char],
        decimal_nat(n).len() > 0,
        forall|i: int| 0 <= i < decimal_nat(n).len() ==> '0' <= #[trigger] decimal_nat(n)[i] <= '9',
        n > 0 ==> decimal_nat(n)[0] != '0',
    decreases n,
{
    if n >= 10 {
        law_decimal_digits(n / 10);
        assert(decimal_nat(n) =~= decimal_nat(n / 10) + seq![(48 + n % 10) as char]);
    }
}

/// A negative number is a minus sign and its magnitude.
pub proof fn law_decimal_sign(i: int)
    ensures
        i >= 0 ==> decimal(i) == decimal_nat(i as nat),
        i < 0 ==> decimal(i) == seq!['-'] + decimal_nat((-i) as nat),
{
    reveal_strlit("-");
    assert("-"@ =~= seq!['-']);
}

/// A digit behind a row of digits counts once what the row counts ten times.
pub proof fn law_digits_value(text: Seq<char>, last: char)
    ensures
        digits_value(Seq::empty()) == 0,
        digits_value(text.push(last)) == 10 * digits_value(text) + (last as int - 48),
{
    assert(text.push(last).drop_last() =~= text);
}

/// A row of digits is read as its value, with a plus sign or without; behind a minus sign it is
/// read as the negative of its value.
pub proof fn law_signed_digits_are_read(digits: Seq<char>)
    requires
        digits.len() > 0,
        forall|i: int| 0 <= i < digits.len() ==> '0' <= #[trigger] digits[i] <= '9',
    ensures
        ({
            let value = digits_value(digits);
            &&& i32_value(digits) == (if value <= 0x7fff_ffff {
                Some(value as i32)
            } else {
                None
            })
            &&& i32_value(seq!['+'] + digits) == i32_value(digits)
            &&& i32_value(seq!['-'] + digits) == (if value <= 0x8000_0000 {
                Some((-value) as i32)
            } else {
                None
            })
        }),
{
    lemma_digits_value_grows(digits, 0);
    assert(digits.take(0) =~= Seq::<char>::empty());
    assert(is_digit(digits[0]));
    assert((seq!['+'] + digits).drop_first() =~= digits);
    assert((seq!['-'] + digits).drop_first() =~= digits);
    assert forall|i: int| 0 <= i < digits.len() implies is_digit(#[trigger] digits[i]) by {}
}

/// Nothing is read but a row of digits, with one sign before it or none.
pub proof fn law_only_signed_digits_are_read(text: Seq<char>)
    requires
        i32_value(text) is Some,
    ensures
        text.len() > 0,
        ({
            let from: int = if text[0] == '+' || text[0] == '-' {
                1
            } else {
                0
            };
            &&& from < text.len()
            &&& forall|i: int| from <= i < text.len() ==> '0' <= #[trigger] text[i] <= '9'
        }),
{
    let from: int = if text[0] == '+' || text[0] == '-' {
        1
    } else {
        0
    };
    let digits = if from == 1 {
        text.drop_first()
    } else {
        text
    };
    assert(is_digits(digits));
    assert forall|i: int| from <= i < text.len() implies '0' <= #[trigger] text[i] <= '9' by {
        assert(is_digit(digits[i - from]));
    }
}

/// Two numbers that are written alike are one number.
pub proof fn law_decimal_tells_number(a: nat, b: nat)
    requires
        decimal_nat(a) == decimal_nat(b),
    ensures
        a == b,
{
    lemma_decimal_nat_value(a);
    lemma_decimal_nat_value(b);
}

/// A number that was written in decimal is read back.
pub proof fn law_decimal_reads_back(i: i32)
    ensures
        i32_value(decimal(i as int)) == Some(i),
{
    let text = decimal(i as int);
    if i < 0 {
        reveal_strlit("-");
        assert("-"@ =~= seq!['-']);
        lemma_decimal_nat_value((-i) as nat);
        assert(text.drop_first() =~= decimal_nat((-i) as nat));
    } else {
        lemma_decimal_nat_value(i as nat);
        assert(is_digit(text[0]));
    }
}

} // verus!
