//! Lists of lines as JSON.
use crate::text::texts;
use vstd::prelude::*;

verus! {

/// Declares `serde_json::Error`, the error of a list that cannot be written. Nothing is claimed
/// of what is inside.
#[verifier::external_type_specification]
#[verifier::external_body]
pub struct ExJsonError(serde_json::Error);

/// The hexadecimal digit of value `d`, in lower case.
pub open spec fn hex_digit(d: int) -> char {
    if d < 10 {
        (d + '0' as int) as char
    } else {
        (d - 10 + 'a' as int) as char
    }
}

/// A character as it stands in a JSON string: as it is, but for the quotation mark, the backslash
/// and the control characters below the space, which are escaped.
pub open spec fn json_char(c: char) -> Seq<char> {
    if c == '"' || c == '\\' {
        seq!['\\', c]
    } else if c == '\u{8}' {
        seq!['\\', 'b']
    } else if c == '\t' {
        seq!['\\', 't']
    } else if c == '\n' {
        seq!['\\', 'n']
    } else if c == '\u{c}' {
        seq!['\\', 'f']
    } else if c == '\r' {
        seq!['\\', 'r']
    } else if (c as int) < 0x20 {
        seq!['\\', 'u', '0', '0', hex_digit(c as int / 16), hex_digit(c as int % 16)]
    } else {
        seq![c]
    }
}

/// A text as it stands between the quotation marks of a JSON string.
pub open spec fn json_chars(text: Seq<char>) -> Seq<char>
    decreases text.len(),
{
    if text.len() == 0 {
        Seq::empty()
    } else {
        json_char(text[0]) + json_chars(text.drop_first())
    }
}

/// A text as a JSON string.
pub open spec fn json_string(text: Seq<char>) -> Seq<char> {
    seq!['"'] + json_chars(text) + seq!['"']
}

/// What follows an entry of a JSON list: the other entries, and the end of the list.
pub open spec fn json_tail(lines: Seq<Seq<char>>) -> Seq<char>
    decreases lines.len(),
{
    if lines.len() == 0 {
        seq![']']
    } else {
        seq![','] + json_string(lines[0]) + json_tail(lines.drop_first())
    }
}

/// A list of lines as a JSON list of strings, without spaces.
pub open spec fn json_list(lines: Seq<Seq<char>>) -> Seq<char> {
    if lines.len() == 0 {
        seq!['[', ']']
    } else {
        seq!['['] + json_string(lines[0]) + json_tail(lines.drop_first())
    }
}

/// Calls `serde_json::to_string`. It writes the list as a JSON list of strings; it fails on no
/// list of strings.
#[verifier::external_body]
fn to_json(lines: &Vec<String>) -> (json: Result<String, serde_json::Error>)
    ensures
        json is Ok,
        json matches Ok(text) ==> text@ == json_list(texts(lines@)),
{
    serde_json::to_string(lines)
}

/// The JSON text where there is one, an empty list where there is none.
pub fn json_or_empty(json: Option<String>) -> (text: String)
    ensures
        json matches Some(given) ==> text == given,
        json is None ==> text@ == "[]"@,
{
    match json {
        Some(text) => text,
        None => "[]".to_owned(),
    }
}

/// The lines as a JSON list of strings.
pub fn lines_to_json(lines: &Vec<String>) -> (text: String)
    ensures
        text@ == json_list(texts(lines@)),
{
    match to_json(lines) {
        Ok(text) => json_or_empty(Some(text)),
        Err(_) => json_or_empty(None),
    }
}

/// No two characters are written with one beginning.
proof fn lemma_json_char_apart(c: char, d: char, after_c: Seq<char>, after_d: Seq<char>)
    requires
        json_char(c) + after_c == json_char(d) + after_d,
    ensures
        c == d,
        after_c == after_d,
{
    let left = json_char(c) + after_c;
    let right = json_char(d) + after_d;
    assert(left[0] == json_char(c)[0]);
    assert(right[0] == json_char(d)[0]);
    if json_char(c)[0] == '\\' {
        assert(left[1] == json_char(c)[1]);
        assert(right[1] == json_char(d)[1]);
        if json_char(c)[1] == 'u' {
            assert(left[4] == json_char(c)[4]);
            assert(right[4] == json_char(d)[4]);
            assert(left[5] == json_char(c)[5]);
            assert(right[5] == json_char(d)[5]);
            assert(c as int / 16 == d as int / 16);
            assert(c as int % 16 == d as int % 16);
        }
    }
    assert(c == d);
    assert(after_c =~= left.skip(json_char(c).len() as int));
    assert(after_d =~= right.skip(json_char(d).len() as int));
}

/// No two texts are written alike up to the quotation mark that ends them.
proof fn lemma_json_chars_apart(
    a: Seq<char>,
    b: Seq<char>,
    after_a: Seq<char>,
    after_b: Seq<char>,
)
    requires
        json_chars(a) + seq!['"'] + after_a == json_chars(b) + seq!['"'] + after_b,
    ensures
        a == b,
        after_a == after_b,
    decreases a.len(),
{
    let left = json_chars(a) + seq!['"'] + after_a;
    let right = json_chars(b) + seq!['"'] + after_b;
    if a.len() == 0 || b.len() == 0 {
        if a.len() > 0 {
            assert(left[0] == json_char(a[0])[0]);
            assert(right[0] == '"');
        }
        if b.len() > 0 {
            assert(right[0] == json_char(b[0])[0]);
            assert(left[0] == '"');
        }
        assert(a =~= b);
        assert(after_a =~= left.skip(1));
        assert(after_b =~= right.skip(1));
    } else {
        let rest_a = json_chars(a.drop_first()) + seq!['"'] + after_a;
        let rest_b = json_chars(b.drop_first()) + seq!['"'] + after_b;
        assert(left =~= json_char(a[0]) + rest_a);
        assert(right =~= json_char(b[0]) + rest_b);
        lemma_json_char_apart(a[0], b[0], rest_a, rest_b);
        lemma_json_chars_apart(a.drop_first(), b.drop_first(), after_a, after_b);
        assert(a =~= seq![a[0]] + a.drop_first());
        assert(b =~= seq![b[0]] + b.drop_first());
    }
}

/// No two entries are written alike, and neither is what follows them.
proof fn lemma_json_entry_apart(
    a: Seq<char>,
    b: Seq<char>,
    after_a: Seq<char>,
    after_b: Seq<char>,
    mark: char,
)
    requires
        seq![mark] + json_string(a) + after_a == seq![mark] + json_string(b) + after_b,
    ensures
        a == b,
        after_a == after_b,
{
    let left = seq![mark] + json_string(a) + after_a;
    let right = seq![mark] + json_string(b) + after_b;
    assert(left.skip(2) =~= json_chars(a) + seq!['"'] + after_a);
    assert(right.skip(2) =~= json_chars(b) + seq!['"'] + after_b);
    lemma_json_chars_apart(a, b, after_a, after_b);
}

proof fn lemma_json_tail_apart(a: Seq<Seq<char>>, b: Seq<Seq<char>>)
    requires
        json_tail(a) == json_tail(b),
    ensures
        a == b,
    decreases a.len(),
{
    assert(a.len() == 0 ==> json_tail(a)[0] == ']');
    assert(a.len() > 0 ==> json_tail(a)[0] == ',');
    assert(b.len() == 0 ==> json_tail(b)[0] == ']');
    assert(b.len() > 0 ==> json_tail(b)[0] == ',');
    if a.len() > 0 {
        lemma_json_entry_apart(
            a[0],
            b[0],
            json_tail(a.drop_first()),
            json_tail(b.drop_first()),
            ',',
        );
        lemma_json_tail_apart(a.drop_first(), b.drop_first());
        assert(a =~= seq![a[0]] + a.drop_first());
        assert(b =~= seq![b[0]] + b.drop_first());
    }
    assert(a =~= b);
}

/// The JSON text tells the lines: two lists of lines with one JSON text are one list.
pub proof fn law_json_tells_lines(a: Seq<Seq<char>>, b: Seq<Seq<char>>)
    requires
        json_list(a) == json_list(b),
    ensures
        a == b,
{
    assert(json_list(a).len() == 2 <==> a.len() == 0) by {
        assert(a.len() > 0 ==> json_list(a).len() > 2);
    }
    assert(json_list(b).len() == 2 <==> b.len() == 0) by {
        assert(b.len() > 0 ==> json_list(b).len() > 2);
    }
    if a.len() > 0 {
        lemma_json_entry_apart(
            a[0],
            b[0],
            json_tail(a.drop_first()),
            json_tail(b.drop_first()),
            '[',
        );
        lemma_json_tail_apart(a.drop_first(), b.drop_first());
        assert(a =~= seq![a[0]] + a.drop_first());
        assert(b =~= seq![b[0]] + b.drop_first());
    }
    assert(a =~= b);
}

/// How each character is written in a JSON string.
pub proof fn law_json_escapes(c: char)
    ensures
        c == '"' ==> json_char(c) == seq!['\\', '"'],
        c == '\\' ==> json_char(c) == seq!['\\', '\\'],
        c as int == 8 ==> json_char(c) == seq!['\\', 'b'],
        c as int == 9 ==> json_char(c) == seq!['\\', 't'],
        c as int == 10 ==> json_char(c) == seq!['\\', 'n'],
        c as int == 12 ==> json_char(c) == seq!['\\', 'f'],
        c as int == 13 ==> json_char(c) == seq!['\\', 'r'],
        c as int >= 32 && c != '"' && c != '\\' ==> json_char(c) == seq![c],
        (c as int) < 8 || c as int == 11 || c as int == 14 || c as int == 15 ==> ({
            let digit: char = if (c as int) < 10 {
                (48 + c as int) as char
            } else {
                (87 + c as int) as char
            };
            json_char(c) == seq!['\\', 'u', '0', '0', '0', digit]
        }),
        16 <= c as int && (c as int) < 32 ==> ({
            let digit: char = if (c as int) < 26 {
                (32 + c as int) as char
            } else {
                (71 + c as int) as char
            };
            json_char(c) == seq!['\\', 'u', '0', '0', '1', digit]
        }),
{
}

/// A text is written character by character, between quotation marks.
pub proof fn law_json_string(a: Seq<char>, b: Seq<char>, c: char)
    ensures
        json_chars(Seq::empty()) == Seq::<char>::empty(),
        json_chars(seq![c]) == json_char(c),
        json_chars(a + b) == json_chars(a) + json_chars(b),
        json_string(a) == seq!['"'] + json_chars(a) + seq!['"'],
    decreases a.len(),
{
    assert(seq![c].drop_first() =~= Seq::<char>::empty());
    assert(json_chars(seq![c].drop_first()) =~= Seq::<char>::empty());
    assert(json_chars(seq![c]) =~= json_char(c));
    if a.len() == 0 {
        assert(a + b =~= b);
        assert(json_chars(a) + json_chars(b) =~= json_chars(b));
    } else {
        law_json_string(a.drop_first(), b, c);
        assert((a + b).drop_first() =~= a.drop_first() + b);
        assert((a + b)[0] == a[0]);
        assert(json_chars(a + b) =~= json_chars(a) + json_chars(b));
    }
}

/// A text without quotation marks, backslashes and control characters is written as it is.
pub proof fn law_json_plain_text(text: Seq<char>)
    requires
        forall|i: int|
            0 <= i < text.len() ==> #[trigger] text[i] as int >= 32 && text[i] != '"' && text[i]
                != '\\',
    ensures
        json_string(text) == seq!['"'] + text + seq!['"'],
{
    lemma_json_plain_chars(text);
}

proof fn lemma_json_plain_chars(text: Seq<char>)
    requires
        forall|i: int|
            0 <= i < text.len() ==> #[trigger] text[i] as int >= 32 && text[i] != '"' && text[i]
                != '\\',
    ensures
        json_chars(text) == text,
    decreases text.len(),
{
    if text.len() > 0 {
        let rest = text.drop_first();
        assert(text[0] as int >= 32);
        assert forall|i: int| 0 <= i < rest.len() implies #[trigger] rest[i] as int >= 32
            && rest[i] != '"' && rest[i] != '\\' by {
            assert(rest[i] == text[i + 1]);
        }
        lemma_json_plain_chars(rest);
    }
    assert(json_chars(text) =~= text);
}

/// A list is written entry by entry, with a comma between two entries, in square brackets.
pub proof fn law_json_list(lines: Seq<Seq<char>>, line: Seq<char>)
    ensures
        json_list(Seq::empty()) == seq!['[', ']'],
        json_list(seq![line]) == seq!['['] + json_string(line) + seq![']'],
        lines.len() > 0 ==> json_list(lines.push(line)) == json_list(lines).drop_last() + seq![',']
            + json_string(line) + seq![']'],
{
    assert(seq![line].drop_first() =~= Seq::<Seq<char>>::empty());
    if lines.len() > 0 {
        let rest = lines.drop_first();
        lemma_json_tail_push(rest, line);
        assert(lines.push(line).drop_first() =~= rest.push(line));
        assert(lines.push(line)[0] == lines[0]);
        assert(json_list(lines.push(line)) =~= json_list(lines).drop_last() + seq![',']
            + json_string(line) + seq![']']);
    }
}

proof fn lemma_json_tail_push(lines: Seq<Seq<char>>, line: Seq<char>)
    ensures
        json_tail(lines).len() > 0,
        json_tail(lines.push(line)) == json_tail(lines).drop_last() + seq![','] + json_string(line)
            + seq![']'],
    decreases lines.len(),
{
    if lines.len() == 0 {
        assert(lines.push(line).drop_first() =~= Seq::<Seq<char>>::empty());
        assert(json_tail(lines.push(line).drop_first()) =~= seq![']']);
    } else {
        lemma_json_tail_push(lines.drop_first(), line);
        assert(lines.push(line).drop_first() =~= lines.drop_first().push(line));
        assert(lines.push(line)[0] == lines[0]);
    }
    assert(json_tail(lines.push(line)) =~= json_tail(lines).drop_last() + seq![','] + json_string(
        line,
    ) + seq![']']);
}

} // verus!
