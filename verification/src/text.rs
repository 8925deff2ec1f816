//! Text helpers: searching, trimming and number formatting over the characters of a string.
use vstd::prelude::*;
use vstd::string::*;

verus! {

/// The character contents of a list of strings.
pub open spec fn texts(list: Seq<String>) -> Seq<Seq<char>> {
    list.map_values(|s: String| s@)
}

/// `part` occurs in `text` as a run of consecutive characters.
pub open spec fn occurs_in(part: Seq<char>, text: Seq<char>) -> bool {
    exists|i: int| #[trigger] occurs_at(part, text, i)
}

/// `part` occurs in `text` starting at position `i`.
pub open spec fn occurs_at(part: Seq<char>, text: Seq<char>, i: int) -> bool {
    0 <= i && i + part.len() <= text.len() && text.subrange(i, i + part.len()) == part
}

/// The characters with the Unicode `White_Space` property.
pub open spec fn is_white_space(c: char) -> bool {
    let v = c as u32;
    ||| 0x09 <= v <= 0x0d
    ||| v == 0x20
    ||| v == 0x85
    ||| v == 0xa0
    ||| v == 0x1680
    ||| 0x2000 <= v <= 0x200a
    ||| v == 0x2028
    ||| v == 0x2029
    ||| v == 0x202f
    ||| v == 0x205f
    ||| v == 0x3000
}

/// `text` without its leading white space.
pub open spec fn trimmed_start(text: Seq<char>) -> Seq<char>
    decreases text.len(),
{
    if text.len() > 0 && is_white_space(text[0]) {
        trimmed_start(text.drop_first())
    } else {
        text
    }
}

/// `text` without its trailing white space.
pub open spec fn trimmed_end(text: Seq<char>) -> Seq<char>
    decreases text.len(),
{
    if text.len() > 0 && is_white_space(text.last()) {
        trimmed_end(text.drop_last())
    } else {
        text
    }
}

/// `text` without white space at either end.
pub open spec fn trimmed(text: Seq<char>) -> Seq<char> {
    trimmed_end(trimmed_start(text))
}

/// Neither end of `text` is white space.
pub open spec fn has_bare_ends(text: Seq<char>) -> bool {
    text.len() > 0 ==> !is_white_space(text[0]) && !is_white_space(text.last())
}

/// The digit for a value below sixteen, in lower case.
pub open spec fn hex_digit(d: int) -> char {
    if d == 0 {
        '0'
    } else if d == 1 {
        '1'
    } else if d == 2 {
        '2'
    } else if d == 3 {
        '3'
    } else if d == 4 {
        '4'
    } else if d == 5 {
        '5'
    } else if d == 6 {
        '6'
    } else if d == 7 {
        '7'
    } else if d == 8 {
        '8'
    } else if d == 9 {
        '9'
    } else if d == 10 {
        'a'
    } else if d == 11 {
        'b'
    } else if d == 12 {
        'c'
    } else if d == 13 {
        'd'
    } else if d == 14 {
        'e'
    } else {
        'f'
    }
}

/// The last `width` hexadecimal digits of `value`, most significant first.
pub open spec fn hex(value: nat, width: nat) -> Seq<char>
    decreases width,
{
    if width == 0 {
        Seq::empty()
    } else {
        hex(value / 16, (width - 1) as nat).push(hex_digit((value % 16) as int))
    }
}

/// The decimal numeral of `value`, without leading zeros.
pub open spec fn decimal(value: nat) -> Seq<char>
    decreases value,
{
    if value < 10 {
        seq![hex_digit(value as int)]
    } else {
        decimal(value / 10).push(hex_digit((value % 10) as int))
    }
}

/// The characters of a string, as a vector.
pub(crate) fn chars_of(text: &str) -> (out: Vec<char>)
    ensures
        out@ == text@,
{
    let mut out: Vec<char> = Vec::new();
    for c in it: text.chars()
        invariant
            it.seq() == text@,
            out@ == text@.take(it.index() as int),
    {
        out.push(c);
        assert(text@.take(it.index() + 1) =~= text@.take(it.index() as int).push(c));
    }
    assert(text@.take(text@.len() as int) =~= text@);
    out
}

/// Whether `part` occurs in `chars` at position `i`.
fn matches_at(part: &Vec<char>, chars: &Vec<char>, i: usize) -> (found: bool)
    requires
        i + part@.len() <= chars@.len(),
    ensures
        found == occurs_at(part@, chars@, i as int),
{
    let n: usize = part.len();
    let total: usize = chars.len();
    let mut k: usize = 0;
    while k < n
        invariant
            n == part@.len(),
            total == chars@.len(),
            k <= n,
            i + n <= total,
            forall|j: int| 0 <= j < k ==> chars@[i + j] == part@[j],
        decreases n - k,
    {
        if chars[i + k] != part[k] {
            assert(chars@.subrange(i as int, i + n)[k as int] != part@[k as int]);
            return false;
        }
        k = k + 1;
    }
    assert(chars@.subrange(i as int, i + n) =~= part@);
    true
}

/// Whether `text` begins with `prefix`.
pub fn starts_with(text: &str, prefix: &str) -> (found: bool)
    ensures
        found == prefix@.is_prefix_of(text@),
{
    let t: Vec<char> = chars_of(text);
    let p: Vec<char> = chars_of(prefix);
    if p.len() > t.len() {
        return false;
    }
    matches_at(&p, &t, 0)
}

/// Whether `part` occurs anywhere in `text`.
pub fn contains(text: &str, part: &str) -> (found: bool)
    ensures
        found == occurs_in(part@, text@),
{
    let t: Vec<char> = chars_of(text);
    let p: Vec<char> = chars_of(part);
    if p.len() > t.len() {
        return false;
    }
    let last: usize = t.len() - p.len();
    let mut i: usize = 0;
    loop
        invariant
            t@ == text@,
            p@ == part@,
            last == t@.len() - p@.len(),
            i <= last,
            forall|j: int| 0 <= j < i ==> !#[trigger] occurs_at(part@, text@, j),
        decreases last - i,
    {
        if matches_at(&p, &t, i) {
            return true;
        }
        if i == last {
            return false;
        }
        i = i + 1;
    }
}

/// Whether a character has the Unicode `White_Space` property.
pub fn white_space(c: char) -> (yes: bool)
    ensures
        yes == is_white_space(c),
{
    let v: u32 = c as u32;
    (0x09 <= v && v <= 0x0d) || v == 0x20 || v == 0x85 || v == 0xa0 || v == 0x1680 || (0x2000 <= v
        && v <= 0x200a) || v == 0x2028 || v == 0x2029 || v == 0x202f || v == 0x205f || v == 0x3000
}

/// `text` without white space at either end.
pub fn trim(text: &str) -> (out: String)
    ensures
        out@ == trimmed(text@),
{
    let chars: Vec<char> = chars_of(text);
    let n: usize = chars.len();
    let mut a: usize = 0;
    assert(text@.skip(0) =~= text@);
    while a < n && white_space(chars[a])
        invariant
            n == text@.len(),
            chars@ == text@,
            a <= n,
            trimmed_start(text@) == trimmed_start(text@.skip(a as int)),
        decreases n - a,
    {
        assert(text@.skip(a as int).drop_first() =~= text@.skip(a + 1));
        a = a + 1;
    }
    assert(trimmed_start(text@) == text@.skip(a as int));
    let mut b: usize = n;
    let ghost rest = text@.skip(a as int);
    assert(rest.take(b - a) =~= rest);
    while a < b && white_space(chars[b - 1])
        invariant
            n == text@.len(),
            chars@ == text@,
            a <= b <= n,
            rest == text@.skip(a as int),
            trimmed_end(rest) == trimmed_end(rest.take(b - a)),
        decreases b,
    {
        assert(rest.take(b - a).drop_last() =~= rest.take(b - 1 - a));
        assert(rest.take(b - a).last() == text@[b - 1]);
        b = b - 1;
    }
    assert(b > a ==> rest.take(b - a).last() == text@[b - 1]);
    assert(rest.take(b - a) =~= text@.subrange(a as int, b as int));
    text.substring_char(a, b).to_owned()
}

/// `first` followed by `second`.
pub fn join(first: &str, second: &str) -> (out: String)
    ensures
        out@ == first@ + second@,
{
    let mut out: String = first.to_owned();
    out.append(second);
    out
}

/// The digit for a value below sixteen, as a one-character string.
fn digit_text(d: u64) -> (text: &'static str)
    requires
        d < 16,
    ensures
        text@ == seq![hex_digit(d as int)],
{
    let text: &'static str = if d == 0 {
        "0"
    } else if d == 1 {
        "1"
    } else if d == 2 {
        "2"
    } else if d == 3 {
        "3"
    } else if d == 4 {
        "4"
    } else if d == 5 {
        "5"
    } else if d == 6 {
        "6"
    } else if d == 7 {
        "7"
    } else if d == 8 {
        "8"
    } else if d == 9 {
        "9"
    } else if d == 10 {
        "a"
    } else if d == 11 {
        "b"
    } else if d == 12 {
        "c"
    } else if d == 13 {
        "d"
    } else if d == 14 {
        "e"
    } else {
        "f"
    };
    proof {
        reveal_strlit("0");
        reveal_strlit("1");
        reveal_strlit("2");
        reveal_strlit("3");
        reveal_strlit("4");
        reveal_strlit("5");
        reveal_strlit("6");
        reveal_strlit("7");
        reveal_strlit("8");
        reveal_strlit("9");
        reveal_strlit("a");
        reveal_strlit("b");
        reveal_strlit("c");
        reveal_strlit("d");
        reveal_strlit("e");
        reveal_strlit("f");
    }
    assert(text@ =~= seq![hex_digit(d as int)]);
    text
}

/// Appends the last `width` hexadecimal digits of `value` to `out`.
pub fn append_hex(out: &mut String, value: u64, width: u8)
    ensures
        final(out)@ == old(out)@ + hex(value as nat, width as nat),
    decreases width,
{
    if width > 0 {
        append_hex(out, value / 16, width - 1);
        out.append(digit_text(value % 16));
    }
    assert(out@ =~= old(out)@ + hex(value as nat, width as nat));
}

/// Appends the decimal numeral of `value` to `out`.
pub fn append_decimal(out: &mut String, value: u64)
    ensures
        final(out)@ == old(out)@ + decimal(value as nat),
    decreases value,
{
    if value >= 10 {
        append_decimal(out, value / 10);
    }
    out.append(digit_text(value % 10));
    assert(out@ =~= old(out)@ + decimal(value as nat));
}

/// Trimming leaves no white space at either end.
pub proof fn lemma_trimmed_has_bare_ends(text: Seq<char>)
    ensures
        has_bare_ends(trimmed(text)),
{
    lemma_trimmed_start_bare(text);
    lemma_trimmed_end_bare(trimmed_start(text));
}

/// Text with bare ends is its own trimming.
pub proof fn lemma_bare_ends_trimmed(text: Seq<char>)
    requires
        has_bare_ends(text),
    ensures
        trimmed(text) == text,
{
}

/// Trimming twice is trimming once.
pub proof fn law_trim_is_idempotent(text: Seq<char>)
    ensures
        trimmed(trimmed(text)) == trimmed(text),
{
    lemma_trimmed_has_bare_ends(text);
    lemma_bare_ends_trimmed(trimmed(text));
}

proof fn lemma_trimmed_start_bare(text: Seq<char>)
    ensures
        trimmed_start(text).len() > 0 ==> !is_white_space(trimmed_start(text)[0]),
    decreases text.len(),
{
    if text.len() > 0 && is_white_space(text[0]) {
        lemma_trimmed_start_bare(text.drop_first());
    }
}

proof fn lemma_trimmed_end_bare(text: Seq<char>)
    requires
        text.len() > 0 ==> !is_white_space(text[0]),
    ensures
        has_bare_ends(trimmed_end(text)),
    decreases text.len(),
{
    if text.len() > 0 && is_white_space(text.last()) {
        lemma_trimmed_end_bare(text.drop_last());
    }
}

/// Trimming takes away white space at the ends and nothing else: what is left stands in the text as
/// it is, between two runs of white space, and has none at its own ends.
pub proof fn law_trim_takes_only_outer_space(text: Seq<char>)
    ensures
        exists|a: int, b: int| #[trigger] is_inner_part(text, a, b) && trimmed(text)
            == text.subrange(a, b),
        has_bare_ends(trimmed(text)),
{
    lemma_trimmed_start_part(text);
    lemma_trimmed_end_part(trimmed_start(text));
    lemma_trimmed_has_bare_ends(text);
    let head = trimmed_start(text);
    let a = text.len() - head.len();
    let b = a + trimmed(text).len();
    assert(text.subrange(a, b) =~= trimmed(text)) by {
        assert forall|i: int| 0 <= i < trimmed(text).len() implies text[a + i] == trimmed(
            text,
        )[i] by {
            assert(text.skip(a)[i] == text[a + i]);
            assert(head.take(trimmed(text).len() as int)[i] == head[i]);
        }
    }
    assert forall|i: int| b <= i < text.len() implies is_white_space(#[trigger] text[i]) by {
        assert(text.skip(a)[i - a] == text[i]);
        assert(is_white_space(head[i - a]));
    }
    assert(is_inner_part(text, a, b));
}

/// All of `text` before position `a` and from position `b` on is white space.
pub open spec fn is_inner_part(text: Seq<char>, a: int, b: int) -> bool {
    &&& 0 <= a <= b <= text.len()
    &&& forall|i: int| 0 <= i < a ==> is_white_space(#[trigger] text[i])
    &&& forall|i: int| b <= i < text.len() ==> is_white_space(#[trigger] text[i])
}

proof fn lemma_trimmed_start_part(text: Seq<char>)
    ensures
        trimmed_start(text).len() <= text.len(),
        trimmed_start(text) == text.skip(text.len() - trimmed_start(text).len()),
        forall|i: int|
            0 <= i < text.len() - trimmed_start(text).len() ==> is_white_space(#[trigger] text[i]),
    decreases text.len(),
{
    if text.len() > 0 && is_white_space(text[0]) {
        let rest = text.drop_first();
        lemma_trimmed_start_part(rest);
        let n = rest.len() - trimmed_start(rest).len();
        assert(rest.skip(n) =~= text.skip(n + 1));
        assert forall|i: int| 0 <= i < n + 1 implies is_white_space(#[trigger] text[i]) by {
            if i > 0 {
                assert(rest[i - 1] == text[i]);
            }
        }
    } else {
        assert(text.skip(0) =~= text);
    }
}

proof fn lemma_trimmed_end_part(text: Seq<char>)
    ensures
        trimmed_end(text).len() <= text.len(),
        trimmed_end(text) == text.take(trimmed_end(text).len() as int),
        forall|i: int|
            trimmed_end(text).len() <= i < text.len() ==> is_white_space(#[trigger] text[i]),
    decreases text.len(),
{
    if text.len() > 0 && is_white_space(text.last()) {
        let rest = text.drop_last();
        lemma_trimmed_end_part(rest);
        let n = trimmed_end(rest).len() as int;
        assert(rest.take(n) =~= text.take(n));
        assert forall|i: int| n <= i < text.len() implies is_white_space(#[trigger] text[i]) by {
            if i < rest.len() {
                assert(rest[i] == text[i]);
            }
        }
    } else {
        assert(text.take(text.len() as int) =~= text);
    }
}

/// Text occurs wherever it stands between something before and something after, or between nothing.
pub proof fn law_occurs_in_the_middle(before: Seq<char>, part: Seq<char>, after: Seq<char>)
    ensures
        occurs_in(part, before + part + after),
{
    let text = before + part + after;
    let i = before.len() as int;
    assert(text.subrange(i, i + part.len()) =~= part);
    assert(occurs_at(part, text, i));
}

/// Where text occurs in another, that other can be split around it.
pub proof fn law_occurrence_splits_the_text(part: Seq<char>, text: Seq<char>)
    requires
        occurs_in(part, text),
    ensures
        exists|before: Seq<char>, after: Seq<char>| text == #[trigger] (before + part + after),
{
    let i = choose|i: int| #[trigger] occurs_at(part, text, i);
    let before = text.take(i);
    let after = text.skip(i + part.len());
    assert(text =~= before + text.subrange(i, i + part.len()) + after);
    assert(text == before + part + after);
}

/// The value of a digit: `0` to `9`, and `a` to `f` for ten to fifteen.
pub open spec fn digit_value(c: char) -> int {
    if '0' <= c <= '9' {
        c as int - '0' as int
    } else {
        c as int - 'a' as int + 10
    }
}

/// The number that digits spell in a base, most significant first.
pub open spec fn number(digits: Seq<char>, base: int) -> int
    decreases digits.len(),
{
    if digits.len() == 0 {
        0
    } else {
        number(digits.drop_last(), base) * base + digit_value(digits.last())
    }
}

/// The decimal numeral of a value spells that value, in digits from `0` to `9`, without leading
/// zeros.
pub proof fn law_decimal_spells_the_value(value: nat)
    ensures
        number(decimal(value), 10) == value,
        decimal(value).len() > 0,
        value > 0 ==> decimal(value)[0] != '0',
        forall|i: int| 0 <= i < decimal(value).len() ==> '0' <= #[trigger] decimal(value)[i] <= '9',
    decreases value,
{
    let digits = decimal(value);
    if value < 10 {
        assert(digits.drop_last() =~= Seq::empty());
        assert(number(digits.drop_last(), 10) == 0);
        assert(digits.last() == hex_digit(value as int));
        assert(digits[0] == hex_digit(value as int));
    } else {
        law_decimal_spells_the_value(value / 10);
        let head = decimal(value / 10);
        assert(digits.drop_last() =~= head);
        assert(digits[0] == head[0]);
        assert forall|i: int| 0 <= i < digits.len() implies '0' <= #[trigger] digits[i] <= '9' by {
            if i < head.len() {
                assert(digits[i] == head[i]);
            }
        }
    }
}

/// The hexadecimal numeral of a value that fits its width spells that value, in lower case.
pub proof fn law_hex_spells_the_value(value: nat, width: nat)
    requires
        value < vstd::arithmetic::power::pow(16, width),
    ensures
        number(hex(value, width), 16) == value,
        hex(value, width).len() == width,
        forall|i: int|
            0 <= i < width ==> '0' <= #[trigger] hex(value, width)[i] <= '9' || 'a' <= hex(
                value,
                width,
            )[i] <= 'f',
    decreases width,
{
    reveal(vstd::arithmetic::power::pow);
    let digits = hex(value, width);
    lemma_hex_len(value, width);
    if width > 0 {
        let w = (width - 1) as nat;
        let head = hex(value / 16, w);
        assert(value / 16 < vstd::arithmetic::power::pow(16, w));
        law_hex_spells_the_value(value / 16, w);
        assert(digits.drop_last() =~= head);
        assert forall|i: int| 0 <= i < width implies '0' <= #[trigger] digits[i] <= '9' || 'a'
            <= digits[i] <= 'f' by {
            if i < w {
                assert(digits[i] == head[i]);
            }
        }
    }
}

/// Numerals of the same width are equal only for values that agree below that width.
pub proof fn lemma_hex_injective(a: nat, b: nat, width: nat)
    requires
        hex(a, width) == hex(b, width),
        a < vstd::arithmetic::power::pow(16, width),
        b < vstd::arithmetic::power::pow(16, width),
    ensures
        a == b,
    decreases width,
{
    reveal(vstd::arithmetic::power::pow);
    if width > 0 {
        let w = (width - 1) as nat;
        let x = hex(a / 16, w);
        let y = hex(b / 16, w);
        let c = hex_digit((a % 16) as int);
        let d = hex_digit((b % 16) as int);
        assert(x.push(c).last() == y.push(d).last());
        assert(x.push(c).drop_last() =~= x);
        assert(y.push(d).drop_last() =~= y);
        assert(a / 16 < vstd::arithmetic::power::pow(16, w));
        assert(b / 16 < vstd::arithmetic::power::pow(16, w));
        lemma_hex_injective(a / 16, b / 16, w);
        assert(a % 16 == b % 16);
    }
}

/// Different values have different decimal numerals.
pub proof fn lemma_decimal_injective(a: nat, b: nat)
    requires
        decimal(a) == decimal(b),
    ensures
        a == b,
    decreases a,
{
    lemma_decimal_len(a);
    lemma_decimal_len(b);
    if a >= 10 && b >= 10 {
        let x = decimal(a / 10);
        let y = decimal(b / 10);
        let c = hex_digit((a % 10) as int);
        let d = hex_digit((b % 10) as int);
        assert(x.push(c).last() == y.push(d).last());
        assert(x.push(c).drop_last() =~= x);
        assert(y.push(d).drop_last() =~= y);
        lemma_decimal_injective(a / 10, b / 10);
        assert(a % 10 == b % 10);
    } else if a < 10 && b < 10 {
        assert(decimal(a)[0] == hex_digit(a as int));
        assert(decimal(b)[0] == hex_digit(b as int));
    }
}

/// A decimal numeral has one digit exactly where its value is below ten.
proof fn lemma_decimal_len(value: nat)
    ensures
        value < 10 ==> decimal(value).len() == 1,
        value >= 10 ==> decimal(value).len() > 1,
    decreases value,
{
    if value >= 10 {
        lemma_decimal_len(value / 10);
    }
}

/// A numeral has as many digits as its width.
pub proof fn lemma_hex_len(value: nat, width: nat)
    ensures
        hex(value, width).len() == width,
    decreases width,
{
    if width > 0 {
        lemma_hex_len(value / 16, (width - 1) as nat);
    }
}

} // verus!
