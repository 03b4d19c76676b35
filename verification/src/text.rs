//! Text: views of strings, comparison, decimal numbers, trimming and the two
//! standard conversions whose tables are too long to state.

use vstd::prelude::*;
use vstd::string::*;

verus! {

/// The texts that a sequence of strings holds.
pub open spec fn texts(strings: Seq<String>) -> Seq<Seq<char>> {
    strings.map_values(|s: String| s@)
}

/// The text that an optional borrowed string holds.
pub open spec fn borrowed_text(value: Option<&str>) -> Option<Seq<char>> {
    match value {
        Some(text) => Some(text@),
        None => None,
    }
}

/// The text that an optional string holds.
pub open spec fn owned_text(value: Option<String>) -> Option<Seq<char>> {
    match value {
        Some(text) => Some(text@),
        None => None,
    }
}

/// Whether two texts are the same, character for character.
pub fn same_text(a: &str, b: &str) -> (same: bool)
    ensures
        same == (a@ == b@),
{
    let x = a.as_bytes();
    let y = b.as_bytes();
    proof {
        vstd::utf8::encode_utf8_decode_utf8(a@);
        vstd::utf8::encode_utf8_decode_utf8(b@);
    }
    if x.len() != y.len() {
        return false;
    }
    let mut i: usize = 0;
    while i < x.len()
        invariant
            x.len() == y.len(),
            i <= x.len(),
            x@ == a.spec_bytes(),
            y@ == b.spec_bytes(),
            forall|j: int| 0 <= j < i ==> x@[j] == y@[j],
        decreases x.len() - i,
    {
        if x[i] != y[i] {
            return false;
        }
        i += 1;
    }
    assert(x@ =~= y@);
    true
}

/// Whether an optional text is the given one.
pub fn is_text(value: Option<&str>, expected: &str) -> (same: bool)
    ensures
        same == (borrowed_text(value) == Some(expected@)),
{
    match value {
        Some(text) => same_text(text, expected),
        None => false,
    }
}

/// Borrows the text of an optional string.
pub fn borrow_text(value: &Option<String>) -> (text: Option<&str>)
    ensures
        borrowed_text(text) == owned_text(*value),
{
    match value {
        Some(text) => Some(text.as_str()),
        None => None,
    }
}

/// Copies an optional string.
pub fn copy_text(value: &Option<String>) -> (copy: Option<String>)
    ensures
        owned_text(copy) == owned_text(*value),
{
    match value {
        Some(text) => Some(text.clone()),
        None => None,
    }
}

/// Copies a list of strings.
pub fn copy_texts(strings: &[String]) -> (copies: Vec<String>)
    ensures
        texts(copies@) == texts(strings@),
{
    let mut copies: Vec<String> = Vec::new();
    let mut i: usize = 0;
    while i < strings.len()
        invariant
            i <= strings.len(),
            copies.len() == i,
            forall|j: int| 0 <= j < i ==> (#[trigger] copies@[j])@ == strings@[j]@,
        decreases strings.len() - i,
    {
        copies.push(strings[i].clone());
        i += 1;
    }
    assert(texts(copies@) =~= texts(strings@));
    copies
}

/// A text repeated a number of times.
pub open spec fn repeated(text: Seq<char>, count: nat) -> Seq<char>
    decreases count,
{
    if count == 0 {
        seq![]
    } else {
        repeated(text, (count - 1) as nat) + text
    }
}

/// Repeats a text.
pub fn repeat(text: &str, count: usize) -> (result: String)
    ensures
        result@ == repeated(text@, count as nat),
{
    let mut result = String::new();
    let mut i: usize = 0;
    while i < count
        invariant
            i <= count,
            result@ == repeated(text@, i as nat),
        decreases count - i,
    {
        result.append(text);
        i += 1;
    }
    result
}

/// The characters of a text, in order.
pub(crate) fn chars_of(s: &str) -> (chars: Vec<char>)
    ensures
        chars@ == s@,
{
    let mut chars: Vec<char> = Vec::new();
    for c in it: s.chars()
        invariant
            chars@ == it.seq().take(it.index() as int),
            it.seq() == s@,
    {
        chars.push(c);
    }
    chars
}

/// The decimal digit of a number below ten.
pub open spec fn digit(n: nat) -> char {
    (('0' as nat) + n) as char
}

/// A number in decimal, without leading zeros.
pub open spec fn decimal(n: nat) -> Seq<char>
    decreases n,
{
    if n < 10 {
        seq![digit(n)]
    } else {
        decimal(n / 10).push(digit(n % 10))
    }
}

/// Different numbers are written differently.
pub proof fn decimal_is_injective(a: nat, b: nat)
    requires
        decimal(a) == decimal(b),
    ensures
        a == b,
    decreases a,
{
    if a < 10 && b < 10 {
        assert(decimal(a)[0] == digit(a));
        assert(decimal(b)[0] == digit(b));
    } else if a >= 10 && b >= 10 {
        assert(decimal(a).last() == digit(a % 10));
        assert(decimal(b).last() == digit(b % 10));
        assert(decimal(a).drop_last() =~= decimal(a / 10));
        assert(decimal(b).drop_last() =~= decimal(b / 10));
        decimal_is_injective(a / 10, b / 10);
    } else {
        lemma_decimal_is_nonempty(a / 10);
        lemma_decimal_is_nonempty(b / 10);
    }
}

proof fn lemma_decimal_is_nonempty(n: nat)
    ensures
        decimal(n).len() > 0,
{
}

fn digit_text(n: usize) -> (text: &'static str)
    requires
        n < 10,
    ensures
        text@ == seq![digit(n as nat)],
{
    proof {
        reveal_strlit("0");
        reveal_strlit("1");
        reveal_strlit("2");
        reveal_strlit("3");
        reveal_strlit("4");
        reveal_strlit("5");
        reveal_strlit("6");
        reveal_strlit("7");
        reveal_strlit("8");
        reveal_strlit("9");
    }
    let text = match n {
        0 => "0",
        1 => "1",
        2 => "2",
        3 => "3",
        4 => "4",
        5 => "5",
        6 => "6",
        7 => "7",
        8 => "8",
        _ => "9",
    };
    assert(text@ =~= seq![digit(n as nat)]);
    text
}

/// Writes a number in decimal.
pub fn decimal_text(n: usize) -> (text: String)
    ensures
        text@ == decimal(n as nat),
    decreases n,
{
    if n < 10 {
        digit_text(n).to_string()
    } else {
        let mut text = decimal_text(n / 10);
        text.append(digit_text(n % 10));
        assert(text@ =~= decimal(n as nat));
        text
    }
}

/// A number in decimal, with a leading zero where it has one digit only.
pub open spec fn two_digit_decimal(n: nat) -> Seq<char> {
    if n < 10 {
        seq!['0'] + decimal(n)
    } else {
        decimal(n)
    }
}

/// Writes a number in decimal on at least two digits.
pub fn two_digit_text(n: usize) -> (text: String)
    ensures
        text@ == two_digit_decimal(n as nat),
{
    let digits = decimal_text(n);
    if n < 10 {
        let mut text = "0".to_string();
        text.append(digits.as_str());
        proof {
            reveal_strlit("0");
            assert("0"@ =~= seq!['0']);
        }
        text
    } else {
        digits
    }
}

/// Unicode's `White_Space` property.
pub open spec fn is_white_space(c: char) -> bool {
    ||| '\u{9}' <= c <= '\u{d}'
    ||| c == ' '
    ||| c == '\u{85}'
    ||| c == '\u{a0}'
    ||| c == '\u{1680}'
    ||| '\u{2000}' <= c <= '\u{200a}'
    ||| c == '\u{2028}'
    ||| c == '\u{2029}'
    ||| c == '\u{202f}'
    ||| c == '\u{205f}'
    ||| c == '\u{3000}'
}

/// A text without its leading white space.
pub open spec fn trimmed_start(s: Seq<char>) -> Seq<char>
    decreases s.len(),
{
    if s.len() > 0 && is_white_space(s[0]) {
        trimmed_start(s.drop_first())
    } else {
        s
    }
}

/// A text without its trailing white space.
pub open spec fn trimmed_end(s: Seq<char>) -> Seq<char>
    decreases s.len(),
{
    if s.len() > 0 && is_white_space(s.last()) {
        trimmed_end(s.drop_last())
    } else {
        s
    }
}

/// A text without white space at either end.
pub open spec fn trimmed(s: Seq<char>) -> Seq<char> {
    trimmed_end(trimmed_start(s))
}

fn white_space(c: char) -> (white: bool)
    ensures
        white == is_white_space(c),
{
    ('\u{9}' <= c && c <= '\u{d}') || c == ' ' || c == '\u{85}' || c == '\u{a0}' || c == '\u{1680}'
        || ('\u{2000}' <= c && c <= '\u{200a}') || c == '\u{2028}' || c == '\u{2029}'
        || c == '\u{202f}' || c == '\u{205f}' || c == '\u{3000}'
}

/// Removes white space from both ends of a text.
pub fn trim(s: &str) -> (text: String)
    ensures
        text@ == trimmed(s@),
{
    let chars = chars_of(s);
    let mut from: usize = 0;
    assert(s@.skip(0) =~= s@);
    while from < chars.len() && white_space(chars[from])
        invariant
            chars@ == s@,
            from <= chars.len(),
            trimmed_start(s@) == trimmed_start(s@.skip(from as int)),
        decreases chars.len() - from,
    {
        assert(s@.skip(from as int).drop_first() =~= s@.skip(from + 1));
        from += 1;
    }
    let ghost kept = s@.skip(from as int);
    assert(trimmed_start(s@) == kept);
    let mut to: usize = chars.len();
    assert(kept.take(to - from) =~= kept);
    while to > from && white_space(chars[to - 1])
        invariant
            chars@ == s@,
            from <= to <= chars.len(),
            kept == s@.skip(from as int),
            trimmed_end(kept) == trimmed_end(kept.take(to - from)),
        decreases to - from,
    {
        assert(kept.take(to - from).drop_last() =~= kept.take(to - from - 1));
        to -= 1;
    }
    assert(kept.take(to - from) =~= s@.subrange(from as int, to as int));
    s.substring_char(from, to).to_string()
}

/// What the standard lossy decoder makes of a byte sequence: a text in which
/// every ill-formed part has become a replacement character.
pub uninterp spec fn lossy_utf8(bytes: Seq<u8>) -> Seq<char>;

/// Decodes bytes with `String::from_utf8_lossy`.
///
/// Believed of it: the text is a function of the bytes alone, and well-formed
/// UTF-8 is decoded as it stands. How many replacement characters stand for an
/// ill-formed part is left to the name.
#[verifier::external_body]
pub(crate) fn decode_lossy(bytes: &[u8]) -> (text: String)
    ensures
        text@ == lossy_utf8(bytes@),
        vstd::utf8::valid_utf8(bytes@) ==> text@ == vstd::utf8::decode_utf8(bytes@),
{
    String::from_utf8_lossy(bytes).into_owned()
}

/// The text that bytes stand for: themselves where they are well-formed UTF-8, else
/// what the standard lossy decoder makes of them.
pub open spec fn text_of_bytes(bytes: Seq<u8>) -> Seq<char> {
    if vstd::utf8::valid_utf8(bytes) {
        vstd::utf8::decode_utf8(bytes)
    } else {
        lossy_utf8(bytes)
    }
}

/// What the standard upper-case mapping makes of a text.
pub uninterp spec fn upper_cased(text: Seq<char>) -> Seq<char>;

/// The upper-case form of an ASCII character.
pub open spec fn ascii_upper(c: char) -> char {
    if 'a' <= c <= 'z' {
        (c as nat - 32) as char
    } else {
        c
    }
}

/// A text in upper case: letter by letter where it is ASCII, else what the standard
/// mapping makes of it.
pub open spec fn in_upper_case(text: Seq<char>) -> Seq<char> {
    if vstd::utf8::is_ascii_chars(text) {
        text.map_values(|c: char| ascii_upper(c))
    } else {
        upper_cased(text)
    }
}

/// Maps a text to upper case with `str::to_uppercase`.
///
/// Believed of it: the result is a function of the text alone, and on ASCII it
/// maps `a` to `z` onto `A` to `Z` and keeps every other character.
#[verifier::external_body]
pub(crate) fn to_upper_case(text: &str) -> (upper: String)
    ensures
        upper@ == upper_cased(text@),
        vstd::utf8::is_ascii_chars(text@) ==> upper@ == text@.map_values(|c: char| ascii_upper(c)),
{
    text.to_uppercase()
}

/// A text and an optional one are views of what they hold.
pub proof fn texts_say_what_they_hold(
    strings: Seq<String>,
    owned: Option<String>,
    borrowed: Option<&str>,
)
    ensures
        texts(strings).len() == strings.len(),
        forall|i: int| 0 <= i < strings.len() ==> #[trigger] texts(strings)[i] == strings[i]@,
        owned is None <==> owned_text(owned) is None,
        owned matches Some(text) ==> owned_text(owned) == Some(text@),
        borrowed is None <==> borrowed_text(borrowed) is None,
        borrowed matches Some(text) ==> borrowed_text(borrowed) == Some(text@),
{
}

/// A digit behind a number makes ten times the number and the digit; a number below ten
/// is its digit.
pub proof fn digits_are_appended(n: nat, last: nat)
    requires
        last < 10,
    ensures
        n > 0 ==> decimal(10 * n + last) == decimal(n).push((48 + last) as char),
        decimal(last) == seq![(48 + last) as char],
{
    if n > 0 {
        assert((10 * n + last) / 10 == n);
        assert((10 * n + last) % 10 == last);
    }
}

/// On at least two digits a number below ten has a zero before its digit, and every other
/// number is as it is.
pub proof fn small_numbers_get_a_zero(n: nat)
    ensures
        two_digit_decimal(n).len() >= 2,
        n < 10 ==> two_digit_decimal(n) == seq!['0', (48 + n) as char],
        n >= 10 ==> two_digit_decimal(n) == decimal(n),
{
    if n >= 10 {
        lemma_decimal_is_nonempty(n / 10);
    } else {
        assert(two_digit_decimal(n) =~= seq!['0', (48 + n) as char]);
    }
}

/// A text repeated has one copy after the other.
pub proof fn repetitions_follow_each_other(text: Seq<char>, count: nat, i: int)
    requires
        0 <= i < count * text.len(),
    ensures
        repeated(text, count).len() == count * text.len(),
        repeated(text, count)[i] == text[i % (text.len() as int)],
    decreases count,
{
    let len = text.len();
    let fewer = (count - 1) as nat;
    let before = repeated(text, fewer);
    assert(count > 0 && len > 0) by (nonlinear_arith)
        requires
            0 <= i < count * len,
            count >= 0,
            len >= 0,
    ;
    assert(count * len == fewer * len + len) by (nonlinear_arith)
        requires
            fewer == count - 1,
            count > 0,
    ;
    if i < fewer * len {
        repetitions_follow_each_other(text, fewer, i);
    } else {
        lemma_repeated_len(text, fewer);
        let rest = i - fewer * len;
        assert(i % (len as int) == rest) by {
            vstd::arithmetic::div_mod::lemma_fundamental_div_mod_converse(
                i,
                len as int,
                fewer as int,
                rest,
            );
        }
    }
}

proof fn lemma_repeated_len(text: Seq<char>, count: nat)
    ensures
        repeated(text, count).len() == count * text.len(),
    decreases count,
{
    if count > 0 {
        let fewer = (count - 1) as nat;
        lemma_repeated_len(text, fewer);
        assert(count * text.len() == fewer * text.len() + text.len()) by (nonlinear_arith)
            requires
                fewer == count - 1,
        ;
    } else {
        assert(0 * text.len() == 0) by (nonlinear_arith);
    }
}

/// Exactly the characters that Unicode calls white space are white space.
pub proof fn white_space_is_what_unicode_says(c: char)
    ensures
        is_white_space(c) <==> {
            let n = c as nat;
            ||| 0x9 <= n <= 0xd
            ||| n == 0x20
            ||| n == 0x85
            ||| n == 0xa0
            ||| n == 0x1680
            ||| 0x2000 <= n <= 0x200a
            ||| 0x2028 <= n <= 0x2029
            ||| n == 0x202f
            ||| n == 0x205f
            ||| n == 0x3000
        },
{
}

proof fn lemma_trimmed_start(s: Seq<char>) -> (from: int)
    ensures
        0 <= from <= s.len(),
        trimmed_start(s) == s.skip(from),
        forall|i: int| 0 <= i < from ==> is_white_space(#[trigger] s[i]),
        from < s.len() ==> !is_white_space(s[from]),
    decreases s.len(),
{
    if s.len() > 0 && is_white_space(s[0]) {
        let rest = s.drop_first();
        let from = lemma_trimmed_start(rest);
        assert(rest.skip(from) =~= s.skip(from + 1));
        assert forall|i: int| 0 <= i < from + 1 implies is_white_space(#[trigger] s[i]) by {
            if i > 0 {
                assert(rest[i - 1] == s[i]);
            }
        }
        from + 1
    } else {
        assert(s.skip(0) =~= s);
        0
    }
}

proof fn lemma_trimmed_end(s: Seq<char>) -> (to: int)
    ensures
        0 <= to <= s.len(),
        trimmed_end(s) == s.take(to),
        forall|i: int| to <= i < s.len() ==> is_white_space(#[trigger] s[i]),
        to > 0 ==> !is_white_space(s[to - 1]),
    decreases s.len(),
{
    if s.len() > 0 && is_white_space(s.last()) {
        let rest = s.drop_last();
        let to = lemma_trimmed_end(rest);
        assert(rest.take(to) =~= s.take(to));
        assert forall|i: int| to <= i < s.len() implies is_white_space(#[trigger] s[i]) by {
            if i < rest.len() {
                assert(rest[i] == s[i]);
            }
        }
        to
    } else {
        assert(s.take(s.len() as int) =~= s);
        s.len() as int
    }
}

/// A text that is cut at white space at both ends: what is cut off is white space, and
/// what is left neither begins nor ends with any.
pub proof fn trimming_cuts_white_space_alone(s: Seq<char>)
    ensures
        exists|from: int, to: int|
            #![trigger s.subrange(from, to)]
            {
                &&& 0 <= from <= to <= s.len()
                &&& trimmed(s) == s.subrange(from, to)
                &&& forall|i: int|
                    0 <= i < from || to <= i < s.len() ==> is_white_space(#[trigger] s[i])
                &&& from < to ==> !is_white_space(s[from]) && !is_white_space(s[to - 1])
            },
{
    let from = lemma_trimmed_start(s);
    let kept = s.skip(from);
    let length = lemma_trimmed_end(kept);
    let to = from + length;
    assert(kept.take(length) =~= s.subrange(from, to));
    assert forall|i: int| 0 <= i < from || to <= i < s.len() implies is_white_space(
        #[trigger] s[i],
    ) by {
        if to <= i {
            assert(kept[i - from] == s[i]);
        }
    }
    if from < to {
        assert(kept[length - 1] == s[to - 1]);
    }
}

/// Bytes that are well-formed stand for the text that they encode, and all others for
/// what the lossy decoder makes of them.
pub proof fn well_formed_bytes_are_their_text(bytes: Seq<u8>)
    ensures
        vstd::utf8::valid_utf8(bytes) ==> text_of_bytes(bytes) == vstd::utf8::decode_utf8(bytes),
        !vstd::utf8::valid_utf8(bytes) ==> text_of_bytes(bytes) == lossy_utf8(bytes),
{
}

/// In upper case an ASCII text has a capital for every small letter, and every other
/// character as it was; any other text is what the standard mapping makes of it.
pub proof fn capitals_replace_small_letters(text: Seq<char>)
    ensures
        vstd::utf8::is_ascii_chars(text) ==> in_upper_case(text).len() == text.len(),
        vstd::utf8::is_ascii_chars(text) ==> forall|i: int|
            0 <= i < text.len() ==> #[trigger] in_upper_case(text)[i] == if 'a' <= text[i] <= 'z' {
                (text[i] as nat - 32) as char
            } else {
                text[i]
            },
        !vstd::utf8::is_ascii_chars(text) ==> in_upper_case(text) == upper_cased(text),
{
}

} // verus!
