//! Text as sequences of characters.
use crate::model::{no_items, push_item};
use vstd::prelude::*;
use vstd::string::*;

verus! {

/// `String::push`: appends one character.
pub assume_specification[ String::push ](text: &mut String, letter: char)
    ensures
        final(text)@ == old(text)@.push(letter),
;

/// `str::eq`: two texts are equal exactly when their characters are.
pub assume_specification[ <str as PartialEq<str>>::eq ](text: &str, other: &str) -> (same: bool)
    ensures
        same == (text@ == other@),
;

/// `std::str::from_utf8`: succeeds exactly on well-formed UTF-8, and the text
/// it hands back has those bytes.
#[verifier::external_body]
pub(crate) fn utf8_text(bytes: &[u8]) -> (text: Option<&str>)
    ensures
        text.deep_view() == utf8_chars(bytes@),
{
    std::str::from_utf8(bytes).ok()
}

/// The text that bytes encode in UTF-8, where they are well-formed.
pub open spec fn utf8_chars(bytes: Seq<u8>) -> Option<Seq<char>> {
    if vstd::utf8::valid_utf8(bytes) {
        Some(vstd::utf8::decode_utf8(bytes))
    } else {
        None
    }
}

/// What `Debug` of `str` writes for a text.
pub uninterp spec fn quoted(text: Seq<char>) -> Seq<char>;

/// `Debug` of `str`: a text in quotes with its special characters escaped, a
/// function of the text alone.
#[verifier::external_body]
pub(crate) fn quote(text: &str) -> (shown: String)
    ensures
        shown@ == quoted(text@),
{
    format!("{:?}", text)
}

/// The texts after one another, with a line feed between each two.
pub open spec fn joined(lines: Seq<Seq<char>>) -> Seq<char>
    decreases lines.len(),
{
    if lines.len() == 0 {
        Seq::empty()
    } else if lines.len() == 1 {
        lines[0]
    } else {
        joined(lines.drop_last()) + "\n"@ + lines.last()
    }
}

/// The texts after one another, with a line feed between each two.
pub fn join_lines(lines: &Vec<String>) -> (text: String)
    ensures
        text@ == joined(lines.deep_view()),
{
    let mut text: String = String::new();
    let mut i: usize = 0;
    while i < lines.len()
        invariant
            i <= lines.len(),
            text@ == joined(lines.deep_view().take(i as int)),
        decreases lines.len() - i,
    {
        let ghost next = lines.deep_view().take(i + 1);
        assert(next.drop_last() =~= lines.deep_view().take(i as int));
        assert(next.last() == lines@[i as int]@);
        if i > 0 {
            text.append("\n");
        }
        text.append(lines[i].as_str());
        assert(i == 0 ==> text@ =~= lines@[0]@);
        i += 1;
    }
    assert(lines.deep_view().take(lines.len() as int) =~= lines.deep_view());
    text
}

/// Whether two texts are the same.
pub fn same_text(text: &str, other: &str) -> (same: bool)
    ensures
        same == (text@ == other@),
{
    *text == *other
}

/// The characters of a text.
pub fn chars_of(text: &str) -> (chars: Vec<char>)
    ensures
        chars@ == text@,
{
    let mut chars: Vec<char> = Vec::new();
    for letter in it: text.chars()
        invariant
            it.seq() == text@,
            chars@ == text@.take(it.index() as int),
    {
        proof { assert(text@.take(it.index() + 1) =~= text@.take(it.index() as int).push(letter)); }
        chars.push(letter);
    }
    assert(text@.take(text@.len() as int) =~= text@);
    chars
}

/// The text made of a run of characters.
pub fn text_range(chars: &Vec<char>, from: usize, to: usize) -> (text: String)
    requires
        from <= to <= chars@.len(),
    ensures
        text@ == chars@.subrange(from as int, to as int),
{
    let mut text: String = String::new();
    let mut i: usize = from;
    while i < to
        invariant
            from <= i <= to <= chars@.len(),
            text@ == chars@.subrange(from as int, i as int),
        decreases to - i,
    {
        text.push(chars[i]);
        i += 1;
        assert(chars@.subrange(from as int, i as int) =~= chars@.subrange(from as int, i - 1).push(chars@[i - 1]));
    }
    text
}

/// Two texts after one another.
pub fn concat(left: &str, right: &str) -> (text: String)
    ensures
        text@ == left@ + right@,
{
    let mut text: String = left.to_owned();
    text.append(right);
    text
}

/// Three texts after one another.
pub fn concat3(left: &str, middle: &str, right: &str) -> (text: String)
    ensures
        text@ == left@ + middle@ + right@,
{
    let mut text: String = left.to_owned();
    text.append(middle);
    text.append(right);
    text
}

/// Whether one sequence begins with another.
pub open spec fn begins_with<T>(whole: Seq<T>, prefix: Seq<T>) -> bool {
    prefix.len() <= whole.len() && whole.take(prefix.len() as int) == prefix
}

/// The rest of `whole` behind `prefix`, where it begins with it.
pub open spec fn stripped(whole: Seq<char>, prefix: Seq<char>) -> Option<Seq<char>> {
    if begins_with(whole, prefix) {
        Some(whole.skip(prefix.len() as int))
    } else {
        None
    }
}

/// Whether `chars` holds `prefix` at its start.
pub fn chars_begin_with(chars: &Vec<char>, prefix: &Vec<char>) -> (found: bool)
    ensures
        found == begins_with(chars@, prefix@),
{
    if prefix.len() > chars.len() {
        return false;
    }
    let mut i: usize = 0;
    while i < prefix.len()
        invariant
            i <= prefix.len() <= chars.len(),
            forall|j: int| 0 <= j < i ==> chars@[j] == prefix@[j],
        decreases prefix.len() - i,
    {
        if chars[i] != prefix[i] {
            assert(chars@.take(prefix@.len() as int)[i as int] == chars@[i as int]);
            return false;
        }
        i += 1;
    }
    assert(chars@.take(prefix@.len() as int) =~= prefix@);
    true
}

/// Whether `text` begins with `prefix`.
pub fn starts_with(text: &str, prefix: &str) -> (found: bool)
    ensures
        found == begins_with(text@, prefix@),
{
    chars_begin_with(&chars_of(text), &chars_of(prefix))
}

/// The rest of `text` behind `prefix`, where it begins with it.
pub fn strip_prefix(text: &str, prefix: &str) -> (rest: Option<String>)
    ensures
        rest.deep_view() == stripped(text@, prefix@),
{
    let chars = chars_of(text);
    let head = chars_of(prefix);
    if chars_begin_with(&chars, &head) {
        let rest = text_range(&chars, head.len(), chars.len());
        assert(chars@.subrange(head@.len() as int, chars@.len() as int) =~= chars@.skip(head@.len() as int));
        Some(rest)
    } else {
        None
    }
}

/// The first place from `at` on of a character.
pub open spec fn letter_from(text: Seq<char>, letter: char, at: int) -> Option<int>
    decreases text.len() - at,
{
    if at < 0 || at >= text.len() {
        None
    } else if text[at] == letter {
        Some(at)
    } else {
        letter_from(text, letter, at + 1)
    }
}

/// The texts before and behind the first of a character.
pub open spec fn split_first(text: Seq<char>, letter: char) -> Option<(Seq<char>, Seq<char>)> {
    match letter_from(text, letter, 0) {
        None => None,
        Some(place) => Some((text.take(place), text.skip(place + 1))),
    }
}

/// The texts before and behind the first of a character.
pub fn split_once(text: &str, letter: char) -> (parts: Option<(String, String)>)
    ensures
        parts.deep_view() == split_first(text@, letter),
{
    let chars = chars_of(text);
    let mut i: usize = 0;
    while i < chars.len()
        invariant
            i <= chars.len(),
            chars@ == text@,
            letter_from(text@, letter, 0) == letter_from(text@, letter, i as int),
        decreases chars.len() - i,
    {
        if chars[i] == letter {
            assert(chars@.subrange(0, i as int) =~= text@.take(i as int));
            assert(chars@.subrange(i + 1, chars@.len() as int) =~= text@.skip(i + 1));
            return Some((text_range(&chars, 0, i), text_range(&chars, i + 1, chars.len())));
        }
        i += 1;
    }
    None
}

/// The text before `suffix`, where it ends with it.
pub open spec fn without_suffix(text: Seq<char>, suffix: Seq<char>) -> Option<Seq<char>> {
    if suffix.len() <= text.len() && text.skip(text.len() - suffix.len()) == suffix {
        Some(text.take(text.len() - suffix.len()))
    } else {
        None
    }
}

/// The text before `suffix`, where it ends with it.
pub fn strip_suffix(text: &str, suffix: &str) -> (rest: Option<String>)
    ensures
        rest.deep_view() == without_suffix(text@, suffix@),
{
    let chars = chars_of(text);
    let tail = chars_of(suffix);
    if tail.len() > chars.len() {
        return None;
    }
    let start: usize = chars.len() - tail.len();
    let mut i: usize = 0;
    while i < tail.len()
        invariant
            i <= tail.len(),
            start + tail.len() == chars.len(),
            chars@ == text@,
            tail@ == suffix@,
            forall|j: int| 0 <= j < i ==> chars@[start + j] == tail@[j],
        decreases tail.len() - i,
    {
        if chars[start + i] != tail[i] {
            assert(text@.skip(start as int)[i as int] == chars@[start + i]);
            return None;
        }
        i += 1;
    }
    assert(text@.skip(start as int) =~= suffix@);
    assert(chars@.subrange(0, start as int) =~= text@.take(start as int));
    Some(text_range(&chars, 0, start))
}

/// The order of characters in texts: by the first code point that differs, a
/// text before its extensions.
pub open spec fn text_less(left: Seq<char>, right: Seq<char>) -> bool
    decreases left.len(),
{
    if right.len() == 0 {
        false
    } else if left.len() == 0 {
        true
    } else if left[0] != right[0] {
        (left[0] as int) < (right[0] as int)
    } else {
        text_less(left.drop_first(), right.drop_first())
    }
}

/// The number of a character.
pub fn code_point(letter: char) -> (code: u32)
    ensures
        code == letter as int,
{
    letter as u32
}

/// Whether `left` stands before `right`.
pub fn is_less(left: &str, right: &str) -> (less: bool)
    ensures
        less == text_less(left@, right@),
{
    let a = chars_of(left);
    let b = chars_of(right);
    let mut i: usize = 0;
    proof {
        assert(a@.skip(0) =~= left@);
        assert(b@.skip(0) =~= right@);
    }
    loop
        invariant
            i <= a.len(),
            i <= b.len(),
            text_less(left@, right@) == text_less(a@.skip(i as int), b@.skip(i as int)),
        decreases a.len() - i,
    {
        if i == b.len() {
            return false;
        }
        if i == a.len() {
            return true;
        }
        if a[i] != b[i] {
            return code_point(a[i]) < code_point(b[i]);
        }
        proof {
            assert(a@.skip(i as int).drop_first() =~= a@.skip(i + 1));
            assert(b@.skip(i as int).drop_first() =~= b@.skip(i + 1));
        }
        i += 1;
    }
}

/// Of two different texts one stands before the other.
pub proof fn lemma_text_total(left: Seq<char>, right: Seq<char>)
    ensures
        left != right ==> text_less(left, right) || text_less(right, left),
        !(text_less(left, right) && text_less(right, left)),
        text_less(left, right) ==> left != right,
    decreases left.len(),
{
    if left.len() > 0 && right.len() > 0 {
        lemma_text_total(left.drop_first(), right.drop_first());
        if left[0] != right[0] {
            assert((left[0] as int) != (right[0] as int));
        } else if left.drop_first() == right.drop_first() {
            assert(left =~= seq![left[0]] + left.drop_first());
            assert(right =~= seq![right[0]] + right.drop_first());
            assert(left == right);
        } else {
            assert(text_less(left, right) == text_less(left.drop_first(), right.drop_first()));
            assert(text_less(right, left) == text_less(right.drop_first(), left.drop_first()));
        }
    } else if left.len() == 0 && right.len() == 0 {
        assert(left =~= right);
    }
}

/// The order of texts is transitive.
pub proof fn lemma_text_transitive(left: Seq<char>, middle: Seq<char>, right: Seq<char>)
    requires
        text_less(left, middle),
        text_less(middle, right),
    ensures
        text_less(left, right),
    decreases left.len(),
{
    if left.len() > 0 && middle.len() > 0 && right.len() > 0 && left[0] == middle[0] && middle[0] == right[0] {
        lemma_text_transitive(left.drop_first(), middle.drop_first(), right.drop_first());
    }
}

/// The first place from `at` on at which `wanted` stands.
pub open spec fn place_from(items: Seq<Seq<char>>, wanted: Seq<char>, at: int) -> Option<int>
    decreases items.len() - at,
{
    if at < 0 || at >= items.len() {
        None
    } else if items[at] == wanted {
        Some(at)
    } else {
        place_from(items, wanted, at + 1)
    }
}

/// The first place at which `wanted` stands.
pub open spec fn place(items: Seq<Seq<char>>, wanted: Seq<char>) -> Option<int> {
    place_from(items, wanted, 0)
}

/// The first place at which `wanted` stands.
pub fn position(items: &Vec<String>, wanted: &str) -> (found: Option<usize>)
    ensures
        match found {
            Some(index) => index < items.len() && place(items.deep_view(), wanted@) == Some(index as int),
            None => place(items.deep_view(), wanted@) is None,
        },
{
    let mut i: usize = 0;
    while i < items.len()
        invariant
            i <= items.len(),
            place(items.deep_view(), wanted@) == place_from(items.deep_view(), wanted@, i as int),
        decreases items.len() - i,
    {
        if *items[i].as_str() == *wanted {
            return Some(i);
        }
        i += 1;
    }
    None
}

/// A place that was found holds what was wanted, and no earlier place does;
/// where none was found, no place holds it.
pub proof fn lemma_place(items: Seq<Seq<char>>, wanted: Seq<char>, at: int)
    requires
        0 <= at <= items.len(),
    ensures
        match place_from(items, wanted, at) {
            Some(index) => at <= index < items.len() && items[index] == wanted && forall|j: int|
                at <= j < index ==> items[j] != wanted,
            None => forall|j: int| at <= j < items.len() ==> items[j] != wanted,
        },
    decreases items.len() - at,
{
    if at < items.len() && items[at] != wanted {
        lemma_place(items, wanted, at + 1);
    }
}

/// How many bytes a character takes in UTF-8.
pub open spec fn width(letter: char) -> nat {
    vstd::utf8::encode_scalar(letter as u32).len()
}

/// How many bytes a text takes in UTF-8.
pub open spec fn byte_length(text: Seq<char>) -> nat {
    vstd::utf8::encode_utf8(text).len()
}

/// How many bytes a character takes in UTF-8.
pub fn char_width(letter: char) -> (bytes: usize)
    ensures
        bytes == width(letter),
        1 <= bytes <= 4,
{
    let code = letter as u32;
    if code < 0x80 {
        1
    } else if code < 0x800 {
        2
    } else if code < 0x10000 {
        3
    } else {
        4
    }
}

/// How many bytes a text takes in UTF-8.
pub fn bytes_in(text: &str) -> (bytes: usize)
    ensures
        bytes == byte_length(text@),
{
    let bytes = text.as_bytes();
    bytes.len()
}

/// The end of the characters from `at` on that take no more bytes than there
/// is room for.
pub open spec fn fitting_end(text: Seq<char>, at: int, room: int) -> int
    decreases text.len() - at,
{
    if at < 0 || at >= text.len() || width(text[at]) > room {
        at
    } else {
        fitting_end(text, at + 1, room - width(text[at]))
    }
}

/// The longest start of a text that takes no more bytes than there is room for.
pub open spec fn fitting_prefix(text: Seq<char>, room: nat) -> Seq<char> {
    text.take(fitting_end(text, 0, room as int))
}

/// The longest start of a text that takes no more bytes than there is room for.
pub fn prefix_within(text: &str, room: usize) -> (prefix: String)
    ensures
        prefix@ == fitting_prefix(text@, room as nat),
{
    let chars = chars_of(text);
    let mut left: usize = room;
    let mut i: usize = 0;
    while i < chars.len() && char_width(chars[i]) <= left
        invariant
            i <= chars.len(),
            chars@ == text@,
            fitting_end(text@, 0, room as int) == fitting_end(text@, i as int, left as int),
        decreases chars.len() - i,
    {
        left -= char_width(chars[i]);
        i += 1;
    }
    assert(fitting_end(text@, i as int, left as int) == i);
    assert(chars@.subrange(0, i as int) =~= text@.take(i as int));
    text_range(&chars, 0, i)
}

/// A start that fits takes no more bytes than there is room for.
pub proof fn lemma_fitting(text: Seq<char>, at: int, room: int)
    requires
        0 <= at <= text.len(),
        0 <= room,
    ensures
        at <= fitting_end(text, at, room) <= text.len(),
        byte_length(text.subrange(at, fitting_end(text, at, room))) <= room,
    decreases text.len() - at,
{
    let end = fitting_end(text, at, room);
    if at < text.len() && width(text[at]) <= room {
        lemma_fitting(text, at + 1, room - width(text[at]));
        let part = text.subrange(at, end);
        assert(part.drop_first() =~= text.subrange(at + 1, end));
        assert(part[0] == text[at]);
    } else {
        assert(text.subrange(at, end) =~= Seq::empty());
    }
}

/// Two texts after one another take as many bytes as both.
pub proof fn lemma_byte_length_sum(left: Seq<char>, right: Seq<char>)
    ensures
        byte_length(left + right) == byte_length(left) + byte_length(right),
    decreases left.len(),
{
    if left.len() == 0 {
        assert(left + right =~= right);
    } else {
        lemma_byte_length_sum(left.drop_first(), right);
        assert((left + right).drop_first() =~= left.drop_first() + right);
        assert((left + right)[0] == left[0]);
    }
}

/// A character with capital letters of ASCII made small.
pub open spec fn small(letter: char) -> char {
    if 65 <= letter as int <= 90 {
        (letter as int + 32) as char
    } else {
        letter
    }
}

/// A text with capital letters of ASCII made small.
pub open spec fn lowercase(text: Seq<char>) -> Seq<char> {
    Seq::new(text.len(), |i: int| small(text[i]))
}

fn small_char(letter: char) -> (result: char)
    ensures
        result == small(letter),
{
    let code = code_point(letter);
    if 65 <= code && code <= 90 {
        (code as u8 + 32) as char
    } else {
        letter
    }
}

fn lowercase_chars(text: &str) -> (chars: Vec<char>)
    ensures
        chars@ == lowercase(text@),
{
    let given = chars_of(text);
    let mut chars: Vec<char> = Vec::new();
    let mut i: usize = 0;
    while i < given.len()
        invariant
            i <= given.len(),
            given@ == text@,
            chars.len() == i,
            forall|j: int| 0 <= j < i ==> chars@[j] == small(text@[j]),
        decreases given.len() - i,
    {
        chars.push(small_char(given[i]));
        i += 1;
    }
    assert(chars@ =~= lowercase(text@));
    chars
}

/// A text with capital letters of ASCII made small.
pub fn to_lowercase(text: &str) -> (lower: String)
    ensures
        lower@ == lowercase(text@),
{
    let chars = lowercase_chars(text);
    assert(chars@.subrange(0, chars@.len() as int) =~= chars@);
    text_range(&chars, 0, chars.len())
}

/// Whether `needle` stands in `text` at `place`.
pub open spec fn stands_at(text: Seq<char>, needle: Seq<char>, place: int) -> bool {
    0 <= place && place + needle.len() <= text.len() && text.subrange(place, place + needle.len()) == needle
}

/// Whether `needle` stands somewhere in `text`.
pub open spec fn occurs(text: Seq<char>, needle: Seq<char>) -> bool {
    exists|place: int| stands_at(text, needle, place)
}

fn chars_contain(chars: &Vec<char>, needle: &Vec<char>) -> (found: bool)
    ensures
        found == occurs(chars@, needle@),
{
    if needle.len() == 0 {
        assert(chars@.subrange(0, 0) =~= needle@);
        assert(stands_at(chars@, needle@, 0));
        return true;
    }
    if needle.len() > chars.len() {
        return false;
    }
    let last = chars.len() - needle.len();
    let mut place: usize = 0;
    while place <= last
        invariant
            needle.len() > 0,
            last + needle.len() == chars.len(),
            place <= last + 1,
            forall|earlier: int| 0 <= earlier < place ==> !stands_at(chars@, needle@, earlier),
        decreases last + 1 - place,
    {
        let mut same = true;
        let mut i: usize = 0;
        while i < needle.len() && same
            invariant
                place <= last,
                last + needle.len() == chars.len(),
                i <= needle.len(),
                same ==> forall|j: int| 0 <= j < i ==> chars@[place + j] == needle@[j],
                !same ==> !stands_at(chars@, needle@, place as int),
            decreases needle.len() - i,
        {
            if chars[place + i] != needle[i] {
                assert(chars@.subrange(place as int, place + needle@.len())[i as int] == chars@[place + i]);
                same = false;
            }
            i += 1;
        }
        if same {
            assert(chars@.subrange(place as int, place + needle@.len()) =~= needle@);
            assert(stands_at(chars@, needle@, place as int));
            return true;
        }
        place += 1;
    }
    assert forall|at: int| !stands_at(chars@, needle@, at) by {
        if 0 <= at && at < place {
        }
    }
    false
}

/// Whether one of the needles stands in a text, whatever the case of its ASCII
/// letters.
pub open spec fn mentions(text: Seq<char>, needles: Seq<Seq<char>>) -> bool {
    exists|i: int| 0 <= i < needles.len() && occurs(lowercase(text), #[trigger] needles[i])
}

/// Whether one of the needles stands in a text, whatever the case of its ASCII
/// letters.
pub fn contains_any(text: &str, needles: &[&str]) -> (found: bool)
    ensures
        found == mentions(text@, needles.deep_view()),
{
    let chars = lowercase_chars(text);
    let mut i: usize = 0;
    while i < needles.len()
        invariant
            i <= needles.len(),
            chars@ == lowercase(text@),
            forall|j: int| 0 <= j < i ==> !occurs(lowercase(text@), #[trigger] needles.deep_view()[j]),
        decreases needles.len() - i,
    {
        let needle = chars_of(needles[i]);
        if chars_contain(&chars, &needle) {
            assert(occurs(lowercase(text@), needles.deep_view()[i as int]));
            return true;
        }
        i += 1;
    }
    false
}

/// The number that decimal digits stand for, where it fits in 64 bits.
pub open spec fn digits_from(text: Seq<char>, at: int, value: nat) -> Option<u64>
    decreases text.len() - at,
{
    if at < 0 || at >= text.len() {
        if value <= u64::MAX {
            Some(value as u64)
        } else {
            None
        }
    } else if 48 <= text[at] as int <= 57 {
        digits_from(text, at + 1, (value * 10 + (text[at] as int - 48)) as nat)
    } else {
        None
    }
}

/// The whole number that a text is: decimal digits, behind a plus sign or not.
pub open spec fn whole_number(text: Seq<char>) -> Option<u64> {
    let digits = match stripped(text, "+"@) {
        Some(rest) => rest,
        None => text,
    };
    if digits.len() == 0 {
        None
    } else {
        digits_from(digits, 0, 0)
    }
}

proof fn lemma_digits_grow(text: Seq<char>, at: int, value: nat)
    requires
        value > u64::MAX,
    ensures
        digits_from(text, at, value) is None,
    decreases text.len() - at,
{
    if 0 <= at < text.len() && 48 <= text[at] as int <= 57 {
        lemma_digits_grow(text, at + 1, (value * 10 + (text[at] as int - 48)) as nat);
    }
}

/// The whole number that a text is.
pub fn parse_whole(text: &str) -> (number: Option<u64>)
    ensures
        number == whole_number(text@),
{
    let digits = match strip_prefix(text, "+") {
        Some(rest) => rest,
        None => text.to_owned(),
    };
    let chars = chars_of(&digits);
    if chars.len() == 0 {
        return None;
    }
    let mut value: u64 = 0;
    let mut i: usize = 0;
    while i < chars.len()
        invariant
            i <= chars.len(),
            chars.len() > 0,
            whole_number(text@) == digits_from(chars@, 0, 0),
            digits_from(chars@, 0, 0) == digits_from(chars@, i as int, value as nat),
        decreases chars.len() - i,
    {
        let code = code_point(chars[i]);
        if code < 48 || code > 57 {
            return None;
        }
        let digit: u64 = (code - 48) as u64;
        if value > (u64::MAX - digit) / 10 {
            proof {
                lemma_digits_grow(chars@, i + 1, (value * 10 + digit) as nat);
            }
            return None;
        }
        value = value * 10 + digit;
        i += 1;
    }
    Some(value)
}

/// Whether a character is white space.
pub open spec fn is_white(letter: char) -> bool {
    let code = letter as int;
    9 <= code <= 13 || code == 32 || code == 0x85 || code == 0xa0 || code == 0x1680 || 0x2000 <= code <= 0x200a
        || code == 0x2028 || code == 0x2029 || code == 0x202f || code == 0x205f || code == 0x3000
}

/// Whether a text is nothing but white space.
pub open spec fn all_white(text: Seq<char>) -> bool {
    forall|i: int| 0 <= i < text.len() ==> is_white(#[trigger] text[i])
}

/// Whether a character is white space.
pub fn white(letter: char) -> (found: bool)
    ensures
        found == is_white(letter),
{
    let code = code_point(letter);
    (9 <= code && code <= 13) || code == 32 || code == 0x85 || code == 0xa0 || code == 0x1680 || (0x2000 <= code
        && code <= 0x200a) || code == 0x2028 || code == 0x2029 || code == 0x202f || code == 0x205f || code == 0x3000
}

/// Whether a text is nothing but white space.
pub fn only_white(text: &str) -> (found: bool)
    ensures
        found == all_white(text@),
{
    let chars = chars_of(text);
    let mut i: usize = 0;
    while i < chars.len()
        invariant
            i <= chars.len(),
            chars@ == text@,
            forall|j: int| 0 <= j < i ==> is_white(#[trigger] text@[j]),
        decreases chars.len() - i,
    {
        if !white(chars[i]) {
            assert(!is_white(text@[i as int]));
            return false;
        }
        i += 1;
    }
    true
}

/// The text with every line break as a line feed: a carriage return counts as
/// one, alone or before a line feed.
pub open spec fn with_line_feeds(text: Seq<char>, at: int, done: Seq<char>) -> Seq<char>
    decreases text.len() - at,
{
    if at < 0 || at >= text.len() {
        done
    } else if text[at] == '\r' {
        if at + 1 < text.len() && text[at + 1] == '\n' {
            with_line_feeds(text, at + 2, done.push('\n'))
        } else {
            with_line_feeds(text, at + 1, done.push('\n'))
        }
    } else {
        with_line_feeds(text, at + 1, done.push(text[at]))
    }
}

/// The lines of a text from `at` on behind those that are done; `line` holds
/// what there is of the current one.
pub open spec fn lines_from(text: Seq<char>, at: int, line: Seq<char>, done: Seq<Seq<char>>) -> Seq<Seq<char>>
    decreases text.len() - at,
{
    if at < 0 || at >= text.len() {
        done.push(line)
    } else if text[at] == '\n' {
        lines_from(text, at + 1, Seq::empty(), done.push(line))
    } else {
        lines_from(text, at + 1, line.push(text[at]), done)
    }
}

/// The lines of a text, with line breaks of any kind between them.
pub open spec fn all_lines(text: Seq<char>) -> Seq<Seq<char>> {
    lines_from(with_line_feeds(text, 0, Seq::empty()), 0, Seq::empty(), Seq::empty())
}

fn feed_lines(text: &str) -> (chars: Vec<char>)
    ensures
        chars@ == with_line_feeds(text@, 0, Seq::empty()),
{
    let given = chars_of(text);
    let mut chars: Vec<char> = Vec::new();
    let mut i: usize = 0;
    assert(chars@ =~= Seq::<char>::empty());
    while i < given.len()
        invariant
            i <= given.len(),
            given@ == text@,
            with_line_feeds(text@, 0, Seq::empty()) == with_line_feeds(text@, i as int, chars@),
        decreases given.len() - i,
    {
        if given[i] == '\r' {
            chars.push('\n');
            if i + 1 < given.len() && given[i + 1] == '\n' {
                i += 1;
            }
        } else {
            chars.push(given[i]);
        }
        i += 1;
    }
    chars
}

/// The lines of a text, with line breaks of any kind between them.
pub fn split_lines(text: &str) -> (lines: Vec<String>)
    ensures
        lines.deep_view() == all_lines(text@),
{
    let chars = feed_lines(text);
    let mut lines: Vec<String> = no_items();
    let mut line: String = String::new();
    let mut i: usize = 0;
    while i < chars.len()
        invariant
            i <= chars.len(),
            lines_from(chars@, 0, Seq::empty(), Seq::empty()) == lines_from(
                chars@,
                i as int,
                line@,
                lines.deep_view(),
            ),
        decreases chars.len() - i,
    {
        if chars[i] == '\n' {
            push_item(&mut lines, line);
            line = String::new();
        } else {
            line.push(chars[i]);
        }
        i += 1;
    }
    push_item(&mut lines, line);
    lines
}

/// The digit for a value below ten.
pub open spec fn digit(value: nat) -> char {
    (('0' as u32) + value) as char
}

/// The decimal digits of a number.
pub open spec fn decimal(value: nat) -> Seq<char>
    decreases value,
{
    if value < 10 {
        seq![digit(value)]
    } else {
        decimal(value / 10).push(digit(value % 10))
    }
}

fn digit_char(value: u64) -> (letter: char)
    requires
        value < 10,
    ensures
        letter == digit(value as nat),
{
    (48u8 + value as u8) as char
}

/// The decimal digits of a number, behind a sign where it is negative.
pub open spec fn signed_decimal(value: int) -> Seq<char> {
    if value < 0 {
        "-"@ + decimal((0 - value) as nat)
    } else {
        decimal(value as nat)
    }
}

/// The decimal digits of a number, behind a sign where it is negative.
pub fn signed_text(value: i64) -> (text: String)
    ensures
        text@ == signed_decimal(value as int),
{
    if value == i64::MIN {
        proof {
            assert(9223372036854775808 == 0 - i64::MIN);
        }
        concat("-", &decimal_text(9223372036854775808))
    } else if value < 0 {
        concat("-", &decimal_text((0 - value) as u64))
    } else {
        decimal_text(value as u64)
    }
}

/// The decimal digits of a number.
pub fn decimal_text(value: u64) -> (text: String)
    ensures
        text@ == decimal(value as nat),
    decreases value,
{
    if value < 10 {
        let mut text: String = String::new();
        text.push(digit_char(value));
        assert(text@ =~= seq![digit(value as nat)]);
        text
    } else {
        let mut text = decimal_text(value / 10);
        text.push(digit_char(value % 10));
        text
    }
}

/// Two numbers have two texts.
pub proof fn lemma_decimal_distinct(left: nat, right: nat)
    ensures
        decimal(left) == decimal(right) ==> left == right,
    decreases left,
{
    if decimal(left) == decimal(right) {
        assert(decimal(left).last() == digit(left % 10));
        assert(decimal(right).last() == digit(right % 10));
        assert(left % 10 == right % 10);
        if left >= 10 {
            assert(decimal(left).drop_last() =~= decimal(left / 10));
            lemma_decimal_some(left / 10);
            if right >= 10 {
                assert(decimal(right).drop_last() =~= decimal(right / 10));
                lemma_decimal_distinct(left / 10, right / 10);
            }
        } else if right >= 10 {
            lemma_decimal_some(right / 10);
        }
    }
}

proof fn lemma_decimal_some(value: nat)
    ensures
        decimal(value).len() > 0,
{
}

spec fn value_from(text: Seq<char>, at: int, value: nat) -> nat
    decreases text.len() - at,
{
    if at < 0 || at >= text.len() {
        value
    } else {
        value_from(text, at + 1, (value * 10 + (text[at] as int - 48)) as nat)
    }
}

spec fn all_digits(text: Seq<char>) -> bool {
    forall|i: int| 0 <= i < text.len() ==> 48 <= (#[trigger] text[i]) as int <= 57
}

proof fn lemma_value(text: Seq<char>, at: int, value: nat)
    requires
        0 <= at <= text.len(),
        all_digits(text),
    ensures
        digits_from(text, at, value) == if value_from(text, at, value) <= u64::MAX {
            Some(value_from(text, at, value) as u64)
        } else {
            None
        },
    decreases text.len() - at,
{
    if at < text.len() {
        assert(48 <= text[at] as int <= 57);
        lemma_value(text, at + 1, (value * 10 + (text[at] as int - 48)) as nat);
    }
}

proof fn lemma_value_push(text: Seq<char>, letter: char, at: int, value: nat)
    requires
        0 <= at <= text.len(),
        48 <= letter as int <= 57,
    ensures
        value_from(text.push(letter), at, value) == value_from(text, at, value) * 10 + (letter as int - 48),
    decreases text.len() - at,
{
    let all = text.push(letter);
    if at < text.len() {
        assert(all[at] == text[at]);
        lemma_value_push(text, letter, at + 1, (value * 10 + (text[at] as int - 48)) as nat);
    } else {
        reveal_with_fuel(value_from, 2);
        assert(all[at] == letter);
    }
}

proof fn lemma_decimal_value(value: nat)
    ensures
        all_digits(decimal(value)),
        value_from(decimal(value), 0, 0) == value,
        decimal(value).len() > 0,
    decreases value,
{
    if value < 10 {
        reveal_with_fuel(value_from, 2);
        assert(decimal(value)[0] == digit(value));
    } else {
        lemma_decimal_value(value / 10);
        lemma_value_push(decimal(value / 10), digit(value % 10), 0, 0);
        let all = decimal(value);
        assert forall|i: int| 0 <= i < all.len() implies 48 <= (#[trigger] all[i]) as int <= 57 by {
            if i < all.len() - 1 {
                assert(all[i] == decimal(value / 10)[i]);
            }
        }
    }
}

/// A number that is written down is read back, with a sign before it or without.
pub proof fn law_numbers_are_read_back(value: u64)
    ensures
        whole_number(decimal(value as nat)) == Some(value),
        whole_number("+"@ + decimal(value as nat)) == Some(value),
{
    let text = decimal(value as nat);
    lemma_decimal_value(value as nat);
    lemma_value(text, 0, 0);
    reveal_strlit("+");
    assert(48 <= text[0] as int <= 57);
    assert(!begins_with(text, "+"@)) by {
        if begins_with(text, "+"@) {
            assert(text.take(1)[0] == text[0]);
            assert("+"@[0] == '+');
        }
    }
    let marked = "+"@ + text;
    assert(marked.take(1) =~= "+"@);
    assert(marked.skip(1) =~= text);
}

/// A text that is empty or holds anything but digits behind a sign is no number.
pub proof fn law_only_digits_are_numbers(text: Seq<char>, place: int)
    requires
        0 <= place < text.len(),
        !(48 <= text[place] as int <= 57),
        !(place == 0 && text[0] == '+'),
    ensures
        whole_number(text) is None,
        whole_number(Seq::empty()) is None,
        whole_number("+"@) is None,
{
    reveal_strlit("+");
    assert("+"@.take(1) =~= "+"@);
    assert("+"@.skip(1).len() == 0);
    if begins_with(text, "+"@) {
        assert(text.take(1)[0] == text[0]);
        assert("+"@[0] == '+');
        let rest = text.skip(1);
        assert(rest[place - 1] == text[place]);
        lemma_no_number(rest, 0, place - 1, 0);
    } else {
        lemma_no_number(text, 0, place, 0);
    }
}

proof fn lemma_no_number(text: Seq<char>, at: int, place: int, value: nat)
    requires
        0 <= at <= place < text.len(),
        !(48 <= text[place] as int <= 57),
    ensures
        digits_from(text, at, value) is None,
    decreases text.len() - at,
{
    if at < place && 48 <= text[at] as int <= 57 {
        lemma_no_number(text, at + 1, place, (value * 10 + (text[at] as int - 48)) as nat);
    }
}

/// What occurs in a text occurs in every longer one.
pub proof fn lemma_occurs_longer(before: Seq<char>, text: Seq<char>, behind: Seq<char>)
    ensures
        forall|needle: Seq<char>| occurs(text, needle) ==> #[trigger] occurs(before + text + behind, needle),
        forall|needle: Seq<char>| occurs(text, needle) ==> #[trigger] occurs(text + behind, needle),
        forall|needle: Seq<char>| occurs(text, needle) ==> #[trigger] occurs(before + text, needle),
{
    assert forall|needle: Seq<char>| occurs(text, needle) implies #[trigger] occurs(before + text + behind, needle) by {
        let place = choose|place: int| stands_at(text, needle, place);
        let all = before + text + behind;
        let there = before.len() + place;
        assert(all.subrange(there, there + needle.len()) =~= text.subrange(place, place + needle.len()));
        assert(stands_at(all, needle, there));
    }
    assert forall|needle: Seq<char>| occurs(text, needle) implies #[trigger] occurs(text + behind, needle) by {
        let place = choose|place: int| stands_at(text, needle, place);
        assert((text + behind).subrange(place, place + needle.len()) =~= text.subrange(place, place + needle.len()));
        assert(stands_at(text + behind, needle, place));
    }
    assert forall|needle: Seq<char>| occurs(text, needle) implies #[trigger] occurs(before + text, needle) by {
        let place = choose|place: int| stands_at(text, needle, place);
        let there = before.len() + place;
        assert((before + text).subrange(there, there + needle.len()) =~= text.subrange(place, place + needle.len()));
        assert(stands_at(before + text, needle, there));
    }
}

/// A text occurs in itself.
pub proof fn lemma_occurs_itself(text: Seq<char>)
    ensures
        occurs(text, text),
{
    assert(text.subrange(0, text.len() as int) =~= text);
    assert(stands_at(text, text, 0));
}

/// Lines are joined with a line feed between each two.
pub proof fn law_lines_are_joined(lines: Seq<Seq<char>>, more: Seq<char>)
    ensures
        lines.len() > 0 ==> joined(lines.push(more)) == joined(lines) + "\n"@ + more,
        lines.len() == 0 ==> joined(lines.push(more)) == more,
        joined(Seq::empty()) == Seq::<char>::empty(),
{
    assert(lines.push(more).drop_last() =~= lines);
}

} // verus!
