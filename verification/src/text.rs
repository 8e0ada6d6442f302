//! Small helpers on text.

use vstd::prelude::*;

verus! {

/// Whether two texts hold the same characters.
pub fn str_eq(a: &str, b: &str) -> (r: bool)
    ensures
        r == (a@ == b@),
{
    let left = a.to_owned();
    let right = b.to_owned();
    left == right
}

/// `prefix` followed by `detail`.
pub fn prefixed(prefix: &str, detail: &str) -> (r: String)
    ensures
        r@ == prefix@ + detail@,
{
    let mut text = String::from_str(prefix);
    text.append(detail);
    text
}

/// Adds `item` at the end of `list`.
pub fn push_deep<T: DeepView>(list: &mut Vec<T>, item: T)
    ensures
        final(list).deep_view() == old(list).deep_view().push(item.deep_view()),
        final(list)@ == old(list)@.push(item),
{
    list.push(item);
    assert(list.deep_view() =~= old(list).deep_view().push(item.deep_view()));
}

/// Moves the items of `more` to the end of `list`, in order.
pub fn append_deep<T: DeepView>(list: &mut Vec<T>, more: Vec<T>)
    ensures
        final(list).deep_view() == old(list).deep_view() + more.deep_view(),
        final(list)@ == old(list)@ + more@,
{
    let mut rest = more;
    list.append(&mut rest);
    assert(list.deep_view() =~= old(list).deep_view() + more.deep_view());
}

/// The character of a decimal digit.
pub open spec fn digit_char(d: int) -> char {
    if d == 0 {
        '0'
    } else if d == 1 {
        '1'
    } else if d == 2 {
        '2'
    } else if d == 3 {
        '3'
    } else if d == 4 {
        '4'
    } else if d == 5 {
        '5'
    } else if d == 6 {
        '6'
    } else if d == 7 {
        '7'
    } else if d == 8 {
        '8'
    } else {
        '9'
    }
}

/// The decimal spelling of a number, without sign and without leading zeros.
pub open spec fn decimal(n: nat) -> Seq<char>
    decreases n,
{
    if n < 10 {
        seq![digit_char(n as int)]
    } else {
        decimal(n / 10).push(digit_char((n % 10) as int))
    }
}

fn digit(d: u64) -> (c: char)
    requires
        d < 10,
    ensures
        c == digit_char(d as int),
{
    if d == 0 {
        '0'
    } else if d == 1 {
        '1'
    } else if d == 2 {
        '2'
    } else if d == 3 {
        '3'
    } else if d == 4 {
        '4'
    } else if d == 5 {
        '5'
    } else if d == 6 {
        '6'
    } else if d == 7 {
        '7'
    } else if d == 8 {
        '8'
    } else {
        '9'
    }
}

/// The text made of the characters of `chars`, in order.
pub fn string_of_chars(chars: &Vec<char>) -> (r: String)
    ensures
        r@ == chars@,
{
    let mut text = String::new();
    let mut i: usize = 0;
    while i < chars.len()
        invariant
            i <= chars.len(),
            text@ == chars@.subrange(0, i as int),
        decreases chars.len() - i,
    {
        push_char(&mut text, chars[i]);
        assert(chars@.subrange(0, i + 1) =~= chars@.subrange(0, i as int).push(chars@[i as int]));
        i += 1;
    }
    assert(chars@.subrange(0, chars.len() as int) =~= chars@);
    text
}

/// `String::push`: adds one character at the end of the text.
#[verifier::external_body]
pub(crate) fn push_char(text: &mut String, c: char)
    ensures
        final(text)@ == old(text)@.push(c),
{
    text.push(c);
}

/// The decimal spelling of `n`.
pub fn decimal_string(n: u64) -> (r: String)
    ensures
        r@ == decimal(n as nat),
{
    let mut digits: Vec<char> = Vec::new();
    let mut rest = n;
    // the digits from the last to the first
    while rest >= 10
        invariant
            decimal(n as nat) == decimal(rest as nat) + digits@.reverse(),
        decreases rest,
    {
        let c = digit(rest % 10);
        let ghost before = digits@;
        digits.push(c);
        assert(digits@.reverse() =~= seq![c] + before.reverse());
        assert(decimal(rest as nat) == decimal((rest / 10) as nat).push(c));
        assert(decimal((rest / 10) as nat).push(c) + before.reverse() =~= decimal(
            (rest / 10) as nat,
        ) + (seq![c] + before.reverse()));
        rest = rest / 10;
    }
    let c = digit(rest);
    let ghost before = digits@;
    digits.push(c);
    assert(digits@.reverse() =~= seq![c] + before.reverse());
    let mut ordered: Vec<char> = Vec::new();
    let mut i: usize = digits.len();
    while i > 0
        invariant
            i <= digits.len(),
            ordered@ == digits@.reverse().subrange(0, digits.len() - i),
        decreases i,
    {
        i -= 1;
        ordered.push(digits[i]);
        assert(digits@.reverse().subrange(0, digits.len() - i) =~= digits@.reverse().subrange(
            0,
            digits.len() - i - 1,
        ).push(digits@[i as int]));
    }
    assert(digits@.reverse().subrange(0, digits.len() as int) =~= digits@.reverse());
    string_of_chars(&ordered)
}

/// Whether no key occurs twice among the entries: the list stands for a
/// map.
pub open spec fn distinct_keys<V>(entries: Seq<(String, V)>) -> bool {
    forall|i: int, j: int|
        0 <= i < j < entries.len() ==> (#[trigger] entries[i]).0@ != (#[trigger] entries[j]).0@
}

/// The position of the first entry under `key`, if there is one.
pub open spec fn key_position<V>(entries: Seq<(String, V)>, key: Seq<char>) -> Option<int>
    decreases entries.len(),
{
    if entries.len() == 0 {
        None
    } else if entries[0].0@ == key {
        Some(0)
    } else {
        match key_position(entries.skip(1), key) {
            Some(i) => Some(i + 1),
            None => None,
        }
    }
}

/// `key_position` finds an entry under the key, and none stands before it.
pub proof fn lemma_key_position<V>(entries: Seq<(String, V)>, key: Seq<char>)
    ensures
        match key_position(entries, key) {
            Some(i) => 0 <= i < entries.len() && entries[i].0@ == key && forall|j: int|
                0 <= j < i ==> entries[j].0@ != key,
            None => forall|j: int| 0 <= j < entries.len() ==> entries[j].0@ != key,
        },
    decreases entries.len(),
{
    if entries.len() > 0 && entries[0].0@ != key {
        let rest = entries.skip(1);
        lemma_key_position(rest, key);
        match key_position(rest, key) {
            Some(i) => {
                assert forall|j: int| 0 <= j < i + 1 implies entries[j].0@ != key by {
                    if j > 0 {
                        assert(rest[j - 1] == entries[j]);
                    }
                }
            },
            None => {
                assert forall|j: int| 0 <= j < entries.len() implies entries[j].0@ != key by {
                    if j > 0 {
                        assert(rest[j - 1] == entries[j]);
                    }
                }
            },
        }
    }
}

/// The position of the first entry under `key`.
pub fn find_key<V>(entries: &Vec<(String, V)>, key: &str) -> (r: Option<usize>)
    ensures
        match key_position(entries@, key@) {
            Some(i) => r is Some && r->Some_0 as int == i && 0 <= i < entries.len(),
            None => r is None,
        },
{
    let wanted = key.to_owned();
    let mut i: usize = 0;
    while i < entries.len()
        invariant
            i <= entries.len(),
            wanted@ == key@,
            forall|j: int| 0 <= j < i ==> entries@[j].0@ != key@,
        decreases entries.len() - i,
    {
        if entries[i].0 == wanted {
            proof {
                lemma_key_position(entries@, key@);
            }
            return Some(i);
        }
        i += 1;
    }
    proof {
        lemma_key_position(entries@, key@);
    }
    None
}

/// The position of the first line feed of the text, or its length where
/// it has none.
pub open spec fn first_line_feed(s: Seq<char>) -> int
    decreases s.len(),
{
    if s.len() == 0 {
        0
    } else if s[0] == '\n' {
        0
    } else {
        1 + first_line_feed(s.skip(1))
    }
}

/// The first line of the text, without its line ending: a line feed, or
/// a carriage return followed by a line feed.
pub open spec fn first_line_of(s: Seq<char>) -> Seq<char> {
    let end = first_line_feed(s);
    if 0 < end < s.len() && s[end - 1] == '\r' {
        s.subrange(0, end - 1)
    } else {
        s.subrange(0, end)
    }
}

/// `first_line_feed` stays within the text and finds the first line feed.
pub proof fn lemma_first_line_feed(s: Seq<char>)
    ensures
        0 <= first_line_feed(s) <= s.len(),
        first_line_feed(s) < s.len() ==> s[first_line_feed(s)] == '\n',
        forall|j: int| 0 <= j < first_line_feed(s) ==> s[j] != '\n',
    decreases s.len(),
{
    if s.len() > 0 && s[0] != '\n' {
        let rest = s.skip(1);
        lemma_first_line_feed(rest);
        assert forall|j: int| 0 <= j < first_line_feed(s) implies s[j] != '\n' by {
            if j > 0 {
                assert(rest[j - 1] == s[j]);
            }
        }
    }
}

/// The first line of the text, without its line ending.
pub fn first_line(s: &str) -> (r: &str)
    ensures
        r@ == first_line_of(s@),
{
    let n = s.unicode_len();
    let mut i: usize = 0;
    while i < n && s.get_char(i) != '\n'
        invariant
            i <= n,
            n == s@.len(),
            forall|j: int| 0 <= j < i ==> s@[j] != '\n',
        decreases n - i,
    {
        i += 1;
    }
    proof {
        lemma_first_line_feed(s@);
        let e = first_line_feed(s@);
        if e < i {
            assert(s@[e] == '\n');
        }
        if i < e {
            assert(s@[i as int] != '\n');
        }
        assert(e == i);
    }
    if i > 0 && i < n && s.get_char(i - 1) == '\r' {
        s.substring_char(0, i - 1)
    } else {
        s.substring_char(0, i)
    }
}

/// The lines of the text, without their line endings. A line ends with a
/// line feed, or with a carriage return and a line feed; the last line
/// needs no ending, and an empty text has no line.
pub open spec fn lines_of(s: Seq<char>) -> Seq<Seq<char>>
    decreases s.len(),
{
    if s.len() == 0 {
        Seq::empty()
    } else {
        let end = first_line_feed(s);
        if 0 <= end < s.len() {
            seq![first_line_of(s)] + lines_of(s.skip(end + 1))
        } else {
            seq![first_line_of(s)]
        }
    }
}

/// The lines of the text, without their line endings.
pub fn split_lines(s: &str) -> (r: Vec<String>)
    ensures
        r.deep_view() == lines_of(s@),
{
    let mut out: Vec<String> = Vec::new();
    let mut rest: &str = s;
    assert(out.deep_view() =~= Seq::empty());
    loop
        invariant
            lines_of(s@) == out.deep_view() + lines_of(rest@),
        decreases rest@.len(),
    {
        let n = rest.unicode_len();
        if n == 0 {
            assert(out.deep_view() + lines_of(rest@) =~= out.deep_view());
            return out;
        }
        let line = first_line(rest);
        let mut i: usize = 0;
        while i < n && rest.get_char(i) != '\n'
            invariant
                i <= n,
                n == rest@.len(),
                forall|j: int| 0 <= j < i ==> rest@[j] != '\n',
            decreases n - i,
        {
            i += 1;
        }
        proof {
            lemma_first_line_feed(rest@);
            let e = first_line_feed(rest@);
            if e < i {
                assert(rest@[e] == '\n');
            }
            if i < e {
                assert(rest@[i as int] != '\n');
            }
            assert(e == i);
        }
        let ghost before = out.deep_view();
        let ghost whole = rest@;
        push_deep(&mut out, line.to_owned());
        if i < n {
            rest = rest.substring_char(i + 1, n);
            assert(rest@ =~= whole.skip(i + 1));
            assert(out.deep_view() + lines_of(rest@) =~= before + lines_of(whole));
        } else {
            assert(out.deep_view() =~= before + lines_of(whole));
            return out;
        }
    }
}

/// The white space characters of Unicode.
pub open spec fn white_space(c: char) -> bool {
    let n = c as u32;
    (0x09 <= n <= 0x0d) || n == 0x20 || n == 0x85 || n == 0xa0 || n == 0x1680 || (0x2000 <= n
        <= 0x200a) || n == 0x2028 || n == 0x2029 || n == 0x202f || n == 0x205f || n == 0x3000
}

/// Whether the character is white space.
pub fn is_white_space(c: char) -> (r: bool)
    ensures
        r == white_space(c),
{
    let n = c as u32;
    (0x09 <= n && n <= 0x0d) || n == 0x20 || n == 0x85 || n == 0xa0 || n == 0x1680 || (0x2000 <= n
        && n <= 0x200a) || n == 0x2028 || n == 0x2029 || n == 0x202f || n == 0x205f || n == 0x3000
}

/// Whether the text holds nothing but white space.
pub open spec fn blank(s: Seq<char>) -> bool {
    forall|i: int| 0 <= i < s.len() ==> white_space(#[trigger] s[i])
}

/// Whether the text holds nothing but white space.
pub fn is_blank(s: &str) -> (r: bool)
    ensures
        r == blank(s@),
{
    let n = s.unicode_len();
    let mut i: usize = 0;
    while i < n
        invariant
            i <= n,
            n == s@.len(),
            forall|j: int| 0 <= j < i ==> white_space(#[trigger] s@[j]),
        decreases n - i,
    {
        if !is_white_space(s.get_char(i)) {
            return false;
        }
        i += 1;
    }
    true
}

/// The texts joined by line feeds.
pub open spec fn joined_lines(texts: Seq<Seq<char>>) -> Seq<char>
    decreases texts.len(),
{
    if texts.len() == 0 {
        Seq::empty()
    } else if texts.len() == 1 {
        texts[0]
    } else {
        joined_lines(texts.drop_last()) + "\n"@ + texts.last()
    }
}

/// The texts from `from` on, joined by line feeds; nothing where there
/// are not so many texts.
pub fn join_lines_from(texts: &Vec<String>, from: usize) -> (r: String)
    ensures
        from <= texts.len() ==> r@ == joined_lines(texts.deep_view().skip(from as int)),
        from > texts.len() ==> r@ == Seq::<char>::empty(),
{
    if from > texts.len() {
        return String::new();
    }
    let ghost all = texts.deep_view().skip(from as int);
    let mut out = String::new();
    let mut i: usize = from;
    assert(all.subrange(0, 0) =~= Seq::empty());
    while i < texts.len()
        invariant
            from <= i <= texts.len(),
            all == texts.deep_view().skip(from as int),
            out@ == joined_lines(all.subrange(0, i - from)),
        decreases texts.len() - i,
    {
        let ghost before = all.subrange(0, i - from);
        let ghost after = all.subrange(0, i - from + 1);
        assert(after.drop_last() =~= before);
        assert(after.last() == texts@[i as int]@);
        if i > from {
            out.append("\n");
        }
        out.append(texts[i].as_str());
        proof {
            if i == from {
                assert(out@ =~= texts@[i as int]@);
            }
        }
        i += 1;
    }
    assert(all.subrange(0, texts.len() - from) =~= all);
    out
}

/// Every match of `from` in the text replaced by `to`, the matches
/// taken from left to right and never overlapping.
pub open spec fn replace_all(s: Seq<char>, from: Seq<char>, to: Seq<char>) -> Seq<char>
    decreases s.len(),
{
    if from.len() == 0 || s.len() < from.len() {
        s
    } else if s.subrange(0, from.len() as int) == from {
        to + replace_all(s.skip(from.len() as int), from, to)
    } else {
        seq![s[0]] + replace_all(s.skip(1), from, to)
    }
}

/// `str::replace` with a pattern that is not empty: every match of
/// `from`, taken from left to right and never overlapping, is replaced by
/// `to`.
#[verifier::external_body]
pub(crate) fn str_replace(s: &str, from: &str, to: &str) -> (r: String)
    requires
        from@.len() > 0,
    ensures
        r@ == replace_all(s@, from@, to@),
{
    s.replace(from, to)
}

/// The upper case of a character, as `char::to_uppercase` gives it: one
/// character or several.
pub uninterp spec fn upper_case(c: char) -> Seq<char>;

/// `char::to_uppercase`, collected into a text; the result is named by
/// `upper_case`.
#[verifier::external_body]
pub(crate) fn to_upper_case(c: char) -> (r: String)
    ensures
        r@ == upper_case(c),
{
    c.to_uppercase().collect()
}

} // verus!
