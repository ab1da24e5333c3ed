//! Text as sequences of characters: the few string operations that the SQL
//! generators are made of.

use vstd::prelude::*;
use vstd::utf8::encode_utf8;

verus! {

/// The mathematical content of a string.
pub type Text = Seq<char>;

/// `String::push` appends one character at the end of the string.
pub assume_specification[ std::string::String::push ](s: &mut std::string::String, ch: char)
    ensures
        final(s)@ == old(s)@.push(ch),
;

/// `name` with `suffix` behind it.
pub fn suffixed(name: &str, suffix: &str) -> (r: String)
    ensures
        r@ == name@ + suffix@,
{
    let mut r = name.to_string();
    r.append(suffix);
    r
}

/// The three parts, one after the other.
pub fn enclose(open: &str, inner: &str, close: &str) -> (r: String)
    ensures
        r@ == open@ + inner@ + close@,
{
    let mut r = open.to_string();
    r.append(inner);
    r.append(close);
    r
}

/// Whether two strings hold the same characters.
pub fn same_text(a: &str, b: &str) -> (same: bool)
    ensures
        same == (a@ == b@),
{
    let x = a.as_bytes();
    let y = b.as_bytes();
    proof {
        vstd::utf8::encode_utf8_decode_utf8(a@);
        vstd::utf8::encode_utf8_decode_utf8(b@);
    }
    if x.len() != y.len() {
        return false;
    }
    let mut i: usize = 0;
    while i < x.len()
        invariant
            i <= x@.len(),
            x@.len() == y@.len(),
            x@ == encode_utf8(a@),
            y@ == encode_utf8(b@),
            forall|j: int| 0 <= j < i ==> x@[j] == y@[j],
        decreases x@.len() - i,
    {
        if x[i] != y[i] {
            return false;
        }
        i += 1;
    }
    assert(x@ =~= y@);
    true
}

/// The characters of a string, in order.
pub fn characters(s: &str) -> (chars: Vec<char>)
    ensures
        chars@ == s@,
{
    let mut chars: Vec<char> = Vec::new();
    for c in it: s.chars()
        invariant
            chars@ == it.seq().take(it.index()),
            it.seq() == s@,
    {
        chars.push(c);
    }
    assert(chars@ =~= s@);
    chars
}

/// The string made of `chars[from..to]`.
pub fn from_characters(chars: &Vec<char>, from: usize, to: usize) -> (s: String)
    requires
        from <= to <= chars@.len(),
    ensures
        s@ == chars@.subrange(from as int, to as int),
{
    let mut s = String::new();
    let mut i: usize = from;
    while i < to
        invariant
            from <= i <= to <= chars@.len(),
            s@ == chars@.subrange(from as int, i as int),
        decreases to - i,
    {
        s.push(chars[i]);
        i += 1;
        assert(s@ =~= chars@.subrange(from as int, i as int));
    }
    s
}

/// `s` with every `target` exchanged for `with`.
pub open spec fn replaced(s: Text, target: char, with: Text) -> Text
    decreases s.len(),
{
    if s.len() == 0 {
        s
    } else {
        replaced(s.drop_last(), target, with) + if s.last() == target {
            with
        } else {
            seq![s.last()]
        }
    }
}

/// Exchanges every `target` in `s` for `with`.
pub fn replace_char(s: &str, target: char, with: &str) -> (r: String)
    ensures
        r@ == replaced(s@, target, with@),
{
    let chars = characters(s);
    let mut r = String::new();
    let mut i: usize = 0;
    assert(r@ =~= replaced(chars@.take(0), target, with@));
    while i < chars.len()
        invariant
            i <= chars@.len(),
            r@ == replaced(chars@.take(i as int), target, with@),
        decreases chars@.len() - i,
    {
        if chars[i] == target {
            r.append(with);
        } else {
            r.push(chars[i]);
        }
        i += 1;
        assert(chars@.take(i as int).drop_last() =~= chars@.take(i - 1));
        assert(r@ =~= replaced(chars@.take(i as int), target, with@));
    }
    assert(chars@.take(i as int) =~= s@);
    r
}

/// The parts in order, with `separator` between neighbours.
pub open spec fn joined(parts: Seq<Text>, separator: Text) -> Text
    decreases parts.len(),
{
    if parts.len() == 0 {
        Seq::empty()
    } else if parts.len() == 1 {
        parts[0]
    } else {
        joined(parts.drop_last(), separator) + separator + parts.last()
    }
}

/// Joins the parts with `separator`.
pub fn join(parts: &Vec<String>, separator: &str) -> (r: String)
    ensures
        r@ == joined(parts.deep_view(), separator@),
{
    let ghost all = parts.deep_view();
    let mut r = String::new();
    let mut i: usize = 0;
    assert(r@ =~= joined(all.take(0), separator@));
    while i < parts.len()
        invariant
            i <= parts@.len(),
            all == parts.deep_view(),
            r@ == joined(all.take(i as int), separator@),
        decreases parts@.len() - i,
    {
        if i > 0 {
            r.append(separator);
        }
        r.append(parts[i].as_str());
        i += 1;
        assert(all.take(i as int).drop_last() =~= all.take(i - 1));
        assert(r@ =~= joined(all.take(i as int), separator@));
    }
    assert(all.take(i as int) =~= all);
    r
}

/// How many characters of `s` stand before the first `c` (all of them, where
/// there is none).
pub open spec fn prefix_length(s: Text, c: char) -> nat
    decreases s.len(),
{
    if s.len() == 0 || s[0] == c {
        0
    } else {
        1 + prefix_length(s.drop_first(), c)
    }
}

/// The prefix before the first `c` is within the text, holds no `c`, and is
/// followed by `c` unless it is the whole text.
pub proof fn lemma_prefix_length(s: Text, c: char)
    ensures
        prefix_length(s, c) <= s.len(),
        forall|i: int| 0 <= i < prefix_length(s, c) ==> s[i] != c,
        prefix_length(s, c) < s.len() ==> s[prefix_length(s, c) as int] == c,
    decreases s.len(),
{
    if s.len() > 0 && s[0] != c {
        lemma_prefix_length(s.drop_first(), c);
        assert forall|i: int| 0 <= i < prefix_length(s, c) implies s[i] != c by {
            if i > 0 {
                assert(s.drop_first()[i - 1] != c);
            }
        }
    }
}

/// A position that holds `c` after a run without `c` is where the prefix ends.
pub proof fn lemma_prefix_length_is(s: Text, c: char, n: int)
    requires
        0 <= n <= s.len(),
        forall|i: int| 0 <= i < n ==> s[i] != c,
        n < s.len() ==> s[n] == c,
    ensures
        prefix_length(s, c) == n,
{
    lemma_prefix_length(s, c);
    if prefix_length(s, c) < n {
        assert(s[prefix_length(s, c) as int] != c);
    }
}

/// The position of the first `c` at or after `from`, or the length.
fn find_from(chars: &Vec<char>, c: char, from: usize) -> (at: usize)
    requires
        from <= chars@.len(),
    ensures
        from <= at <= chars@.len(),
        at - from == prefix_length(chars@.skip(from as int), c),
{
    let mut i: usize = from;
    while i < chars.len() && chars[i] != c
        invariant
            from <= i <= chars@.len(),
            forall|j: int| from <= j < i ==> chars@[j] != c,
        decreases chars@.len() - i,
    {
        i += 1;
    }
    proof {
        lemma_prefix_length_is(chars@.skip(from as int), c, i - from);
    }
    i
}

/// Whether a member reference names its view, as `view.member` does.
pub open spec fn is_qualified(member: Text) -> bool {
    prefix_length(member, '.') < member.len()
}

/// The view that a qualified member names: what stands before the first dot.
pub open spec fn member_view(member: Text) -> Text {
    member.take(prefix_length(member, '.') as int)
}

/// The bare name of a member: what stands between the first dot and the next,
/// or the whole reference where it has no dot.
pub open spec fn member_name(member: Text) -> Text {
    if is_qualified(member) {
        let rest = member.skip(prefix_length(member, '.') as int + 1);
        rest.take(prefix_length(rest, '.') as int)
    } else {
        member
    }
}

/// The bare name of a member reference.
pub fn name_of_member(member: &str) -> (name: String)
    ensures
        name@ == member_name(member@),
{
    let chars = characters(member);
    let dot = find_from(&chars, '.', 0);
    assert(chars@.skip(0) =~= member@);
    if dot < chars.len() {
        let end = find_from(&chars, '.', dot + 1);
        proof {
            let rest = member@.skip(dot + 1);
            lemma_prefix_length(rest, '.');
            assert(chars@.subrange(dot + 1, end as int) =~= rest.take(end - dot - 1));
        }
        from_characters(&chars, dot + 1, end)
    } else {
        member.to_string()
    }
}

/// The view that a member reference names, if it names one.
pub fn view_of_member(member: &str) -> (view: Option<String>)
    ensures
        view.deep_view() == if is_qualified(member@) {
            Some(member_view(member@))
        } else {
            None
        },
{
    let chars = characters(member);
    let dot = find_from(&chars, '.', 0);
    assert(chars@.skip(0) =~= member@);
    if dot < chars.len() {
        assert(chars@.subrange(0, dot as int) =~= member_view(member@));
        Some(from_characters(&chars, 0, dot))
    } else {
        None
    }
}

/// Puts a string at the end of a list.
pub fn push_text(list: &mut Vec<String>, s: String)
    ensures
        final(list).deep_view() == old(list).deep_view().push(s@),
{
    list.push(s);
    assert(list.deep_view() =~= old(list).deep_view().push(s@));
}

/// A copy of a list of strings.
pub fn copy_texts(list: &Vec<String>) -> (r: Vec<String>)
    ensures
        r.deep_view() == list.deep_view(),
{
    let mut r: Vec<String> = Vec::new();
    let mut i: usize = 0;
    assert(r.deep_view() =~= list.deep_view().take(0));
    while i < list.len()
        invariant
            i <= list@.len(),
            r.deep_view() == list.deep_view().take(i as int),
        decreases list@.len() - i,
    {
        push_text(&mut r, list[i].clone());
        i += 1;
        assert(r.deep_view() =~= list.deep_view().take(i as int));
    }
    assert(r.deep_view() =~= list.deep_view());
    r
}

/// A copy of an optional string.
pub fn copy_option(s: &Option<String>) -> (r: Option<String>)
    ensures
        r.deep_view() == s.deep_view(),
{
    match s {
        Some(text) => Some(text.clone()),
        None => None,
    }
}

/// The string as a slice, where there is one.
pub fn borrow_option(s: &Option<String>) -> (r: Option<&str>)
    ensures
        r.deep_view() == s.deep_view(),
{
    match s {
        Some(text) => Some(text.as_str()),
        None => None,
    }
}

/// Whether `wanted` is among the strings of `list`.
pub fn contains_text(list: &Vec<String>, wanted: &str) -> (found: bool)
    ensures
        found == list.deep_view().contains(wanted@),
{
    let ghost all = list.deep_view();
    let mut i: usize = 0;
    while i < list.len()
        invariant
            i <= list@.len(),
            all == list.deep_view(),
            forall|j: int| 0 <= j < i ==> all[j] != wanted@,
        decreases list@.len() - i,
    {
        if same_text(list[i].as_str(), wanted) {
            assert(all[i as int] == wanted@);
            return true;
        }
        i += 1;
    }
    false
}

/// The parts of `list` without repeats, each at its first place.
pub open spec fn distinct(list: Seq<Text>) -> Seq<Text>
    decreases list.len(),
{
    if list.len() == 0 {
        list
    } else {
        let before = distinct(list.drop_last());
        if before.contains(list.last()) {
            before
        } else {
            before.push(list.last())
        }
    }
}

/// `distinct` drops repeats and nothing else.
pub proof fn lemma_distinct(list: Seq<Text>)
    ensures
        distinct(list).no_duplicates(),
        forall|t: Text| distinct(list).contains(t) <==> list.contains(t),
    decreases list.len(),
{
    if list.len() > 0 {
        let before = distinct(list.drop_last());
        lemma_distinct(list.drop_last());
        assert forall|t: Text| distinct(list).contains(t) <==> list.contains(t) by {
            if list.contains(t) {
                let i = choose|i: int| 0 <= i < list.len() && list[i] == t;
                if i < list.len() - 1 {
                    assert(list.drop_last()[i] == t);
                    assert(list.drop_last().contains(t));
                    assert(before.contains(t));
                    let k = choose|k: int| 0 <= k < before.len() && before[k] == t;
                    assert(distinct(list)[k] == t);
                } else if !before.contains(t) {
                    assert(distinct(list)[before.len() as int] == t);
                }
            }
            if distinct(list).contains(t) {
                let k = choose|k: int| 0 <= k < distinct(list).len() && distinct(list)[k] == t;
                if k < before.len() {
                    assert(before[k] == t);
                    assert(list.drop_last().contains(t));
                    let i = choose|i: int|
                        0 <= i < list.drop_last().len() && list.drop_last()[i] == t;
                    assert(list[i] == t);
                } else {
                    assert(list[list.len() - 1] == t);
                }
            }
        }
    }
}

/// The digit that stands for `d` in bases up to sixteen.
pub open spec fn digit(d: int) -> char {
    seq!['0', '1', '2', '3', '4', '5', '6', '7', '8', '9', 'a', 'b', 'c', 'd', 'e', 'f'][d]
}

/// The digit character for `d`.
pub fn digit_of(d: u64) -> (c: char)
    requires
        d < 16,
    ensures
        c == digit(d as int),
{
    let digits: [char; 16] = [
        '0', '1', '2', '3', '4', '5', '6', '7', '8', '9', 'a', 'b', 'c', 'd', 'e', 'f',
    ];
    digits[d as usize]
}

/// `n` in decimal, without leading zeros.
pub open spec fn decimal(n: nat) -> Text
    decreases n,
{
    if n < 10 {
        seq![digit(n as int)]
    } else {
        decimal(n / 10).push(digit((n % 10) as int))
    }
}

/// Writes `n` in decimal.
pub fn to_decimal(n: u64) -> (s: String)
    ensures
        s@ == decimal(n as nat),
    decreases n,
{
    if n < 10 {
        let mut s = String::new();
        s.push(digit_of(n));
        assert(s@ =~= decimal(n as nat));
        s
    } else {
        let mut s = to_decimal(n / 10);
        s.push(digit_of(n % 10));
        s
    }
}

/// The upper-case form of an ASCII letter; every other character is itself.
pub open spec fn upper_char(c: char) -> char {
    if 'a' <= c && c <= 'z' {
        (c as u32 - 32) as char
    } else {
        c
    }
}

/// `s` with its ASCII letters in upper case.
pub open spec fn upper(s: Text) -> Text {
    s.map_values(|c: char| upper_char(c))
}

/// Puts the ASCII letters of `s` in upper case.
pub fn to_upper(s: &str) -> (r: String)
    ensures
        r@ == upper(s@),
{
    let chars = characters(s);
    let mut r = String::new();
    let mut i: usize = 0;
    while i < chars.len()
        invariant
            i <= chars@.len(),
            r@ == upper(chars@.take(i as int)),
        decreases chars@.len() - i,
    {
        let c = chars[i];
        if 'a' <= c && c <= 'z' {
            r.push((c as u8 - 32) as char);
        } else {
            r.push(c);
        }
        i += 1;
        assert(r@ =~= upper(chars@.take(i as int)));
    }
    assert(chars@.take(i as int) =~= s@);
    r
}

/// The number that a text of decimal digits stands for.
pub open spec fn number(s: Text) -> int
    decreases s.len(),
{
    if s.len() == 0 {
        0
    } else {
        10 * number(s.drop_last()) + (s.last() as int - '0' as int)
    }
}

/// A number that was written in decimal reads back.
pub proof fn decimal_reads_back(n: nat)
    ensures
        number(decimal(n)) == n,
    decreases n,
{
    let s = decimal(n);
    let last = n % 10;
    assert(digit(last as int) as int - '0' as int == last);
    if n < 10 {
        assert(number(s.drop_last()) == 0);
    } else {
        decimal_reads_back(n / 10);
        assert(s.drop_last() =~= decimal(n / 10));
    }
}

/// The replacement goes through a concatenation.
pub proof fn lemma_replaced_concat(a: Text, b: Text, target: char, with: Text)
    ensures
        replaced(a + b, target, with) == replaced(a, target, with) + replaced(b, target, with),
    decreases b.len(),
{
    if b.len() == 0 {
        assert(a + b =~= a);
        assert(replaced(a, target, with) + replaced(b, target, with) =~= replaced(a, target, with));
    } else {
        lemma_replaced_concat(a, b.drop_last(), target, with);
        assert((a + b).drop_last() =~= a + b.drop_last());
        assert(replaced(a + b, target, with) =~= replaced(a, target, with) + replaced(
            b,
            target,
            with,
        ));
    }
}

/// A text without the target stays as it is.
pub proof fn lemma_replaced_absent(s: Text, target: char, with: Text)
    requires
        !s.contains(target),
    ensures
        replaced(s, target, with) == s,
    decreases s.len(),
{
    if s.len() > 0 {
        assert(s[s.len() - 1] != target);
        assert forall|i: int| 0 <= i < s.drop_last().len() implies s.drop_last()[i] != target by {
            assert(s[i] != target);
        }
        lemma_replaced_absent(s.drop_last(), target, with);
        assert(s =~= s.drop_last() + seq![s.last()]);
    }
}

} // verus!
