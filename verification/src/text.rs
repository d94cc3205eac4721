//! Characters and strings: splitting at a separator, dropping and trimming characters.
use vstd::prelude::*;
use vstd::utf8::{encode_scalar, encode_utf8};

verus! {

/// `String::push`: appends one character at the end of the string.
pub assume_specification[ String::push ](s: &mut String, ch: char)
    ensures
        final(s)@ == old(s)@.push(ch),
;

/// The characters of a string, one by one.
pub fn char_vec(s: &str) -> (v: Vec<char>)
    ensures
        v@ == s@,
{
    let mut v: Vec<char> = Vec::new();
    for c in it: s.chars()
        invariant
            it.seq() == s@,
            v@ == s@.take(it.index() as int),
    {
        assert(s@.take(it.index() + 1) == s@.take(it.index() as int).push(c));
        v.push(c);
    }
    assert(s@.take(s@.len() as int) == s@);
    v
}

/// Whether two strings are the same.
pub fn same(a: &String, b: &str) -> (r: bool)
    ensures
        r == (a@ == b@),
{
    *a == b.to_owned()
}

/// The pieces of `s` between the occurrences of `sep`: always at least one, possibly empty.
pub open spec fn fields(s: Seq<char>, sep: char) -> Seq<Seq<char>>
    decreases s.len(),
{
    if s.len() == 0 {
        seq![Seq::empty()]
    } else {
        let before = fields(s.drop_last(), sep);
        if s.last() == sep {
            before.push(Seq::empty())
        } else {
            before.drop_last().push(before.last().push(s.last()))
        }
    }
}

/// The pieces in a row, with `sep` between each two of them.
pub open spec fn join(pieces: Seq<Seq<char>>, sep: char) -> Seq<char>
    decreases pieces.len(),
{
    if pieces.len() == 0 {
        Seq::empty()
    } else if pieces.len() == 1 {
        pieces[0]
    } else {
        join(pieces.drop_last(), sep).push(sep) + pieces.last()
    }
}

proof fn lemma_fields_nonempty(s: Seq<char>, sep: char)
    ensures
        fields(s, sep).len() >= 1,
    decreases s.len(),
{
    if s.len() > 0 {
        lemma_fields_nonempty(s.drop_last(), sep);
    }
}

/// Splits a string at every occurrence of a separator.
pub fn split(s: &str, sep: char) -> (pieces: Vec<String>)
    ensures
        pieces.deep_view() == fields(s@, sep),
{
    let chars: Vec<char> = char_vec(s);
    let mut pieces: Vec<String> = Vec::new();
    let mut current: String = String::new();
    let mut i: usize = 0;
    assert(chars@.take(0) == Seq::<char>::empty());
    assert(pieces.deep_view().push(current@) == fields(chars@.take(0), sep));
    while i < chars.len()
        invariant
            i <= chars@.len(),
            pieces.deep_view().push(current@) == fields(chars@.take(i as int), sep),
        decreases chars@.len() - i,
    {
        let c: char = chars[i];
        let ghost before = pieces.deep_view().push(current@);
        let ghost done = pieces.deep_view();
        assert(chars@.take(i + 1).drop_last() == chars@.take(i as int));
        assert(before.last() == current@ && before.drop_last() == done);
        if c == sep {
            pieces.push(current);
            assert(pieces.deep_view() == before);
            current = String::new();
        } else {
            current.push(c);
        }
        i = i + 1;
    }
    assert(chars@.take(chars@.len() as int) == chars@);
    pieces.push(current);
    pieces
}

/// Splitting loses nothing: the pieces, joined again, are the string; and no piece holds the
/// separator.
pub proof fn law_split_join(s: Seq<char>, sep: char)
    ensures
        join(fields(s, sep), sep) == s,
        forall|i: int| 0 <= i < fields(s, sep).len() ==> !(#[trigger] fields(s, sep)[i]).contains(sep),
    decreases s.len(),
{
    if s.len() > 0 {
        let before = fields(s.drop_last(), sep);
        let after = fields(s, sep);
        lemma_fields_nonempty(s.drop_last(), sep);
        law_split_join(s.drop_last(), sep);
        if s.last() == sep {
            assert(after.drop_last() == before);
            assert(join(after, sep) == s);
        } else {
            assert(after.drop_last() == before.drop_last());
            assert(join(after, sep) == join(before, sep).push(s.last()));
            assert(join(after, sep) == s);
            assert forall|i: int| 0 <= i < after.len() implies !(#[trigger] after[i]).contains(
                sep,
            ) by {
                if i == after.len() - 1 {
                    assert(!before[i].contains(sep));
                } else {
                    assert(after[i] == before[i]);
                }
            }
        }
    }
}

/// Joining pieces that do not hold the separator and splitting again gives the same pieces.
pub proof fn law_join_split(pieces: Seq<Seq<char>>, sep: char)
    requires
        pieces.len() >= 1,
        forall|i: int| 0 <= i < pieces.len() ==> !(#[trigger] pieces[i]).contains(sep),
    ensures
        fields(join(pieces, sep), sep) == pieces,
    decreases pieces.len(), pieces.last().len(),
{
    let s = join(pieces, sep);
    let last = pieces.last();
    if last.len() > 0 {
        // Take one character off the last piece.
        assert(last.contains(last.last()));
        let shorter = pieces.drop_last().push(last.drop_last());
        assert forall|i: int| 0 <= i < shorter.len() implies !(#[trigger] shorter[i]).contains(
            sep,
        ) by {
            assert(!pieces[i].contains(sep));
        }
        law_join_split(shorter, sep);
        assert(shorter.drop_last() == pieces.drop_last());
        assert(s.drop_last() == join(shorter, sep));
        assert(s.last() == last.last());
        assert(last == last.drop_last().push(last.last()));
        assert(fields(s, sep) == pieces);
    } else if pieces.len() > 1 {
        // The last piece is empty: take it off, with the separator before it.
        law_join_split(pieces.drop_last(), sep);
        assert(last == Seq::<char>::empty());
        assert(s.drop_last() == join(pieces.drop_last(), sep));
        assert(s.last() == sep);
        assert(fields(s, sep) == pieces);
    } else {
        assert(last == Seq::<char>::empty());
        assert(fields(s, sep) == pieces);
    }
}

/// Whether a character may stand in a line handed to the core: all but NUL and line feed.
pub open spec fn is_line_char(c: char) -> bool {
    c != '\0' && c != '\n'
}

/// The string without its NUL and line feed characters.
pub open spec fn one_line(s: Seq<char>) -> Seq<char> {
    s.filter(|c: char| is_line_char(c))
}

/// Drops every NUL and line feed character.
pub fn strip(s: &str) -> (r: String)
    ensures
        r@ == one_line(s@),
{
    let chars: Vec<char> = char_vec(s);
    let mut r: String = String::new();
    let mut i: usize = 0;
    assert(one_line(chars@.take(0)) == Seq::<char>::empty()) by {
        reveal(Seq::filter);
    }
    while i < chars.len()
        invariant
            i <= chars@.len(),
            r@ == one_line(chars@.take(i as int)),
        decreases chars@.len() - i,
    {
        let c: char = chars[i];
        assert(chars@.take(i + 1).drop_last() == chars@.take(i as int));
        reveal(Seq::filter);
        if c != '\0' && c != '\n' {
            r.push(c);
        }
        i = i + 1;
    }
    assert(chars@.take(chars@.len() as int) == chars@);
    r
}

/// Unicode's `White_Space` characters.
pub open spec fn is_white_space(c: char) -> bool {
    let v = c as u32;
    ||| 0x09 <= v <= 0x0D
    ||| v == 0x20
    ||| v == 0x85
    ||| v == 0xA0
    ||| v == 0x1680
    ||| 0x2000 <= v <= 0x200A
    ||| v == 0x2028
    ||| v == 0x2029
    ||| v == 0x202F
    ||| v == 0x205F
    ||| v == 0x3000
}

/// Whether a character is white space.
pub fn white_space(c: char) -> (b: bool)
    ensures
        b == is_white_space(c),
{
    let v: u32 = c as u32;
    (0x09 <= v && v <= 0x0D) || v == 0x20 || v == 0x85 || v == 0xA0 || v == 0x1680 || (0x2000 <= v
        && v <= 0x200A) || v == 0x2028 || v == 0x2029 || v == 0x202F || v == 0x205F || v == 0x3000
}

/// The string without the white space at its two ends.
pub open spec fn trimmed(s: Seq<char>) -> Seq<char>
    decreases s.len(),
{
    if s.len() == 0 {
        s
    } else if is_white_space(s.first()) {
        trimmed(s.drop_first())
    } else if is_white_space(s.last()) {
        trimmed(s.drop_last())
    } else {
        s
    }
}

/// Drops the white space at both ends.
pub fn trim(s: &str) -> (r: String)
    ensures
        r@ == trimmed(s@),
{
    let chars: Vec<char> = char_vec(s);
    let mut start: usize = 0;
    let mut end: usize = chars.len();
    assert(chars@.subrange(0, end as int) == chars@);
    while start < end && white_space(chars[start])
        invariant
            start <= end == chars@.len(),
            trimmed(chars@.subrange(start as int, end as int)) == trimmed(s@),
        decreases end - start,
    {
        assert(chars@.subrange(start as int, end as int).drop_first() == chars@.subrange(
            start + 1,
            end as int,
        ));
        start = start + 1;
    }
    while start < end && white_space(chars[end - 1])
        invariant
            start <= end <= chars@.len(),
            start < end ==> !is_white_space(chars@[start as int]),
            trimmed(chars@.subrange(start as int, end as int)) == trimmed(s@),
        decreases end - start,
    {
        assert(chars@.subrange(start as int, end as int).drop_last() == chars@.subrange(
            start as int,
            end - 1,
        ));
        end = end - 1;
    }
    let mut r: String = String::new();
    let mut i: usize = start;
    while i < end
        invariant
            start <= i <= end <= chars@.len(),
            r@ == chars@.subrange(start as int, i as int),
        decreases end - i,
    {
        assert(chars@.subrange(start as int, i + 1) == chars@.subrange(start as int, i as int).push(
            chars@[i as int],
        ));
        r.push(chars[i]);
        i = i + 1;
    }
    r
}

/// What trimming leaves has no white space at either end, and trimming it again changes nothing.
pub proof fn law_trim(s: Seq<char>)
    ensures
        trimmed(s).len() > 0 ==> !is_white_space(trimmed(s).first()) && !is_white_space(
            trimmed(s).last(),
        ),
        trimmed(trimmed(s)) == trimmed(s),
    decreases s.len(),
{
    if s.len() > 0 {
        if is_white_space(s.first()) {
            law_trim(s.drop_first());
        } else if is_white_space(s.last()) {
            law_trim(s.drop_last());
        }
    }
}

/// Whether every character is white space.
pub open spec fn all_white_space(s: Seq<char>) -> bool {
    forall|i: int| 0 <= i < s.len() ==> is_white_space(#[trigger] s[i])
}

/// Trimming takes nothing away but white space at the two ends.
pub proof fn law_trim_keeps_the_middle(s: Seq<char>) -> (ends: (Seq<char>, Seq<char>))
    ensures
        s == ends.0 + trimmed(s) + ends.1,
        all_white_space(ends.0),
        all_white_space(ends.1),
    decreases s.len(),
{
    if s.len() == 0 {
        (s, s)
    } else if is_white_space(s.first()) {
        let rest = s.drop_first();
        let (front, back) = law_trim_keeps_the_middle(rest);
        let longer = seq![s.first()] + front;
        assert(s == seq![s.first()] + rest);
        assert(s == longer + trimmed(s) + back);
        (longer, back)
    } else if is_white_space(s.last()) {
        let rest = s.drop_last();
        let (front, back) = law_trim_keeps_the_middle(rest);
        assert(s == rest.push(s.last()));
        assert(s == front + trimmed(s) + back.push(s.last()));
        (front, back.push(s.last()))
    } else {
        (Seq::empty(), Seq::empty())
    }
}

proof fn lemma_zero_byte_of_char(c: char)
    ensures
        encode_scalar(c as u32).contains(0) <==> c == '\0',
{
    let v = c as u32;
    assert(v <= 0x7F ==> (v & 0x7F) as u8 == v) by (bit_vector);
    assert(forall|b: u8| #[trigger] (0x80u8 | b) != 0) by (bit_vector);
    assert(forall|b: u8| #[trigger] (0xC0u8 | b) != 0) by (bit_vector);
    assert(forall|b: u8| #[trigger] (0xE0u8 | b) != 0) by (bit_vector);
    assert(forall|b: u8| #[trigger] (0xF0u8 | b) != 0) by (bit_vector);
    if c == '\0' {
        assert(encode_scalar(v)[0] == 0);
    }
}

/// A text has a zero byte in UTF-8 exactly when it has a NUL character: texts without that
/// character, and no others, can be handed over as C strings.
pub proof fn law_c_string(s: Seq<char>)
    ensures
        encode_utf8(s).contains(0) <==> s.contains('\0'),
    decreases s.len(),
{
    if s.len() > 0 {
        let first = encode_scalar(s[0] as u32);
        let rest = encode_utf8(s.drop_first());
        let bytes = encode_utf8(s);
        law_c_string(s.drop_first());
        lemma_zero_byte_of_char(s[0]);
        if bytes.contains(0) {
            let i = choose|i: int| 0 <= i < bytes.len() && bytes[i] == 0;
            if i < first.len() {
                assert(first[i] == 0);
            } else {
                assert(rest[i - first.len()] == 0);
                let j = choose|j: int|
                    0 <= j < s.drop_first().len() && s.drop_first()[j] == '\0';
                assert(s[j + 1] == '\0');
            }
        }
        if s.contains('\0') {
            let j = choose|j: int| 0 <= j < s.len() && s[j] == '\0';
            if j == 0 {
                let i = choose|i: int| 0 <= i < first.len() && first[i] == 0;
                assert(bytes[i] == 0);
            } else {
                assert(s.drop_first()[j - 1] == '\0');
                let i = choose|i: int| 0 <= i < rest.len() && rest[i] == 0;
                assert(bytes[i + first.len()] == 0);
            }
        }
    }
}

// ---------- what the functions give, for every input ----------

pub(crate) proof fn lemma_fields_single(s: Seq<char>, sep: char)
    requires
        !s.contains(sep),
    ensures
        fields(s, sep) == seq![s],
    decreases s.len(),
{
    if s.len() > 0 {
        let head = s.drop_last();
        assert(s.contains(s[s.len() - 1]));
        assert forall|i: int| 0 <= i < head.len() implies head[i] != sep by {
            assert(s.contains(s[i]));
        }
        lemma_fields_single(head, sep);
        assert(head.push(s.last()) == s);
        assert(fields(s, sep) == seq![s]);
    } else {
        assert(s == Seq::<char>::empty());
    }
}

pub(crate) proof fn lemma_fields_concat(a: Seq<char>, b: Seq<char>, sep: char)
    ensures
        fields(a.push(sep) + b, sep) == fields(a, sep) + fields(b, sep),
    decreases b.len(),
{
    let s = a.push(sep) + b;
    lemma_fields_nonempty(a, sep);
    lemma_fields_nonempty(b, sep);
    if b.len() == 0 {
        assert(s.drop_last() == a);
        assert(fields(s, sep) == fields(a, sep) + fields(b, sep));
    } else {
        let head = b.drop_last();
        lemma_fields_concat(a, head, sep);
        lemma_fields_nonempty(head, sep);
        assert(s.drop_last() == a.push(sep) + head);
        assert(s.last() == b.last());
        let before = fields(a, sep) + fields(head, sep);
        assert(before.last() == fields(head, sep).last());
        assert(before.drop_last() == fields(a, sep) + fields(head, sep).drop_last());
        assert(fields(s, sep) == fields(a, sep) + fields(b, sep));
    }
}

pub(crate) proof fn lemma_fields_count(s: Seq<char>, sep: char)
    ensures
        fields(s, sep).len() == 1 + s.to_multiset().count(sep),
    decreases s.len(),
{
    broadcast use vstd::seq_lib::group_to_multiset_ensures;

    if s.len() > 0 {
        let head = s.drop_last();
        lemma_fields_count(head, sep);
        lemma_fields_nonempty(head, sep);
        assert(head.push(s.last()) == s);
    } else {
        assert(s == Seq::<char>::empty());
    }
}

/// A text without the separator is its own only piece.
pub proof fn law_split_without_separator(s: &str, sep: char, pieces: Vec<String>)
    requires
        call_ensures(split, (s, sep), pieces),
        !s@.contains(sep),
    ensures
        pieces.deep_view() == seq![s@],
{
    lemma_fields_single(s@, sep);
}

/// The pieces of two texts with a separator between them are the pieces of the one, then those
/// of the other.
pub proof fn law_split_at_separator(
    a: &str,
    b: &str,
    whole: &str,
    sep: char,
    of_a: Vec<String>,
    of_b: Vec<String>,
    of_whole: Vec<String>,
)
    requires
        call_ensures(split, (a, sep), of_a),
        call_ensures(split, (b, sep), of_b),
        call_ensures(split, (whole, sep), of_whole),
        whole@ == a@.push(sep) + b@,
    ensures
        of_whole.deep_view() == of_a.deep_view() + of_b.deep_view(),
{
    lemma_fields_concat(a@, b@, sep);
}

/// There is one piece more than there are separators.
pub proof fn law_split_count(s: &str, sep: char, pieces: Vec<String>)
    requires
        call_ensures(split, (s, sep), pieces),
    ensures
        pieces@.len() == 1 + s@.to_multiset().count(sep),
{
    lemma_fields_count(s@, sep);
    assert(pieces.deep_view().len() == pieces@.len());
}

pub(crate) proof fn lemma_one_line_concat(a: Seq<char>, b: Seq<char>)
    ensures
        one_line(a + b) == one_line(a) + one_line(b),
{
    Seq::filter_distributes_over_add(a, b, |c: char| is_line_char(c));
}

pub(crate) proof fn lemma_one_line_clean(s: Seq<char>)
    requires
        !s.contains('\0'),
        !s.contains('\n'),
    ensures
        one_line(s) == s,
    decreases s.len(),
{
    reveal(Seq::filter);
    if s.len() > 0 {
        let head = s.drop_last();
        assert(s.contains(s[s.len() - 1]));
        assert forall|i: int| 0 <= i < head.len() implies head[i] != '\0' && head[i] != '\n' by {
            assert(s.contains(s[i]));
        }
        lemma_one_line_clean(head);
        assert(head.push(s.last()) == s);
    }
}

pub(crate) proof fn lemma_one_line_count(s: Seq<char>, c: char)
    ensures
        one_line(s).to_multiset().count(c) == (if c == '\0' || c == '\n' {
            0
        } else {
            s.to_multiset().count(c)
        }),
    decreases s.len(),
{
    broadcast use vstd::seq_lib::group_to_multiset_ensures;

    reveal(Seq::filter);
    if s.len() > 0 {
        let head = s.drop_last();
        lemma_one_line_count(head, c);
        assert(head.push(s.last()) == s);
    } else {
        assert(s == Seq::<char>::empty());
        assert(one_line(s) == s);
    }
}

/// Stripping leaves a text without NUL and line feed as it is.
pub proof fn law_strip_keeps_clean_text(s: &str, r: String)
    requires
        call_ensures(strip, (s,), r),
        !s@.contains('\0'),
        !s@.contains('\n'),
    ensures
        r@ == s@,
{
    lemma_one_line_clean(s@);
}

/// Stripping takes out every NUL and line feed, and of every other character none.
pub proof fn law_strip_counts(s: &str, r: String, c: char)
    requires
        call_ensures(strip, (s,), r),
    ensures
        r@.to_multiset().count(c) == (if c == '\0' || c == '\n' {
            0
        } else {
            s@.to_multiset().count(c)
        }),
{
    lemma_one_line_count(s@, c);
}

/// Stripping two texts in a row is stripping each: what is left stays in its order.
pub proof fn law_strip_concat(
    a: &str,
    b: &str,
    whole: &str,
    of_a: String,
    of_b: String,
    of_whole: String,
)
    requires
        call_ensures(strip, (a,), of_a),
        call_ensures(strip, (b,), of_b),
        call_ensures(strip, (whole,), of_whole),
        whole@ == a@ + b@,
    ensures
        of_whole@ == of_a@ + of_b@,
{
    lemma_one_line_concat(a@, b@);
}

/// Whatever white space stands around a text that neither starts nor ends with some, trimming
/// gives the text.
pub proof fn law_trim_finds_text(
    s: &str,
    r: String,
    front: Seq<char>,
    text: Seq<char>,
    back: Seq<char>,
)
    requires
        call_ensures(trim, (s,), r),
        s@ == front + text + back,
        forall|i: int| 0 <= i < front.len() ==> is_white_space(#[trigger] front[i]),
        forall|i: int| 0 <= i < back.len() ==> is_white_space(#[trigger] back[i]),
        text.len() > 0 ==> !is_white_space(text.first()) && !is_white_space(text.last()),
    ensures
        r@ == text,
{
    lemma_trim_finds_text(front, text, back);
}

proof fn lemma_trim_finds_text(front: Seq<char>, text: Seq<char>, back: Seq<char>)
    requires
        forall|i: int| 0 <= i < front.len() ==> is_white_space(#[trigger] front[i]),
        forall|i: int| 0 <= i < back.len() ==> is_white_space(#[trigger] back[i]),
        text.len() > 0 ==> !is_white_space(text.first()) && !is_white_space(text.last()),
    ensures
        trimmed(front + text + back) == text,
    decreases front.len() + back.len(),
{
    let s = front + text + back;
    if front.len() > 0 {
        let rest = front.drop_first();
        assert forall|i: int| 0 <= i < rest.len() implies is_white_space(#[trigger] rest[i]) by {
            assert(rest[i] == front[i + 1]);
        }
        lemma_trim_finds_text(rest, text, back);
        assert(s.first() == front[0]);
        assert(s.drop_first() == rest + text + back);
    } else if back.len() > 0 {
        if text.len() > 0 {
            let rest = back.drop_last();
            assert forall|i: int| 0 <= i < rest.len() implies is_white_space(#[trigger] rest[i]) by {
                assert(rest[i] == back[i]);
            }
            lemma_trim_finds_text(front, text, rest);
            assert(s.first() == text.first());
            assert(s.last() == back[back.len() - 1]);
            assert(s.drop_last() == front + text + rest);
        } else {
            let rest = back.drop_first();
            assert forall|i: int| 0 <= i < rest.len() implies is_white_space(#[trigger] rest[i]) by {
                assert(rest[i] == back[i + 1]);
            }
            lemma_trim_finds_text(front, text, rest);
            assert(s.first() == back[0]);
            assert(s.drop_first() == front + text + rest);
        }
    } else {
        assert(s == text);
    }
}

} // verus!
