//! UTF-16, as the window system wants its strings.
use crate::text::char_vec;
use vstd::prelude::*;

verus! {

/// One or two code units: characters beyond the basic plane become a surrogate pair.
pub open spec fn units(c: char) -> Seq<u16> {
    let v = c as u32;
    if v < 0x1_0000 {
        seq![v as u16]
    } else {
        seq![
            (0xD800 + (v - 0x1_0000) / 0x400) as u16,
            (0xDC00 + (v - 0x1_0000) % 0x400) as u16,
        ]
    }
}

/// The code units of a string, character after character.
pub open spec fn encode(s: Seq<char>) -> Seq<u16>
    decreases s.len(),
{
    if s.len() == 0 {
        Seq::empty()
    } else {
        encode(s.drop_last()) + units(s.last())
    }
}

/// Encodes a string as UTF-16.
pub fn encode_utf16(s: &str) -> (w: Vec<u16>)
    ensures
        w@ == encode(s@),
{
    let chars: Vec<char> = char_vec(s);
    let mut w: Vec<u16> = Vec::new();
    let mut i: usize = 0;
    while i < chars.len()
        invariant
            i <= chars@.len(),
            w@ == encode(chars@.take(i as int)),
        decreases chars@.len() - i,
    {
        let c: char = chars[i];
        assert(chars@.take(i + 1).drop_last() == chars@.take(i as int));
        let v: u32 = c as u32;
        if v < 0x1_0000 {
            w.push(v as u16);
        } else {
            w.push((0xD800 + (v - 0x1_0000) / 0x400) as u16);
            w.push((0xDC00 + (v - 0x1_0000) % 0x400) as u16);
        }
        assert(w@ == encode(chars@.take(i as int)) + units(c));
        i = i + 1;
    }
    assert(chars@.take(chars@.len() as int) == chars@);
    w
}

/// A NUL-terminated UTF-16 string.
pub fn wide(s: &str) -> (w: Vec<u16>)
    ensures
        w@ == encode(s@).push(0),
{
    let mut w: Vec<u16> = encode_utf16(s);
    w.push(0);
    w
}

/// At most two code units for each character, and at least one.
pub proof fn lemma_encode_len(s: Seq<char>)
    ensures
        s.len() <= encode(s).len() <= 2 * s.len(),
    decreases s.len(),
{
    if s.len() > 0 {
        lemma_encode_len(s.drop_last());
    }
}

/// The first of a surrogate pair.
pub open spec fn is_high_surrogate(u: u16) -> bool {
    0xD800 <= u < 0xDC00
}

/// The second of a surrogate pair.
pub open spec fn is_low_surrogate(u: u16) -> bool {
    0xDC00 <= u < 0xE000
}

/// Reads code units back into characters, from the end.
pub open spec fn decode(w: Seq<u16>) -> Seq<char>
    decreases w.len(),
{
    if w.len() == 0 {
        Seq::empty()
    } else if w.len() >= 2 && is_low_surrogate(w.last()) {
        let high = w[w.len() - 2];
        let v = 0x1_0000 + (high - 0xD800) * 0x400 + (w.last() - 0xDC00);
        decode(w.drop_last().drop_last()).push(v as char)
    } else {
        decode(w.drop_last()).push(w.last() as char)
    }
}

/// The code units of one character give the character back.
proof fn lemma_units(c: char)
    ensures
        units(c).len() == 1 || units(c).len() == 2,
        units(c).len() == 1 ==> !is_low_surrogate(units(c)[0]) && units(c)[0] as char == c,
        units(c).len() == 2 ==> is_high_surrogate(units(c)[0]) && is_low_surrogate(units(c)[1]) && (
        0x1_0000 + (units(c)[0] - 0xD800) * 0x400 + (units(c)[1] - 0xDC00)) as char == c,
        c != '\0' ==> !units(c).contains(0),
{
    let v = c as u32;
    if v >= 0x1_0000 {
        let high = 0xD800 + (v - 0x1_0000) / 0x400;
        let low = 0xDC00 + (v - 0x1_0000) % 0x400;
        assert(units(c)[0] == high && units(c)[1] == low);
        assert(0x1_0000 + (high - 0xD800) * 0x400 + (low - 0xDC00) == v);
    }
}

/// Encoding loses nothing: the characters can be read back from the code units.
pub proof fn law_encode_decode(s: Seq<char>)
    ensures
        decode(encode(s)) == s,
    decreases s.len(),
{
    if s.len() > 0 {
        let c = s.last();
        let head = encode(s.drop_last());
        let w = encode(s);
        law_encode_decode(s.drop_last());
        lemma_units(c);
        if units(c).len() == 1 {
            assert(w.drop_last() == head);
            assert(w.last() == units(c)[0]);
        } else {
            assert(w.drop_last().drop_last() == head);
            assert(w[w.len() - 2] == units(c)[0]);
            assert(w.last() == units(c)[1]);
        }
        assert(decode(w) == s.drop_last().push(c));
        assert(s.drop_last().push(c) == s);
    } else {
        assert(s == Seq::<char>::empty());
    }
}

/// A string without NUL characters has no zero among its code units: read up to the first zero,
/// its NUL-terminated form is the whole string and no more.
pub proof fn law_terminator_is_first_zero(s: Seq<char>)
    requires
        !s.contains('\0'),
    ensures
        !encode(s).contains(0),
    decreases s.len(),
{
    if s.len() > 0 {
        let c = s.last();
        assert(s.contains(c));
        assert forall|i: int| 0 <= i < s.drop_last().len() implies s.drop_last()[i] != '\0' by {
            assert(s.contains(s[i]));
        }
        law_terminator_is_first_zero(s.drop_last());
        lemma_units(c);
        let head = encode(s.drop_last());
        assert forall|i: int| 0 <= i < encode(s).len() implies encode(s)[i] != 0 by {
            if i < head.len() {
                assert(head.contains(head[i]));
            } else {
                assert(units(c).contains(units(c)[i - head.len()]));
            }
        }
    }
}

// ---------- what the functions give, for every input ----------

pub(crate) proof fn lemma_encode_concat(a: Seq<char>, b: Seq<char>)
    ensures
        encode(a + b) == encode(a) + encode(b),
    decreases b.len(),
{
    if b.len() == 0 {
        assert(a + b == a);
        assert(encode(a) + encode(b) == encode(a));
    } else {
        lemma_encode_concat(a, b.drop_last());
        assert((a + b).drop_last() == a + b.drop_last());
        assert((a + b).last() == b.last());
        assert(encode(a + b) == encode(a) + encode(b));
    }
}

proof fn lemma_one_character(c: char)
    ensures
        c as u32 <= 0xFFFF ==> units(c).len() == 1 && units(c)[0] == c as u32,
        c as u32 > 0xFFFF ==> {
            &&& units(c).len() == 2
            &&& 0xD800 <= units(c)[0] <= 0xDBFF
            &&& 0xDC00 <= units(c)[1] <= 0xDFFF
            &&& c as u32 == 0x1_0000 + (units(c)[0] - 0xD800) * 0x400 + (units(c)[1] - 0xDC00)
        },
{
}

/// A character of the basic plane is its own code unit; any other is a pair of surrogates that
/// holds the rest of its number, ten bits in each.
pub proof fn law_encode_one_character(s: &str, c: char, w: Vec<u16>)
    requires
        call_ensures(encode_utf16, (s,), w),
        s@ == seq![c],
    ensures
        c as u32 <= 0xFFFF ==> w@.len() == 1 && w@[0] == c as u32,
        c as u32 > 0xFFFF ==> {
            &&& w@.len() == 2
            &&& 0xD800 <= w@[0] <= 0xDBFF
            &&& 0xDC00 <= w@[1] <= 0xDFFF
            &&& c as u32 == 0x1_0000 + (w@[0] - 0xD800) * 0x400 + (w@[1] - 0xDC00)
        },
{
    reveal_with_fuel(encode, 2);
    assert(s@.drop_last() == Seq::<char>::empty());
    assert(encode(s@) == units(c));
    lemma_one_character(c);
}

/// The code units of two texts in a row are those of the one, then those of the other.
pub proof fn law_encode_concat(
    a: &str,
    b: &str,
    whole: &str,
    of_a: Vec<u16>,
    of_b: Vec<u16>,
    of_whole: Vec<u16>,
)
    requires
        call_ensures(encode_utf16, (a,), of_a),
        call_ensures(encode_utf16, (b,), of_b),
        call_ensures(encode_utf16, (whole,), of_whole),
        whole@ == a@ + b@,
    ensures
        of_whole@ == of_a@ + of_b@,
{
    lemma_encode_concat(a@, b@);
}

/// A wide string is the text's code units and one zero after them.
pub proof fn law_wide_ends_with_zero(s: &str, plain: Vec<u16>, terminated: Vec<u16>)
    requires
        call_ensures(encode_utf16, (s,), plain),
        call_ensures(wide, (s,), terminated),
    ensures
        terminated@ == plain@.push(0),
{
}

} // verus!
