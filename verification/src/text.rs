//! Small verified helpers for comparing and building strings.

use vstd::prelude::*;
use vstd::string::StringSliceAdditionalSpecFns;
use vstd::utf8::{encode_scalar, encode_utf8, is_char_boundary};

verus! {

/// Compares two string slices, character for character.
pub fn str_eq(a: &str, b: &str) -> (r: bool)
    ensures
        r == (a@ == b@),
{
    let x = a.as_bytes();
    let y = b.as_bytes();
    proof {
        vstd::utf8::encode_utf8_decode_utf8(a@);
        vstd::utf8::encode_utf8_decode_utf8(b@);
    }
    if x.len() != y.len() {
        return false;
    }
    let mut i: usize = 0;
    while i < x.len()
        invariant
            i <= x@.len(),
            x@.len() == y@.len(),
            x@.take(i as int) == y@.take(i as int),
            x@ == a.spec_bytes(),
            y@ == b.spec_bytes(),
        decreases x@.len() - i,
    {
        if x[i] != y[i] {
            return false;
        }
        assert(x@.take(i + 1) =~= x@.take(i as int).push(x@[i as int]));
        assert(y@.take(i + 1) =~= y@.take(i as int).push(y@[i as int]));
        i = i + 1;
    }
    assert(x@ =~= x@.take(i as int));
    assert(y@ =~= y@.take(i as int));
    true
}

/// The character that writes the digit `d`.
pub open spec fn digit_char(d: int) -> char {
    if d == 0 {
        '0'
    } else if d == 1 {
        '1'
    } else if d == 2 {
        '2'
    } else if d == 3 {
        '3'
    } else if d == 4 {
        '4'
    } else if d == 5 {
        '5'
    } else if d == 6 {
        '6'
    } else if d == 7 {
        '7'
    } else if d == 8 {
        '8'
    } else {
        '9'
    }
}

/// The decimal numeral of a natural number, without leading zeros.
pub open spec fn decimal(n: nat) -> Seq<char>
    decreases n,
{
    if n < 10 {
        seq![digit_char(n as int)]
    } else {
        decimal(n / 10).push(digit_char((n % 10) as int))
    }
}

/// The decimal numeral of an integer, with a leading `-` when it is negative.
pub open spec fn signed_decimal(i: int) -> Seq<char> {
    if i < 0 {
        seq!['-'] + decimal((-i) as nat)
    } else {
        decimal(i as nat)
    }
}

/// The digit `d` as a string slice.
fn digit_str(d: u64) -> (r: &'static str)
    requires
        d < 10,
    ensures
        r@ == seq![digit_char(d as int)],
{
    proof {
        reveal_strlit("0");
        reveal_strlit("1");
        reveal_strlit("2");
        reveal_strlit("3");
        reveal_strlit("4");
        reveal_strlit("5");
        reveal_strlit("6");
        reveal_strlit("7");
        reveal_strlit("8");
        reveal_strlit("9");
    }
    let r = if d == 0 {
        "0"
    } else if d == 1 {
        "1"
    } else if d == 2 {
        "2"
    } else if d == 3 {
        "3"
    } else if d == 4 {
        "4"
    } else if d == 5 {
        "5"
    } else if d == 6 {
        "6"
    } else if d == 7 {
        "7"
    } else if d == 8 {
        "8"
    } else {
        "9"
    };
    assert(r@ =~= seq![digit_char(d as int)]);
    r
}

/// Appends the decimal numeral of `n` to `out`.
pub fn push_decimal(out: &mut String, n: u64)
    ensures
        final(out)@ == old(out)@ + decimal(n as nat),
    decreases n,
{
    if n >= 10 {
        push_decimal(out, n / 10);
    }
    out.append(digit_str(n % 10));
    assert(out@ =~= old(out)@ + decimal(n as nat));
}

/// Appends the decimal numeral of `i`, with its sign, to `out`.
pub fn push_signed_decimal(out: &mut String, i: i64)
    ensures
        final(out)@ == old(out)@ + signed_decimal(i as int),
{
    if i < 0 {
        out.append("-");
        proof {
            reveal_strlit("-");
        }
        let magnitude: u64 = if i == i64::MIN {
            9223372036854775808u64
        } else {
            (-i) as u64
        };
        push_decimal(out, magnitude);
        assert(out@ =~= old(out)@ + signed_decimal(i as int));
    } else {
        push_decimal(out, i as u64);
    }
}

/// Appends `v`, taken by its deep view, to a vector whose deep view is known.
pub fn push_deep<T: DeepView>(v: &mut Vec<T>, x: T)
    ensures
        final(v).deep_view() == old(v).deep_view().push(x.deep_view()),
        final(v)@ == old(v)@.push(x),
{
    v.push(x);
    assert(v.deep_view() =~= old(v).deep_view().push(x.deep_view()));
}

/// The number of bytes that encode the first `k` characters.
pub open spec fn byte_offset(chars: Seq<char>, k: int) -> int {
    encode_utf8(chars.take(k)).len() as int
}

/// The encoding of two texts in a row is the two encodings in a row.
pub proof fn lemma_encode_concat(x: Seq<char>, y: Seq<char>)
    ensures
        encode_utf8(x + y) == encode_utf8(x) + encode_utf8(y),
    decreases x.len(),
{
    if x.len() == 0 {
        assert(x + y =~= y);
        assert(encode_utf8(x) + encode_utf8(y) =~= encode_utf8(y));
    } else {
        lemma_encode_concat(x.drop_first(), y);
        assert((x + y).drop_first() =~= x.drop_first() + y);
        assert(encode_utf8(x + y) =~= encode_utf8(x) + encode_utf8(y));
    }
}

/// The bytes of a text are those of its first `k` characters and then
/// those of the rest.
pub proof fn lemma_encode_split(chars: Seq<char>, k: int)
    requires
        0 <= k <= chars.len(),
    ensures
        encode_utf8(chars) == encode_utf8(chars.take(k)) + encode_utf8(chars.skip(k)),
        0 <= byte_offset(chars, k) <= encode_utf8(chars).len(),
        encode_utf8(chars).subrange(0, byte_offset(chars, k)) == encode_utf8(chars.take(k)),
        encode_utf8(chars).subrange(byte_offset(chars, k), encode_utf8(chars).len() as int)
            == encode_utf8(chars.skip(k)),
{
    lemma_encode_concat(chars.take(k), chars.skip(k));
    assert(chars.take(k) + chars.skip(k) =~= chars);
    let whole = encode_utf8(chars);
    assert(whole.subrange(0, byte_offset(chars, k)) =~= encode_utf8(chars.take(k)));
    assert(whole.subrange(byte_offset(chars, k), whole.len() as int) =~= encode_utf8(
        chars.skip(k),
    ));
}

/// One character more takes the bytes of that character more.
pub proof fn lemma_offset_step(chars: Seq<char>, k: int)
    requires
        0 <= k < chars.len(),
    ensures
        byte_offset(chars, k + 1) == byte_offset(chars, k) + encode_scalar(chars[k] as u32).len(),
{
    lemma_encode_concat(chars.take(k), seq![chars[k]]);
    assert(chars.take(k + 1) =~= chars.take(k) + seq![chars[k]]);
    reveal_with_fuel(encode_utf8, 2);
    assert(seq![chars[k]].drop_first() =~= Seq::<char>::empty());
    assert(encode_utf8(seq![chars[k]]) =~= encode_scalar(chars[k] as u32));
}

/// The bytes of the first `k` characters end where a character ends.
pub proof fn lemma_offset_is_boundary(chars: Seq<char>, k: int)
    requires
        0 <= k <= chars.len(),
    ensures
        is_char_boundary(encode_utf8(chars), byte_offset(chars, k)),
    decreases k,
{
    vstd::utf8::encode_utf8_valid_utf8(chars);
    let bytes = encode_utf8(chars);
    if k == 0 {
        assert(chars.take(0) =~= Seq::<char>::empty());
    } else {
        let rest = chars.drop_first();
        vstd::utf8::encode_utf8_first_scalar(chars);
        vstd::utf8::char_is_scalar(chars[0]);
        assert(vstd::utf8::pop_first_scalar(bytes) =~= encode_utf8(rest));
        lemma_offset_is_boundary(rest, k - 1);
        lemma_encode_concat(seq![chars[0]], rest.take(k - 1));
        assert(chars.take(k) =~= seq![chars[0]] + rest.take(k - 1));
        reveal_with_fuel(encode_utf8, 2);
        assert(seq![chars[0]].drop_first() =~= Seq::<char>::empty());
        assert(encode_utf8(seq![chars[0]]) =~= encode_scalar(chars[0] as u32));
        lemma_encode_split(chars, k);
        assert(byte_offset(chars, k) == encode_scalar(chars[0] as u32).len() + byte_offset(
            rest,
            k - 1,
        ));
    }
}

/// The number of bytes that encode a character.
pub fn char_width(c: char) -> (n: usize)
    ensures
        n == encode_scalar(c as u32).len(),
        1 <= n <= 4,
{
    proof {
        vstd::utf8::char_is_scalar(c);
    }
    let v = c as u32;
    if v <= 0x7F {
        1
    } else if v <= 0x7FF {
        2
    } else if v <= 0xFFFF {
        3
    } else {
        4
    }
}

/// The piece of a text between two characters, found by the bytes at which
/// they start.
pub fn cut<'a>(
    s: &'a str,
    from_byte: usize,
    to_byte: usize,
    Ghost(from): Ghost<int>,
    Ghost(to): Ghost<int>,
) -> (r: &'a str)
    requires
        0 <= from <= to <= s@.len(),
        from_byte == byte_offset(s@, from),
        to_byte == byte_offset(s@, to),
    ensures
        r@ == s@.subrange(from, to),
{
    proof {
        lemma_offset_is_boundary(s@, to);
        lemma_encode_split(s@, to);
    }
    let (head, _) = s.split_at(to_byte);
    proof {
        vstd::utf8::encode_utf8_decode_utf8(head@);
        vstd::utf8::encode_utf8_decode_utf8(s@.take(to));
        assert(head@ == s@.take(to));
        assert(head@.take(from) =~= s@.take(from));
        lemma_offset_is_boundary(head@, from);
        lemma_encode_split(head@, from);
    }
    let (_, tail) = head.split_at(from_byte);
    proof {
        vstd::utf8::encode_utf8_decode_utf8(tail@);
        vstd::utf8::encode_utf8_decode_utf8(head@.skip(from));
        assert(tail@ == head@.skip(from));
        assert(head@.skip(from) =~= s@.subrange(from, to));
    }
    tail
}

} // verus!
