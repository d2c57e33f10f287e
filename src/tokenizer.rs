//! Finding the first space-delimited token of a text buffer, without copying,
//! and reading an element by its one-based position.

use vstd::prelude::*;
use vstd::string::StringSliceAdditionalSpecFns;
use vstd::utf8::{
    decode_utf8, encode_scalar, encode_utf8, has_width_1_encoding, has_width_2_encoding,
    has_width_3_encoding, is_char_boundary, is_continuation_byte, valid_utf8,
};

verus! {

broadcast use vstd::utf8::group_utf8_lib;

/// The only delimiter the tokenizer knows: the ASCII space byte.
pub const SPACE: u8 = 0x20;

/// Number of leading bytes of `b` before the first space, or `b.len()` when
/// `b` holds no space.
pub open spec fn token_len(b: Seq<u8>) -> nat
    decreases b.len(),
{
    if b.len() == 0 || b[0] == SPACE {
        0
    } else {
        1 + token_len(b.drop_first())
    }
}

/// The bytes of the first token of `b`: its prefix up to the first space.
pub open spec fn first_token_bytes(b: Seq<u8>) -> Seq<u8> {
    b.subrange(0, token_len(b) as int)
}

/// `t` is a prefix of `b` holding no space, that ends at a space of `b` or
/// at the end of `b`.
pub open spec fn is_first_token(b: Seq<u8>, t: Seq<u8>) -> bool {
    &&& t.len() <= b.len()
    &&& t == b.subrange(0, t.len() as int)
    &&& forall|i: int| 0 <= i < t.len() ==> t[i] != SPACE
    &&& (t.len() == b.len() || b[t.len() as int] == SPACE)
}

/// The characters of the first token of `s`: its prefix up to the first
/// space character, or all of `s` when it holds no space.
pub open spec fn first_token_chars(s: Seq<char>) -> Seq<char>
    decreases s.len(),
{
    if s.len() == 0 || s[0] == ' ' {
        Seq::empty()
    } else {
        seq![s[0]] + first_token_chars(s.drop_first())
    }
}

/// The UTF-8 encoding of a character holds the space byte only when the
/// character is the space itself, and then it is that one byte.
proof fn lemma_encode_scalar_space(c: char)
    ensures
        c == ' ' ==> encode_scalar(c as u32) == seq![SPACE],
        c != ' ' ==> forall|i: int|
            0 <= i < encode_scalar(c as u32).len() ==> #[trigger] encode_scalar(c as u32)[i] != SPACE,
{
    let v = c as u32;
    if has_width_1_encoding(v) {
        assert(((v & 0x7F) as u8 == 0x20u8) <==> v == 0x20u32) by (bit_vector)
            requires
                v <= 0x7F,
        ;
        assert(c == ' ' <==> v == 0x20u32);
    } else if has_width_2_encoding(v) {
        assert((0xC0u8 | ((v >> 6) & 0x1F) as u8) != 0x20u8) by (bit_vector);
        assert((0x80u8 | (v & 0x3F) as u8) != 0x20u8) by (bit_vector);
    } else if has_width_3_encoding(v) {
        assert((0xE0u8 | ((v >> 12) & 0x0F) as u8) != 0x20u8) by (bit_vector);
        assert((0x80u8 | ((v >> 6) & 0x3F) as u8) != 0x20u8) by (bit_vector);
        assert((0x80u8 | (v & 0x3F) as u8) != 0x20u8) by (bit_vector);
    } else {
        assert((0xF0u8 | ((v >> 18) & 0x7) as u8) != 0x20u8) by (bit_vector);
        assert((0x80u8 | ((v >> 12) & 0x3F) as u8) != 0x20u8) by (bit_vector);
        assert((0x80u8 | ((v >> 6) & 0x3F) as u8) != 0x20u8) by (bit_vector);
        assert((0x80u8 | (v & 0x3F) as u8) != 0x20u8) by (bit_vector);
    }
}

/// A prefix without spaces passes into the first token whole.
proof fn lemma_first_token_after_prefix(a: Seq<u8>, b: Seq<u8>)
    requires
        forall|i: int| 0 <= i < a.len() ==> a[i] != SPACE,
    ensures
        first_token_bytes(a + b) == a + first_token_bytes(b),
{
    lemma_first_token_bytes(b);
    lemma_first_token_bytes(a + b);
    let t = first_token_bytes(b);
    let u = a + t;
    assert(u =~= (a + b).subrange(0, u.len() as int));
    assert forall|i: int| 0 <= i < u.len() implies u[i] != SPACE by {
        if i >= a.len() {
            assert(u[i] == t[i - a.len()]);
        }
    }
    if u.len() < (a + b).len() {
        assert((a + b)[u.len() as int] == b[t.len() as int]);
    }
    assert(is_first_token(a + b, u));
}

/// The first token in characters is encoded as the first token in bytes.
pub proof fn lemma_first_token_chars(s: Seq<char>)
    ensures
        encode_utf8(first_token_chars(s)) == first_token_bytes(encode_utf8(s)),
    decreases s.len(),
{
    let b = encode_utf8(s);
    lemma_first_token_bytes(b);
    if s.len() == 0 {
        assert(first_token_bytes(b) =~= Seq::<u8>::empty());
    } else {
        let e = encode_scalar(s[0] as u32);
        let rest = s.drop_first();
        lemma_encode_scalar_space(s[0]);
        assert(b == e + encode_utf8(rest));
        if s[0] == ' ' {
            assert(b[0] == SPACE);
            assert(Seq::<u8>::empty() =~= b.subrange(0, 0));
            assert(is_first_token(b, Seq::<u8>::empty()));
            assert(encode_utf8(first_token_chars(s)) =~= Seq::<u8>::empty());
        } else {
            lemma_first_token_chars(rest);
            lemma_first_token_after_prefix(e, encode_utf8(rest));
            let t = first_token_chars(rest);
            assert((seq![s[0]] + t).drop_first() =~= t);
            assert(encode_utf8(seq![s[0]] + t) == e + encode_utf8(t));
        }
    }
}

/// The prefix before the first space is the one and only first token.
pub proof fn lemma_first_token_bytes(b: Seq<u8>)
    ensures
        token_len(b) <= b.len(),
        is_first_token(b, first_token_bytes(b)),
        forall|t: Seq<u8>| is_first_token(b, t) ==> t == first_token_bytes(b),
    decreases b.len(),
{
    if b.len() == 0 || b[0] == SPACE {
        assert(first_token_bytes(b) =~= Seq::<u8>::empty());
        assert forall|t: Seq<u8>| is_first_token(b, t) implies t == first_token_bytes(b) by {
            if t.len() > 0 {
                assert(t[0] == b[0]);
            }
            assert(t =~= first_token_bytes(b));
        }
    } else {
        let rest = b.drop_first();
        lemma_first_token_bytes(rest);
        assert(first_token_bytes(b) =~= seq![b[0]] + first_token_bytes(rest));
        assert(is_first_token(b, first_token_bytes(b))) by {
            let t = first_token_bytes(b);
            assert forall|i: int| 0 <= i < t.len() implies t[i] != SPACE by {
                if i > 0 {
                    assert(t[i] == first_token_bytes(rest)[i - 1]);
                }
            }
            assert(t =~= b.subrange(0, t.len() as int));
        }
        assert forall|t: Seq<u8>| is_first_token(b, t) implies t == first_token_bytes(b) by {
            assert(t.len() > 0) by {
                if t.len() == 0 {
                    assert(b[0] == SPACE);
                }
            }
            let u = t.drop_first();
            assert(u =~= rest.subrange(0, u.len() as int));
            assert forall|i: int| 0 <= i < u.len() implies u[i] != SPACE by {
                assert(u[i] == t[i + 1]);
            }
            assert(is_first_token(rest, u));
            assert(t =~= seq![b[0]] + u);
        }
    }
}

/// Returns the first token of `buffer`: the view from its start up to, not
/// including, the first space byte, or the whole buffer when it holds no
/// space. The result borrows from `buffer` and copies nothing.
pub fn first_token(buffer: &str) -> (token: &str)
    ensures
        token.spec_bytes() == first_token_bytes(buffer.spec_bytes()),
        is_first_token(buffer.spec_bytes(), token.spec_bytes()),
        token@ == first_token_chars(buffer@),
        token@.len() <= buffer@.len(),
        token@ == buffer@.subrange(0, token@.len() as int),
{
    let bytes = buffer.as_bytes();
    let n = bytes.len();
    let mut i: usize = 0;
    while i < n
        invariant
            n == bytes@.len(),
            bytes@ == buffer.spec_bytes(),
            i <= n,
            forall|j: int| 0 <= j < i ==> bytes@[j] != SPACE,
        decreases n - i,
    {
        if bytes[i] == SPACE {
            proof {
                lemma_space_is_char_boundary(buffer.spec_bytes(), i as int);
            }
            let (head, _tail) = buffer.split_at(i);
            proof {
                lemma_token_found(buffer, head, i as int);
            }
            return head;
        }
        i = i + 1;
    }
    proof {
        assert(buffer.spec_bytes().subrange(0, n as int) =~= buffer.spec_bytes());
        lemma_token_found(buffer, buffer, n as int);
    }
    buffer
}

/// In valid UTF-8 a space byte always starts a character.
proof fn lemma_space_is_char_boundary(b: Seq<u8>, k: int)
    requires
        valid_utf8(b),
        0 <= k < b.len(),
        b[k] == SPACE,
    ensures
        is_char_boundary(b, k),
{
    assert(!is_continuation_byte(b[k]));
}

/// A prefix of `s` that ends at a space byte or at the end of `s`, holding no
/// space, is its first token, in bytes and in characters.
proof fn lemma_token_found(s: &str, head: &str, k: int)
    requires
        0 <= k <= s.spec_bytes().len(),
        head.spec_bytes() == s.spec_bytes().subrange(0, k),
        forall|j: int| 0 <= j < k ==> s.spec_bytes()[j] != SPACE,
        k == s.spec_bytes().len() || s.spec_bytes()[k] == SPACE,
    ensures
        head.spec_bytes() == first_token_bytes(s.spec_bytes()),
        is_first_token(s.spec_bytes(), head.spec_bytes()),
        head@ == first_token_chars(s@),
        head@.len() <= s@.len(),
        head@ == s@.subrange(0, head@.len() as int),
{
    let b = s.spec_bytes();
    let t = head.spec_bytes();
    assert(is_first_token(b, t)) by {
        assert(t.len() == k);
        assert forall|j: int| 0 <= j < t.len() implies t[j] != SPACE by {
            assert(t[j] == b[j]);
        }
    }
    lemma_first_token_bytes(b);
    assert(is_char_boundary(b, k)) by {
        if k < b.len() {
            lemma_space_is_char_boundary(b, k);
        }
    }
    let rest = b.subrange(k, b.len() as int);
    assert(decode_utf8(b) == decode_utf8(t) + decode_utf8(rest));
    assert(s@ == head@ + decode_utf8(rest));
    assert(head@ =~= s@.subrange(0, head@.len() as int));
    lemma_first_token_chars(s@);
    assert(decode_utf8(encode_utf8(first_token_chars(s@))) == first_token_chars(s@));
}

/// Two results of `first_token` on the same buffer agree, in bytes and in
/// characters: the tokenizer keeps no hidden state.
pub proof fn lemma_first_token_deterministic(buffer: &str, t1: &str, t2: &str)
    requires
        is_first_token(buffer.spec_bytes(), t1.spec_bytes()),
        is_first_token(buffer.spec_bytes(), t2.spec_bytes()),
    ensures
        t1.spec_bytes() == t2.spec_bytes(),
        t1@ == t2@,
{
    lemma_first_token_bytes(buffer.spec_bytes());
    assert(decode_utf8(t1.spec_bytes()) == t1@);
    assert(decode_utf8(t2.spec_bytes()) == t2@);
}

/// Taking the first token of a first token changes nothing.
pub proof fn lemma_first_token_of_token(b: Seq<u8>)
    ensures
        first_token_bytes(first_token_bytes(b)) == first_token_bytes(b),
{
    lemma_first_token_bytes(b);
    let t = first_token_bytes(b);
    lemma_first_token_bytes(t);
    assert(t.subrange(0, t.len() as int) =~= t);
    assert(is_first_token(t, t));
}

/// The error of a position outside `1..=len`.
#[derive(Clone, Copy, Debug, PartialEq, Eq, Structural)]
pub struct OutOfRangeError {
    /// The position that was asked for.
    pub position: usize,
    /// The length of the buffer it was asked of.
    pub len: usize,
}

/// Returns the element of `buffer` at the one-based `position`, or
/// `OutOfRangeError` when `position` is 0 or past the end.
pub fn index_by_one_based_position<T: Copy>(buffer: &[T], position: usize) -> (r: Result<
    T,
    OutOfRangeError,
>)
    ensures
        1 <= position <= buffer@.len() ==> r == Ok::<T, OutOfRangeError>(
            buffer@[position - 1],
        ),
        !(1 <= position <= buffer@.len()) ==> r == Err::<T, OutOfRangeError>(
            OutOfRangeError { position, len: buffer@.len() as usize },
        ),
{
    let len = buffer.len();
    if position < 1 || position > len {
        Err(OutOfRangeError { position, len })
    } else {
        Ok(buffer[position - 1])
    }
}

} // verus!
