//! The SCALE encoding, as far as the registry needs it.

use vstd::prelude::*;

verus! {

/// The low `width` bytes of `n`, the least significant one first.
pub open spec fn le_bytes(n: nat, width: nat) -> Seq<u8>
    decreases width,
{
    if width == 0 {
        Seq::empty()
    } else {
        seq![(n % 256) as u8] + le_bytes(n / 256, (width - 1) as nat)
    }
}

/// How the length of a collection is written in front of its items: in one, two, four or five
/// bytes, as the two low bits of the first byte tell.
pub open spec fn compact_len(n: nat) -> Seq<u8> {
    if n < 0x40 {
        le_bytes(4 * n, 1)
    } else if n < 0x4000 {
        le_bytes(4 * n + 1, 2)
    } else if n < 0x4000_0000 {
        le_bytes(4 * n + 2, 4)
    } else {
        seq![3u8] + le_bytes(n, 4)
    }
}

/// A list of bytes: its length, then the bytes.
pub open spec fn bytes_encoding(bytes: Seq<u8>) -> Seq<u8> {
    compact_len(bytes.len()) + bytes
}

/// The words of a list one after the other, four bytes each.
pub open spec fn words(list: Seq<u32>) -> Seq<u8>
    decreases list.len(),
{
    if list.len() == 0 {
        Seq::empty()
    } else {
        le_bytes(list[0] as nat, 4) + words(list.drop_first())
    }
}

/// A list of words: its length, then the words.
pub open spec fn words_encoding(list: Seq<u32>) -> Seq<u8> {
    compact_len(list.len()) + words(list)
}

/// `parity_scale_codec::Encode::encode` on a `u32`: its four bytes, little endian.
#[verifier::external_body]
pub(crate) fn encode_u32(value: u32) -> (r: Vec<u8>)
    ensures
        r@ == le_bytes(value as nat, 4),
{
    parity_scale_codec::Encode::encode(&value)
}

/// `parity_scale_codec::Encode::encode` on a `u64`: its eight bytes, little endian.
#[verifier::external_body]
pub(crate) fn encode_u64(value: u64) -> (r: Vec<u8>)
    ensures
        r@ == le_bytes(value as nat, 8),
{
    parity_scale_codec::Encode::encode(&value)
}

/// `parity_scale_codec::Encode::encode` on an array of thirty-two bytes: the bytes themselves.
#[verifier::external_body]
pub(crate) fn encode_block(block: &[u8; 32]) -> (r: Vec<u8>)
    ensures
        r@ == block@,
{
    parity_scale_codec::Encode::encode(block)
}

/// `parity_scale_codec::Encode::encode` on a vector of bytes: its length in the compact form, then
/// the bytes. The codec panics on a length beyond 32 bits.
#[verifier::external_body]
pub(crate) fn encode_bytes(bytes: &Vec<u8>) -> (r: Vec<u8>)
    requires
        bytes@.len() <= u32::MAX,
    ensures
        r@ == bytes_encoding(bytes@),
{
    parity_scale_codec::Encode::encode(bytes)
}

/// `parity_scale_codec::Encode::encode` on a vector of `u32`: its length in the compact form, then
/// each word in four bytes. The codec panics on a length beyond 32 bits.
#[verifier::external_body]
pub(crate) fn encode_words(list: &Vec<u32>) -> (r: Vec<u8>)
    requires
        list@.len() <= u32::MAX,
    ensures
        r@ == words_encoding(list@),
{
    parity_scale_codec::Encode::encode(list)
}

/// An account identifier: a plain value with an encoding that tells it from all others.
pub trait Account: Copy {
    spec fn encoding(self) -> Seq<u8>;

    fn encode(&self) -> (r: Vec<u8>)
        ensures
            r@ == self.encoding(),
    ;

    proof fn encoding_is_injective(a: Self, b: Self)
        requires
            a.encoding() == b.encoding(),
        ensures
            a == b,
    ;
}

impl Account for u64 {
    open spec fn encoding(self) -> Seq<u8> {
        le_bytes(self as nat, 8)
    }

    fn encode(&self) -> (r: Vec<u8>) {
        encode_u64(*self)
    }

    proof fn encoding_is_injective(a: Self, b: Self) {
        assert(0x1_0000_0000_0000_0000 == vstd::arithmetic::power::pow(256, 8)) by {
            reveal_with_fuel(vstd::arithmetic::power::pow, 9);
        }
        lemma_le_bytes_injective(a as nat, b as nat, 8);
    }
}

impl Account for [u8; 32] {
    open spec fn encoding(self) -> Seq<u8> {
        self@
    }

    fn encode(&self) -> (r: Vec<u8>) {
        encode_block(self)
    }

    proof fn encoding_is_injective(a: Self, b: Self) {
        assert(a =~= b);
    }
}

/// An optional account: a byte that tells whether there is one, then the account.
pub open spec fn option_encoding<A: Account>(account: Option<A>) -> Seq<u8> {
    match account {
        None => seq![0u8],
        Some(account) => seq![1u8] + account.encoding(),
    }
}

pub fn encode_option<A: Account>(account: &Option<A>) -> (r: Vec<u8>)
    ensures
        r@ == option_encoding(*account),
{
    let mut out: Vec<u8> = Vec::new();
    match account {
        None => {
            out.push(0u8);
        },
        Some(account) => {
            out.push(1u8);
            let mut tail = account.encode();
            out.append(&mut tail);
        },
    }
    assert(out@ =~= option_encoding(*account));
    out
}

pub proof fn lemma_le_bytes_len(n: nat, width: nat)
    ensures
        le_bytes(n, width).len() == width,
    decreases width,
{
    if width > 0 {
        lemma_le_bytes_len(n / 256, (width - 1) as nat);
    }
}

/// Numbers that fit the width are told apart by their bytes.
pub proof fn lemma_le_bytes_injective(a: nat, b: nat, width: nat)
    requires
        a < vstd::arithmetic::power::pow(256, width),
        b < vstd::arithmetic::power::pow(256, width),
        le_bytes(a, width) == le_bytes(b, width),
    ensures
        a == b,
    decreases width,
{
    reveal(vstd::arithmetic::power::pow);
    if width > 0 {
        let rest = (width - 1) as nat;
        lemma_le_bytes_len(a / 256, rest);
        lemma_le_bytes_len(b / 256, rest);
        assert(le_bytes(a, width)[0] == (a % 256) as u8);
        assert(le_bytes(b, width)[0] == (b % 256) as u8);
        assert(le_bytes(a, width).skip(1) =~= le_bytes(a / 256, rest));
        assert(le_bytes(b, width).skip(1) =~= le_bytes(b / 256, rest));
        lemma_le_bytes_injective(a / 256, b / 256, rest);
    }
}

/// What two sequences begin with is told apart from what follows by its length.
pub proof fn lemma_peel(a: Seq<u8>, a_rest: Seq<u8>, b: Seq<u8>, b_rest: Seq<u8>)
    requires
        a + a_rest == b + b_rest,
        a.len() == b.len(),
    ensures
        a == b,
        a_rest == b_rest,
{
    let all = a + a_rest;
    assert(a =~= all.take(a.len() as int));
    assert(b =~= (b + b_rest).take(a.len() as int));
    assert(a_rest =~= all.skip(a.len() as int));
    assert(b_rest =~= (b + b_rest).skip(a.len() as int));
}

/// The powers of 256 that bound the numbers of one, two and four bytes.
proof fn lemma_pow256()
    ensures
        vstd::arithmetic::power::pow(256, 1) == 0x100,
        vstd::arithmetic::power::pow(256, 2) == 0x1_0000,
        vstd::arithmetic::power::pow(256, 4) == 0x1_0000_0000,
{
    reveal_with_fuel(vstd::arithmetic::power::pow, 5);
}

/// The form in which a length is written, which its first byte tells.
proof fn lemma_compact_form(n: nat)
    requires
        n <= u32::MAX,
    ensures
        ({
            let form: int = if n < 0x40 {
                0
            } else if n < 0x4000 {
                1
            } else if n < 0x4000_0000 {
                2
            } else {
                3
            };
            let len: int = if n < 0x40 {
                1
            } else if n < 0x4000 {
                2
            } else if n < 0x4000_0000 {
                4
            } else {
                5
            };
            compact_len(n).len() == len && compact_len(n)[0] as int % 4 == form
        }),
{
    lemma_le_bytes_len(4 * n, 1);
    lemma_le_bytes_len(4 * n + 1, 2);
    lemma_le_bytes_len(4 * n + 2, 4);
    lemma_le_bytes_len(n, 4);
    assert(le_bytes(4 * n, 1)[0] == ((4 * n) % 256) as u8);
    assert(le_bytes(4 * n + 1, 2)[0] == ((4 * n + 1) % 256) as u8);
    assert(le_bytes(4 * n + 2, 4)[0] == ((4 * n + 2) % 256) as u8);
}

/// A length is told apart from what follows it.
pub proof fn lemma_compact_len_peel(a: nat, a_rest: Seq<u8>, b: nat, b_rest: Seq<u8>)
    requires
        a <= u32::MAX,
        b <= u32::MAX,
        compact_len(a) + a_rest == compact_len(b) + b_rest,
    ensures
        a == b,
        a_rest == b_rest,
{
    lemma_compact_form(a);
    lemma_compact_form(b);
    assert((compact_len(a) + a_rest)[0] == compact_len(a)[0]);
    assert((compact_len(b) + b_rest)[0] == compact_len(b)[0]);
    lemma_peel(compact_len(a), a_rest, compact_len(b), b_rest);
    lemma_pow256();
    if a < 0x40 {
        lemma_le_bytes_injective(4 * a, 4 * b, 1);
    } else if a < 0x4000 {
        lemma_le_bytes_injective(4 * a + 1, 4 * b + 1, 2);
    } else if a < 0x4000_0000 {
        lemma_le_bytes_injective(4 * a + 2, 4 * b + 2, 4);
    } else {
        lemma_peel(seq![3u8], le_bytes(a, 4), seq![3u8], le_bytes(b, 4));
        lemma_le_bytes_injective(a, b, 4);
    }
}

/// A list of bytes is told apart from what follows it.
pub proof fn lemma_bytes_encoding_peel(
    a: Seq<u8>,
    a_rest: Seq<u8>,
    b: Seq<u8>,
    b_rest: Seq<u8>,
)
    requires
        a.len() <= u32::MAX,
        b.len() <= u32::MAX,
        bytes_encoding(a) + a_rest == bytes_encoding(b) + b_rest,
    ensures
        a == b,
        a_rest == b_rest,
{
    assert(bytes_encoding(a) + a_rest =~= compact_len(a.len()) + (a + a_rest));
    assert(bytes_encoding(b) + b_rest =~= compact_len(b.len()) + (b + b_rest));
    lemma_compact_len_peel(a.len(), a + a_rest, b.len(), b + b_rest);
    lemma_peel(a, a_rest, b, b_rest);
}

/// Lists of as many words are told apart by their bytes, and from what follows.
proof fn lemma_words_peel(a: Seq<u32>, a_rest: Seq<u8>, b: Seq<u32>, b_rest: Seq<u8>)
    requires
        a.len() == b.len(),
        words(a) + a_rest == words(b) + b_rest,
    ensures
        a == b,
        a_rest == b_rest,
    decreases a.len(),
{
    if a.len() == 0 {
        assert(words(a) + a_rest =~= a_rest);
        assert(words(b) + b_rest =~= b_rest);
        assert(a =~= b);
    } else {
        let a_head = le_bytes(a[0] as nat, 4);
        let b_head = le_bytes(b[0] as nat, 4);
        lemma_le_bytes_len(a[0] as nat, 4);
        lemma_le_bytes_len(b[0] as nat, 4);
        assert(words(a) + a_rest =~= a_head + (words(a.drop_first()) + a_rest));
        assert(words(b) + b_rest =~= b_head + (words(b.drop_first()) + b_rest));
        lemma_peel(
            a_head,
            words(a.drop_first()) + a_rest,
            b_head,
            words(b.drop_first()) + b_rest,
        );
        lemma_words_peel(a.drop_first(), a_rest, b.drop_first(), b_rest);
        lemma_pow256();
        lemma_le_bytes_injective(a[0] as nat, b[0] as nat, 4);
        assert(a =~= seq![a[0]] + a.drop_first());
        assert(b =~= seq![b[0]] + b.drop_first());
    }
}

/// A list of words is told apart from what follows it.
pub proof fn lemma_words_encoding_peel(
    a: Seq<u32>,
    a_rest: Seq<u8>,
    b: Seq<u32>,
    b_rest: Seq<u8>,
)
    requires
        a.len() <= u32::MAX,
        b.len() <= u32::MAX,
        words_encoding(a) + a_rest == words_encoding(b) + b_rest,
    ensures
        a == b,
        a_rest == b_rest,
{
    assert(words_encoding(a) + a_rest =~= compact_len(a.len()) + (words(a) + a_rest));
    assert(words_encoding(b) + b_rest =~= compact_len(b.len()) + (words(b) + b_rest));
    lemma_compact_len_peel(a.len(), words(a) + a_rest, b.len(), words(b) + b_rest);
    lemma_words_peel(a, a_rest, b, b_rest);
}

/// A word is told apart from what follows it.
pub proof fn lemma_word_peel(a: u32, a_rest: Seq<u8>, b: u32, b_rest: Seq<u8>)
    requires
        le_bytes(a as nat, 4) + a_rest == le_bytes(b as nat, 4) + b_rest,
    ensures
        a == b,
        a_rest == b_rest,
{
    lemma_le_bytes_len(a as nat, 4);
    lemma_le_bytes_len(b as nat, 4);
    lemma_peel(le_bytes(a as nat, 4), a_rest, le_bytes(b as nat, 4), b_rest);
    lemma_pow256();
    lemma_le_bytes_injective(a as nat, b as nat, 4);
}

/// Optional accounts are told apart by their encoding.
pub proof fn lemma_option_encoding_injective<A: Account>(a: Option<A>, b: Option<A>)
    requires
        option_encoding(a) == option_encoding(b),
    ensures
        a == b,
{
    assert(option_encoding(a)[0] == if a is Some {
        1u8
    } else {
        0u8
    });
    assert(option_encoding(b)[0] == if b is Some {
        1u8
    } else {
        0u8
    });
    if let (Some(x), Some(y)) = (a, b) {
        lemma_peel(seq![1u8], x.encoding(), seq![1u8], y.encoding());
        A::encoding_is_injective(x, y);
    }
}

/// The bytes of a number are its digits to the base of 256, the lowest one first, as many as the
/// width tells.
pub proof fn law_bytes_are_digits(n: nat, width: nat)
    ensures
        le_bytes(n, width).len() == width,
        forall|i: int|
            #![trigger le_bytes(n, width)[i]]
            0 <= i < width ==> le_bytes(n, width)[i] as int == n as int
                / vstd::arithmetic::power::pow(256, i as nat) % 256,
    decreases width,
{
    lemma_le_bytes_len(n, width);
    if width > 0 {
        law_bytes_are_digits(n / 256, (width - 1) as nat);
        assert forall|i: int| #![trigger le_bytes(n, width)[i]] 0 <= i < width implies le_bytes(
            n,
            width,
        )[i] as int == n as int / vstd::arithmetic::power::pow(256, i as nat) % 256 by {
            if i == 0 {
                vstd::arithmetic::power::lemma_pow0(256);
                assert(le_bytes(n, width)[0] == (n % 256) as u8);
            } else {
                let less = (i - 1) as nat;
                let rest = vstd::arithmetic::power::pow(256, less);
                vstd::arithmetic::power::lemma_pow_positive(256, less);
                vstd::arithmetic::div_mod::lemma_div_denominator(n as int, 256, rest);
                assert(vstd::arithmetic::power::pow(256, i as nat) == 256 * rest) by {
                    reveal(vstd::arithmetic::power::pow);
                }
                assert(le_bytes(n, width)[i] == le_bytes(n / 256, (width - 1) as nat)[i - 1]);
            }
        }
    }
}

/// The four bytes of a word, the lowest one first.
pub proof fn law_word_bytes(word: u32)
    ensures
        ({
            let bytes = le_bytes(word as nat, 4);
            &&& bytes.len() == 4
            &&& bytes[0] + 0x100 * bytes[1] + 0x1_0000 * bytes[2] + 0x100_0000 * bytes[3] == word
        }),
{
    let n = word as nat;
    law_bytes_are_digits(n, 4);
    reveal_with_fuel(vstd::arithmetic::power::pow, 5);
    let bytes = le_bytes(n, 4);
    assert(bytes[0] as int == n as int % 256);
    assert(bytes[1] as int == n as int / 0x100 % 256);
    assert(bytes[2] as int == n as int / 0x1_0000 % 256);
    assert(bytes[3] as int == n as int / 0x100_0000 % 256);
}

/// A length is written in one, two, four or five bytes, the fewest that do. The two low bits of the
/// first byte are 0, 1 or 2 in the first three forms, in which the rest of the bits are the length,
/// the lowest byte first; in the last form the first byte is 3, and the length is in the other four.
pub proof fn law_length_is_compact(n: nat)
    requires
        n <= u32::MAX,
    ensures
        ({
            let bytes = compact_len(n);
            &&& n < 64 ==> bytes.len() == 1 && bytes[0] == 4 * n
            &&& 64 <= n < 0x4000 ==> bytes.len() == 2 && bytes[0] + 0x100 * bytes[1] == 4 * n + 1
            &&& 0x4000 <= n < 0x4000_0000 ==> bytes.len() == 4 && bytes[0] + 0x100 * bytes[1]
                + 0x1_0000 * bytes[2] + 0x100_0000 * bytes[3] == 4 * n + 2
            &&& 0x4000_0000 <= n ==> bytes.len() == 5 && bytes[0] == 3 && bytes[1] + 0x100
                * bytes[2] + 0x1_0000 * bytes[3] + 0x100_0000 * bytes[4] == n
        }),
{
    let bytes = compact_len(n);
    if n < 64 {
        lemma_le_bytes_len(4 * n, 1);
        assert(bytes[0] == ((4 * n) % 256) as u8);
    } else if n < 0x4000 {
        law_bytes_are_digits(4 * n + 1, 2);
        reveal_with_fuel(vstd::arithmetic::power::pow, 3);
        assert(bytes[0] as int == (4 * n + 1) % 256);
        assert(bytes[1] as int == (4 * n + 1) / 0x100 % 256);
    } else if n < 0x4000_0000 {
        law_word_bytes((4 * n + 2) as u32);
    } else {
        law_word_bytes(n as u32);
    }
}

/// The words of a list follow one another, four bytes each.
pub proof fn law_words_follow_one_another(list: Seq<u32>)
    ensures
        words(list).len() == 4 * list.len(),
        forall|k: int, j: int|
            #![trigger words(list)[4 * k + j]]
            0 <= k < list.len() && 0 <= j < 4 ==> words(list)[4 * k + j] == le_bytes(
                list[k] as nat,
                4,
            )[j],
    decreases list.len(),
{
    if list.len() > 0 {
        let rest = list.drop_first();
        law_words_follow_one_another(rest);
        lemma_le_bytes_len(list[0] as nat, 4);
        assert forall|k: int, j: int|
            #![trigger words(list)[4 * k + j]]
            0 <= k < list.len() && 0 <= j < 4 implies words(list)[4 * k + j] == le_bytes(
            list[k] as nat,
            4,
        )[j] by {
            if k > 0 {
                assert(words(list)[4 * k + j] == words(rest)[4 * (k - 1) + j]);
                assert(rest[k - 1] == list[k]);
            }
        }
    }
}

/// An account that is a number is written in eight bytes, the lowest one first, and one of
/// thirty-two bytes as these bytes.
pub proof fn law_account_bytes(number: u64, block: [u8; 32])
    ensures
        number.encoding().len() == 8,
        forall|i: int|
            #![trigger number.encoding()[i]]
            0 <= i < 8 ==> number.encoding()[i] as int == number as int
                / vstd::arithmetic::power::pow(256, i as nat) % 256,
        block.encoding().len() == 32,
        forall|i: int| #![trigger block.encoding()[i]] 0 <= i < 32 ==> block.encoding()[i] == block@[i],
{
    law_bytes_are_digits(number as nat, 8);
}

} // verus!
