//! Standard base64 with padding, as the `base64` crate writes it.

use vstd::prelude::*;

verus! {

/// The standard alphabet: the character at index `v` stands for the six-bit
/// value `v`.
pub open spec fn alphabet() -> Seq<char> {
    "ABCDEFGHIJKLMNOPQRSTUVWXYZabcdefghijklmnopqrstuvwxyz0123456789+/"@
}

/// The padding character.
pub open spec fn pad() -> char {
    '='
}

/// The 24-bit value of the first group of `data`, missing bytes taken as zero.
pub open spec fn group_value(data: Seq<u8>) -> int {
    data[0] as int * 65536 + (if data.len() > 1 {
        data[1] as int * 256
    } else {
        0
    }) + (if data.len() > 2 {
        data[2] as int
    } else {
        0
    })
}

/// The four characters that encode the first group of a non-empty `data`:
/// one per six bits, most significant first, with padding where the group has
/// fewer than three bytes.
pub open spec fn encode_group(data: Seq<u8>) -> Seq<char> {
    let n = group_value(data);
    seq![
        alphabet()[n / 262144],
        alphabet()[(n / 4096) % 64],
        if data.len() > 1 { alphabet()[(n / 64) % 64] } else { pad() },
        if data.len() > 2 { alphabet()[n % 64] } else { pad() },
    ]
}

/// The standard base64 text of `data`: groups of three bytes, each written as
/// four characters.
pub open spec fn base64_standard(data: Seq<u8>) -> Seq<char>
    decreases data.len(),
{
    if data.len() == 0 {
        Seq::empty()
    } else if data.len() <= 3 {
        encode_group(data)
    } else {
        encode_group(data.take(3)) + base64_standard(data.skip(3))
    }
}

/// The alphabet has 64 distinct characters, none of which is the padding.
pub proof fn lemma_alphabet_distinct()
    ensures
        alphabet().len() == 64,
        forall|i: int| 0 <= i < 64 ==> #[trigger] alphabet()[i] != pad(),
        forall|i: int, j: int|
            0 <= i < 64 && 0 <= j < 64 && #[trigger] alphabet()[i] == #[trigger] alphabet()[j]
                ==> i == j,
{
    reveal_strlit("ABCDEFGHIJKLMNOPQRSTUVWXYZabcdefghijklmnopqrstuvwxyz0123456789+/");
    let code = |i: int| alphabet()[i] as int;
    assert forall|i: int| 0 <= i < 64 implies #[trigger] code(i) == (if i < 26 {
        65 + i
    } else if i < 52 {
        71 + i
    } else if i < 62 {
        i - 4
    } else if i == 62 {
        43
    } else {
        47
    }) by {}
    assert forall|i: int| 0 <= i < 64 implies #[trigger] alphabet()[i] != pad() by {
        assert(code(i) != 61);
    }
    assert forall|i: int, j: int|
        0 <= i < 64 && 0 <= j < 64 && #[trigger] alphabet()[i] == #[trigger] alphabet()[j]
        implies i == j by {
        assert(code(i) == code(j));
    }
}

/// Four six-bit digits determine a 24-bit value.
proof fn lemma_digits_determine(n: int, m: int)
    requires
        0 <= n < 16777216,
        0 <= m < 16777216,
        n / 262144 == m / 262144,
        (n / 4096) % 64 == (m / 4096) % 64,
        (n / 64) % 64 == (m / 64) % 64,
        n % 64 == m % 64,
    ensures
        n == m,
{
}

/// The characters of an encoded group, one by one.
proof fn lemma_group_chars(data: Seq<u8>)
    requires
        1 <= data.len() <= 3,
    ensures
        encode_group(data).len() == 4,
        encode_group(data)[0] == alphabet()[group_value(data) / 262144],
        encode_group(data)[1] == alphabet()[(group_value(data) / 4096) % 64],
        encode_group(data)[2] == (if data.len() > 1 {
            alphabet()[(group_value(data) / 64) % 64]
        } else {
            pad()
        }),
        encode_group(data)[3] == (if data.len() > 2 {
            alphabet()[group_value(data) % 64]
        } else {
            pad()
        }),
        0 <= group_value(data) < 16777216,
{
}

/// Two first groups with the same four characters hold the same bytes.
pub proof fn lemma_group_injective(a: Seq<u8>, b: Seq<u8>)
    requires
        1 <= a.len() <= 3,
        1 <= b.len() <= 3,
        encode_group(a) == encode_group(b),
    ensures
        a == b,
{
    lemma_alphabet_distinct();
    lemma_group_chars(a);
    lemma_group_chars(b);
    let n = group_value(a);
    let m = group_value(b);
    assert(alphabet()[n / 262144] == alphabet()[m / 262144]);
    assert(alphabet()[(n / 4096) % 64] == alphabet()[(m / 4096) % 64]);
    // A padding character tells a short group from a full one.
    assert(a.len() > 1 <==> b.len() > 1) by {
        assert(alphabet()[(n / 64) % 64] != pad() && alphabet()[(m / 64) % 64] != pad());
    }
    assert(a.len() > 2 <==> b.len() > 2) by {
        assert(alphabet()[n % 64] != pad() && alphabet()[m % 64] != pad());
    }
    if a.len() > 1 {
        assert(alphabet()[(n / 64) % 64] == alphabet()[(m / 64) % 64]);
    }
    if a.len() > 2 {
        assert(alphabet()[n % 64] == alphabet()[m % 64]);
    }
    lemma_digits_determine(n, m);
    assert(a =~= b);
}

/// The encoded text is made of whole groups of four characters, at least one
/// for a non-empty input.
pub proof fn lemma_base64_len(data: Seq<u8>)
    ensures
        data.len() > 0 ==> base64_standard(data).len() >= 4,
        base64_standard(data).len() % 4 == 0,
    decreases data.len(),
{
    if data.len() == 0 {
    } else if data.len() <= 3 {
        lemma_group_chars(data);
    } else {
        lemma_group_chars(data.take(3));
        lemma_base64_len(data.skip(3));
    }
}

/// Standard base64 loses nothing: equal texts come from equal bytes.
pub proof fn lemma_base64_injective(a: Seq<u8>, b: Seq<u8>)
    requires
        base64_standard(a) == base64_standard(b),
    ensures
        a == b,
    decreases a.len(),
{
    lemma_base64_len(a);
    lemma_base64_len(b);
    if a.len() == 0 || b.len() == 0 {
        assert(a =~= b);
    } else if a.len() <= 3 && b.len() <= 3 {
        lemma_group_injective(a, b);
    } else if a.len() > 3 && b.len() > 3 {
        let ea = base64_standard(a);
        let eb = base64_standard(b);
        lemma_group_chars(a.take(3));
        lemma_group_chars(b.take(3));
        assert(encode_group(a.take(3)) =~= ea.take(4));
        assert(encode_group(b.take(3)) =~= eb.take(4));
        assert(base64_standard(a.skip(3)) =~= ea.skip(4));
        assert(base64_standard(b.skip(3)) =~= eb.skip(4));
        lemma_group_injective(a.take(3), b.take(3));
        lemma_base64_injective(a.skip(3), b.skip(3));
        assert(a =~= a.take(3) + a.skip(3));
        assert(b =~= b.take(3) + b.skip(3));
    } else if a.len() > 3 {
        lemma_group_chars(a.take(3));
        lemma_group_chars(b);
        lemma_base64_len(a.skip(3));
    } else {
        lemma_group_chars(b.take(3));
        lemma_group_chars(a);
        lemma_base64_len(b.skip(3));
    }
}

/// Calls `base64::engine::general_purpose::STANDARD.encode`. Trusted: the
/// result is the padded standard-alphabet encoding of `data`. The bound keeps
/// the encoded length inside `usize`, beyond which the crate panics.
#[verifier::external_body]
pub(crate) fn encode_standard(data: &[u8]) -> (res: String)
    requires
        data@.len() <= 0x3000_0000,
    ensures
        res@ == base64_standard(data@),
{
    base64::Engine::encode(&base64::engine::general_purpose::STANDARD, data)
}

} // verus!
