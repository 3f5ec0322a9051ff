//! The text form of a paging state: standard base64, as the client sees it.

use vstd::prelude::*;

use base64::Engine;

verus! {

/// The character of the standard base64 alphabet for a 6-bit value.
pub open spec fn base64_digit(n: int) -> char {
    if n < 26 {
        (('A' as int) + n) as char
    } else if n < 52 {
        (('a' as int) + n - 26) as char
    } else if n < 62 {
        (('0' as int) + n - 52) as char
    } else if n == 62 {
        '+'
    } else {
        '/'
    }
}

/// Standard padded base64 of the bytes: each group of three bytes, read as
/// 24 bits most significant first, becomes four characters of 6 bits each; a
/// last group of one or two bytes is padded with zero bits and completed
/// with `=` to four characters.
pub open spec fn base64_standard_encoding(bytes: Seq<u8>) -> Seq<char>
    decreases bytes.len(),
{
    if bytes.len() == 0 {
        Seq::empty()
    } else {
        let b0 = bytes[0] as int;
        if bytes.len() == 1 {
            seq![base64_digit(b0 / 4), base64_digit((b0 % 4) * 16), '=', '=']
        } else {
            let b1 = bytes[1] as int;
            if bytes.len() == 2 {
                seq![
                    base64_digit(b0 / 4),
                    base64_digit((b0 % 4) * 16 + b1 / 16),
                    base64_digit((b1 % 16) * 4),
                    '=',
                ]
            } else {
                let b2 = bytes[2] as int;
                seq![
                    base64_digit(b0 / 4),
                    base64_digit((b0 % 4) * 16 + b1 / 16),
                    base64_digit((b1 % 16) * 4 + b2 / 64),
                    base64_digit(b2 % 64),
                ] + base64_standard_encoding(bytes.subrange(3, bytes.len() as int))
            }
        }
    }
}

/// Distinct 6-bit values have distinct base64 characters, none of them the
/// padding character `=`.
proof fn lemma_digit_injective(n: int, m: int)
    requires
        0 <= n < 64,
        0 <= m < 64,
    ensures
        base64_digit(n) != '=',
        base64_digit(n) == base64_digit(m) ==> n == m,
{
    let cn = base64_digit(n) as int;
    let cm = base64_digit(m) as int;
    assert(cn == if n < 26 { 65 + n } else if n < 52 { 97 + n - 26 } else if n < 62 { 48 + n - 52 } else if n == 62 { 43 } else { 47 });
    assert(cm == if m < 26 { 65 + m } else if m < 52 { 97 + m - 26 } else if m < 62 { 48 + m - 52 } else if m == 62 { 43 } else { 47 });
}

/// The first four characters of the encoding of non-empty bytes, and where
/// padding stands in them: the third is `=` exactly for one byte, the fourth
/// exactly for one or two.
proof fn lemma_first_group(a: Seq<u8>)
    requires
        a.len() > 0,
    ensures
        base64_standard_encoding(a).len() >= 4,
        base64_standard_encoding(a)[0] == base64_digit(a[0] as int / 4),
        a.len() == 1 ==> base64_standard_encoding(a)[1] == base64_digit((a[0] as int % 4) * 16),
        a.len() > 1 ==> base64_standard_encoding(a)[1] == base64_digit(
            (a[0] as int % 4) * 16 + a[1] as int / 16,
        ),
        a.len() == 1 ==> base64_standard_encoding(a)[2] == '=',
        a.len() == 2 ==> base64_standard_encoding(a)[2] == base64_digit((a[1] as int % 16) * 4),
        a.len() > 2 ==> base64_standard_encoding(a)[2] == base64_digit(
            (a[1] as int % 16) * 4 + a[2] as int / 64,
        ),
        a.len() <= 2 ==> base64_standard_encoding(a)[3] == '=',
        a.len() > 2 ==> base64_standard_encoding(a)[3] == base64_digit(a[2] as int % 64),
        a.len() <= 3 ==> base64_standard_encoding(a).len() == 4,
        a.len() >= 3 ==> base64_standard_encoding(a).subrange(
            4,
            base64_standard_encoding(a).len() as int,
        ) == base64_standard_encoding(a.subrange(3, a.len() as int)),
{
    let e = base64_standard_encoding(a);
    if a.len() >= 3 {
        let rest = base64_standard_encoding(a.subrange(3, a.len() as int));
        assert(e.subrange(4, e.len() as int) =~= rest);
        if a.len() == 3 {
            assert(a.subrange(3, 3) =~= Seq::<u8>::empty());
        }
    }
}

/// Different bytes have different standard base64 encodings.
pub proof fn lemma_encoding_injective(a: Seq<u8>, b: Seq<u8>)
    requires
        base64_standard_encoding(a) == base64_standard_encoding(b),
    ensures
        a == b,
    decreases a.len(),
{
    let e = base64_standard_encoding(a);
    if a.len() == 0 || b.len() == 0 {
        if a.len() > 0 {
            lemma_first_group(a);
        }
        if b.len() > 0 {
            lemma_first_group(b);
        }
        assert(a =~= b);
    } else {
        lemma_first_group(a);
        lemma_first_group(b);
        let a0 = a[0];
        let b0 = b[0];
        assert(a0 as int / 4 == b0 as int / 4) by {
            lemma_digit_injective(a0 as int / 4, b0 as int / 4);
        }
        // Where the padding stands fixes how many bytes the first group has.
        if a.len() == 1 {
            lemma_digit_injective(0, 0);
            if b.len() >= 2 {
                lemma_digit_injective((b[1] as int % 16) * 4 + if b.len() > 2 { b[2] as int / 64 } else { 0 }, 0);
            }
        }
        if b.len() == 1 && a.len() >= 2 {
            lemma_digit_injective((a[1] as int % 16) * 4 + if a.len() > 2 { a[2] as int / 64 } else { 0 }, 0);
        }
        if a.len() == 2 && b.len() > 2 {
            lemma_digit_injective(b[2] as int % 64, 0);
        }
        if b.len() == 2 && a.len() > 2 {
            lemma_digit_injective(a[2] as int % 64, 0);
        }
        let ka: int = if a.len() >= 3 { 3 } else { a.len() as int };
        let kb: int = if b.len() >= 3 { 3 } else { b.len() as int };
        assert(ka == kb);
        if ka == 1 {
            lemma_digit_injective((a0 as int % 4) * 16, (b0 as int % 4) * 16);
            assert(a0 == b0);
            assert(a =~= b);
        } else {
            let a1 = a[1];
            let b1 = b[1];
            lemma_digit_injective(
                (a0 as int % 4) * 16 + a1 as int / 16,
                (b0 as int % 4) * 16 + b1 as int / 16,
            );
            if ka == 2 {
                lemma_digit_injective((a1 as int % 16) * 4, (b1 as int % 16) * 4);
                assert(a0 == b0 && a1 == b1) by (bit_vector)
                    requires
                        a0 / 4 == b0 / 4,
                        (a0 % 4) * 16 + a1 / 16 == (b0 % 4) * 16 + b1 / 16,
                        (a1 % 16) * 4 == (b1 % 16) * 4,
                ;
                assert(a =~= b);
            } else {
                let a2 = a[2];
                let b2 = b[2];
                lemma_digit_injective(
                    (a1 as int % 16) * 4 + a2 as int / 64,
                    (b1 as int % 16) * 4 + b2 as int / 64,
                );
                lemma_digit_injective(a2 as int % 64, b2 as int % 64);
                assert(a0 == b0 && a1 == b1 && a2 == b2) by (bit_vector)
                    requires
                        a0 / 4 == b0 / 4,
                        (a0 % 4) * 16 + a1 / 16 == (b0 % 4) * 16 + b1 / 16,
                        (a1 % 16) * 4 + a2 / 64 == (b1 % 16) * 4 + b2 / 64,
                        a2 % 64 == b2 % 64,
                ;
                let ra = a.subrange(3, a.len() as int);
                let rb = b.subrange(3, b.len() as int);
                lemma_encoding_injective(ra, rb);
                assert(a =~= seq![a0, a1, a2] + ra);
                assert(b =~= seq![b0, b1, b2] + rb);
            }
        }
    }
}

/// What `base64::engine::general_purpose::STANDARD.decode` gives for the
/// bytes of this text: the decoded bytes, or the message of its
/// `DecodeError`.
pub uninterp spec fn base64_standard_decoding(text: Seq<char>) -> Result<Seq<u8>, Seq<char>>;

/// A decoding outcome taken by value.
pub open spec fn decoded_view(r: Result<Vec<u8>, String>) -> Result<Seq<u8>, Seq<char>> {
    match r {
        Ok(b) => Ok(b@),
        Err(e) => Err(e@),
    }
}

/// Calls `STANDARD.encode` (padded standard alphabet) on the bytes. Its
/// buffer-size computation cannot overflow for inputs of at most
/// `isize::MAX` bytes, which `requires` asks. The contract claims that the
/// text is the padded standard base64 of the bytes, as the crate documents
/// for `STANDARD`.
#[verifier::external_body]
pub(crate) fn encode_standard(bytes: &[u8]) -> (r: String)
    requires
        bytes@.len() <= isize::MAX,
    ensures
        r@ == base64_standard_encoding(bytes@),
{
    base64::engine::general_purpose::STANDARD.encode(bytes)
}

/// Calls `STANDARD.decode` on the bytes of the text, turning its
/// `DecodeError` into its message. The contract claims that the outcome is
/// what the decoder gives for these bytes, and, since `STANDARD` decodes
/// canonical padded text only (padding `RequireCanonical`, no trailing
/// bits), that it succeeds exactly on the texts that are the encoding of
/// some bytes, giving those bytes.
#[verifier::external_body]
pub(crate) fn decode_standard(text: &str) -> (r: Result<Vec<u8>, String>)
    ensures
        decoded_view(r) == base64_standard_decoding(text@),
        match r {
            Ok(b) => base64_standard_encoding(b@) == text@,
            Err(_) => forall|b: Seq<u8>| #[trigger] base64_standard_encoding(b) != text@,
        },
{
    match base64::engine::general_purpose::STANDARD.decode(text.as_bytes()) {
        Ok(b) => Ok(b),
        Err(e) => Err(e.to_string()),
    }
}

} // verus!
