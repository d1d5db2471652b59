//! Output of the sidecar as text. The sidecar writes bytes; they are read
//! as UTF-8, and what is no UTF-8 is replaced, never refused.

use vstd::prelude::*;
use vstd::utf8::*;

verus! {

/// The text that lossy decoding makes of `bytes`: what is well-formed UTF-8
/// is decoded, every ill-formed sequence gives way to U+FFFD.
pub uninterp spec fn lossy_utf8(bytes: Seq<u8>) -> Seq<char>;

/// The text that a line of output stands for: its decoding where the bytes
/// are valid UTF-8, else what lossy decoding makes of them.
pub open spec fn decoded(bytes: Seq<u8>) -> Seq<char> {
    if valid_utf8(bytes) {
        decode_utf8(bytes)
    } else {
        lossy_utf8(bytes)
    }
}

/// `String::from_utf8_lossy`, with its result owned. Trusted: the text
/// returned depends on the bytes alone, and on valid UTF-8 it is the text
/// that the bytes encode.
#[verifier::external_body]
pub(crate) fn decode_lossy(bytes: &[u8]) -> (text: String)
    ensures
        text@ == lossy_utf8(bytes@),
        valid_utf8(bytes@) ==> text@ == decode_utf8(bytes@),
{
    String::from_utf8_lossy(bytes).into_owned()
}

/// A text, encoded as UTF-8, is decoded as itself.
pub proof fn lemma_decoded_encoding(text: Seq<char>)
    ensures
        decoded(encode_utf8(text)) == text,
{
    encode_utf8_valid_utf8(text);
    encode_utf8_decode_utf8(text);
}

/// Two texts joined are encoded as their encodings joined.
pub proof fn lemma_encoding_of_joined(first: Seq<char>, second: Seq<char>)
    ensures
        encode_utf8(first + second) == encode_utf8(first) + encode_utf8(second),
    decreases first.len(),
{
    if first.len() == 0 {
        assert(first + second =~= second);
        assert(encode_utf8(first) + encode_utf8(second) =~= encode_utf8(second));
    } else {
        assert((first + second).drop_first() =~= first.drop_first() + second);
        lemma_encoding_of_joined(first.drop_first(), second);
        assert(encode_utf8(first + second) =~= encode_utf8(first) + encode_utf8(second));
    }
}

/// A line of valid UTF-8 whose text starts with `prefix` starts with the
/// bytes that encode `prefix`.
pub proof fn lemma_prefix_of_decoded(prefix: Seq<char>, line: Seq<u8>)
    requires
        valid_utf8(line),
        prefix.is_prefix_of(decoded(line)),
    ensures
        encode_utf8(prefix).is_prefix_of(line),
{
    let text = decoded(line);
    let rest = text.skip(prefix.len() as int);
    assert(text =~= prefix + rest);
    decode_utf8_encode_utf8(line);
    lemma_encoding_of_joined(prefix, rest);
    assert(line.subrange(0, encode_utf8(prefix).len() as int) =~= encode_utf8(prefix));
}

} // verus!
