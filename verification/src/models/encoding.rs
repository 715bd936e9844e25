use vstd::prelude::*;
use vstd::string::{StrSliceExecFns, StringSliceAdditionalSpecFns};
use vstd::utf8::{decode_utf8, encode_utf8, valid_utf8};

use crate::codec::{
    base64_bytes, base64_encodes, base64_standard_error, base64_text, base64_url_error,
    decode_base64_standard, decode_base64_url, encode_base64_standard, encode_base64_url,
    hex_decode, hex_encode, hex_error_text, hex_pairs, hex_text, percent_decode_bytes,
    percent_decoded, percent_encode_bytes, percent_text, text_from_utf8, utf8_error_text,
};
use crate::codec::{
    ascii_bytes, lemma_base64_reads_back, lemma_base64_text_injective, lemma_hex_text_reads_back,
    lemma_percent_text_reads_back,
};
use crate::text::{concat, lemma_trim_without_whitespace, owned, str_eq, trim, trim_spec};

verus! {

/// The encoded form of `input` (as UTF-8 bytes) in the encoding `kind`
/// names: `base64`, `base64url`, `hex` or `url`; anything else means
/// `base64`.
pub open spec fn encoded_text(kind: Seq<char>, input: Seq<char>) -> Seq<char> {
    let b = encode_utf8(input);
    if kind == "base64"@ {
        base64_text(b, false)
    } else if kind == "base64url"@ {
        base64_text(b, true)
    } else if kind == "hex"@ {
        hex_text(b)
    } else if kind == "url"@ {
        percent_text(b)
    } else {
        base64_text(b, false)
    }
}

/// The text that decoded bytes read as: the text if they are UTF-8, else
/// the error.
pub open spec fn utf8_outcome(b: Seq<u8>) -> Result<Seq<char>, Seq<char>> {
    if valid_utf8(b) {
        Ok(decode_utf8(b))
    } else {
        Err("Invalid UTF-8: "@ + utf8_error_text(b))
    }
}

/// What decoding `input` (trimmed) in the encoding `kind` names gives: the
/// text, or the error shown.
pub open spec fn decoded_text(kind: Seq<char>, input: Seq<char>) -> Result<Seq<char>, Seq<char>> {
    let t = trim_spec(input);
    let b = encode_utf8(t);
    if kind == "base64"@ {
        if base64_encodes(t, false) {
            utf8_outcome(base64_bytes(t, false))
        } else {
            Err("Invalid Base64: "@ + base64_standard_error(t))
        }
    } else if kind == "base64url"@ {
        if base64_encodes(t, true) {
            utf8_outcome(base64_bytes(t, true))
        } else {
            Err("Invalid Base64 URL: "@ + base64_url_error(t))
        }
    } else if kind == "hex"@ {
        if b.len() % 2 == 1 {
            Err("Invalid Hex: "@ + "Odd number of digits"@)
        } else {
            match hex_pairs(b) {
                Some(bytes) => utf8_outcome(bytes),
                None => Err("Invalid Hex: "@ + hex_error_text(b)),
            }
        }
    } else if kind == "url"@ {
        let bytes = percent_decoded(b);
        if valid_utf8(bytes) {
            Ok(decode_utf8(bytes))
        } else {
            Err("Invalid URL encoding: "@ + utf8_error_text(bytes))
        }
    } else {
        Err("Unknown encoding type"@)
    }
}

/// State of the encoder and decoder.
#[derive(Debug, Clone)]
pub struct EncodingModel {
    pub input: String,
    pub output: String,
    pub encoding_type: String,
    pub error_message: String,
}

/// Read decoded bytes as UTF-8 text, reporting invalid bytes.
fn utf8_or_error(bytes: Vec<u8>) -> (r: Result<String, String>)
    ensures
        match r {
            Ok(s) => utf8_outcome(bytes@) == Ok::<Seq<char>, Seq<char>>(s@),
            Err(m) => utf8_outcome(bytes@) == Err::<Seq<char>, Seq<char>>(m@),
        },
{
    match text_from_utf8(bytes) {
        Ok(s) => Ok(s),
        Err(e) => Err(concat("Invalid UTF-8: ", e.as_str())),
    }
}

impl EncodingModel {
    /// An empty model.
    pub fn new() -> (r: Self)
        ensures
            r.input@.len() == 0 && r.output@.len() == 0,
            r.encoding_type@.len() == 0 && r.error_message@.len() == 0,
    {
        EncodingModel { input: String::new(), output: String::new(), encoding_type: String::new(), error_message: String::new() }
    }

    /// Encode the input in the selected encoding.
    pub fn encode(&mut self)
        ensures
            final(self).error_message@.len() == 0,
            old(self).input@.len() == 0 ==> final(self).output@.len() == 0,
            old(self).input@.len() > 0 ==> final(self).output@ == encoded_text(old(self).encoding_type@, old(self).input@),
            *final(self) == (EncodingModel { output: final(self).output, error_message: final(self).error_message, ..*old(self) }),
    {
        self.error_message = String::new();
        self.output = String::new();
        let input = self.input.as_str();
        if input.unicode_len() == 0 {
            return;
        }
        let bytes = input.as_bytes();
        let kind = self.encoding_type.as_str();
        let result = if str_eq(kind, "base64") {
            encode_base64_standard(bytes)
        } else if str_eq(kind, "base64url") {
            encode_base64_url(bytes)
        } else if str_eq(kind, "hex") {
            hex_encode(bytes)
        } else if str_eq(kind, "url") {
            percent_encode_bytes(bytes)
        } else {
            encode_base64_standard(bytes)
        };
        self.output = result;
    }

    /// Decode the (trimmed) input from the selected encoding into text.
    pub fn decode(&mut self)
        ensures
            old(self).input@.len() == 0 ==> final(self).output@.len() == 0 && final(self).error_message@.len() == 0,
            old(self).input@.len() > 0 ==> match decoded_text(old(self).encoding_type@, old(self).input@) {
                Ok(t) => final(self).output@ == t && final(self).error_message@.len() == 0,
                Err(m) => final(self).output@.len() == 0 && final(self).error_message@ == m,
            },
            *final(self) == (EncodingModel { output: final(self).output, error_message: final(self).error_message, ..*old(self) }),
    {
        self.error_message = String::new();
        self.output = String::new();
        if self.input.as_str().unicode_len() == 0 {
            return;
        }
        let t = trim(self.input.as_str());
        let kind = self.encoding_type.as_str();
        let result: Result<String, String> = if str_eq(kind, "base64") {
            match decode_base64_standard(t) {
                Ok(bytes) => {
                    proof {
                        lemma_base64_reads_back(bytes@, false);
                    }
                    utf8_or_error(bytes)
                },
                Err(e) => Err(concat("Invalid Base64: ", e.as_str())),
            }
        } else if str_eq(kind, "base64url") {
            match decode_base64_url(t) {
                Ok(bytes) => {
                    proof {
                        lemma_base64_reads_back(bytes@, true);
                    }
                    utf8_or_error(bytes)
                },
                Err(e) => Err(concat("Invalid Base64 URL: ", e.as_str())),
            }
        } else if str_eq(kind, "hex") {
            match hex_decode(t) {
                Ok(bytes) => utf8_or_error(bytes),
                Err(e) => Err(concat("Invalid Hex: ", e.as_str())),
            }
        } else if str_eq(kind, "url") {
            let bytes = percent_decode_bytes(t);
            match text_from_utf8(bytes) {
                Ok(s) => Ok(s),
                Err(e) => Err(concat("Invalid URL encoding: ", e.as_str())),
            }
        } else {
            Err(owned("Unknown encoding type"))
        };
        match result {
            Ok(s) => self.output = s,
            Err(m) => self.error_message = m,
        }
    }

    /// Move the output to the input, ready to be transformed back.
    pub fn swap(&mut self)
        ensures
            final(self).input@ == old(self).output@,
            final(self).output@.len() == 0,
            final(self).error_message@.len() == 0,
            final(self).encoding_type == old(self).encoding_type,
    {
        let out = owned(self.output.as_str());
        self.input = out;
        self.output = String::new();
        self.error_message = String::new();
    }

    /// Empty the input, the output and the error.
    pub fn clear(&mut self)
        ensures
            final(self).input@.len() == 0,
            final(self).output@.len() == 0,
            final(self).error_message@.len() == 0,
            final(self).encoding_type == old(self).encoding_type,
    {
        self.input = String::new();
        self.output = String::new();
        self.error_message = String::new();
    }
}

/// Decoding gives back the text that encoding wrote: for every text and
/// each of the four encodings (`base64`, `base64url`, `hex`, `url`),
/// encoding the text and decoding the result in the same encoding yields
/// the text.
pub proof fn lemma_decode_inverts_encode(kind: Seq<char>, t: Seq<char>)
    requires
        kind == "base64"@ || kind == "base64url"@ || kind == "hex"@ || kind == "url"@,
    ensures
        decoded_text(kind, encoded_text(kind, t)) == Ok::<Seq<char>, Seq<char>>(t),
{
    reveal_strlit("hex");
    reveal_strlit("url");
    reveal_strlit("base64");
    reveal_strlit("base64url");
    assert("hex"@.len() == 3 && "url"@.len() == 3 && "base64"@.len() == 6 && "base64url"@.len() == 9);
    assert("hex"@ != "url"@) by {
        assert("hex"@[0] != "url"@[0]);
    }
    let b = encode_utf8(t);
    vstd::utf8::encode_utf8_valid_utf8(t);
    vstd::utf8::encode_utf8_decode_utf8(t);
    if kind == "base64"@ || kind == "base64url"@ {
        let u = kind == "base64url"@;
        let e = base64_text(b, u);
        lemma_base64_text_injective(b, b, u);
        lemma_base64_reads_back(b, u);
        lemma_trim_without_whitespace(e);
        assert(encoded_text(kind, t) == e);
    } else if kind == "hex"@ {
        let e = hex_text(b);
        lemma_hex_text_reads_back(b);
        lemma_trim_without_whitespace(e);
        vstd::utf8::is_ascii_chars_encode_utf8(e);
        assert(encode_utf8(e) =~= ascii_bytes(e));
        assert(encoded_text(kind, t) == e);
    } else {
        let e = crate::codec::percent_text(b);
        lemma_percent_text_reads_back(b);
        lemma_trim_without_whitespace(e);
        vstd::utf8::is_ascii_chars_encode_utf8(e);
        assert(encode_utf8(e) =~= ascii_bytes(e));
        assert(encoded_text(kind, t) == e);
    }
}

} // verus!
