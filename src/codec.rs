//! Pure conversions from a byte snapshot to a read result.
use encoding_rs::Encoding;
use mime::Mime;
use vstd::prelude::*;
use vstd::string::*;

verus! {

#[verifier::external_type_specification]
#[verifier::external_body]
pub struct ExEncoding(Encoding);

/// The encoding that a label names, as `Encoding::for_label` finds it.
pub uninterp spec fn encoding_for_label(label: Seq<char>) -> Option<&'static Encoding>;

/// The text that `Encoding::decode` makes of `bytes`, malformed sequences replaced.
pub uninterp spec fn decoded_text(encoding: &'static Encoding, bytes: Seq<u8>) -> Seq<char>;

/// Relies on `encoding_rs::Encoding::for_label`: a table lookup of the label
/// (ASCII case and surrounding whitespace ignored).
#[verifier::external_body]
fn lookup_label(label: &str) -> (r: Option<&'static Encoding>)
    ensures
        r == encoding_for_label(label@),
{
    Encoding::for_label(label.as_bytes())
}

/// Relies on `encoding_rs::UTF_8`, which `Encoding::for_label` gives for "utf-8".
#[verifier::external_body]
fn utf8_encoding() -> (r: &'static Encoding)
    ensures
        encoding_for_label(seq!['u', 't', 'f', '-', '8']) == Some(r),
{
    encoding_rs::UTF_8
}

/// Relies on `encoding_rs::Encoding::decode`, which never fails: malformed
/// sequences become U+FFFD.
#[verifier::external_body]
fn decode_bytes(encoding: &'static Encoding, bytes: &[u8]) -> (r: String)
    ensures
        r@ == decoded_text(encoding, bytes@),
{
    encoding.decode(bytes).0.into_owned()
}

/// The `charset` parameter of a MIME type string, if the string parses as
/// a MIME type and carries one.
pub uninterp spec fn mime_charset(mime_type: Seq<char>) -> Option<Seq<char>>;

/// Relies on `mime::Mime`'s `FromStr` and `Mime::get_param(mime::CHARSET)`:
/// parse the string as a media type and take the value of its first
/// `charset` parameter.
#[verifier::external_body]
fn charset_param(mime_type: &str) -> (r: Option<String>)
    ensures
        match r {
            Some(c) => mime_charset(mime_type@) == Some(c@),
            None => mime_charset(mime_type@) is None,
        },
{
    mime_type.parse::<Mime>().ok().and_then(|m| m.get_param(mime::CHARSET).map(|v| v.as_str().to_string()))
}

/// The standard base64 encoding (with padding) of a byte sequence.
pub uninterp spec fn base64_of(bytes: Seq<u8>) -> Seq<char>;

/// Relies on `base64::encode`: the standard alphabet, padded.
#[verifier::external_body]
fn base64_encode(bytes: &[u8]) -> (r: String)
    ensures
        r@ == base64_of(bytes@),
{
    base64::encode(bytes)
}

/// The encoding that reading as text falls back to.
pub open spec fn utf8() -> &'static Encoding {
    encoding_for_label(seq!['u', 't', 'f', '-', '8'])->0
}

/// The encoding a text read uses: the label's, else the one named by the
/// MIME type's `charset` parameter, else UTF-8.
pub open spec fn resolved_encoding(label: Option<Seq<char>>, mime_type: Seq<char>) -> &'static Encoding {
    let from_label = match label {
        Some(l) => encoding_for_label(l),
        None => None,
    };
    let from_charset = match mime_charset(mime_type) {
        Some(c) => encoding_for_label(c),
        None => None,
    };
    pick_encoding_spec(from_label, from_charset, utf8())
}

/// First success wins: the label's match, then the charset's, then the default.
pub open spec fn pick_encoding_spec(
    from_label: Option<&'static Encoding>,
    from_charset: Option<&'static Encoding>,
    default: &'static Encoding,
) -> &'static Encoding {
    match from_label {
        Some(e) => e,
        None => match from_charset {
            Some(e) => e,
            None => default,
        },
    }
}

/// The text a read as text produces.
pub open spec fn text_decode_spec(bytes: Seq<u8>, mime_type: Seq<char>, label: Option<Seq<char>>) -> Seq<char> {
    decoded_text(resolved_encoding(label, mime_type), bytes)
}

/// `data:base64,<b64>` for an empty MIME type, else `data:<type>;base64,<b64>`.
pub open spec fn dataurl_spec(mime_type: Seq<char>, encoded: Seq<char>) -> Seq<char> {
    if mime_type.len() == 0 {
        seq!['d', 'a', 't', 'a', ':'] + seq!['b', 'a', 's', 'e', '6', '4', ','] + encoded
    } else {
        seq!['d', 'a', 't', 'a', ':'] + mime_type + seq![';', 'b', 'a', 's', 'e', '6', '4', ','] + encoded
    }
}

/// The view of an optional label.
pub open spec fn label_view(label: Option<String>) -> Option<Seq<char>> {
    match label {
        Some(l) => Some(l@),
        None => None,
    }
}

/// Chooses among the candidate encodings in resolution order.
pub fn pick_encoding(
    from_label: Option<&'static Encoding>,
    from_charset: Option<&'static Encoding>,
    default: &'static Encoding,
) -> (r: &'static Encoding)
    ensures
        r == pick_encoding_spec(from_label, from_charset, default),
{
    match from_label {
        Some(e) => e,
        None => match from_charset {
            Some(e) => e,
            None => default,
        },
    }
}

/// Formats an already base64-encoded payload as a data URL.
pub fn dataurl_from_base64(encoded: &str, mime_type: &str) -> (r: String)
    ensures
        r@ == dataurl_spec(mime_type@, encoded@),
{
    let prefix = String::from_str("data:");
    proof {
        reveal_strlit("data:");
        reveal_strlit(";base64,");
        reveal_strlit("base64,");
    }
    if mime_type.unicode_len() == 0 {
        let r = prefix.concat("base64,").concat(encoded);
        assert(r@ =~= dataurl_spec(mime_type@, encoded@));
        r
    } else {
        let r = prefix.concat(mime_type).concat(";base64,").concat(encoded);
        assert(r@ =~= dataurl_spec(mime_type@, encoded@));
        r
    }
}

/// Resolves the encoding for a text read: label first, then the MIME
/// type's charset, then UTF-8.
pub fn resolve_encoding(label: &Option<String>, mime_type: &str) -> (r: &'static Encoding)
    ensures
        r == resolved_encoding(label_view(*label), mime_type@),
{
    let from_label = match label {
        Some(l) => lookup_label(l.as_str()),
        None => None,
    };
    let from_charset = match charset_param(mime_type) {
        Some(c) => lookup_label(c.as_str()),
        None => None,
    };
    let default = utf8_encoding();
    pick_encoding(from_label, from_charset, default)
}


/// The conversions shared by every kind of read.
pub struct FileReaderSharedFunctionality;

impl FileReaderSharedFunctionality {
    /// The data URL of a blob: its bytes base64-encoded, after its MIME type
    /// when that is not empty.
    pub fn dataurl_format(blob_contents: &[u8], blob_type: String) -> (r: String)
        ensures
            r@ == dataurl_spec(blob_type@, base64_of(blob_contents@)),
    {
        let encoded = base64_encode(blob_contents);
        dataurl_from_base64(encoded.as_str(), blob_type.as_str())
    }

    /// The blob's bytes decoded as text in the resolved encoding; malformed
    /// sequences are replaced, so this never fails.
    pub fn text_decode(blob_contents: &[u8], blob_type: &str, blob_label: &Option<String>) -> (r: String)
        ensures
            r@ == text_decode_spec(blob_contents@, blob_type@, label_view(*blob_label)),
    {
        let encoding = resolve_encoding(blob_label, blob_type);
        decode_bytes(encoding, blob_contents)
    }
}

/// Without a label, and with no `charset` parameter in the MIME type, text
/// is decoded as UTF-8.
pub proof fn lemma_text_defaults_to_utf8(bytes: Seq<u8>, mime_type: Seq<char>)
    requires
        mime_charset(mime_type) is None,
    ensures
        text_decode_spec(bytes, mime_type, None) == decoded_text(utf8(), bytes),
{
}

/// A label that names an encoding decides it, whatever the MIME type says.
pub proof fn lemma_label_takes_precedence(bytes: Seq<u8>, mime_type: Seq<char>, label: Seq<char>)
    requires
        encoding_for_label(label) is Some,
    ensures
        text_decode_spec(bytes, mime_type, Some(label)) == decoded_text(encoding_for_label(label)->0, bytes),
{
}

} // verus!
