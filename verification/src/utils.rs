//! Small utilities around attachments and file naming: base64 encoding of
//! image bytes, fresh conversation file names, and the (empty) PDF text
//! extraction. The two functions that reach outside crates are trusted
//! wrappers; everything else is verified against them.

use vstd::prelude::*;

verus! {

/// The text that the standard padded base64 alphabet encodes `bytes` to.
pub uninterp spec fn base64_of(bytes: Seq<u8>) -> Seq<char>;

/// Relies on base64's standard padded engine (`BASE64_STANDARD.encode`): the
/// text depends on the bytes alone, four characters for every three bytes,
/// rounded up. The engine panics when that length exceeds `usize`, so such
/// inputs are excluded.
#[verifier::external_body]
pub fn image_to_b64(image_bytes: &Vec<u8>) -> (r: String)
    requires
        4 * ((image_bytes@.len() + 2) / 3) <= usize::MAX,
    ensures
        r@ == base64_of(image_bytes@),
        r@.len() == 4 * ((image_bytes@.len() + 2) / 3),
{
    base64::Engine::encode(&base64::engine::general_purpose::STANDARD, image_bytes.as_slice())
}

/// Relies on uuid's `Uuid::new_v4` and its hyphenated `Display` form: 36
/// characters, each a lowercase hex digit or a hyphen. Nothing is assumed
/// about which identifier comes back: two calls may differ.
#[verifier::external_body]
fn new_v4_string() -> (r: String)
    ensures
        r@.len() == 36,
        forall|i: int|
            0 <= i < 36 ==> r@[i] == '-' || ('0' <= r@[i] && r@[i] <= '9') || ('a' <= r@[i]
                && r@[i] <= 'f'),
{
    uuid::Uuid::new_v4().to_string()
}

/// A fresh file name: a newly drawn identifier, a dot, and the given
/// extension. The identifier part contains neither dots nor path separators,
/// so the name's stem is the identifier and its extension is `extension`.
pub fn generate_unique_filename(extension: &str) -> (r: String)
    ensures
        r@.len() == 37 + extension@.len(),
        r@.subrange(37, r@.len() as int) == extension@,
        r@[36] == '.',
        forall|i: int| 0 <= i < 36 ==> r@[i] != '.' && r@[i] != '/',
{
    let mut name = new_v4_string();
    name.append(".");
    name.append(extension);
    proof {
        reveal_strlit(".");
        assert(name@.subrange(37, name@.len() as int) =~= extension@);
    }
    name
}

/// Text extraction from PDF attachments: the extraction backend in use
/// yields no text, so a PDF contributes the empty string to a prompt.
pub fn pdf_to_string(file_bytes: &Vec<u8>) -> (r: String)
    ensures
        r@.len() == 0,
{
    let _ = file_bytes;
    String::new()
}

} // verus!
