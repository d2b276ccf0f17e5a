//! Checks and encoding for sending a font file to a previewer.
use vstd::prelude::*;
use base64::Engine;
use crate::paths::{has_font_ext, has_font_extension, path_extension, path_under, under_dir, extension};
use crate::text::{lower_of, lowercase, str_equal};

verus! {

/// Largest file handed to a previewer, in bytes (25 MiB).
pub const MAX_PREVIEW_BYTES: u64 = 26214400;

/// A font file's bytes in base64 with its MIME type.
#[derive(Debug)]
pub struct FontFileBase64Result {
    pub base64: String,
    pub mime: String,
}

/// Name for the standard, padded base64 text of a byte sequence.
pub uninterp spec fn base64_of(data: Seq<u8>) -> Seq<char>;

/// Relies on `base64::engine::general_purpose::STANDARD.encode`: the padded
/// standard alphabet, four characters per started group of three bytes.
#[verifier::external_body]
fn base64_encode(data: &[u8]) -> (r: String)
    requires
        data@.len() <= MAX_PREVIEW_BYTES,
    ensures
        r@ == base64_of(data@),
        r@.len() == 4 * ((data@.len() + 2) / 3),
{
    base64::engine::general_purpose::STANDARD.encode(data)
}

/// Whether the previewed file's lower-cased extension is "otf".
pub open spec fn is_otf(path: Seq<char>) -> bool {
    extension(path) is Some && lower_of(extension(path)->0) == "otf"@
}

/// The file may be previewed only with a TrueType or OpenType extension.
pub fn check_preview_type(path: &str) -> (r: Result<(), String>)
    ensures
        r is Ok <==> has_font_ext(path@),
        r is Err ==> r->Err_0@ == "Unsupported file type"@,
{
    if has_font_extension(path) {
        Ok(())
    } else {
        Err(String::from_str("Unsupported file type"))
    }
}

/// The resolved path must lie in the system or the user font directory.
pub fn check_preview_location(canonical: &str, system_fonts_dir: &str, user_fonts_dir: &str) -> (r: Result<(), String>)
    ensures
        r is Ok <==> (under_dir(canonical@, system_fonts_dir@) || under_dir(canonical@, user_fonts_dir@)),
        r is Err ==> r->Err_0@ == "Font path is not in an allowed directory"@,
{
    if path_under(canonical, system_fonts_dir) || path_under(canonical, user_fonts_dir) {
        Ok(())
    } else {
        Err(String::from_str("Font path is not in an allowed directory"))
    }
}

/// The file may be at most 25 MiB.
pub fn check_preview_size(len: u64) -> (r: Result<(), String>)
    ensures
        r is Ok <==> len <= MAX_PREVIEW_BYTES,
        r is Err ==> r->Err_0@ == "Font file too large"@,
{
    if len > MAX_PREVIEW_BYTES {
        Err(String::from_str("Font file too large"))
    } else {
        Ok(())
    }
}

/// The MIME type of a font file: "font/otf" for an .otf file in any
/// letter case, else "font/ttf".
pub fn preview_mime(path: &str) -> (r: &'static str)
    ensures
        is_otf(path@) ==> r@ == "font/otf"@,
        !is_otf(path@) ==> r@ == "font/ttf"@,
{
    match path_extension(path) {
        Some(e) => {
            let lowered = lowercase(e.as_str());
            if str_equal(lowered.as_str(), "otf") {
                "font/otf"
            } else {
                "font/ttf"
            }
        },
        None => "font/ttf",
    }
}

/// The preview of a file's bytes: base64 text and MIME type; a file over
/// the size limit is refused.
pub fn encode_preview(path: &str, bytes: &[u8]) -> (r: Result<FontFileBase64Result, String>)
    ensures
        r is Ok <==> bytes@.len() <= MAX_PREVIEW_BYTES,
        match r {
            Ok(p) => p.base64@ == base64_of(bytes@) && (is_otf(path@) ==> p.mime@ == "font/otf"@) && (!is_otf(
                path@,
            ) ==> p.mime@ == "font/ttf"@),
            Err(e) => e@ == "Font file too large"@,
        },
{
    if bytes.len() as u64 > MAX_PREVIEW_BYTES {
        return Err(String::from_str("Font file too large"));
    }
    let mime = preview_mime(path);
    Ok(FontFileBase64Result { base64: base64_encode(bytes), mime: String::from_str(mime) })
}

} // verus!
