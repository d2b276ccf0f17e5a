//! Face records, resolved variants and families.
use vstd::prelude::*;
use crate::identity::{face_id, face_id_of};
use crate::naming::{display_name, face_display_name, name_table_of, parse_name_table, NameEntry};
use crate::paths::{path_under, under_dir};
use crate::text::lower_of;
use crate::weight::{correct_weight, corrected_weight};

verus! {

/// Slant of a face.
#[derive(Clone, Copy, PartialEq, Eq, Structural, Debug)]
pub enum FaceStyle {
    Normal,
    Italic,
    Oblique,
}

/// Where the font service found a face.
#[derive(Clone, Debug)]
pub enum FaceSource {
    /// A font file, read on demand.
    File(String),
    /// Font data held in memory.
    Binary,
    /// A font file mapped into memory.
    SharedFile(String),
}

/// A face as the font service reports it.
#[derive(Clone, Debug)]
pub struct FaceRecord {
    /// The first family name, if the face has one.
    pub family: Option<String>,
    pub style: FaceStyle,
    /// The weight declared by the font, 1 to 1000.
    pub weight: u16,
    pub postscript_name: String,
    pub source: FaceSource,
    /// Index of the face within its file.
    pub index: u32,
}

/// A resolved, displayable face.
#[derive(Clone, Debug)]
pub struct FontVariant {
    pub id: String,
    pub family: String,
    pub style: String,
    pub weight: u16,
    pub path: String,
    pub postscript_name: Option<String>,
    pub full_name: Option<String>,
    pub is_system_core: bool,
}

/// A family name with its variants.
#[derive(Clone, Debug)]
pub struct FontFamily {
    pub family: String,
    pub variants: Vec<FontVariant>,
}

/// All families, sorted by name, with their counts.
#[derive(Clone, Debug)]
pub struct ListFontsResult {
    pub families: Vec<FontFamily>,
    pub total_families: usize,
    pub total_variants: usize,
}

/// Lower-case label of a style.
pub open spec fn style_label(s: FaceStyle) -> Seq<char> {
    match s {
        FaceStyle::Normal => "normal"@,
        FaceStyle::Italic => "italic"@,
        FaceStyle::Oblique => "oblique"@,
    }
}

/// The text that locates a face: its file path, or "memory".
pub open spec fn source_text(s: FaceSource) -> Seq<char> {
    match s {
        FaceSource::File(p) => p@,
        FaceSource::Binary => "memory"@,
        FaceSource::SharedFile(p) => p@,
    }
}

/// The family name of a face, or "Unknown".
pub open spec fn family_text(f: Option<String>) -> Seq<char> {
    match f {
        Some(s) => s@,
        None => "Unknown"@,
    }
}

/// The name table the resolver reads: only a face loaded from a file whose
/// bytes could be read again has one, and only if those bytes parse.
pub open spec fn face_table(face: FaceRecord, file_data: Option<Seq<u8>>) -> Option<Seq<NameEntry>> {
    match (face.source, file_data) {
        (FaceSource::File(_), Some(d)) => name_table_of(d, face.index),
        _ => None,
    }
}

/// A face is a system-core face when it was loaded from a file under the
/// system font directory.
pub open spec fn system_core(s: FaceSource, system_dir: Seq<char>) -> bool {
    match s {
        FaceSource::File(p) => under_dir(p@, system_dir),
        _ => false,
    }
}

/// Label of a style.
pub fn style_name(s: FaceStyle) -> (r: &'static str)
    ensures
        r@ == style_label(s),
{
    match s {
        FaceStyle::Normal => "normal",
        FaceStyle::Italic => "italic",
        FaceStyle::Oblique => "oblique",
    }
}

/// The text that locates a face.
pub fn source_path(s: &FaceSource) -> (r: String)
    ensures
        r@ == source_text(*s),
{
    match s {
        FaceSource::File(p) => p.clone(),
        FaceSource::Binary => String::from_str("memory"),
        FaceSource::SharedFile(p) => p.clone(),
    }
}

/// Resolves one face: corrected weight, identifier, display name and
/// system-core flag. `file_data` holds the bytes of the face's file where
/// the caller could read them again.
pub fn resolve_face(face: &FaceRecord, file_data: &Option<Vec<u8>>, system_fonts_dir: &str) -> (r: FontVariant)
    ensures
        r.weight == corrected_weight(face.weight, lower_of(face.postscript_name@)),
        r.id@ == face_id_of(source_text(face.source), face.postscript_name@),
        r.id@.len() == 40,
        r.family@ == family_text(face.family),
        r.style@ == style_label(face.style),
        r.path@ == source_text(face.source),
        r.postscript_name is Some && r.postscript_name->0@ == face.postscript_name@,
        r.full_name is Some && r.full_name->0@ == display_name(
            face_table(*face, match *file_data { Some(d) => Some(d@), None => None }),
            face.postscript_name@,
            r.weight,
        ),
        r.is_system_core == system_core(face.source, system_fonts_dir@),
{
    let weight = correct_weight(face.weight, face.postscript_name.as_str());
    let family = match &face.family {
        Some(f) => f.clone(),
        None => String::from_str("Unknown"),
    };
    let path = source_path(&face.source);
    let id = face_id(path.as_str(), face.postscript_name.as_str());
    let is_system_core = match &face.source {
        FaceSource::File(p) => path_under(p.as_str(), system_fonts_dir),
        _ => false,
    };
    let table = match (&face.source, file_data) {
        (FaceSource::File(_), Some(d)) => parse_name_table(d.as_slice(), face.index),
        _ => None,
    };
    let full_name = face_display_name(&table, face.postscript_name.as_str(), weight);
    FontVariant {
        id,
        family,
        style: String::from_str(style_name(face.style)),
        weight,
        path,
        postscript_name: Some(face.postscript_name.clone()),
        full_name: Some(full_name),
        is_system_core,
    }
}

} // verus!
