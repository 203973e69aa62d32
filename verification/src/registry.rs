//! Trusted view of egui's font table.
//!
//! `egui::FontDefinitions` owns two maps: `font_data`, the raw bytes of every
//! loaded font keyed by font name, and `families`, the list of font names
//! behind each `egui::FontFamily`. The library reads and changes that table
//! only through the wrappers below; the two uninterpreted functions give the
//! contracts something to speak about.

use vstd::prelude::*;

verus! {

/// egui's font table. Declared opaque: all access goes through the wrappers
/// in this module.
#[verifier::external_type_specification]
#[verifier::external_body]
pub struct ExFontDefinitions(egui::FontDefinitions);

/// The raw font bytes stored under each font name in
/// `egui::FontDefinitions::font_data`.
pub uninterp spec fn font_data_of(fd: egui::FontDefinitions) -> Map<Seq<char>, Seq<u8>>;

/// The font list registered under each user-chosen family name: the
/// `egui::FontFamily::Name` entries of `egui::FontDefinitions::families`.
pub uninterp spec fn named_families_of(fd: egui::FontDefinitions) -> Map<Seq<char>, Seq<Seq<char>>>;

/// Relies on `BTreeMap::insert` on `FontDefinitions::font_data` and on
/// `egui::FontData::from_owned`: stores the raw bytes under the font name,
/// replacing any earlier entry of that name, and leaves `families` alone.
#[verifier::external_body]
pub(crate) fn insert_font_data(fd: &mut egui::FontDefinitions, name: &String, data: &Vec<u8>)
    ensures
        font_data_of(*final(fd)) == font_data_of(*old(fd)).insert(name@, data@),
        named_families_of(*final(fd)) == named_families_of(*old(fd)),
{
    fd.font_data.insert(
        name.clone(),
        std::sync::Arc::new(egui::FontData::from_owned(data.clone())),
    );
}

/// Relies on `BTreeMap::insert` on `FontDefinitions::families` under an
/// `egui::FontFamily::Name` key: sets the font list of the named family,
/// replacing any earlier list, and leaves `font_data` and the unnamed
/// families alone.
#[verifier::external_body]
pub(crate) fn set_named_family(fd: &mut egui::FontDefinitions, family: &String, fonts: Vec<String>)
    ensures
        named_families_of(*final(fd)) == named_families_of(*old(fd)).insert(
            family@,
            fonts.deep_view(),
        ),
        font_data_of(*final(fd)) == font_data_of(*old(fd)),
{
    fd.families.insert(egui::FontFamily::Name(family.as_str().into()), fonts);
}

/// Relies on `BTreeMap::contains_key` on `FontDefinitions::families`:
/// whether a font list is registered under the named family.
#[verifier::external_body]
pub(crate) fn named_family_contains(fd: &egui::FontDefinitions, family: &String) -> (r: bool)
    ensures
        r == named_families_of(*fd).dom().contains(family@),
{
    fd.families.contains_key(&egui::FontFamily::Name(family.as_str().into()))
}

} // verus!
