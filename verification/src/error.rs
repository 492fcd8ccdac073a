//! The decoder's failure taxonomy.
//!
//! Every failure is detected synchronously and aborts the decode; the value
//! names the offending field where one is known, so a reader can locate the
//! problem in the source document.

use vstd::prelude::*;

verus! {

/// A field name of the segment or document schema, carried by errors for
/// diagnostics.
#[derive(Debug, Clone, Copy, PartialEq, Eq, Structural)]
pub enum Field {
    Type,
    Start,
    Name,
    Dir,
    Vram,
    Subsegments,
    BssSize,
    VramClass,
    FollowsVram,
    VramSymbol,
    Align,
    Subalign,
    SectionOrder,
    BssContainsCommon,
    LinkerSection,
    LinkerSectionOrder,
    LdFillValue,
    LdAlignSegmentStart,
    SuggestionRodataSectionStart,
    Size,
    SymbolNameFormat,
    SymbolNameFormatNoRom,
    DocName,
    Sha1,
    Options,
    VramClasses,
    Segments,
}

/// Why a decode failed.
#[derive(Debug, Clone, Copy, PartialEq, Eq, Structural)]
pub enum DecodeError {
    /// An address-valued field held something that is neither a number nor
    /// the case-insensitive string "auto".
    InvalidAddress,
    /// A numeric field held something that is not a number.
    InvalidNumber,
    /// A known field held a value of the wrong shape.
    InvalidFieldType(Field),
    /// A keyed-form segment never set its `type` field.
    MissingSegmentType,
    /// A compact-form segment with no elements at all.
    EmptyListSegment,
    /// A mapping key that is not a string.
    InvalidKey,
    /// A segment node that is neither a mapping nor a sequence.
    InvalidSegment,
    /// A vram-class node that matches none of the recognized shapes.
    InvalidVramClass,
    /// The document root lacks a required field.
    MissingDocumentField(Field),
    /// The document root repeats one of its known fields.
    DuplicateDocumentField(Field),
    /// The document root is not a mapping.
    InvalidDocument,
}

impl Field {
    /// The field's name as it stands in a document.
    pub open spec fn spec_name(self) -> Seq<char> {
        match self {
            Field::Type => "type"@,
            Field::Start => "start"@,
            Field::Name => "name"@,
            Field::Dir => "dir"@,
            Field::Vram => "vram"@,
            Field::Subsegments => "subsegments"@,
            Field::BssSize => "bss_size"@,
            Field::VramClass => "vram_class"@,
            Field::FollowsVram => "follows_vram"@,
            Field::VramSymbol => "vram_symbol"@,
            Field::Align => "align"@,
            Field::Subalign => "subalign"@,
            Field::SectionOrder => "section_order"@,
            Field::BssContainsCommon => "bss_contains_common"@,
            Field::LinkerSection => "linker_section"@,
            Field::LinkerSectionOrder => "linker_section_order"@,
            Field::LdFillValue => "ld_fill_value"@,
            Field::LdAlignSegmentStart => "ld_align_segment_start"@,
            Field::SuggestionRodataSectionStart => "suggestion_rodata_section_start"@,
            Field::Size => "size"@,
            Field::SymbolNameFormat => "symbol_name_format"@,
            Field::SymbolNameFormatNoRom => "symbol_name_format_no_rom"@,
            Field::DocName => "name"@,
            Field::Sha1 => "sha1"@,
            Field::Options => "options"@,
            Field::VramClasses => "vram_classes"@,
            Field::Segments => "segments"@,
        }
    }

    /// The field's name as it stands in a document.
    pub fn as_str(&self) -> (r: &'static str)
        ensures
            r@ == self.spec_name(),
    {
        match self {
            Field::Type => "type",
            Field::Start => "start",
            Field::Name => "name",
            Field::Dir => "dir",
            Field::Vram => "vram",
            Field::Subsegments => "subsegments",
            Field::BssSize => "bss_size",
            Field::VramClass => "vram_class",
            Field::FollowsVram => "follows_vram",
            Field::VramSymbol => "vram_symbol",
            Field::Align => "align",
            Field::Subalign => "subalign",
            Field::SectionOrder => "section_order",
            Field::BssContainsCommon => "bss_contains_common",
            Field::LinkerSection => "linker_section",
            Field::LinkerSectionOrder => "linker_section_order",
            Field::LdFillValue => "ld_fill_value",
            Field::LdAlignSegmentStart => "ld_align_segment_start",
            Field::SuggestionRodataSectionStart => "suggestion_rodata_section_start",
            Field::Size => "size",
            Field::SymbolNameFormat => "symbol_name_format",
            Field::SymbolNameFormatNoRom => "symbol_name_format_no_rom",
            Field::DocName => "name",
            Field::Sha1 => "sha1",
            Field::Options => "options",
            Field::VramClasses => "vram_classes",
            Field::Segments => "segments",
        }
    }
}

impl DecodeError {
    /// The error's message, naming the offending field where one is known.
    pub open spec fn spec_message(self) -> Seq<char> {
        match self {
            DecodeError::InvalidAddress => "invalid address value"@,
            DecodeError::InvalidNumber => "invalid numerical value"@,
            DecodeError::InvalidFieldType(f) => "invalid "@ + f.spec_name() + " value"@,
            DecodeError::MissingSegmentType => "segment type not specified"@,
            DecodeError::EmptyListSegment => "no value for list segment at index 0"@,
            DecodeError::InvalidKey => "invalid property key"@,
            DecodeError::InvalidSegment => "invalid segment"@,
            DecodeError::InvalidVramClass => "invalid vram class"@,
            DecodeError::MissingDocumentField(f) => "missing field "@ + f.spec_name(),
            DecodeError::DuplicateDocumentField(f) => "duplicate field "@ + f.spec_name(),
            DecodeError::InvalidDocument => "invalid configuration document"@,
        }
    }

    /// Renders the error as a message a reader can act on.
    pub fn message(&self) -> (r: String)
        ensures
            r@ == self.spec_message(),
    {
        match self {
            DecodeError::InvalidAddress => "invalid address value".to_owned(),
            DecodeError::InvalidNumber => "invalid numerical value".to_owned(),
            DecodeError::InvalidFieldType(f) => {
                let mut s: String = "invalid ".to_owned();
                s.append(f.as_str());
                s.append(" value");
                s
            },
            DecodeError::MissingSegmentType => "segment type not specified".to_owned(),
            DecodeError::EmptyListSegment => "no value for list segment at index 0".to_owned(),
            DecodeError::InvalidKey => "invalid property key".to_owned(),
            DecodeError::InvalidSegment => "invalid segment".to_owned(),
            DecodeError::InvalidVramClass => "invalid vram class".to_owned(),
            DecodeError::MissingDocumentField(f) => {
                let mut s: String = "missing field ".to_owned();
                s.append(f.as_str());
                s
            },
            DecodeError::DuplicateDocumentField(f) => {
                let mut s: String = "duplicate field ".to_owned();
                s.append(f.as_str());
                s
            },
            DecodeError::InvalidDocument => "invalid configuration document".to_owned(),
        }
    }
}

} // verus!
