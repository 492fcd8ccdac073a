//! The segment record: one node of the decoded tree, and its mathematical
//! model.
//!
//! A segment reaches this form from either of two surface syntaxes: a
//! verbose keyed mapping, or a compact positional sequence. The decoder for
//! both lives in `decode`.

use vstd::prelude::*;

use crate::value::{seq_view, Value, ValueView};

verus! {

/// The extension bag of a segment: values the schema does not know, kept for
/// a segment-type-specific downstream handler. The keyed surface syntax
/// collects unrecognized keys into the mapping form; the compact syntax
/// collects trailing positions into the sequence form. A segment gets one
/// shape or the other, never both.
#[derive(Debug, PartialEq)]
pub enum YamlSegmentArgs {
    List(Vec<Value>),
    Dict(Vec<(String, Value)>),
}

/// One decoded segment: a contiguous named region of a binary image,
/// possibly holding nested sub-regions.
///
/// `segment_type` is always present; every other field may be absent. A
/// segment decoded from the compact syntax never populates the verbose-only
/// fields (everything from `dir` down to the linker and symbol-format
/// fields).
#[derive(Debug, PartialEq)]
pub struct YamlSegment {
    pub segment_type: String,
    pub rom: Option<u64>,
    pub name: Option<String>,
    pub dir: Option<String>,
    pub vram: Option<u64>,
    pub subsegments: Option<Vec<YamlSegment>>,
    pub bss_size: Option<u64>,
    pub vram_class: Option<String>,
    pub follows_vram: Option<String>,
    pub vram_symbol: Option<String>,
    pub align: Option<u64>,
    pub subalign: Option<u64>,
    pub section_order: Option<Vec<String>>,
    pub bss_contains_common: Option<bool>,
    pub linker_section: Option<String>,
    pub linker_section_order: Option<String>,
    pub ld_fill_value: Option<u64>,
    pub ld_align_segment_start: Option<u64>,
    pub suggestion_rodata_section_start: Option<bool>,
    pub size: Option<u64>,
    pub symbol_name_format: Option<String>,
    pub symbol_name_format_no_rom: Option<String>,
    pub args: Option<YamlSegmentArgs>,
}

/// The model of an extension bag.
#[verifier::ext_equal]
pub enum ArgsView {
    List(Seq<ValueView>),
    Dict(Seq<(Seq<char>, ValueView)>),
}

/// The model of a segment.
#[verifier::ext_equal]
pub struct SegmentView {
    pub segment_type: Seq<char>,
    pub rom: Option<u64>,
    pub name: Option<Seq<char>>,
    pub dir: Option<Seq<char>>,
    pub vram: Option<u64>,
    pub subsegments: Option<Seq<SegmentView>>,
    pub bss_size: Option<u64>,
    pub vram_class: Option<Seq<char>>,
    pub follows_vram: Option<Seq<char>>,
    pub vram_symbol: Option<Seq<char>>,
    pub align: Option<u64>,
    pub subalign: Option<u64>,
    pub section_order: Option<Seq<Seq<char>>>,
    pub bss_contains_common: Option<bool>,
    pub linker_section: Option<Seq<char>>,
    pub linker_section_order: Option<Seq<char>>,
    pub ld_fill_value: Option<u64>,
    pub ld_align_segment_start: Option<u64>,
    pub suggestion_rodata_section_start: Option<bool>,
    pub size: Option<u64>,
    pub symbol_name_format: Option<Seq<char>>,
    pub symbol_name_format_no_rom: Option<Seq<char>>,
    pub args: Option<ArgsView>,
}

/// The model of an optional string.
pub open spec fn opt_string_view(o: Option<String>) -> Option<Seq<char>> {
    match o {
        Some(s) => Some(s@),
        None => None,
    }
}

/// The model of an optional vector of strings.
pub open spec fn opt_string_seq_view(o: Option<Vec<String>>) -> Option<Seq<Seq<char>>> {
    match o {
        Some(l) => Some(
            Seq::new(
                l@.len(),
                |i: int|
                    if 0 <= i < l@.len() {
                        l@[i]@
                    } else {
                        Seq::empty()
                    },
            ),
        ),
        None => None,
    }
}

/// The model of a string-keyed dictionary kept as a vector of entries.
pub open spec fn dict_view(d: Seq<(String, Value)>) -> Seq<(Seq<char>, ValueView)> {
    Seq::new(
        d.len(),
        |i: int|
            if 0 <= i < d.len() {
                (d[i].0@, d[i].1@)
            } else {
                (Seq::empty(), ValueView::Null)
            },
    )
}

impl View for YamlSegmentArgs {
    type V = ArgsView;

    open spec fn view(&self) -> ArgsView {
        match self {
            YamlSegmentArgs::List(l) => ArgsView::List(seq_view(l@)),
            YamlSegmentArgs::Dict(d) => ArgsView::Dict(dict_view(d@)),
        }
    }
}

/// The model of an optional extension bag.
pub open spec fn opt_args_view(o: Option<YamlSegmentArgs>) -> Option<ArgsView> {
    match o {
        Some(a) => Some(a@),
        None => None,
    }
}

impl View for YamlSegment {
    type V = SegmentView;

    open spec fn view(&self) -> SegmentView
        decreases self,
    {
        SegmentView {
            segment_type: self.segment_type@,
            rom: self.rom,
            name: opt_string_view(self.name),
            dir: opt_string_view(self.dir),
            vram: self.vram,
            subsegments: match &self.subsegments {
                Some(l) => Some(seg_seq_view(l@)),
                None => None,
            },
            bss_size: self.bss_size,
            vram_class: opt_string_view(self.vram_class),
            follows_vram: opt_string_view(self.follows_vram),
            vram_symbol: opt_string_view(self.vram_symbol),
            align: self.align,
            subalign: self.subalign,
            section_order: opt_string_seq_view(self.section_order),
            bss_contains_common: self.bss_contains_common,
            linker_section: opt_string_view(self.linker_section),
            linker_section_order: opt_string_view(self.linker_section_order),
            ld_fill_value: self.ld_fill_value,
            ld_align_segment_start: self.ld_align_segment_start,
            suggestion_rodata_section_start: self.suggestion_rodata_section_start,
            size: self.size,
            symbol_name_format: opt_string_view(self.symbol_name_format),
            symbol_name_format_no_rom: opt_string_view(self.symbol_name_format_no_rom),
            args: opt_args_view(self.args),
        }
    }
}

/// The model of a vector of segments.
pub open spec fn seg_seq_view(l: Seq<YamlSegment>) -> Seq<SegmentView>
    decreases l,
{
    Seq::new(
        l.len(),
        |i: int|
            if 0 <= i < l.len() {
                l[i]@
            } else {
                arbitrary()
            },
    )
}

/// The model of a segment with nothing set: the starting point of both
/// surface syntaxes.
pub open spec fn empty_segment_view() -> SegmentView {
    SegmentView {
        segment_type: Seq::empty(),
        rom: None,
        name: None,
        dir: None,
        vram: None,
        subsegments: None,
        bss_size: None,
        vram_class: None,
        follows_vram: None,
        vram_symbol: None,
        align: None,
        subalign: None,
        section_order: None,
        bss_contains_common: None,
        linker_section: None,
        linker_section_order: None,
        ld_fill_value: None,
        ld_align_segment_start: None,
        suggestion_rodata_section_start: None,
        size: None,
        symbol_name_format: None,
        symbol_name_format_no_rom: None,
        args: None,
    }
}

/// A segment with nothing set.
pub fn empty_segment() -> (s: YamlSegment)
    ensures
        s@ == empty_segment_view(),
{
    let s = YamlSegment {
        segment_type: String::new(),
        rom: None,
        name: None,
        dir: None,
        vram: None,
        subsegments: None,
        bss_size: None,
        vram_class: None,
        follows_vram: None,
        vram_symbol: None,
        align: None,
        subalign: None,
        section_order: None,
        bss_contains_common: None,
        linker_section: None,
        linker_section_order: None,
        ld_fill_value: None,
        ld_align_segment_start: None,
        suggestion_rodata_section_start: None,
        size: None,
        symbol_name_format: None,
        symbol_name_format_no_rom: None,
        args: None,
    };
    proof {
        assert(s@ =~= empty_segment_view());
    }
    s
}

impl Default for YamlSegment {
    /// A segment with nothing set.
    fn default() -> (s: Self)
        ensures
            s@ == empty_segment_view(),
    {
        empty_segment()
    }
}

} // verus!
