//! Laws of the decoder, stated and proved over its specification.

use vstd::prelude::*;

use crate::coerce::{is_auto_chars, spec_parse_address, spec_parse_number};
use crate::decode::{
    args_behave_as_map, lemma_entries_args_distinct, spec_decode_compact,
    spec_decode_segment,
};
use crate::document::{spec_decode_document, SplatYamlView};
use crate::error::DecodeError;
use crate::value::ValueView;
use crate::value::YamlNum;

verus! {

/// The keyed form's extension bag behaves as a map: however the document
/// repeats its unknown keys, the decoded bag is the mapping form and its
/// keys are distinct.
pub proof fn lemma_keyed_args_behave_as_map(entries: Seq<(ValueView, ValueView)>)
    requires
        spec_decode_segment(ValueView::Mapping(entries)) is Ok,
    ensures
        args_behave_as_map(spec_decode_segment(ValueView::Mapping(entries))->Ok_0.args),
{
    lemma_entries_args_distinct(
        entries,
        None,
        crate::segment::empty_segment_view(),
        0,
    );
}

/// Numeric round trip: any unsigned 64-bit value presented as a document
/// number coerces to exactly itself, as an address and as a number.
pub proof fn lemma_numeric_round_trip(n: u64)
    ensures
        spec_parse_address(ValueView::Num(YamlNum::UInt(n))) == Ok::<_, DecodeError>(Some(n)),
        spec_parse_number(ValueView::Num(YamlNum::UInt(n))) == Ok::<_, DecodeError>(Some(n)),
{
}

/// The "auto" law: an address-valued string coerces to "unspecified"
/// exactly when it is the sentinel compared without regard to case, and to
/// an invalid-address error otherwise; a numeric field rejects every
/// string.
pub proof fn lemma_address_auto(s: Seq<char>)
    ensures
        is_auto_chars(s) ==> spec_parse_address(ValueView::Str(s)) == Ok::<_, DecodeError>(
            None::<u64>,
        ),
        !is_auto_chars(s) ==> spec_parse_address(ValueView::Str(s)) == Err::<
            Option<u64>,
            _,
        >(DecodeError::InvalidAddress),
        spec_parse_number(ValueView::Str(s)) == Err::<Option<u64>, _>(DecodeError::InvalidNumber),
{
}

/// Decoding is deterministic: structurally equal documents decode to
/// structurally equal trees, and equal failures.
pub proof fn lemma_decode_deterministic(a: ValueView, b: ValueView)
    requires
        a == b,
    ensures
        spec_decode_document(a) == spec_decode_document(b),
        spec_decode_segment(a) == spec_decode_segment(b),
{
}

/// A segment decoded from the compact surface syntax never populates the
/// verbose-only fields: everything besides the start offset, the type, the
/// name and the extension bag stays absent.
pub proof fn lemma_compact_form_verbose_fields_absent(items: Seq<ValueView>)
    requires
        spec_decode_compact(items) is Ok,
    ensures
        spec_decode_compact(items)->Ok_0.dir is None,
        spec_decode_compact(items)->Ok_0.vram is None,
        spec_decode_compact(items)->Ok_0.subsegments is None,
        spec_decode_compact(items)->Ok_0.bss_size is None,
        spec_decode_compact(items)->Ok_0.vram_class is None,
        spec_decode_compact(items)->Ok_0.follows_vram is None,
        spec_decode_compact(items)->Ok_0.vram_symbol is None,
        spec_decode_compact(items)->Ok_0.align is None,
        spec_decode_compact(items)->Ok_0.subalign is None,
        spec_decode_compact(items)->Ok_0.section_order is None,
        spec_decode_compact(items)->Ok_0.bss_contains_common is None,
        spec_decode_compact(items)->Ok_0.linker_section is None,
        spec_decode_compact(items)->Ok_0.linker_section_order is None,
        spec_decode_compact(items)->Ok_0.ld_fill_value is None,
        spec_decode_compact(items)->Ok_0.ld_align_segment_start is None,
        spec_decode_compact(items)->Ok_0.suggestion_rodata_section_start is None,
        spec_decode_compact(items)->Ok_0.size is None,
        spec_decode_compact(items)->Ok_0.symbol_name_format is None,
        spec_decode_compact(items)->Ok_0.symbol_name_format_no_rom is None,
{
}

/// A document with an empty `segments` sequence and an empty `options`
/// mapping is valid, whatever its name and checksum: emptiness is not an
/// error at this layer.
pub proof fn lemma_empty_document_valid(name: Seq<char>, sha1: Seq<char>)
    ensures
        spec_decode_document(
            ValueView::Mapping(
                seq![
                    (ValueView::Str("name"@), ValueView::Str(name)),
                    (ValueView::Str("sha1"@), ValueView::Str(sha1)),
                    (ValueView::Str("options"@), ValueView::Mapping(Seq::empty())),
                    (ValueView::Str("segments"@), ValueView::Sequence(Seq::empty())),
                ],
            ),
        ) == Ok::<_, DecodeError>(
            SplatYamlView {
                name,
                sha1,
                options: Seq::empty(),
                vram_classes: None,
                segments: Seq::empty(),
            },
        ),
{
    reveal_strlit("name");
    reveal_strlit("sha1");
    reveal_strlit("options");
    reveal_strlit("vram_classes");
    reveal_strlit("segments");
    assert("name"@.len() == 4 && "sha1"@.len() == 4 && "options"@.len() == 7
        && "vram_classes"@.len() == 12 && "segments"@.len() == 8);
    assert("sha1"@[0] == 's' && "name"@[0] == 'n');
    assert("sha1"@ != "name"@);
    assert("options"@ != "name"@ && "options"@ != "sha1"@);
    assert("segments"@ != "name"@ && "segments"@ != "sha1"@ && "segments"@ != "options"@
        && "segments"@ != "vram_classes"@);
    reveal_with_fuel(crate::document::spec_decode_doc_entries, 6);
    reveal_with_fuel(crate::document::spec_decode_options, 2);
    reveal_with_fuel(crate::decode::spec_decode_list, 2);
}

} // verus!
