//! The segment node decoder.
//!
//! One document node becomes one segment, or the decode fails with a
//! descriptive error; nothing is ever partially populated. A mapping node is
//! read key by key in document order against the closed field set, with
//! unrecognized keys collected into the extension bag; a sequence node is
//! the compact positional shorthand; anything else is an invalid segment.
//! The spec functions here are the decoder's definition; the executable
//! decoder is proved equal to them.

use vstd::prelude::*;

use crate::coerce::{parse_address, parse_number, spec_parse_address, spec_parse_number};
use crate::error::{DecodeError, Field};
use crate::hex::{format_hex_upper, hex_chars};
use crate::segment::{
    dict_view, empty_segment, empty_segment_view, opt_args_view, opt_string_seq_view,
    opt_string_view, seg_seq_view, ArgsView, SegmentView, YamlSegment, YamlSegmentArgs,
};
use crate::value::{entries_view, seq_view, str_equals, Value, ValueView};

verus! {

/// Inserts into a string-keyed dictionary, last write wins: an existing
/// entry with the same key is replaced in place, a new key goes to the end.
pub open spec fn dict_insert(
    d: Seq<(Seq<char>, ValueView)>,
    k: Seq<char>,
    v: ValueView,
) -> Seq<(Seq<char>, ValueView)>
    decreases d.len(),
{
    if d.len() == 0 {
        seq![(k, v)]
    } else if d[0].0 == k {
        seq![(k, v)] + d.drop_first()
    } else {
        seq![d[0]] + dict_insert(d.drop_first(), k, v)
    }
}

/// A dictionary in which no key occurs twice: what the mapping-form
/// extension bag keeps of a map.
pub open spec fn dict_keys_distinct(d: Seq<(Seq<char>, ValueView)>) -> bool {
    forall|i: int, j: int| 0 <= i < j < d.len() ==> d[i].0 != d[j].0
}

/// Every key after an insert is the inserted key or one that was already
/// there.
proof fn lemma_dict_insert_keys(d: Seq<(Seq<char>, ValueView)>, k: Seq<char>, v: ValueView)
    ensures
        forall|i: int|
            0 <= i < dict_insert(d, k, v).len() ==> dict_insert(d, k, v)[i].0 == k || (exists|j: int|
                0 <= j < d.len() && d[j].0 == dict_insert(d, k, v)[i].0),
    decreases d.len(),
{
    if d.len() == 0 {
    } else if d[0].0 == k {
        assert forall|i: int| 0 <= i < dict_insert(d, k, v).len() implies dict_insert(d, k, v)[i].0
            == k || (exists|j: int| 0 <= j < d.len() && d[j].0 == dict_insert(d, k, v)[i].0) by {
            if i > 0 {
                assert(dict_insert(d, k, v)[i].0 == d[i].0);
            }
        }
    } else {
        lemma_dict_insert_keys(d.drop_first(), k, v);
        assert forall|i: int| 0 <= i < dict_insert(d, k, v).len() implies dict_insert(d, k, v)[i].0
            == k || (exists|j: int| 0 <= j < d.len() && d[j].0 == dict_insert(d, k, v)[i].0) by {
            if i > 0 {
                let inner = dict_insert(d.drop_first(), k, v);
                assert(dict_insert(d, k, v)[i] == inner[i - 1]);
                if inner[i - 1].0 != k {
                    let j = choose|j: int|
                        0 <= j < d.drop_first().len() && d.drop_first()[j].0 == inner[i - 1].0;
                    assert(d[j + 1].0 == inner[i - 1].0);
                }
            }
        }
    }
}

/// Inserting keeps the keys distinct: the bag behaves as a map.
pub proof fn lemma_dict_insert_distinct(d: Seq<(Seq<char>, ValueView)>, k: Seq<char>, v: ValueView)
    requires
        dict_keys_distinct(d),
    ensures
        dict_keys_distinct(dict_insert(d, k, v)),
    decreases d.len(),
{
    if d.len() == 0 {
    } else if d[0].0 == k {
        assert forall|i: int, j: int|
            0 <= i < j < dict_insert(d, k, v).len() implies dict_insert(d, k, v)[i].0
            != dict_insert(d, k, v)[j].0 by {
            assert(dict_insert(d, k, v)[j] == d[j]);
            if i > 0 {
                assert(dict_insert(d, k, v)[i] == d[i]);
            }
        }
    } else {
        assert(dict_keys_distinct(d.drop_first()));
        lemma_dict_insert_distinct(d.drop_first(), k, v);
        lemma_dict_insert_keys(d.drop_first(), k, v);
        let inner = dict_insert(d.drop_first(), k, v);
        assert forall|i: int, j: int|
            0 <= i < j < dict_insert(d, k, v).len() implies dict_insert(d, k, v)[i].0
            != dict_insert(d, k, v)[j].0 by {
            if i == 0 {
                assert(dict_insert(d, k, v)[j] == inner[j - 1]);
                if inner[j - 1].0 != k {
                    let t = choose|t: int|
                        0 <= t < d.drop_first().len() && d.drop_first()[t].0 == inner[j - 1].0;
                    assert(d[t + 1].0 == inner[j - 1].0);
                }
            } else {
                assert(dict_insert(d, k, v)[i] == inner[i - 1]);
                assert(dict_insert(d, k, v)[j] == inner[j - 1]);
            }
        }
    }
}

/// When the key already sits at index `i`, inserting updates that entry.
proof fn lemma_dict_insert_at(d: Seq<(Seq<char>, ValueView)>, k: Seq<char>, v: ValueView, i: int)
    requires
        0 <= i < d.len(),
        d[i].0 == k,
        forall|j: int| 0 <= j < i ==> d[j].0 != k,
    ensures
        dict_insert(d, k, v) == d.update(i, (k, v)),
    decreases i,
{
    if i == 0 {
        assert(dict_insert(d, k, v) =~= d.update(0, (k, v)));
    } else {
        lemma_dict_insert_at(d.drop_first(), k, v, i - 1);
        assert(d.drop_first().update(i - 1, (k, v)) =~= d.update(i, (k, v)).drop_first());
        assert(dict_insert(d, k, v) =~= d.update(i, (k, v)));
    }
}

/// When the key is absent, inserting appends the entry.
proof fn lemma_dict_insert_absent(d: Seq<(Seq<char>, ValueView)>, k: Seq<char>, v: ValueView)
    requires
        forall|j: int| 0 <= j < d.len() ==> d[j].0 != k,
    ensures
        dict_insert(d, k, v) == d + seq![(k, v)],
    decreases d.len(),
{
    if d.len() == 0 {
        assert(dict_insert(d, k, v) =~= d + seq![(k, v)]);
    } else {
        lemma_dict_insert_absent(d.drop_first(), k, v);
        assert(dict_insert(d, k, v) =~= d + seq![(k, v)]);
    }
}

/// The first index holding the key, if any.
fn dict_find(d: &Vec<(String, Value)>, k: &String) -> (r: Option<usize>)
    ensures
        match r {
            Some(i) => (i as int) < d@.len() && d@[i as int].0@ == k@ && (forall|j: int|
                0 <= j < i as int ==> d@[j].0@ != k@),
            None => forall|j: int| 0 <= j < d@.len() ==> d@[j].0@ != k@,
        },
{
    let mut i: usize = 0;
    while i < d.len()
        invariant
            i <= d@.len(),
            forall|j: int| 0 <= j < i as int ==> d@[j].0@ != k@,
        decreases d@.len() - i,
    {
        if str_equals(d[i].0.as_str(), k.as_str()) {
            return Some(i);
        }
        i += 1;
    }
    None
}

/// Inserts into the executable dictionary, last write wins.
pub fn dict_insert_exec(d: &mut Vec<(String, Value)>, k: String, v: Value)
    ensures
        dict_view(final(d)@) == dict_insert(dict_view(old(d)@), k@, v@),
{
    let ghost dv = dict_view(d@);
    match dict_find(d, &k) {
        Some(i) => {
            proof {
                assert(dv[i as int].0 == k@);
                assert(forall|j: int| 0 <= j < i as int ==> dv[j].0 != k@);
                lemma_dict_insert_at(dv, k@, v@, i as int);
            }
            d[i] = (k, v);
            proof {
                assert(dict_view(d@) =~= dv.update(i as int, (k@, v@)));
            }
        },
        None => {
            proof {
                assert(forall|j: int| 0 <= j < dv.len() ==> dv[j].0 != k@);
                lemma_dict_insert_absent(dv, k@, v@);
            }
            d.push((k, v));
            proof {
                assert(dict_view(d@) =~= dv + seq![(k@, v@)]);
            }
        },
    }
}

/// Routes one value into the extension bag of the keyed syntax: the first
/// unrecognized key allocates the mapping-form bag, later ones insert with
/// last write winning.
pub open spec fn spec_args_insert(args: Option<ArgsView>, k: Seq<char>, v: ValueView) -> ArgsView {
    match args {
        Some(ArgsView::Dict(d)) => ArgsView::Dict(dict_insert(d, k, v)),
        _ => ArgsView::Dict(seq![(k, v)]),
    }
}

/// Applies one keyed-form entry that is not `subsegments` to the partial
/// segment: the closed field set routes each known key through its
/// coercion, and an unknown key goes to the extension bag.
pub open spec fn spec_apply_field(
    ty: Option<Seq<char>>,
    acc: SegmentView,
    key: Seq<char>,
    val: ValueView,
) -> Result<(Option<Seq<char>>, SegmentView), DecodeError> {
    if key == "type"@ {
        match val {
            ValueView::Str(s) => Ok((Some(s), acc)),
            _ => Err(DecodeError::InvalidFieldType(Field::Type)),
        }
    } else if key == "start"@ {
        match spec_parse_address(val) {
            Ok(a) => Ok((ty, SegmentView { rom: a, ..acc })),
            Err(e) => Err(e),
        }
    } else if key == "name"@ {
        match val {
            ValueView::Str(s) => Ok((ty, SegmentView { name: Some(s), ..acc })),
            _ => Err(DecodeError::InvalidFieldType(Field::Name)),
        }
    } else if key == "dir"@ {
        match val {
            ValueView::Str(s) => Ok((ty, SegmentView { dir: Some(s), ..acc })),
            _ => Err(DecodeError::InvalidFieldType(Field::Dir)),
        }
    } else if key == "vram"@ {
        match spec_parse_address(val) {
            Ok(a) => Ok((ty, SegmentView { vram: a, ..acc })),
            Err(e) => Err(e),
        }
    } else if key == "bss_size"@ {
        match spec_parse_number(val) {
            Ok(n) => Ok((ty, SegmentView { bss_size: n, ..acc })),
            Err(e) => Err(e),
        }
    } else if key == "vram_class"@ {
        match val {
            ValueView::Str(s) => Ok((ty, SegmentView { vram_class: Some(s), ..acc })),
            _ => Err(DecodeError::InvalidFieldType(Field::VramClass)),
        }
    } else if key == "follows_vram"@ {
        match val {
            ValueView::Str(s) => Ok((ty, SegmentView { follows_vram: Some(s), ..acc })),
            _ => Err(DecodeError::InvalidFieldType(Field::FollowsVram)),
        }
    } else if key == "vram_symbol"@ {
        match val {
            ValueView::Str(s) => Ok((ty, SegmentView { vram_symbol: Some(s), ..acc })),
            _ => Err(DecodeError::InvalidFieldType(Field::VramSymbol)),
        }
    } else if key == "align"@ {
        match spec_parse_number(val) {
            Ok(n) => Ok((ty, SegmentView { align: n, ..acc })),
            Err(e) => Err(e),
        }
    } else if key == "subalign"@ {
        match spec_parse_number(val) {
            Ok(n) => Ok((ty, SegmentView { subalign: n, ..acc })),
            Err(e) => Err(e),
        }
    } else if key == "section_order"@ {
        match val {
            ValueView::Sequence(l) => if forall|j: int| 0 <= j < l.len() ==> l[j] is Str {
                Ok(
                    (
                        ty,
                        SegmentView {
                            section_order: Some(l.map_values(|x: ValueView| x->Str_0)),
                            ..acc
                        },
                    ),
                )
            } else {
                Err(DecodeError::InvalidFieldType(Field::SectionOrder))
            },
            _ => Err(DecodeError::InvalidFieldType(Field::SectionOrder)),
        }
    } else if key == "bss_contains_common"@ {
        match val {
            ValueView::Bool(b) => Ok((ty, SegmentView { bss_contains_common: Some(b), ..acc })),
            _ => Err(DecodeError::InvalidFieldType(Field::BssContainsCommon)),
        }
    } else if key == "linker_section"@ {
        match val {
            ValueView::Str(s) => Ok((ty, SegmentView { linker_section: Some(s), ..acc })),
            _ => Err(DecodeError::InvalidFieldType(Field::LinkerSection)),
        }
    } else if key == "linker_section_order"@ {
        match val {
            ValueView::Str(s) => Ok((ty, SegmentView { linker_section_order: Some(s), ..acc })),
            _ => Err(DecodeError::InvalidFieldType(Field::LinkerSectionOrder)),
        }
    } else if key == "ld_fill_value"@ {
        match spec_parse_number(val) {
            Ok(n) => Ok((ty, SegmentView { ld_fill_value: n, ..acc })),
            Err(e) => Err(e),
        }
    } else if key == "ld_align_segment_start"@ {
        match spec_parse_number(val) {
            Ok(n) => Ok((ty, SegmentView { ld_align_segment_start: n, ..acc })),
            Err(e) => Err(e),
        }
    } else if key == "suggestion_rodata_section_start"@ {
        match val {
            ValueView::Bool(b) => Ok(
                (ty, SegmentView { suggestion_rodata_section_start: Some(b), ..acc }),
            ),
            _ => Err(DecodeError::InvalidFieldType(Field::SuggestionRodataSectionStart)),
        }
    } else if key == "size"@ {
        match spec_parse_number(val) {
            Ok(n) => Ok((ty, SegmentView { size: n, ..acc })),
            Err(e) => Err(e),
        }
    } else if key == "symbol_name_format"@ {
        match val {
            ValueView::Str(s) => Ok((ty, SegmentView { symbol_name_format: Some(s), ..acc })),
            _ => Err(DecodeError::InvalidFieldType(Field::SymbolNameFormat)),
        }
    } else if key == "symbol_name_format_no_rom"@ {
        match val {
            ValueView::Str(s) => Ok(
                (ty, SegmentView { symbol_name_format_no_rom: Some(s), ..acc }),
            ),
            _ => Err(DecodeError::InvalidFieldType(Field::SymbolNameFormatNoRom)),
        }
    } else {
        Ok((ty, SegmentView { args: Some(spec_args_insert(acc.args, key, val)), ..acc }))
    }
}

/// Decodes the compact positional shorthand: position 0 is the start
/// address (mandatory), position 1 the segment type (default "stub"),
/// position 2 the name (default: the start offset rendered in uppercase
/// hexadecimal, or nothing when the start is "auto"), and everything from
/// position 3 on is kept in order as the sequence-form extension bag. The
/// verbose-only fields stay absent.
pub open spec fn spec_decode_compact(items: Seq<ValueView>) -> Result<SegmentView, DecodeError> {
    if items.len() == 0 {
        Err(DecodeError::EmptyListSegment)
    } else {
        match spec_parse_address(items[0]) {
            Err(e) => Err(e),
            Ok(rom) => Ok(
                SegmentView {
                    rom,
                    segment_type: if items.len() >= 2 && items[1] is Str {
                        items[1]->Str_0
                    } else {
                        "stub"@
                    },
                    name: if items.len() >= 3 && items[2] is Str {
                        Some(items[2]->Str_0)
                    } else {
                        match rom {
                            Some(r) => Some(hex_chars(r as nat)),
                            None => None,
                        }
                    },
                    args: if items.len() > 3 {
                        Some(ArgsView::List(items.skip(3)))
                    } else {
                        None
                    },
                    ..empty_segment_view()
                },
            ),
        }
    }
}

/// Decodes one document node into a segment.
pub open spec fn spec_decode_segment(v: ValueView) -> Result<SegmentView, DecodeError>
    decreases v, 0int, 0int,
{
    match v {
        ValueView::Mapping(entries) => spec_decode_entries(
            entries,
            None,
            empty_segment_view(),
            0,
        ),
        ValueView::Sequence(items) => spec_decode_compact(items),
        _ => Err(DecodeError::InvalidSegment),
    }
}

/// Folds the keyed-form entries from index `i` on into the partial segment,
/// in document order, failing fast; at the end the segment type must have
/// been set.
pub open spec fn spec_decode_entries(
    entries: Seq<(ValueView, ValueView)>,
    ty: Option<Seq<char>>,
    acc: SegmentView,
    i: int,
) -> Result<SegmentView, DecodeError>
    decreases entries, entries.len() - i, 1int,
{
    if i < 0 || i >= entries.len() {
        match ty {
            Some(t) => Ok(SegmentView { segment_type: t, ..acc }),
            None => Err(DecodeError::MissingSegmentType),
        }
    } else {
        match entries[i].0 {
            ValueView::Str(key) => if key == "subsegments"@ {
                match entries[i].1 {
                    ValueView::Sequence(l) => match spec_decode_list(l, 0) {
                        Ok(subs) => spec_decode_entries(
                            entries,
                            ty,
                            SegmentView { subsegments: Some(subs), ..acc },
                            i + 1,
                        ),
                        Err(e) => Err(e),
                    },
                    _ => Err(DecodeError::InvalidFieldType(Field::Subsegments)),
                }
            } else {
                match spec_apply_field(ty, acc, key, entries[i].1) {
                    Ok((ty2, acc2)) => spec_decode_entries(entries, ty2, acc2, i + 1),
                    Err(e) => Err(e),
                }
            },
            _ => Err(DecodeError::InvalidKey),
        }
    }
}

/// Decodes a sequence of nodes from index `j` on, each into a segment, in
/// order, failing fast.
pub open spec fn spec_decode_list(items: Seq<ValueView>, j: int) -> Result<
    Seq<SegmentView>,
    DecodeError,
>
    decreases items, items.len() - j, 0int,
{
    if j < 0 || j >= items.len() {
        Ok(Seq::empty())
    } else {
        match spec_decode_segment(items[j]) {
            Ok(s) => match spec_decode_list(items, j + 1) {
                Ok(rest) => Ok(seq![s] + rest),
                Err(e) => Err(e),
            },
            Err(e) => Err(e),
        }
    }
}

/// Whether an extension bag, if present, is the mapping form with distinct
/// keys.
pub open spec fn args_behave_as_map(args: Option<ArgsView>) -> bool {
    match args {
        Some(ArgsView::Dict(d)) => dict_keys_distinct(d),
        Some(ArgsView::List(_)) => false,
        None => true,
    }
}

/// Along the keyed fold, a bag that behaves as a map keeps doing so.
pub proof fn lemma_entries_args_distinct(
    entries: Seq<(ValueView, ValueView)>,
    ty: Option<Seq<char>>,
    acc: SegmentView,
    i: int,
)
    requires
        args_behave_as_map(acc.args),
        spec_decode_entries(entries, ty, acc, i) is Ok,
    ensures
        args_behave_as_map(spec_decode_entries(entries, ty, acc, i)->Ok_0.args),
    decreases entries.len() - i,
{
    if i < 0 || i >= entries.len() {
    } else {
        match entries[i].0 {
            ValueView::Str(key) => {
                if key == "subsegments"@ {
                    match entries[i].1 {
                        ValueView::Sequence(l) => {
                            match spec_decode_list(l, 0) {
                                Ok(subs) => {
                                    lemma_entries_args_distinct(
                                        entries,
                                        ty,
                                        SegmentView { subsegments: Some(subs), ..acc },
                                        i + 1,
                                    );
                                },
                                Err(_) => {},
                            }
                        },
                        _ => {},
                    }
                } else {
                    match acc.args {
                        Some(ArgsView::Dict(d)) => {
                            lemma_dict_insert_distinct(d, key, entries[i].1);
                        },
                        _ => {},
                    }
                    match spec_apply_field(ty, acc, key, entries[i].1) {
                        Ok(p) => {
                            lemma_entries_args_distinct(entries, p.0, p.1, i + 1);
                        },
                        Err(_) => {},
                    }
                }
            },
            _ => {},
        }
    }
}

/// The model of a decode outcome.
pub open spec fn seg_result_view(r: Result<YamlSegment, DecodeError>) -> Result<
    SegmentView,
    DecodeError,
> {
    match r {
        Ok(s) => Ok(s@),
        Err(e) => Err(e),
    }
}

/// The literal "stub": the default type of a compact-form segment.
fn stub_string() -> (s: String)
    ensures
        s@ == "stub"@,
{
    "stub".to_owned()
}

/// The default name of a compact-form segment: the start offset rendered in
/// uppercase hexadecimal, absent when the start is "auto".
fn default_name(rom: Option<u64>) -> (r: Option<String>)
    ensures
        opt_string_view(r) == (match rom {
            Some(x) => Some(hex_chars(x as nat)),
            None => None::<Seq<char>>,
        }),
{
    match rom {
        Some(x) => Some(format_hex_upper(x)),
        None => None,
    }
}

/// Casts a sequence node to a vector of strings, if every element is one.
fn decode_string_list(l: &Vec<Value>) -> (r: Option<Vec<String>>)
    ensures
        (match r {
            Some(out) => out@.len() == l@.len() && (forall|t: int|
                0 <= t < l@.len() ==> l@[t]@ is Str) && (forall|t: int|
                0 <= t < l@.len() ==> out@[t]@ == l@[t]@->Str_0),
            None => !(forall|t: int| 0 <= t < l@.len() ==> l@[t]@ is Str),
        }),
{
    let mut out: Vec<String> = Vec::new();
    let mut j: usize = 0;
    while j < l.len()
        invariant
            j <= l@.len(),
            out@.len() == j as int,
            forall|t: int| 0 <= t < j as int ==> l@[t]@ is Str,
            forall|t: int| 0 <= t < j as int ==> out@[t]@ == l@[t]@->Str_0,
        decreases l@.len() - j,
    {
        match &l[j] {
            Value::Str(s) => {
                proof {
                    assert(l@[j as int]@ == ValueView::Str(s@));
                }
                let ghost oldout = out@;
                let c = s.clone();
                proof {
                    assert(c@ == s@);
                }
                out.push(c);
                proof {
                    assert(out@ =~= oldout.push(c));
                    assert forall|t: int| 0 <= t < (j + 1) as int implies l@[t]@ is Str by {
                        if t == j as int {
                            assert(l@[t]@ == ValueView::Str(s@));
                        }
                    }
                    assert forall|t: int| 0 <= t < (j + 1) as int implies out@[t]@ == l@[t]@->Str_0 by {
                        if t < j as int {
                            assert(out@[t] == oldout[t]);
                        } else {
                            assert(out@[t] == c);
                        }
                    }
                }
            },
            _ => {
                proof {
                    assert(!(l@[j as int]@ is Str));
                }
                return None;
            },
        }
        j += 1;
    }
    Some(out)
}

/// Applies one keyed-form entry other than `subsegments` to the partial
/// segment, exactly as `spec_apply_field` says.
#[verifier::rlimit(100)]
fn apply_field_exec(ty: Option<String>, acc: YamlSegment, key: &String, val: &Value) -> (r: Result<
    (Option<String>, YamlSegment),
    DecodeError,
>)
    ensures
        (match r {
            Ok(p) => spec_apply_field(opt_string_view(ty), acc@, key@, val@) == Ok::<
                (Option<Seq<char>>, SegmentView),
                DecodeError,
            >((opt_string_view(p.0), p.1@)),
            Err(e) => spec_apply_field(opt_string_view(ty), acc@, key@, val@) == Err::<
                (Option<Seq<char>>, SegmentView),
                DecodeError,
            >(e),
        }),
{
    let ghost accv = acc@;
    let mut acc = acc;
    if str_equals(key.as_str(), "type") {
        match val {
            Value::Str(s) => Ok((Some(s.clone()), acc)),
            _ => Err(DecodeError::InvalidFieldType(Field::Type)),
        }
    } else if str_equals(key.as_str(), "start") {
        match parse_address(val) {
            Ok(a) => {
                acc.rom = a;
                proof {
                    assert(acc@ =~= SegmentView { rom: a, ..accv });
                }
                Ok((ty, acc))
            },
            Err(e) => Err(e),
        }
    } else if str_equals(key.as_str(), "name") {
        match val {
            Value::Str(s) => {
                acc.name = Some(s.clone());
                proof {
                    assert(acc@ =~= SegmentView { name: Some(s@), ..accv });
                }
                Ok((ty, acc))
            },
            _ => Err(DecodeError::InvalidFieldType(Field::Name)),
        }
    } else if str_equals(key.as_str(), "dir") {
        match val {
            Value::Str(s) => {
                acc.dir = Some(s.clone());
                proof {
                    assert(acc@ =~= SegmentView { dir: Some(s@), ..accv });
                }
                Ok((ty, acc))
            },
            _ => Err(DecodeError::InvalidFieldType(Field::Dir)),
        }
    } else if str_equals(key.as_str(), "vram") {
        match parse_address(val) {
            Ok(a) => {
                acc.vram = a;
                proof {
                    assert(acc@ =~= SegmentView { vram: a, ..accv });
                }
                Ok((ty, acc))
            },
            Err(e) => Err(e),
        }
    } else if str_equals(key.as_str(), "bss_size") {
        match parse_number(val) {
            Ok(n) => {
                acc.bss_size = n;
                proof {
                    assert(acc@ =~= SegmentView { bss_size: n, ..accv });
                }
                Ok((ty, acc))
            },
            Err(e) => Err(e),
        }
    } else if str_equals(key.as_str(), "vram_class") {
        match val {
            Value::Str(s) => {
                acc.vram_class = Some(s.clone());
                proof {
                    assert(acc@ =~= SegmentView { vram_class: Some(s@), ..accv });
                }
                Ok((ty, acc))
            },
            _ => Err(DecodeError::InvalidFieldType(Field::VramClass)),
        }
    } else if str_equals(key.as_str(), "follows_vram") {
        match val {
            Value::Str(s) => {
                acc.follows_vram = Some(s.clone());
                proof {
                    assert(acc@ =~= SegmentView { follows_vram: Some(s@), ..accv });
                }
                Ok((ty, acc))
            },
            _ => Err(DecodeError::InvalidFieldType(Field::FollowsVram)),
        }
    } else if str_equals(key.as_str(), "vram_symbol") {
        match val {
            Value::Str(s) => {
                acc.vram_symbol = Some(s.clone());
                proof {
                    assert(acc@ =~= SegmentView { vram_symbol: Some(s@), ..accv });
                }
                Ok((ty, acc))
            },
            _ => Err(DecodeError::InvalidFieldType(Field::VramSymbol)),
        }
    } else if str_equals(key.as_str(), "align") {
        match parse_number(val) {
            Ok(n) => {
                acc.align = n;
                proof {
                    assert(acc@ =~= SegmentView { align: n, ..accv });
                }
                Ok((ty, acc))
            },
            Err(e) => Err(e),
        }
    } else if str_equals(key.as_str(), "subalign") {
        match parse_number(val) {
            Ok(n) => {
                acc.subalign = n;
                proof {
                    assert(acc@ =~= SegmentView { subalign: n, ..accv });
                }
                Ok((ty, acc))
            },
            Err(e) => Err(e),
        }
    } else {
        apply_field_rest(ty, acc, key, val)
    }
}

/// The tail of the keyed-form field dispatch, from `section_order` on.
#[verifier::rlimit(100)]
fn apply_field_rest(ty: Option<String>, acc: YamlSegment, key: &String, val: &Value) -> (r: Result<
    (Option<String>, YamlSegment),
    DecodeError,
>)
    requires
        key@ != "type"@,
        key@ != "start"@,
        key@ != "name"@,
        key@ != "dir"@,
        key@ != "vram"@,
        key@ != "bss_size"@,
        key@ != "vram_class"@,
        key@ != "follows_vram"@,
        key@ != "vram_symbol"@,
        key@ != "align"@,
        key@ != "subalign"@,
    ensures
        (match r {
            Ok(p) => spec_apply_field(opt_string_view(ty), acc@, key@, val@) == Ok::<
                (Option<Seq<char>>, SegmentView),
                DecodeError,
            >((opt_string_view(p.0), p.1@)),
            Err(e) => spec_apply_field(opt_string_view(ty), acc@, key@, val@) == Err::<
                (Option<Seq<char>>, SegmentView),
                DecodeError,
            >(e),
        }),
{
    let ghost accv = acc@;
    let mut acc = acc;
    if str_equals(key.as_str(), "section_order") {
        match val {
            Value::Sequence(l) => match decode_string_list(l) {
                Some(out) => {
                    acc.section_order = Some(out);
                    proof {
                        let lv = val@->Sequence_0;
                        assert(lv == seq_view(l@));
                        assert forall|t: int| 0 <= t < lv.len() implies lv[t] is Str by {
                            assert(seq_view(l@)[t] == l@[t]@);
                        }
                        assert(opt_string_seq_view(acc.section_order)->0 =~= lv.map_values(
                            |x: ValueView| x->Str_0,
                        )) by {
                            assert forall|t: int| 0 <= t < lv.len() implies lv.map_values(
                                |x: ValueView| x->Str_0,
                            )[t] == opt_string_seq_view(acc.section_order)->0[t] by {
                                assert(seq_view(l@)[t] == l@[t]@);
                                assert(lv.map_values(|x: ValueView| x->Str_0)[t] == lv[t]->Str_0);
                                assert(opt_string_seq_view(acc.section_order)->0[t] == out@[t]@);
                                assert(out@[t]@ == l@[t]@->Str_0);
                            }
                        }
                        assert(acc@ =~= SegmentView {
                            section_order: Some(lv.map_values(|x: ValueView| x->Str_0)),
                            ..accv
                        });
                    }
                    Ok((ty, acc))
                },
                None => {
                    proof {
                        let lv = val@->Sequence_0;
                        assert(lv == seq_view(l@));
                        assert(exists|t: int| 0 <= t < l@.len() && !(l@[t]@ is Str));
                        let t = choose|t: int| 0 <= t < l@.len() && !(l@[t]@ is Str);
                        assert(seq_view(l@)[t] == l@[t]@);
                        assert(!(forall|t2: int| 0 <= t2 < lv.len() ==> lv[t2] is Str));
                    }
                    Err(DecodeError::InvalidFieldType(Field::SectionOrder))
                },
            },
            _ => Err(DecodeError::InvalidFieldType(Field::SectionOrder)),
        }
    } else if str_equals(key.as_str(), "bss_contains_common") {
        match val {
            Value::Bool(b) => {
                acc.bss_contains_common = Some(*b);
                proof {
                    assert(acc@ =~= SegmentView { bss_contains_common: Some(*b), ..accv });
                }
                Ok((ty, acc))
            },
            _ => Err(DecodeError::InvalidFieldType(Field::BssContainsCommon)),
        }
    } else if str_equals(key.as_str(), "linker_section") {
        match val {
            Value::Str(s) => {
                acc.linker_section = Some(s.clone());
                proof {
                    assert(acc@ =~= SegmentView { linker_section: Some(s@), ..accv });
                }
                Ok((ty, acc))
            },
            _ => Err(DecodeError::InvalidFieldType(Field::LinkerSection)),
        }
    } else if str_equals(key.as_str(), "linker_section_order") {
        match val {
            Value::Str(s) => {
                acc.linker_section_order = Some(s.clone());
                proof {
                    assert(acc@ =~= SegmentView { linker_section_order: Some(s@), ..accv });
                }
                Ok((ty, acc))
            },
            _ => Err(DecodeError::InvalidFieldType(Field::LinkerSectionOrder)),
        }
    } else if str_equals(key.as_str(), "ld_fill_value") {
        match parse_number(val) {
            Ok(n) => {
                acc.ld_fill_value = n;
                proof {
                    assert(acc@ =~= SegmentView { ld_fill_value: n, ..accv });
                }
                Ok((ty, acc))
            },
            Err(e) => Err(e),
        }
    } else if str_equals(key.as_str(), "ld_align_segment_start") {
        match parse_number(val) {
            Ok(n) => {
                acc.ld_align_segment_start = n;
                proof {
                    assert(acc@ =~= SegmentView { ld_align_segment_start: n, ..accv });
                }
                Ok((ty, acc))
            },
            Err(e) => Err(e),
        }
    } else if str_equals(key.as_str(), "suggestion_rodata_section_start") {
        match val {
            Value::Bool(b) => {
                acc.suggestion_rodata_section_start = Some(*b);
                proof {
                    assert(acc@ =~= SegmentView {
                        suggestion_rodata_section_start: Some(*b),
                        ..accv
                    });
                }
                Ok((ty, acc))
            },
            _ => Err(DecodeError::InvalidFieldType(Field::SuggestionRodataSectionStart)),
        }
    } else if str_equals(key.as_str(), "size") {
        match parse_number(val) {
            Ok(n) => {
                acc.size = n;
                proof {
                    assert(acc@ =~= SegmentView { size: n, ..accv });
                }
                Ok((ty, acc))
            },
            Err(e) => Err(e),
        }
    } else if str_equals(key.as_str(), "symbol_name_format") {
        match val {
            Value::Str(s) => {
                acc.symbol_name_format = Some(s.clone());
                proof {
                    assert(acc@ =~= SegmentView { symbol_name_format: Some(s@), ..accv });
                }
                Ok((ty, acc))
            },
            _ => Err(DecodeError::InvalidFieldType(Field::SymbolNameFormat)),
        }
    } else if str_equals(key.as_str(), "symbol_name_format_no_rom") {
        match val {
            Value::Str(s) => {
                acc.symbol_name_format_no_rom = Some(s.clone());
                proof {
                    assert(acc@ =~= SegmentView {
                        symbol_name_format_no_rom: Some(s@),
                        ..accv
                    });
                }
                Ok((ty, acc))
            },
            _ => Err(DecodeError::InvalidFieldType(Field::SymbolNameFormatNoRom)),
        }
    } else {
        let ghost oldargs = opt_args_view(acc.args);
        let a = acc.args;
        acc.args = Some(
            match a {
                Some(YamlSegmentArgs::Dict(mut d)) => {
                    dict_insert_exec(&mut d, key.clone(), val.clone());
                    YamlSegmentArgs::Dict(d)
                },
                _ => {
                    let mut d: Vec<(String, Value)> = Vec::new();
                    d.push((key.clone(), val.clone()));
                    proof {
                        assert(dict_view(d@) =~= seq![(key@, val@)]);
                    }
                    YamlSegmentArgs::Dict(d)
                },
            },
        );
        proof {
            assert(opt_args_view(acc.args) == Some(spec_args_insert(oldargs, key@, val@)));
            assert(acc@ =~= SegmentView {
                args: Some(spec_args_insert(accv.args, key@, val@)),
                ..accv
            });
        }
        Ok((ty, acc))
    }
}

/// Decodes the compact positional shorthand, exactly as
/// `spec_decode_compact` says.
fn decode_compact(items: &Vec<Value>) -> (r: Result<YamlSegment, DecodeError>)
    ensures
        seg_result_view(r) == spec_decode_compact(seq_view(items@)),
{
    let ghost iv = seq_view(items@);
    if items.len() == 0 {
        return Err(DecodeError::EmptyListSegment);
    }
    let rom = match parse_address(&items[0]) {
        Ok(a) => a,
        Err(e) => {
            return Err(e);
        },
    };
    let segment_type: String = if items.len() >= 2 {
        match &items[1] {
            Value::Str(s) => s.clone(),
            _ => stub_string(),
        }
    } else {
        stub_string()
    };
    let name: Option<String> = if items.len() >= 3 {
        match &items[2] {
            Value::Str(s) => Some(s.clone()),
            _ => default_name(rom),
        }
    } else {
        default_name(rom)
    };
    let args: Option<YamlSegmentArgs> = if items.len() > 3 {
        let mut tail: Vec<Value> = Vec::new();
        let mut i: usize = 3;
        while i < items.len()
            invariant
                3 <= i <= items@.len(),
                items@.len() > 3,
                tail@.len() == i - 3,
                forall|j: int| 0 <= j < tail@.len() ==> tail@[j]@ == items@[j + 3]@,
            decreases items@.len() - i,
        {
            tail.push(items[i].clone());
            i += 1;
        }
        proof {
            assert(seq_view(tail@) =~= iv.skip(3));
        }
        Some(YamlSegmentArgs::List(tail))
    } else {
        None
    };
    let mut s = empty_segment();
    s.rom = rom;
    s.segment_type = segment_type;
    s.name = name;
    s.args = args;
    proof {
        assert(seg_result_view(Ok(s)) =~= spec_decode_compact(iv));
    }
    Ok(s)
}

/// Decodes one document node into a segment: a mapping is the verbose keyed
/// syntax, a sequence the compact positional one, and anything else is
/// invalid. The result, success or failure, is exactly what
/// `spec_decode_segment` assigns to the node's model.
pub fn decode_segment(v: &Value) -> (r: Result<YamlSegment, DecodeError>)
    ensures
        seg_result_view(r) == spec_decode_segment(v@),
    decreases *v, 1int,
{
    match v {
        Value::Sequence(items) => {
            let r = decode_compact(items);
            proof {
                assert(v@->Sequence_0 =~= seq_view(items@));
            }
            r
        },
        Value::Mapping(entries) => {
            let ghost em = entries_view(entries@);
            proof {
                assert(v@->Mapping_0 =~= em);
            }
            let mut ty: Option<String> = None;
            let mut acc = empty_segment();
            let mut i: usize = 0;
            while i < entries.len()
                invariant
                    *v == Value::Mapping(*entries),
                    em == entries_view(entries@),
                    i <= entries@.len(),
                    spec_decode_entries(em, opt_string_view(ty), acc@, i as int)
                        == spec_decode_entries(em, None, empty_segment_view(), 0),
                decreases entries@.len() - i,
            {
                let (k, val) = &entries[i];
                proof {
                    assert(em[i as int] == (k@, val@));
                }
                match k {
                    Value::Str(key) => {
                        if str_equals(key.as_str(), "subsegments") {
                            match val {
                                Value::Sequence(l) => {
                                    proof {
                                        assert(decreases_to!(*v => v->Mapping_0));
                                        assert(decreases_to!(*entries => entries@));
                                        assert(decreases_to!(entries@ => entries@[i as int]));
                                        assert(decreases_to!(
                                            entries@[i as int] => entries@[i as int].1));
                                        assert(decreases_to!(*val => val->Sequence_0));
                                    }
                                    match decode_seg_list(l) {
                                        Ok(subs) => {
                                            acc.subsegments = Some(subs);
                                            proof {
                                                assert(val@->Sequence_0 =~= seq_view(l@));
                                            }
                                        },
                                        Err(e) => {
                                            proof {
                                                assert(val@->Sequence_0 =~= seq_view(l@));
                                                assert(spec_decode_entries(
                                                    em,
                                                    opt_string_view(ty),
                                                    acc@,
                                                    i as int,
                                                ) == Err::<SegmentView, DecodeError>(e));
                                            }
                                            return Err(e);
                                        },
                                    }
                                },
                                _ => {
                                    return Err(DecodeError::InvalidFieldType(Field::Subsegments));
                                },
                            }
                        } else {
                            match apply_field_exec(ty, acc, key, val) {
                                Ok(p) => {
                                    ty = p.0;
                                    acc = p.1;
                                },
                                Err(e) => {
                                    return Err(e);
                                },
                            }
                        }
                    },
                    _ => {
                        return Err(DecodeError::InvalidKey);
                    },
                }
                i += 1;
            }
            match ty {
                Some(t) => {
                    let ghost accv = acc@;
                    acc.segment_type = t;
                    proof {
                        assert(acc@ =~= SegmentView { segment_type: t@, ..accv });
                    }
                    Ok(acc)
                },
                None => Err(DecodeError::MissingSegmentType),
            }
        },
        _ => Err(DecodeError::InvalidSegment),
    }
}

/// Decodes a sequence of nodes, each into a segment, in order, failing
/// fast: the result is exactly what `spec_decode_list` assigns.
pub fn decode_seg_list(items: &Vec<Value>) -> (r: Result<Vec<YamlSegment>, DecodeError>)
    ensures
        (match r {
            Ok(subs) => spec_decode_list(seq_view(items@), 0) == Ok::<_, DecodeError>(
                seg_seq_view(subs@),
            ),
            Err(e) => spec_decode_list(seq_view(items@), 0) == Err::<Seq<SegmentView>, _>(e),
        }),
    decreases *items, 2int,
{
    let ghost lv = seq_view(items@);
    let mut subs: Vec<YamlSegment> = Vec::new();
    let mut j: usize = 0;
    while j < items.len()
        invariant
            lv == seq_view(items@),
            j <= items@.len(),
            subs@.len() == j as int,
            spec_decode_list(lv, 0) == (match spec_decode_list(lv, j as int) {
                Ok(rest) => Ok::<_, DecodeError>(seg_seq_view(subs@) + rest),
                Err(e) => Err::<Seq<SegmentView>, _>(e),
            }),
        decreases items@.len() - j,
    {
        proof {
            assert(decreases_to!(*items => items@));
            assert(decreases_to!(items@ => items@[j as int]));
        }
        match decode_segment(&items[j]) {
            Ok(s) => {
                let ghost oldsubs = subs@;
                subs.push(s);
                proof {
                    assert(seg_seq_view(subs@) =~= seg_seq_view(oldsubs) + seq![s@]);
                    if spec_decode_list(lv, j + 1) is Ok {
                        assert((seg_seq_view(oldsubs) + seq![s@]) + spec_decode_list(
                            lv,
                            j + 1,
                        )->Ok_0 =~= seg_seq_view(oldsubs) + (seq![s@] + spec_decode_list(
                            lv,
                            j + 1,
                        )->Ok_0));
                    }
                }
            },
            Err(e) => {
                return Err(e);
            },
        }
        j += 1;
    }
    Ok(subs)
}

} // verus!

verus! {

} // verus!
