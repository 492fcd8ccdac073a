use splat_core::coerce::{parse_address, parse_number};
use splat_core::decode::decode_segment;
use splat_core::document::{decode_document, SplatYaml};
use splat_core::error::{DecodeError, Field};
use splat_core::hex::format_hex_upper;
use splat_core::segment::{YamlSegment, YamlSegmentArgs};
use splat_core::value::{Value, YamlNum};
use splat_core::vram::{resolve_vram_class, VramClass};

fn uint(n: u64) -> Value {
    Value::Num(YamlNum::UInt(n))
}

fn sint(n: i64) -> Value {
    Value::Num(YamlNum::Int(n))
}

fn s(text: &str) -> Value {
    Value::Str(text.to_string())
}

fn entry(key: &str, val: Value) -> (Value, Value) {
    (s(key), val)
}

#[test]
fn address_round_trip() {
    assert_eq!(parse_address(&uint(0)), Ok(Some(0)));
    assert_eq!(parse_address(&uint(0x1000)), Ok(Some(0x1000)));
    assert_eq!(parse_address(&uint(u64::MAX)), Ok(Some(u64::MAX)));
    assert_eq!(parse_number(&uint(42)), Ok(Some(42)));
    assert_eq!(parse_number(&uint(u64::MAX)), Ok(Some(u64::MAX)));
}

#[test]
fn signed_numbers_reinterpreted_as_unsigned() {
    assert_eq!(parse_address(&sint(-1)), Ok(Some(u64::MAX)));
    assert_eq!(parse_number(&sint(-1)), Ok(Some(u64::MAX)));
    assert_eq!(parse_number(&sint(-2)), Ok(Some(u64::MAX - 1)));
    assert_eq!(parse_number(&sint(7)), Ok(Some(7)));
}

#[test]
fn address_auto_sentinel_case_insensitive() {
    assert_eq!(parse_address(&s("auto")), Ok(None));
    assert_eq!(parse_address(&s("AUTO")), Ok(None));
    assert_eq!(parse_address(&s("Auto")), Ok(None));
    assert_eq!(parse_address(&s("aUtO")), Ok(None));
    assert_eq!(parse_address(&s("autos")), Err(DecodeError::InvalidAddress));
    assert_eq!(parse_address(&s("aut")), Err(DecodeError::InvalidAddress));
    assert_eq!(parse_address(&s("manual")), Err(DecodeError::InvalidAddress));
    assert_eq!(parse_address(&s("")), Err(DecodeError::InvalidAddress));
}

#[test]
fn number_rejects_every_string() {
    assert_eq!(parse_number(&s("auto")), Err(DecodeError::InvalidNumber));
    assert_eq!(parse_number(&s("AUTO")), Err(DecodeError::InvalidNumber));
    assert_eq!(parse_number(&s("12")), Err(DecodeError::InvalidNumber));
}

#[test]
fn coercion_rejects_other_shapes() {
    assert_eq!(parse_address(&Value::Bool(true)), Err(DecodeError::InvalidAddress));
    assert_eq!(parse_address(&Value::Null), Err(DecodeError::InvalidAddress));
    assert_eq!(parse_address(&Value::Sequence(vec![])), Err(DecodeError::InvalidAddress));
    assert_eq!(parse_address(&Value::Num(YamlNum::Other)), Err(DecodeError::InvalidAddress));
    assert_eq!(parse_number(&Value::Bool(false)), Err(DecodeError::InvalidNumber));
    assert_eq!(parse_number(&Value::Num(YamlNum::Other)), Err(DecodeError::InvalidNumber));
}

#[test]
fn hex_rendering_uppercase_no_padding() {
    assert_eq!(format_hex_upper(0), "0");
    assert_eq!(format_hex_upper(9), "9");
    assert_eq!(format_hex_upper(10), "A");
    assert_eq!(format_hex_upper(0x1000), "1000");
    assert_eq!(format_hex_upper(0xDEADBEEF), "DEADBEEF");
    assert_eq!(format_hex_upper(u64::MAX), "FFFFFFFFFFFFFFFF");
}

#[test]
fn compact_form_defaults() {
    let seg = decode_segment(&Value::Sequence(vec![uint(0x1000)])).unwrap();
    assert_eq!(seg.segment_type, "stub");
    assert_eq!(seg.name, Some("1000".to_string()));
    assert_eq!(seg.rom, Some(0x1000));
    assert_eq!(seg.dir, None);
    assert_eq!(seg.vram, None);
    assert_eq!(seg.subsegments, None);
    assert_eq!(seg.bss_size, None);
    assert_eq!(seg.vram_class, None);
    assert_eq!(seg.follows_vram, None);
    assert_eq!(seg.vram_symbol, None);
    assert_eq!(seg.align, None);
    assert_eq!(seg.subalign, None);
    assert_eq!(seg.section_order, None);
    assert_eq!(seg.bss_contains_common, None);
    assert_eq!(seg.linker_section, None);
    assert_eq!(seg.linker_section_order, None);
    assert_eq!(seg.ld_fill_value, None);
    assert_eq!(seg.ld_align_segment_start, None);
    assert_eq!(seg.suggestion_rodata_section_start, None);
    assert_eq!(seg.size, None);
    assert_eq!(seg.symbol_name_format, None);
    assert_eq!(seg.symbol_name_format_no_rom, None);
    assert!(seg.args.is_none());
}

#[test]
fn compact_form_explicit_type_name_args() {
    let seg = decode_segment(&Value::Sequence(vec![
        uint(0x2000),
        s("data"),
        s("foo"),
        uint(1),
        s("bar"),
    ]))
    .unwrap();
    assert_eq!(seg.rom, Some(0x2000));
    assert_eq!(seg.segment_type, "data");
    assert_eq!(seg.name, Some("foo".to_string()));
    assert_eq!(seg.args, Some(YamlSegmentArgs::List(vec![uint(1), s("bar")])));
}

#[test]
fn compact_form_auto_start_has_no_default_name() {
    let seg = decode_segment(&Value::Sequence(vec![s("auto")])).unwrap();
    assert_eq!(seg.rom, None);
    assert_eq!(seg.segment_type, "stub");
    assert_eq!(seg.name, None);
}

#[test]
fn compact_form_non_string_type_position_defaults_to_stub() {
    let seg = decode_segment(&Value::Sequence(vec![uint(0x10), uint(5)])).unwrap();
    assert_eq!(seg.segment_type, "stub");
    assert_eq!(seg.name, Some("10".to_string()));
    assert!(seg.args.is_none());
}

#[test]
fn compact_form_exactly_three_positions_has_no_args() {
    let seg = decode_segment(&Value::Sequence(vec![uint(0), s("code"), s("n")])).unwrap();
    assert_eq!(seg.args, None);
}

#[test]
fn keyed_form_extension_bag() {
    let seg = decode_segment(&Value::Mapping(vec![
        entry("type", s("code")),
        entry("start", uint(0)),
        entry("custom_opt", Value::Bool(true)),
    ]))
    .unwrap();
    assert_eq!(seg.segment_type, "code");
    assert_eq!(seg.rom, Some(0));
    assert_eq!(
        seg.args,
        Some(YamlSegmentArgs::Dict(vec![("custom_opt".to_string(), Value::Bool(true))]))
    );
}

#[test]
fn keyed_form_extension_bag_last_write_wins() {
    let seg = decode_segment(&Value::Mapping(vec![
        entry("type", s("code")),
        entry("x", uint(1)),
        entry("y", uint(5)),
        entry("x", uint(2)),
    ]))
    .unwrap();
    assert_eq!(
        seg.args,
        Some(YamlSegmentArgs::Dict(vec![
            ("x".to_string(), uint(2)),
            ("y".to_string(), uint(5)),
        ]))
    );
}

#[test]
fn keyed_form_missing_type_is_error() {
    let r = decode_segment(&Value::Mapping(vec![
        entry("start", uint(0)),
        entry("custom_opt", Value::Bool(true)),
    ]));
    assert_eq!(r, Err(DecodeError::MissingSegmentType));
}

#[test]
fn keyed_form_all_known_fields() {
    let seg = decode_segment(&Value::Mapping(vec![
        entry("type", s("code")),
        entry("start", uint(0x40)),
        entry("name", s("main")),
        entry("dir", s("src")),
        entry("vram", uint(0x80000000)),
        entry("bss_size", uint(16)),
        entry("vram_class", s("cls")),
        entry("follows_vram", s("prev")),
        entry("vram_symbol", s("sym")),
        entry("align", uint(8)),
        entry("subalign", uint(4)),
        entry("section_order", Value::Sequence(vec![s(".text"), s(".data")])),
        entry("bss_contains_common", Value::Bool(true)),
        entry("linker_section", s(".text")),
        entry("linker_section_order", s(".text,.data")),
        entry("ld_fill_value", uint(0)),
        entry("ld_align_segment_start", uint(16)),
        entry("suggestion_rodata_section_start", Value::Bool(false)),
        entry("size", uint(0x100)),
        entry("symbol_name_format", s("$VRAM")),
        entry("symbol_name_format_no_rom", s("$VRAM_norom")),
    ]))
    .unwrap();
    assert_eq!(seg.segment_type, "code");
    assert_eq!(seg.rom, Some(0x40));
    assert_eq!(seg.name, Some("main".to_string()));
    assert_eq!(seg.dir, Some("src".to_string()));
    assert_eq!(seg.vram, Some(0x80000000));
    assert_eq!(seg.bss_size, Some(16));
    assert_eq!(seg.vram_class, Some("cls".to_string()));
    assert_eq!(seg.follows_vram, Some("prev".to_string()));
    assert_eq!(seg.vram_symbol, Some("sym".to_string()));
    assert_eq!(seg.align, Some(8));
    assert_eq!(seg.subalign, Some(4));
    assert_eq!(seg.section_order, Some(vec![".text".to_string(), ".data".to_string()]));
    assert_eq!(seg.bss_contains_common, Some(true));
    assert_eq!(seg.linker_section, Some(".text".to_string()));
    assert_eq!(seg.linker_section_order, Some(".text,.data".to_string()));
    assert_eq!(seg.ld_fill_value, Some(0));
    assert_eq!(seg.ld_align_segment_start, Some(16));
    assert_eq!(seg.suggestion_rodata_section_start, Some(false));
    assert_eq!(seg.size, Some(0x100));
    assert_eq!(seg.symbol_name_format, Some("$VRAM".to_string()));
    assert_eq!(seg.symbol_name_format_no_rom, Some("$VRAM_norom".to_string()));
    assert!(seg.args.is_none());
}

#[test]
fn keyed_form_start_auto_means_unspecified() {
    let seg = decode_segment(&Value::Mapping(vec![
        entry("type", s("code")),
        entry("start", s("auto")),
        entry("vram", s("AUTO")),
    ]))
    .unwrap();
    assert_eq!(seg.rom, None);
    assert_eq!(seg.vram, None);
}

#[test]
fn recursive_subsegments_preserve_order() {
    let seg = decode_segment(&Value::Mapping(vec![
        entry("type", s("code")),
        entry(
            "subsegments",
            Value::Sequence(vec![
                Value::Sequence(vec![uint(0), s("a")]),
                Value::Sequence(vec![uint(16), s("b")]),
            ]),
        ),
    ]))
    .unwrap();
    let subs = seg.subsegments.unwrap();
    assert_eq!(subs.len(), 2);
    assert_eq!(subs[0].rom, Some(0));
    assert_eq!(subs[0].segment_type, "a");
    assert_eq!(subs[0].name, Some("0".to_string()));
    assert_eq!(subs[1].rom, Some(16));
    assert_eq!(subs[1].segment_type, "b");
    assert_eq!(subs[1].name, Some("10".to_string()));
}

#[test]
fn nested_subsegment_failure_aborts_whole_decode() {
    let r = decode_segment(&Value::Mapping(vec![
        entry("type", s("code")),
        entry(
            "subsegments",
            Value::Sequence(vec![
                Value::Sequence(vec![uint(0)]),
                Value::Sequence(vec![]),
            ]),
        ),
    ]));
    assert_eq!(r, Err(DecodeError::EmptyListSegment));
}

#[test]
fn zero_length_sequence_segment_is_error() {
    assert_eq!(
        decode_segment(&Value::Sequence(vec![])),
        Err(DecodeError::EmptyListSegment)
    );
}

#[test]
fn scalar_segment_nodes_are_errors() {
    assert_eq!(decode_segment(&s("code")), Err(DecodeError::InvalidSegment));
    assert_eq!(decode_segment(&uint(5)), Err(DecodeError::InvalidSegment));
    assert_eq!(decode_segment(&Value::Bool(true)), Err(DecodeError::InvalidSegment));
    assert_eq!(decode_segment(&Value::Null), Err(DecodeError::InvalidSegment));
}

#[test]
fn keyed_form_field_type_errors() {
    assert_eq!(
        decode_segment(&Value::Mapping(vec![entry("type", uint(5))])),
        Err(DecodeError::InvalidFieldType(Field::Type))
    );
    assert_eq!(
        decode_segment(&Value::Mapping(vec![entry("type", s("c")), entry("name", uint(5))])),
        Err(DecodeError::InvalidFieldType(Field::Name))
    );
    assert_eq!(
        decode_segment(&Value::Mapping(vec![
            entry("type", s("c")),
            entry("bss_size", s("big")),
        ])),
        Err(DecodeError::InvalidNumber)
    );
    assert_eq!(
        decode_segment(&Value::Mapping(vec![
            entry("type", s("c")),
            entry("start", Value::Bool(true)),
        ])),
        Err(DecodeError::InvalidAddress)
    );
    assert_eq!(
        decode_segment(&Value::Mapping(vec![
            entry("type", s("c")),
            entry("section_order", Value::Sequence(vec![s(".text"), uint(5)])),
        ])),
        Err(DecodeError::InvalidFieldType(Field::SectionOrder))
    );
    assert_eq!(
        decode_segment(&Value::Mapping(vec![
            entry("type", s("c")),
            entry("subsegments", s("none")),
        ])),
        Err(DecodeError::InvalidFieldType(Field::Subsegments))
    );
    assert_eq!(
        decode_segment(&Value::Mapping(vec![
            entry("type", s("c")),
            entry("bss_contains_common", s("yes")),
        ])),
        Err(DecodeError::InvalidFieldType(Field::BssContainsCommon))
    );
}

#[test]
fn non_string_segment_key_is_error() {
    let r = decode_segment(&Value::Mapping(vec![
        entry("type", s("c")),
        (uint(3), s("v")),
    ]));
    assert_eq!(r, Err(DecodeError::InvalidKey));
}

#[test]
fn later_known_field_overwrites_earlier() {
    let seg = decode_segment(&Value::Mapping(vec![
        entry("type", s("first")),
        entry("type", s("second")),
        entry("start", uint(1)),
        entry("start", uint(2)),
    ]))
    .unwrap();
    assert_eq!(seg.segment_type, "second");
    assert_eq!(seg.rom, Some(2));
}

#[test]
fn vram_class_symbol_shape() {
    let c = resolve_vram_class(&Value::Mapping(vec![
        entry("name", s("X")),
        entry("vram", uint(0x80000000)),
        entry("vram_symbol", s("Y")),
    ]))
    .unwrap();
    match c {
        VramClass::Symbol(sc) => {
            assert_eq!(sc.name, "X");
            assert_eq!(sc.vram, 0x80000000);
            assert_eq!(sc.vram_symbol, "Y");
        }
        other => panic!("expected symbol shape, got {:?}", other),
    }
}

#[test]
fn vram_class_follows_shape() {
    let c = resolve_vram_class(&Value::Mapping(vec![
        entry("name", s("X")),
        entry("vram", uint(64)),
        entry("follows_classes", s("Z")),
    ]))
    .unwrap();
    match c {
        VramClass::Follows(fc) => {
            assert_eq!(fc.name, "X");
            assert_eq!(fc.vram, 64);
            assert_eq!(fc.follows_classes, "Z");
        }
        other => panic!("expected follows shape, got {:?}", other),
    }
}

#[test]
fn vram_class_hardcoded_shape() {
    let c = resolve_vram_class(&Value::Mapping(vec![
        entry("name", s("X")),
        entry("vram", sint(-1)),
    ]))
    .unwrap();
    match c {
        VramClass::Hardcoded(hc) => {
            assert_eq!(hc.name, "X");
            assert_eq!(hc.vram, u64::MAX);
        }
        other => panic!("expected hardcoded shape, got {:?}", other),
    }
}

#[test]
fn vram_class_precedence_symbol_wins() {
    let c = resolve_vram_class(&Value::Mapping(vec![
        entry("name", s("X")),
        entry("vram", uint(0)),
        entry("vram_symbol", s("Y")),
        entry("follows_classes", s("Z")),
    ]))
    .unwrap();
    assert!(matches!(c, VramClass::Symbol(_)));
}

#[test]
fn vram_class_unmatched_shapes_are_errors() {
    assert_eq!(
        resolve_vram_class(&Value::Mapping(vec![entry("name", s("X"))])),
        Err(DecodeError::InvalidVramClass)
    );
    assert_eq!(
        resolve_vram_class(&Value::Mapping(vec![entry("vram", uint(0))])),
        Err(DecodeError::InvalidVramClass)
    );
    assert_eq!(
        resolve_vram_class(&Value::Mapping(vec![
            entry("name", s("X")),
            entry("vram", s("auto")),
        ])),
        Err(DecodeError::InvalidVramClass)
    );
    assert_eq!(resolve_vram_class(&s("X")), Err(DecodeError::InvalidVramClass));
}

#[test]
fn vram_class_mistyped_symbol_falls_to_hardcoded() {
    let c = resolve_vram_class(&Value::Mapping(vec![
        entry("name", s("X")),
        entry("vram", uint(1)),
        entry("vram_symbol", uint(7)),
    ]))
    .unwrap();
    assert!(matches!(c, VramClass::Hardcoded(_)));
}

fn minimal_doc(segments: Vec<Value>) -> Value {
    Value::Mapping(vec![
        entry("name", s("game")),
        entry("sha1", s("d4a1")),
        entry("options", Value::Mapping(vec![])),
        entry("segments", Value::Sequence(segments)),
    ])
}

#[test]
fn empty_segments_and_options_are_valid() {
    let doc = decode_document(&minimal_doc(vec![])).unwrap();
    assert_eq!(doc.name, "game");
    assert_eq!(doc.sha1, "d4a1");
    assert!(doc.options.is_empty());
    assert!(doc.vram_classes.is_none());
    assert!(doc.segments.is_empty());
}

#[test]
fn decoding_is_deterministic() {
    let make = || {
        Value::Mapping(vec![
            entry("name", s("game")),
            entry("sha1", s("d4a1")),
            entry("options", Value::Mapping(vec![entry("platform", s("n64"))])),
            entry(
                "vram_classes",
                Value::Sequence(vec![Value::Mapping(vec![
                    entry("name", s("X")),
                    entry("vram", uint(0)),
                ])]),
            ),
            entry(
                "segments",
                Value::Sequence(vec![
                    Value::Sequence(vec![uint(0x1000), s("code"), s("main")]),
                    Value::Mapping(vec![
                        entry("type", s("data")),
                        entry("start", uint(0x2000)),
                        entry("custom", Value::Bool(true)),
                    ]),
                ]),
            ),
        ])
    };
    let a: SplatYaml = decode_document(&make()).unwrap();
    let b: SplatYaml = decode_document(&make()).unwrap();
    assert_eq!(a, b);
}

#[test]
fn document_missing_required_fields() {
    let r = decode_document(&Value::Mapping(vec![
        entry("sha1", s("d4a1")),
        entry("options", Value::Mapping(vec![])),
        entry("segments", Value::Sequence(vec![])),
    ]));
    assert_eq!(r, Err(DecodeError::MissingDocumentField(Field::DocName)));
    let r = decode_document(&Value::Mapping(vec![
        entry("name", s("game")),
        entry("options", Value::Mapping(vec![])),
        entry("segments", Value::Sequence(vec![])),
    ]));
    assert_eq!(r, Err(DecodeError::MissingDocumentField(Field::Sha1)));
    let r = decode_document(&Value::Mapping(vec![
        entry("name", s("game")),
        entry("sha1", s("d4a1")),
        entry("segments", Value::Sequence(vec![])),
    ]));
    assert_eq!(r, Err(DecodeError::MissingDocumentField(Field::Options)));
    let r = decode_document(&Value::Mapping(vec![
        entry("name", s("game")),
        entry("sha1", s("d4a1")),
        entry("options", Value::Mapping(vec![])),
    ]));
    assert_eq!(r, Err(DecodeError::MissingDocumentField(Field::Segments)));
}

#[test]
fn document_duplicate_field_is_error() {
    let r = decode_document(&Value::Mapping(vec![
        entry("name", s("game")),
        entry("name", s("again")),
    ]));
    assert_eq!(r, Err(DecodeError::DuplicateDocumentField(Field::DocName)));
}

#[test]
fn document_root_must_be_mapping() {
    assert_eq!(decode_document(&s("nope")), Err(DecodeError::InvalidDocument));
    assert_eq!(
        decode_document(&Value::Sequence(vec![])),
        Err(DecodeError::InvalidDocument)
    );
}

#[test]
fn document_unknown_fields_ignored() {
    let doc = decode_document(&Value::Mapping(vec![
        entry("name", s("game")),
        entry("compiler", s("ido")),
        entry("sha1", s("d4a1")),
        entry("options", Value::Mapping(vec![])),
        entry("segments", Value::Sequence(vec![])),
    ]))
    .unwrap();
    assert_eq!(doc.name, "game");
}

#[test]
fn document_decodes_classes_and_segments() {
    let doc = decode_document(&Value::Mapping(vec![
        entry("name", s("game")),
        entry("sha1", s("d4a1")),
        entry("options", Value::Mapping(vec![entry("platform", s("n64"))])),
        entry(
            "vram_classes",
            Value::Sequence(vec![
                Value::Mapping(vec![
                    entry("name", s("A")),
                    entry("vram", uint(1)),
                    entry("vram_symbol", s("sym")),
                ]),
                Value::Mapping(vec![entry("name", s("B")), entry("vram", uint(2))]),
            ]),
        ),
        entry(
            "segments",
            Value::Sequence(vec![Value::Sequence(vec![uint(0x40), s("header")])]),
        ),
    ]))
    .unwrap();
    assert_eq!(doc.options, vec![("platform".to_string(), s("n64"))]);
    let classes = doc.vram_classes.unwrap();
    assert_eq!(classes.len(), 2);
    assert!(matches!(classes[0], VramClass::Symbol(_)));
    assert!(matches!(classes[1], VramClass::Hardcoded(_)));
    assert_eq!(doc.segments.len(), 1);
    assert_eq!(doc.segments[0].segment_type, "header");
}

#[test]
fn document_segment_failure_propagates() {
    let r = decode_document(&minimal_doc(vec![Value::Sequence(vec![])]));
    assert_eq!(r, Err(DecodeError::EmptyListSegment));
}

#[test]
fn default_segment_is_empty() {
    let seg = YamlSegment::default();
    assert_eq!(seg.segment_type, "");
    assert_eq!(seg.rom, None);
    assert_eq!(seg.args, None);
}

#[test]
fn error_messages_name_the_field() {
    assert_eq!(DecodeError::InvalidAddress.message(), "invalid address value");
    assert_eq!(
        DecodeError::InvalidFieldType(Field::SectionOrder).message(),
        "invalid section_order value"
    );
    assert_eq!(DecodeError::MissingSegmentType.message(), "segment type not specified");
    assert_eq!(
        DecodeError::MissingDocumentField(Field::Sha1).message(),
        "missing field sha1"
    );
    assert_eq!(
        DecodeError::DuplicateDocumentField(Field::DocName).message(),
        "duplicate field name"
    );
}
