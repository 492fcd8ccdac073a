use splat_core::document::decode_document;
use splat_core::plugin::{greeting, Guest, MySegment};
use splat_core::segment::YamlSegmentArgs;
use splat_core::value::{Value, YamlNum};
use splat_core::vram::VramClass;

fn conv(v: &serde_yaml::Value) -> Value {
    match v {
        serde_yaml::Value::Null => Value::Null,
        serde_yaml::Value::Bool(b) => Value::Bool(*b),
        serde_yaml::Value::Number(n) => {
            if let Some(u) = n.as_u64() {
                Value::Num(YamlNum::UInt(u))
            } else if let Some(i) = n.as_i64() {
                Value::Num(YamlNum::Int(i))
            } else {
                Value::Num(YamlNum::Other)
            }
        }
        serde_yaml::Value::String(t) => Value::Str(t.clone()),
        serde_yaml::Value::Sequence(l) => Value::Sequence(l.iter().map(conv).collect()),
        serde_yaml::Value::Mapping(m) => {
            Value::Mapping(m.iter().map(|(k, v)| (conv(k), conv(v))).collect())
        }
        serde_yaml::Value::Tagged(t) => conv(&t.value),
    }
}

const DOC: &str = "\
name: mygame
sha1: d4a1eb93a8152c90fdd2031dbcd3f6b57b86a6ea
options:
  platform: n64
  base_path: ..
vram_classes:
  - { name: overlays, vram: 0x80800000, vram_symbol: main_end }
  - { name: tail, vram: 0x80900000, follows_classes: overlays }
segments:
  - name: header
    type: header
    start: 0x0
  - [0x1000, asm, entry]
  - type: code
    start: 0x2000
    vram: 0x80000400
    subsegments:
      - [0x2000, hasm, entrypoint]
      - [0x2050]
  - [0x40000]
";

#[test]
fn yaml_document_decodes() {
    let raw: serde_yaml::Value = serde_yaml::from_str(DOC).unwrap();
    let doc = decode_document(&conv(&raw)).unwrap();
    assert_eq!(doc.name, "mygame");
    assert_eq!(doc.sha1, "d4a1eb93a8152c90fdd2031dbcd3f6b57b86a6ea");
    assert_eq!(doc.options.len(), 2);
    assert_eq!(doc.options[0].0, "platform");
    let classes = doc.vram_classes.as_ref().unwrap();
    assert!(matches!(classes[0], VramClass::Symbol(_)));
    assert!(matches!(classes[1], VramClass::Follows(_)));
    assert_eq!(doc.segments.len(), 4);
    assert_eq!(doc.segments[0].segment_type, "header");
    assert_eq!(doc.segments[0].rom, Some(0));
    assert_eq!(doc.segments[1].segment_type, "asm");
    assert_eq!(doc.segments[1].name, Some("entry".to_string()));
    let code = &doc.segments[2];
    assert_eq!(code.vram, Some(0x80000400));
    let subs = code.subsegments.as_ref().unwrap();
    assert_eq!(subs.len(), 2);
    assert_eq!(subs[0].segment_type, "hasm");
    assert_eq!(subs[1].segment_type, "stub");
    assert_eq!(subs[1].name, Some("2050".to_string()));
    assert_eq!(doc.segments[3].name, Some("40000".to_string()));
}

#[test]
fn yaml_decoding_same_text_twice_is_equal() {
    let a = decode_document(&conv(&serde_yaml::from_str(DOC).unwrap())).unwrap();
    let b = decode_document(&conv(&serde_yaml::from_str(DOC).unwrap())).unwrap();
    assert_eq!(a, b);
}

#[test]
fn yaml_compact_extra_args_kept_in_order() {
    let raw: serde_yaml::Value =
        serde_yaml::from_str("[0x2000, data, foo, 1, bar]").unwrap();
    let seg = splat_core::decode::decode_segment(&conv(&raw)).unwrap();
    assert_eq!(
        seg.args,
        Some(YamlSegmentArgs::List(vec![
            Value::Num(YamlNum::UInt(1)),
            Value::Str("bar".to_string()),
        ]))
    );
}

#[test]
fn plugin_greeting() {
    assert_eq!(greeting("Ben"), "Greetings Ben! I'm a WASI plugin!");
    assert_eq!(
        <MySegment as Guest>::testfunc("Ben".to_string()),
        "Greetings Ben! I'm a WASI plugin!"
    );
}
