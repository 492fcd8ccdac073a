//! The document assembler.
//!
//! The top level of a configuration document is a mapping holding the
//! required `name`, `sha1`, `options` and `segments` fields and the optional
//! `vram_classes` field; unknown fields are ignored. Decoding the whole
//! document drives the segment decoder once per root segment and the
//! vram-class resolver once per class.

use vstd::prelude::*;

use crate::decode::{
    decode_seg_list, dict_insert, dict_insert_exec, spec_decode_list,
};
use crate::error::{DecodeError, Field};
use crate::segment::{dict_view, seg_seq_view, SegmentView, YamlSegment};
use crate::value::{entries_view, seq_view, str_equals, Value, ValueView};
use crate::vram::{
    class_result_view, resolve_vram_class, spec_resolve_vram_class, VramClass, VramClassView,
};

verus! {

/// One decoded configuration document: the project name, the checksum of
/// the binary image, the global options bag, the optional vram classes, and
/// the root segments in on-disk order.
#[derive(Debug, PartialEq)]
pub struct SplatYaml {
    pub name: String,
    pub sha1: String,
    pub options: Vec<(String, Value)>,
    pub vram_classes: Option<Vec<VramClass>>,
    pub segments: Vec<YamlSegment>,
}

/// The model of a vector of vram classes.
pub open spec fn class_seq_view(l: Seq<VramClass>) -> Seq<VramClassView> {
    Seq::new(
        l.len(),
        |i: int|
            if 0 <= i < l.len() {
                l[i]@
            } else {
                arbitrary()
            },
    )
}

/// The model of a document.
#[verifier::ext_equal]
pub struct SplatYamlView {
    pub name: Seq<char>,
    pub sha1: Seq<char>,
    pub options: Seq<(Seq<char>, ValueView)>,
    pub vram_classes: Option<Seq<VramClassView>>,
    pub segments: Seq<SegmentView>,
}

impl View for SplatYaml {
    type V = SplatYamlView;

    open spec fn view(&self) -> SplatYamlView {
        SplatYamlView {
            name: self.name@,
            sha1: self.sha1@,
            options: dict_view(self.options@),
            vram_classes: match &self.vram_classes {
                Some(l) => Some(class_seq_view(l@)),
                None => None,
            },
            segments: seg_seq_view(self.segments@),
        }
    }
}

/// Folds the entries of the `options` mapping from index `i` on into the
/// options bag: every key must be a string, and a repeated key keeps its
/// last value.
pub open spec fn spec_decode_options(
    m: Seq<(ValueView, ValueView)>,
    acc: Seq<(Seq<char>, ValueView)>,
    i: int,
) -> Result<Seq<(Seq<char>, ValueView)>, DecodeError>
    decreases m.len() - i,
{
    if i < 0 || i >= m.len() {
        Ok(acc)
    } else {
        match m[i].0 {
            ValueView::Str(k) => spec_decode_options(m, dict_insert(acc, k, m[i].1), i + 1),
            _ => Err(DecodeError::InvalidKey),
        }
    }
}

/// Resolves a sequence of class nodes from index `j` on, in order, failing
/// fast.
pub open spec fn spec_decode_classes(items: Seq<ValueView>, j: int) -> Result<
    Seq<VramClassView>,
    DecodeError,
>
    decreases items.len() - j,
{
    if j < 0 || j >= items.len() {
        Ok(Seq::empty())
    } else {
        match spec_resolve_vram_class(items[j]) {
            Ok(c) => match spec_decode_classes(items, j + 1) {
                Ok(rest) => Ok(seq![c] + rest),
                Err(e) => Err(e),
            },
            Err(e) => Err(e),
        }
    }
}

/// The partially assembled document while its root entries are read.
#[verifier::ext_equal]
pub struct DocAcc {
    pub name: Option<Seq<char>>,
    pub sha1: Option<Seq<char>>,
    pub options: Option<Seq<(Seq<char>, ValueView)>>,
    pub vram_classes: Option<Seq<VramClassView>>,
    pub segments: Option<Seq<SegmentView>>,
}

/// The starting point: nothing seen yet.
pub open spec fn empty_doc_acc() -> DocAcc {
    DocAcc { name: None, sha1: None, options: None, vram_classes: None, segments: None }
}

/// Folds the root entries from index `i` on: each known field is decoded
/// once (a repetition is an error), unknown fields are ignored, and at the
/// end `name`, `sha1`, `options` and `segments` must all have been seen.
pub open spec fn spec_decode_doc_entries(
    entries: Seq<(ValueView, ValueView)>,
    acc: DocAcc,
    i: int,
) -> Result<SplatYamlView, DecodeError>
    decreases entries.len() - i,
{
    if i < 0 || i >= entries.len() {
        if acc.name is None {
            Err(DecodeError::MissingDocumentField(Field::DocName))
        } else if acc.sha1 is None {
            Err(DecodeError::MissingDocumentField(Field::Sha1))
        } else if acc.options is None {
            Err(DecodeError::MissingDocumentField(Field::Options))
        } else if acc.segments is None {
            Err(DecodeError::MissingDocumentField(Field::Segments))
        } else {
            Ok(
                SplatYamlView {
                    name: acc.name->0,
                    sha1: acc.sha1->0,
                    options: acc.options->0,
                    vram_classes: acc.vram_classes,
                    segments: acc.segments->0,
                },
            )
        }
    } else {
        match entries[i].0 {
            ValueView::Str(key) => {
                let val = entries[i].1;
                if key == "name"@ {
                    if acc.name is Some {
                        Err(DecodeError::DuplicateDocumentField(Field::DocName))
                    } else {
                        match val {
                            ValueView::Str(s) => spec_decode_doc_entries(
                                entries,
                                DocAcc { name: Some(s), ..acc },
                                i + 1,
                            ),
                            _ => Err(DecodeError::InvalidFieldType(Field::DocName)),
                        }
                    }
                } else if key == "sha1"@ {
                    if acc.sha1 is Some {
                        Err(DecodeError::DuplicateDocumentField(Field::Sha1))
                    } else {
                        match val {
                            ValueView::Str(s) => spec_decode_doc_entries(
                                entries,
                                DocAcc { sha1: Some(s), ..acc },
                                i + 1,
                            ),
                            _ => Err(DecodeError::InvalidFieldType(Field::Sha1)),
                        }
                    }
                } else if key == "options"@ {
                    if acc.options is Some {
                        Err(DecodeError::DuplicateDocumentField(Field::Options))
                    } else {
                        match val {
                            ValueView::Mapping(m) => match spec_decode_options(
                                m,
                                Seq::empty(),
                                0,
                            ) {
                                Ok(o) => spec_decode_doc_entries(
                                    entries,
                                    DocAcc { options: Some(o), ..acc },
                                    i + 1,
                                ),
                                Err(e) => Err(e),
                            },
                            _ => Err(DecodeError::InvalidFieldType(Field::Options)),
                        }
                    }
                } else if key == "vram_classes"@ {
                    if acc.vram_classes is Some {
                        Err(DecodeError::DuplicateDocumentField(Field::VramClasses))
                    } else {
                        match val {
                            ValueView::Sequence(l) => match spec_decode_classes(l, 0) {
                                Ok(cs) => spec_decode_doc_entries(
                                    entries,
                                    DocAcc { vram_classes: Some(cs), ..acc },
                                    i + 1,
                                ),
                                Err(e) => Err(e),
                            },
                            _ => Err(DecodeError::InvalidFieldType(Field::VramClasses)),
                        }
                    }
                } else if key == "segments"@ {
                    if acc.segments is Some {
                        Err(DecodeError::DuplicateDocumentField(Field::Segments))
                    } else {
                        match val {
                            ValueView::Sequence(l) => match spec_decode_list(l, 0) {
                                Ok(ss) => spec_decode_doc_entries(
                                    entries,
                                    DocAcc { segments: Some(ss), ..acc },
                                    i + 1,
                                ),
                                Err(e) => Err(e),
                            },
                            _ => Err(DecodeError::InvalidFieldType(Field::Segments)),
                        }
                    }
                } else {
                    spec_decode_doc_entries(entries, acc, i + 1)
                }
            },
            _ => Err(DecodeError::InvalidKey),
        }
    }
}

/// Decodes a whole document from its root node.
pub open spec fn spec_decode_document(v: ValueView) -> Result<SplatYamlView, DecodeError> {
    match v {
        ValueView::Mapping(entries) => spec_decode_doc_entries(entries, empty_doc_acc(), 0),
        _ => Err(DecodeError::InvalidDocument),
    }
}

/// The model of a document decode outcome.
pub open spec fn doc_result_view(r: Result<SplatYaml, DecodeError>) -> Result<
    SplatYamlView,
    DecodeError,
> {
    match r {
        Ok(d) => Ok(d@),
        Err(e) => Err(e),
    }
}

/// Decodes the `options` mapping, exactly as `spec_decode_options` says.
fn decode_options(m: &Vec<(Value, Value)>) -> (r: Result<Vec<(String, Value)>, DecodeError>)
    ensures
        (match r {
            Ok(o) => spec_decode_options(entries_view(m@), Seq::empty(), 0) == Ok::<
                _,
                DecodeError,
            >(dict_view(o@)),
            Err(e) => spec_decode_options(entries_view(m@), Seq::empty(), 0) == Err::<
                Seq<(Seq<char>, ValueView)>,
                _,
            >(e),
        }),
{
    let ghost em = entries_view(m@);
    let mut out: Vec<(String, Value)> = Vec::new();
    let mut i: usize = 0;
    proof {
        assert(dict_view(out@) =~= Seq::<(Seq<char>, ValueView)>::empty());
    }
    while i < m.len()
        invariant
            em == entries_view(m@),
            i <= m@.len(),
            spec_decode_options(em, dict_view(out@), i as int) == spec_decode_options(
                em,
                Seq::empty(),
                0,
            ),
        decreases m@.len() - i,
    {
        let (k, val) = &m[i];
        proof {
            assert(em[i as int] == (k@, val@));
        }
        match k {
            Value::Str(key) => {
                dict_insert_exec(&mut out, key.clone(), val.clone());
            },
            _ => {
                return Err(DecodeError::InvalidKey);
            },
        }
        i += 1;
    }
    Ok(out)
}

/// Resolves the `vram_classes` sequence, exactly as `spec_decode_classes`
/// says.
fn decode_classes(items: &Vec<Value>) -> (r: Result<Vec<VramClass>, DecodeError>)
    ensures
        (match r {
            Ok(cs) => spec_decode_classes(seq_view(items@), 0) == Ok::<_, DecodeError>(
                class_seq_view(cs@),
            ),
            Err(e) => spec_decode_classes(seq_view(items@), 0) == Err::<Seq<VramClassView>, _>(e),
        }),
{
    let ghost lv = seq_view(items@);
    let mut out: Vec<VramClass> = Vec::new();
    let mut j: usize = 0;
    while j < items.len()
        invariant
            lv == seq_view(items@),
            j <= items@.len(),
            out@.len() == j as int,
            spec_decode_classes(lv, 0) == (match spec_decode_classes(lv, j as int) {
                Ok(rest) => Ok::<_, DecodeError>(class_seq_view(out@) + rest),
                Err(e) => Err::<Seq<VramClassView>, _>(e),
            }),
        decreases items@.len() - j,
    {
        match resolve_vram_class(&items[j]) {
            Ok(c) => {
                let ghost oldout = out@;
                out.push(c);
                proof {
                    assert(class_seq_view(out@) =~= class_seq_view(oldout) + seq![c@]);
                    if spec_decode_classes(lv, j + 1) is Ok {
                        assert((class_seq_view(oldout) + seq![c@]) + spec_decode_classes(
                            lv,
                            j + 1,
                        )->Ok_0 =~= class_seq_view(oldout) + (seq![c@] + spec_decode_classes(
                            lv,
                            j + 1,
                        )->Ok_0));
                    }
                }
            },
            Err(e) => {
                return Err(e);
            },
        }
        j += 1;
    }
    Ok(out)
}

/// The partial document as the executable loop holds it.
pub open spec fn doc_acc_of(
    name: Option<String>,
    sha1: Option<String>,
    options: Option<Vec<(String, Value)>>,
    classes: Option<Vec<VramClass>>,
    segments: Option<Vec<YamlSegment>>,
) -> DocAcc {
    DocAcc {
        name: match name {
            Some(s) => Some(s@),
            None => None,
        },
        sha1: match sha1 {
            Some(s) => Some(s@),
            None => None,
        },
        options: match options {
            Some(o) => Some(dict_view(o@)),
            None => None,
        },
        vram_classes: match classes {
            Some(c) => Some(class_seq_view(c@)),
            None => None,
        },
        segments: match segments {
            Some(s) => Some(seg_seq_view(s@)),
            None => None,
        },
    }
}

/// Decodes a whole document from its root node: the result, success or
/// failure, is exactly what `spec_decode_document` assigns to the node's
/// model.
#[verifier::rlimit(50)]
pub fn decode_document(v: &Value) -> (r: Result<SplatYaml, DecodeError>)
    ensures
        doc_result_view(r) == spec_decode_document(v@),
{
    match v {
        Value::Mapping(entries) => {
            let ghost em = entries_view(entries@);
            proof {
                assert(v@->Mapping_0 == em);
            }
            let mut name: Option<String> = None;
            let mut sha1: Option<String> = None;
            let mut options: Option<Vec<(String, Value)>> = None;
            let mut classes: Option<Vec<VramClass>> = None;
            let mut segments: Option<Vec<YamlSegment>> = None;
            let mut i: usize = 0;
            while i < entries.len()
                invariant
                    *v == Value::Mapping(*entries),
                    em == entries_view(entries@),
                    i <= entries@.len(),
                    spec_decode_doc_entries(
                        em,
                        doc_acc_of(name, sha1, options, classes, segments),
                        i as int,
                    ) == spec_decode_doc_entries(em, empty_doc_acc(), 0),
                decreases entries@.len() - i,
            {
                let (k, val) = &entries[i];
                proof {
                    assert(em[i as int] == (k@, val@));
                }
                match k {
                    Value::Str(key) => {
                        if str_equals(key.as_str(), "name") {
                            if name.is_some() {
                                return Err(
                                    DecodeError::DuplicateDocumentField(Field::DocName),
                                );
                            }
                            match val {
                                Value::Str(s) => {
                                    name = Some(s.clone());
                                },
                                _ => {
                                    return Err(DecodeError::InvalidFieldType(Field::DocName));
                                },
                            }
                        } else if str_equals(key.as_str(), "sha1") {
                            if sha1.is_some() {
                                return Err(DecodeError::DuplicateDocumentField(Field::Sha1));
                            }
                            match val {
                                Value::Str(s) => {
                                    sha1 = Some(s.clone());
                                },
                                _ => {
                                    return Err(DecodeError::InvalidFieldType(Field::Sha1));
                                },
                            }
                        } else if str_equals(key.as_str(), "options") {
                            if options.is_some() {
                                return Err(
                                    DecodeError::DuplicateDocumentField(Field::Options),
                                );
                            }
                            match val {
                                Value::Mapping(m) => match decode_options(m) {
                                    Ok(o) => {
                                        proof {
                                            assert(val@->Mapping_0 == entries_view(m@));
                                        }
                                        options = Some(o);
                                    },
                                    Err(e) => {
                                        proof {
                                            assert(val@->Mapping_0 == entries_view(m@));
                                        }
                                        return Err(e);
                                    },
                                },
                                _ => {
                                    return Err(DecodeError::InvalidFieldType(Field::Options));
                                },
                            }
                        } else if str_equals(key.as_str(), "vram_classes") {
                            if classes.is_some() {
                                return Err(
                                    DecodeError::DuplicateDocumentField(Field::VramClasses),
                                );
                            }
                            match val {
                                Value::Sequence(l) => match decode_classes(l) {
                                    Ok(cs) => {
                                        proof {
                                            assert(val@->Sequence_0 == seq_view(l@));
                                        }
                                        classes = Some(cs);
                                    },
                                    Err(e) => {
                                        proof {
                                            assert(val@->Sequence_0 == seq_view(l@));
                                        }
                                        return Err(e);
                                    },
                                },
                                _ => {
                                    return Err(
                                        DecodeError::InvalidFieldType(Field::VramClasses),
                                    );
                                },
                            }
                        } else if str_equals(key.as_str(), "segments") {
                            if segments.is_some() {
                                return Err(
                                    DecodeError::DuplicateDocumentField(Field::Segments),
                                );
                            }
                            match val {
                                Value::Sequence(l) => match decode_seg_list(l) {
                                    Ok(ss) => {
                                        proof {
                                            assert(val@->Sequence_0 == seq_view(l@));
                                        }
                                        segments = Some(ss);
                                    },
                                    Err(e) => {
                                        proof {
                                            assert(val@->Sequence_0 == seq_view(l@));
                                        }
                                        return Err(e);
                                    },
                                },
                                _ => {
                                    return Err(DecodeError::InvalidFieldType(Field::Segments));
                                },
                            }
                        }
                        // an unknown field is ignored
                    },
                    _ => {
                        return Err(DecodeError::InvalidKey);
                    },
                }
                i += 1;
            }
            let name = match name {
                Some(s) => s,
                None => {
                    return Err(DecodeError::MissingDocumentField(Field::DocName));
                },
            };
            let sha1 = match sha1 {
                Some(s) => s,
                None => {
                    return Err(DecodeError::MissingDocumentField(Field::Sha1));
                },
            };
            let options = match options {
                Some(o) => o,
                None => {
                    return Err(DecodeError::MissingDocumentField(Field::Options));
                },
            };
            let segments = match segments {
                Some(s) => s,
                None => {
                    return Err(DecodeError::MissingDocumentField(Field::Segments));
                },
            };
            let doc = SplatYaml { name, sha1, options, vram_classes: classes, segments };
            proof {
                assert(doc_result_view(Ok(doc)) =~= spec_decode_document(v@));
            }
            Ok(doc)
        },
        _ => Err(DecodeError::InvalidDocument),
    }
}

} // verus!
