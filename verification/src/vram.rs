//! The vram-class resolver.
//!
//! A vram class is a named, reusable virtual-address placement rule. A
//! document node describes one of three shapes, discriminated purely by
//! which keys are present — there is no type tag. Resolution tries the
//! shapes in a fixed order (symbol, follows, hardcoded) and accepts the
//! first whose required keys are all present and individually well-typed; a
//! node satisfying several shapes goes to the earliest one by design, and a
//! node satisfying none is an error.

use vstd::prelude::*;

use crate::coerce::spec_parse_number;
use crate::error::DecodeError;
use crate::value::{entries_view, str_equals, Value, ValueView, YamlNum};

verus! {

/// A class pinned to a linker symbol: the address is authoritative and is
/// cross-checked against the named symbol downstream.
#[derive(Debug, PartialEq)]
pub struct SymbolVramClass {
    pub name: String,
    pub vram: u64,
    pub vram_symbol: String,
}

/// A class that follows other classes: the address is inherited from or
/// validated against another class chain downstream.
#[derive(Debug, PartialEq)]
pub struct FollowsVramClass {
    pub name: String,
    pub vram: u64,
    pub follows_classes: String,
}

/// A class with a hardcoded address and nothing else.
#[derive(Debug, PartialEq)]
pub struct HardcodedVramClass {
    pub name: String,
    pub vram: u64,
}

/// One resolved vram class.
#[derive(Debug, PartialEq)]
pub enum VramClass {
    Symbol(SymbolVramClass),
    Follows(FollowsVramClass),
    Hardcoded(HardcodedVramClass),
}

/// The model of a vram class.
#[verifier::ext_equal]
pub enum VramClassView {
    Symbol { name: Seq<char>, vram: u64, vram_symbol: Seq<char> },
    Follows { name: Seq<char>, vram: u64, follows_classes: Seq<char> },
    Hardcoded { name: Seq<char>, vram: u64 },
}

impl View for VramClass {
    type V = VramClassView;

    open spec fn view(&self) -> VramClassView {
        match self {
            VramClass::Symbol(c) => VramClassView::Symbol {
                name: c.name@,
                vram: c.vram,
                vram_symbol: c.vram_symbol@,
            },
            VramClass::Follows(c) => VramClassView::Follows {
                name: c.name@,
                vram: c.vram,
                follows_classes: c.follows_classes@,
            },
            VramClass::Hardcoded(c) => VramClassView::Hardcoded { name: c.name@, vram: c.vram },
        }
    }
}

/// The value at a key of a class node, the last occurrence winning; keys
/// that are not strings never match.
pub open spec fn spec_class_lookup(
    entries: Seq<(ValueView, ValueView)>,
    key: Seq<char>,
) -> Option<ValueView>
    decreases entries.len(),
{
    if entries.len() == 0 {
        None
    } else if entries.last().0 == ValueView::Str(key) {
        Some(entries.last().1)
    } else {
        spec_class_lookup(entries.drop_last(), key)
    }
}

/// A required string field of a shape: present and a string, or nothing.
pub open spec fn spec_class_field_str(
    entries: Seq<(ValueView, ValueView)>,
    key: Seq<char>,
) -> Option<Seq<char>> {
    match spec_class_lookup(entries, key) {
        Some(ValueView::Str(s)) => Some(s),
        _ => None,
    }
}

/// The mandatory numeric `vram` field of every shape: present and a number
/// (a signed one reinterpreted as unsigned), or nothing. The "auto"
/// sentinel has no meaning here.
pub open spec fn spec_class_vram(entries: Seq<(ValueView, ValueView)>) -> Option<u64> {
    match spec_class_lookup(entries, "vram"@) {
        Some(v) => match spec_parse_number(v) {
            Ok(n) => n,
            Err(_) => None,
        },
        None => None,
    }
}

/// Resolves a class node: the symbol shape first, then the follows shape,
/// then the hardcoded shape; the first structurally complete match wins,
/// and a node matching none — or one that is not a mapping — is an error.
pub open spec fn spec_resolve_vram_class(v: ValueView) -> Result<VramClassView, DecodeError> {
    match v {
        ValueView::Mapping(entries) => {
            let name = spec_class_field_str(entries, "name"@);
            let vram = spec_class_vram(entries);
            let sym = spec_class_field_str(entries, "vram_symbol"@);
            let fol = spec_class_field_str(entries, "follows_classes"@);
            if name is Some && vram is Some && sym is Some {
                Ok(
                    VramClassView::Symbol {
                        name: name->0,
                        vram: vram->0,
                        vram_symbol: sym->0,
                    },
                )
            } else if name is Some && vram is Some && fol is Some {
                Ok(
                    VramClassView::Follows {
                        name: name->0,
                        vram: vram->0,
                        follows_classes: fol->0,
                    },
                )
            } else if name is Some && vram is Some {
                Ok(VramClassView::Hardcoded { name: name->0, vram: vram->0 })
            } else {
                Err(DecodeError::InvalidVramClass)
            }
        },
        _ => Err(DecodeError::InvalidVramClass),
    }
}

/// The last entry of a class node holding the key, if any.
fn class_lookup<'a>(entries: &'a Vec<(Value, Value)>, key: &str) -> (r: Option<&'a Value>)
    ensures
        (match r {
            Some(v) => spec_class_lookup(entries_view(entries@), key@) == Some(v@),
            None => spec_class_lookup(entries_view(entries@), key@) is None,
        }),
{
    let ghost em = entries_view(entries@);
    let mut i: usize = entries.len();
    proof {
        assert(em.take(i as int) =~= em);
    }
    while i > 0
        invariant
            em == entries_view(entries@),
            i <= entries@.len(),
            spec_class_lookup(em, key@) == spec_class_lookup(em.take(i as int), key@),
        decreases i,
    {
        i = i - 1;
        let hit = match &entries[i].0 {
            Value::Str(s) => str_equals(s.as_str(), key),
            _ => false,
        };
        proof {
            assert(em[i as int] == (entries@[i as int].0@, entries@[i as int].1@));
            assert(em.take(i + 1 as int).last() == em[i as int]);
            assert(em.take(i + 1 as int).drop_last() =~= em.take(i as int));
        }
        if hit {
            return Some(&entries[i].1);
        }
    }
    proof {
        assert(em.take(0) =~= Seq::<(ValueView, ValueView)>::empty());
    }
    None
}

/// A required string field of a shape, copied out.
fn class_field_str(entries: &Vec<(Value, Value)>, key: &str) -> (r: Option<String>)
    ensures
        (match r {
            Some(s) => spec_class_field_str(entries_view(entries@), key@) == Some(s@),
            None => spec_class_field_str(entries_view(entries@), key@) is None,
        }),
{
    match class_lookup(entries, key) {
        Some(Value::Str(s)) => Some(s.clone()),
        _ => None,
    }
}

/// The mandatory numeric `vram` field, if present and numeric.
fn class_vram(entries: &Vec<(Value, Value)>) -> (r: Option<u64>)
    ensures
        r == spec_class_vram(entries_view(entries@)),
{
    match class_lookup(entries, "vram") {
        Some(Value::Num(YamlNum::UInt(n))) => Some(*n),
        Some(Value::Num(YamlNum::Int(i))) => Some(#[verifier::truncate] (*i as u64)),
        _ => None,
    }
}

/// The model of a resolution outcome.
pub open spec fn class_result_view(r: Result<VramClass, DecodeError>) -> Result<
    VramClassView,
    DecodeError,
> {
    match r {
        Ok(c) => Ok(c@),
        Err(e) => Err(e),
    }
}

/// Resolves one document node into a vram class, exactly as
/// `spec_resolve_vram_class` says.
pub fn resolve_vram_class(v: &Value) -> (r: Result<VramClass, DecodeError>)
    ensures
        class_result_view(r) == spec_resolve_vram_class(v@),
{
    match v {
        Value::Mapping(entries) => {
            proof {
                assert(v@->Mapping_0 == entries_view(entries@));
            }
            let name = match class_field_str(entries, "name") {
                Some(s) => s,
                None => {
                    return Err(DecodeError::InvalidVramClass);
                },
            };
            let vram = match class_vram(entries) {
                Some(n) => n,
                None => {
                    return Err(DecodeError::InvalidVramClass);
                },
            };
            if let Some(sym) = class_field_str(entries, "vram_symbol") {
                return Ok(
                    VramClass::Symbol(SymbolVramClass { name, vram, vram_symbol: sym }),
                );
            }
            if let Some(fol) = class_field_str(entries, "follows_classes") {
                return Ok(
                    VramClass::Follows(FollowsVramClass { name, vram, follows_classes: fol }),
                );
            }
            Ok(VramClass::Hardcoded(HardcodedVramClass { name, vram }))
        },
        _ => Err(DecodeError::InvalidVramClass),
    }
}

/// Precedence law: a class node that satisfies the symbol shape resolves to
/// the symbol shape, whatever other shapes it also satisfies — in
/// particular one that carries both `vram_symbol` and `follows_classes`.
pub proof fn lemma_vram_class_precedence(entries: Seq<(ValueView, ValueView)>)
    requires
        spec_class_field_str(entries, "name"@) is Some,
        spec_class_vram(entries) is Some,
        spec_class_field_str(entries, "vram_symbol"@) is Some,
    ensures
        spec_resolve_vram_class(ValueView::Mapping(entries)) == Ok::<_, DecodeError>(
            VramClassView::Symbol {
                name: spec_class_field_str(entries, "name"@)->0,
                vram: spec_class_vram(entries)->0,
                vram_symbol: spec_class_field_str(entries, "vram_symbol"@)->0,
            },
        ),
{
}

} // verus!
