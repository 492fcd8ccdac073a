//! The dynamically typed value model of a configuration document.
//!
//! A document arrives already parsed into this tree of nulls, booleans,
//! numbers, strings, ordered sequences and order-preserving mappings; the
//! decoder is a pure function of such a tree.

use vstd::prelude::*;

verus! {

/// A document number as the value model carries it: representable as an
/// unsigned 64-bit integer, as a signed one, or neither (a non-integral
/// number, which every numeric coercion rejects).
#[derive(Debug, Clone, Copy, PartialEq, Eq)]
pub enum YamlNum {
    UInt(u64),
    Int(i64),
    Other,
}

/// One node of a structured configuration document.
///
/// Mapping entries keep document order and may carry arbitrary keys; the
/// decoders demand string keys where the schema asks for them.
#[derive(Debug, PartialEq)]
pub enum Value {
    Null,
    Bool(bool),
    Num(YamlNum),
    Str(String),
    Sequence(Vec<Value>),
    Mapping(Vec<(Value, Value)>),
}

/// The mathematical model of a document node: strings become character
/// sequences, vectors become sequences.
#[verifier::ext_equal]
pub enum ValueView {
    Null,
    Bool(bool),
    Num(YamlNum),
    Str(Seq<char>),
    Sequence(Seq<ValueView>),
    Mapping(Seq<(ValueView, ValueView)>),
}

impl View for Value {
    type V = ValueView;

    open spec fn view(&self) -> ValueView
        decreases self,
    {
        match self {
            Value::Null => ValueView::Null,
            Value::Bool(b) => ValueView::Bool(*b),
            Value::Num(n) => ValueView::Num(*n),
            Value::Str(s) => ValueView::Str(s@),
            Value::Sequence(l) => ValueView::Sequence(seq_view(l@)),
            Value::Mapping(m) => ValueView::Mapping(entries_view(m@)),
        }
    }
}

/// The model of a vector of document nodes.
pub open spec fn seq_view(l: Seq<Value>) -> Seq<ValueView>
    decreases l,
{
    Seq::new(
        l.len(),
        |i: int|
            if 0 <= i < l.len() {
                l[i]@
            } else {
                ValueView::Null
            },
    )
}

/// The model of a vector of mapping entries.
pub open spec fn entries_view(m: Seq<(Value, Value)>) -> Seq<(ValueView, ValueView)>
    decreases m,
{
    Seq::new(
        m.len(),
        |i: int|
            if 0 <= i < m.len() {
                (m[i].0@, m[i].1@)
            } else {
                (ValueView::Null, ValueView::Null)
            },
    )
}

impl Clone for Value {
    /// A deep copy with the same model.
    fn clone(&self) -> (r: Self)
        ensures
            r@ == self@,
        decreases self,
    {
        match self {
            Value::Null => Value::Null,
            Value::Bool(b) => Value::Bool(*b),
            Value::Num(n) => Value::Num(*n),
            Value::Str(s) => Value::Str(s.clone()),
            Value::Sequence(l) => {
                let mut out: Vec<Value> = Vec::new();
                let mut i: usize = 0;
                while i < l.len()
                    invariant
                        *self == Value::Sequence(*l),
                        i <= l.len(),
                        out@.len() == i as int,
                        forall|j: int| 0 <= j < i as int ==> out@[j]@ == l@[j]@,
                    decreases l.len() - i,
                {
                    proof {
                        assert(decreases_to!(*self => self->Sequence_0));
                        assert(decreases_to!(*l => l@));
                        assert(decreases_to!(l@ => l@[i as int]));
                    }
                    let c = l[i].clone();
                    out.push(c);
                    i += 1;
                }
                let r = Value::Sequence(out);
                proof {
                    assert forall|j: int| 0 <= j < l@.len() implies r@->Sequence_0[j]
                        == self@->Sequence_0[j] by {
                        assert(r@->Sequence_0[j] == out@[j]@);
                        assert(self@->Sequence_0[j] == l@[j]@);
                    }
                    assert(r@->Sequence_0 =~= self@->Sequence_0);
                    assert(r@ =~= self@);
                }
                r
            },
            Value::Mapping(m) => {
                let mut out: Vec<(Value, Value)> = Vec::new();
                let mut i: usize = 0;
                while i < m.len()
                    invariant
                        *self == Value::Mapping(*m),
                        i <= m.len(),
                        out@.len() == i as int,
                        forall|j: int|
                            0 <= j < i as int ==> out@[j].0@ == m@[j].0@ && out@[j].1@
                                == m@[j].1@,
                    decreases m.len() - i,
                {
                    let (k, v) = &m[i];
                    proof {
                        assert(decreases_to!(*self => self->Mapping_0));
                        assert(decreases_to!(*m => m@));
                        assert(decreases_to!(m@ => m@[i as int]));
                        assert(decreases_to!(m@[i as int] => m@[i as int].0));
                        assert(decreases_to!(m@[i as int] => m@[i as int].1));
                    }
                    let ck = k.clone();
                    let cv = v.clone();
                    out.push((ck, cv));
                    i += 1;
                }
                let r = Value::Mapping(out);
                proof {
                    assert forall|j: int| 0 <= j < m@.len() implies r@->Mapping_0[j]
                        == self@->Mapping_0[j] by {
                        assert(r@->Mapping_0[j] == (out@[j].0@, out@[j].1@));
                        assert(self@->Mapping_0[j] == (m@[j].0@, m@[j].1@));
                    }
                    assert(r@->Mapping_0 =~= self@->Mapping_0);
                    assert(r@ =~= self@);
                }
                r
            },
        }
    }
}

/// Decides whether two string slices hold the same characters.
pub fn str_equals(a: &str, b: &str) -> (r: bool)
    ensures
        r == (a@ == b@),
{
    let sa = a.to_owned();
    let sb = b.to_owned();
    sa == sb
}

} // verus!
