//! The value bridge: conversion between the engine's tagged-union value
//! representation and a safe, kind-discriminated host value.
//!
//! The engine side of a value is modelled by [`RawValue`]: one arm per
//! kind tag the engine documents, each carrying its payload as a plain
//! value (text already pulled out of the engine's byte buffers, addresses
//! as opaque handles, floating-point payloads as their raw bit pattern,
//! which the bridge only carries and never computes with), plus one arm
//! for a tag this bridge does not understand.  Decoding such a tag must
//! be treated as fatal by the caller: it signals a version mismatch
//! between bridge and engine, so [`decode`] refuses it rather than make
//! up a default.

use vstd::prelude::*;

verus! {

/// A borrowed reference to an engine-owned fact, as an opaque handle.
#[derive(Debug, Clone, Copy, PartialEq, Eq, Structural)]
pub struct Fact {
    pub handle: u64,
}

/// A borrowed reference to an engine-owned instance, as an opaque handle.
#[derive(Debug, Clone, Copy, PartialEq, Eq, Structural)]
pub struct Instance {
    pub handle: u64,
}

/// A borrowed reference to an engine-owned external address, as an
/// opaque handle.
#[derive(Debug, Clone, Copy, PartialEq, Eq, Structural)]
pub struct ExternalAddress {
    pub handle: u64,
}

/// The engine's tagged-union value, with every payload already pulled
/// across the C boundary as a plain value.
#[derive(Debug, PartialEq, Eq)]
pub enum RawValue {
    /// A float payload, carried as its raw bit pattern.
    Float(u64),
    /// An integer payload.
    Integer(i64),
    /// A symbol lexeme.
    Symbol(String),
    /// A string lexeme.
    Str(String),
    /// A contiguous engine-owned array of values.
    Multifield(Vec<RawValue>),
    /// An external address, as an opaque handle.
    ExternalAddress(u64),
    /// A fact address, as an opaque handle.
    FactAddress(u64),
    /// An instance address, as an opaque handle.
    InstanceAddress(u64),
    /// An instance-name lexeme.
    InstanceName(String),
    /// The void value.
    Void,
    /// A kind tag this bridge does not understand; carries the tag.
    Unknown(u32),
}

/// The safe host value.
#[derive(Debug, PartialEq, Eq)]
pub enum ClipsValue {
    /// A symbol.
    Symbol(String),
    /// A string.
    Lexeme(String),
    /// A float, carried as its raw bit pattern.
    Float(u64),
    /// An integer.
    Integer(i64),
    /// The void value.
    Void,
    /// An ordered sequence of values.
    Multifield(Vec<ClipsValue>),
    /// A fact handle.
    Fact(Fact),
    /// An instance name.
    InstanceName(String),
    /// An instance handle.
    Instance(Instance),
    /// An external address handle.
    ExternalAddress(ExternalAddress),
}

/// The mathematical shape of a host value: text as character sequences,
/// multifields as sequences, handles as the numbers they wrap.
pub enum ValueModel {
    Symbol(Seq<char>),
    Lexeme(Seq<char>),
    Float(u64),
    Integer(i64),
    Void,
    Multifield(Seq<ValueModel>),
    Fact(u64),
    InstanceName(Seq<char>),
    Instance(u64),
    ExternalAddress(u64),
}

/// The model of a host value.
pub open spec fn value_model(v: ClipsValue) -> ValueModel
    decreases v,
{
    match v {
        ClipsValue::Symbol(s) => ValueModel::Symbol(s@),
        ClipsValue::Lexeme(s) => ValueModel::Lexeme(s@),
        ClipsValue::Float(bits) => ValueModel::Float(bits),
        ClipsValue::Integer(i) => ValueModel::Integer(i),
        ClipsValue::Void => ValueModel::Void,
        ClipsValue::Multifield(vs) => ValueModel::Multifield(value_models(vs@)),
        ClipsValue::Fact(f) => ValueModel::Fact(f.handle),
        ClipsValue::InstanceName(s) => ValueModel::InstanceName(s@),
        ClipsValue::Instance(i) => ValueModel::Instance(i.handle),
        ClipsValue::ExternalAddress(a) => ValueModel::ExternalAddress(a.handle),
    }
}

/// The models of a sequence of host values, in order.
pub open spec fn value_models(s: Seq<ClipsValue>) -> Seq<ValueModel>
    decreases s,
{
    if s.len() == 0 {
        Seq::<ValueModel>::empty()
    } else {
        seq![value_model(s[0])] + value_models(s.subrange(1, s.len() as int))
    }
}

/// What decoding an engine value yields: `None` exactly when the value
/// holds an unknown kind tag anywhere (at the top or nested in a
/// multifield); otherwise the host value's model, with multifield length
/// and element order preserved.
pub open spec fn decode_model(r: RawValue) -> Option<ValueModel>
    decreases r,
{
    match r {
        RawValue::Float(bits) => Some(ValueModel::Float(bits)),
        RawValue::Integer(i) => Some(ValueModel::Integer(i)),
        RawValue::Symbol(s) => Some(ValueModel::Symbol(s@)),
        RawValue::Str(s) => Some(ValueModel::Lexeme(s@)),
        RawValue::Multifield(rs) => match decode_models(rs@) {
            Some(ms) => Some(ValueModel::Multifield(ms)),
            None => None,
        },
        RawValue::ExternalAddress(h) => Some(ValueModel::ExternalAddress(h)),
        RawValue::FactAddress(h) => Some(ValueModel::Fact(h)),
        RawValue::InstanceAddress(h) => Some(ValueModel::Instance(h)),
        RawValue::InstanceName(s) => Some(ValueModel::InstanceName(s@)),
        RawValue::Void => Some(ValueModel::Void),
        RawValue::Unknown(_) => None,
    }
}

/// The models of a sequence of engine values: `None` as soon as any
/// element refuses to decode, otherwise all the models in order.
pub open spec fn decode_models(s: Seq<RawValue>) -> Option<Seq<ValueModel>>
    decreases s,
{
    if s.len() == 0 {
        Some(Seq::<ValueModel>::empty())
    } else {
        match (decode_model(s[0]), decode_models(s.subrange(1, s.len() as int))) {
            (Some(m), Some(ms)) => Some(seq![m] + ms),
            _ => None,
        }
    }
}

/// Element-wise reading of [`value_models`]: the models keep the length
/// and sit at the same positions.
pub proof fn lemma_value_models_characterize(s: Seq<ClipsValue>)
    ensures
        value_models(s).len() == s.len(),
        forall|i: int| 0 <= i < s.len() ==> value_models(s)[i] == value_model(#[trigger] s[i]),
    decreases s.len(),
{
    if s.len() > 0 {
        let tail = s.subrange(1, s.len() as int);
        lemma_value_models_characterize(tail);
        assert forall|i: int| 0 <= i < s.len() implies value_models(s)[i] == value_model(
            #[trigger] s[i],
        ) by {
            if i > 0 {
                assert(tail[i - 1] == s[i]);
                assert(value_models(s)[i] == value_models(tail)[i - 1]);
            }
        }
    }
}

/// Element-wise reading of [`decode_models`]: a sequence decodes exactly
/// when every element does, and then the models keep length and order.
pub proof fn lemma_decode_models_characterize(s: Seq<RawValue>)
    ensures
        decode_models(s) is Some <==> (forall|i: int|
            0 <= i < s.len() ==> (#[trigger] decode_model(s[i])) is Some),
        decode_models(s) is Some ==> decode_models(s)->0.len() == s.len(),
        decode_models(s) is Some ==> forall|i: int|
            0 <= i < s.len() ==> Some(decode_models(s)->0[i]) == #[trigger] decode_model(s[i]),
    decreases s.len(),
{
    if s.len() > 0 {
        let tail = s.subrange(1, s.len() as int);
        lemma_decode_models_characterize(tail);
        assert(forall|i: int| 0 <= i < tail.len() ==> #[trigger] tail[i] == s[i + 1]);
        if decode_model(s[0]) is Some && decode_models(tail) is Some {
            assert(decode_models(s) is Some);
            assert forall|i: int| 0 <= i < s.len() implies (#[trigger] decode_model(s[i]))
                is Some by {
                if i > 0 {
                    assert(decode_model(tail[i - 1]) is Some);
                }
            }
            assert forall|i: int| 0 <= i < s.len() implies Some(decode_models(s)->0[i])
                == #[trigger] decode_model(s[i]) by {
                if i > 0 {
                    assert(decode_models(s)->0[i] == decode_models(tail)->0[i - 1]);
                    assert(tail[i - 1] == s[i]);
                }
            }
        } else {
            assert(decode_models(s) is None);
            if decode_model(s[0]) is Some {
                let j = choose|j: int|
                    0 <= j < tail.len() && !((#[trigger] decode_model(tail[j])) is Some);
                assert(decode_model(s[j + 1]) is None);
            }
        }
    }
}

/// Decodes an engine value into a host value.
///
/// Returns `None` exactly when the value holds a kind tag this bridge
/// does not understand; the caller must treat that as fatal (an
/// engine/bridge version mismatch), never as a default value.
pub fn decode(raw: &RawValue) -> (r: Option<ClipsValue>)
    ensures
        match r {
            Some(v) => decode_model(*raw) == Some(value_model(v)),
            None => decode_model(*raw) is None,
        },
    decreases *raw,
{
    match raw {
        RawValue::Float(bits) => Some(ClipsValue::Float(*bits)),
        RawValue::Integer(i) => Some(ClipsValue::Integer(*i)),
        RawValue::Symbol(s) => Some(ClipsValue::Symbol(s.clone())),
        RawValue::Str(s) => Some(ClipsValue::Lexeme(s.clone())),
        RawValue::Multifield(rs) => {
            let mut out: Vec<ClipsValue> = Vec::new();
            let n = rs.len();
            let mut k: usize = 0;
            while k < n
                invariant
                    *raw == RawValue::Multifield(*rs),
                    k <= n,
                    n == rs@.len(),
                    out@.len() == k,
                    forall|j: int| 0 <= j < k ==> (#[trigger] decode_model(rs@[j])) is Some,
                    forall|j: int| 0 <= j < k ==> decode_model(rs@[j]) == Some(
                        value_model(#[trigger] out@[j]),
                    ),
                decreases n - k,
            {
                proof {
                    assert(decreases_to!(*raw => (*raw)->Multifield_0));
                    assert(decreases_to!(*rs => rs@));
                    assert(decreases_to!(rs@ => rs@[k as int]));
                    assert(decreases_to!(*raw => rs@[k as int]));
                }
                match decode(&rs[k]) {
                    Some(v) => out.push(v),
                    None => {
                        proof {
                            lemma_decode_models_characterize(rs@);
                        }
                        return None;
                    },
                }
                k += 1;
            }
            proof {
                lemma_decode_models_characterize(rs@);
                lemma_value_models_characterize(out@);
                assert(decode_models(rs@) is Some);
                let ms = decode_models(rs@)->0;
                assert forall|i: int| 0 <= i < n implies ms[i] == value_models(out@)[i] by {
                    assert(Some(ms[i]) == decode_model(rs@[i]));
                    assert(decode_model(rs@[i]) == Some(value_model(out@[i])));
                }
                assert(ms =~= value_models(out@));
            }
            Some(ClipsValue::Multifield(out))
        },
        RawValue::ExternalAddress(h) => Some(
            ClipsValue::ExternalAddress(ExternalAddress { handle: *h }),
        ),
        RawValue::FactAddress(h) => Some(ClipsValue::Fact(Fact { handle: *h })),
        RawValue::InstanceAddress(h) => Some(ClipsValue::Instance(Instance { handle: *h })),
        RawValue::InstanceName(s) => Some(ClipsValue::InstanceName(s.clone())),
        RawValue::Void => Some(ClipsValue::Void),
        RawValue::Unknown(_) => None,
    }
}

/// Encodes a host value into an engine value.
///
/// The contract is the round trip itself: whatever raw value comes out
/// decodes back to exactly the value that went in.  Every kind is
/// supported.
pub fn encode(v: &ClipsValue) -> (r: RawValue)
    ensures
        decode_model(r) == Some(value_model(*v)),
    decreases *v,
{
    match v {
        ClipsValue::Symbol(s) => RawValue::Symbol(s.clone()),
        ClipsValue::Lexeme(s) => RawValue::Str(s.clone()),
        ClipsValue::Float(bits) => RawValue::Float(*bits),
        ClipsValue::Integer(i) => RawValue::Integer(*i),
        ClipsValue::Void => RawValue::Void,
        ClipsValue::Multifield(vs) => {
            let mut out: Vec<RawValue> = Vec::new();
            let n = vs.len();
            let mut k: usize = 0;
            while k < n
                invariant
                    *v == ClipsValue::Multifield(*vs),
                    k <= n,
                    n == vs@.len(),
                    out@.len() == k,
                    forall|j: int| 0 <= j < k ==> (#[trigger] decode_model(out@[j])) == Some(
                        value_model(vs@[j]),
                    ),
                decreases n - k,
            {
                proof {
                    assert(decreases_to!(*v => (*v)->Multifield_0));
                    assert(decreases_to!(*vs => vs@));
                    assert(decreases_to!(vs@ => vs@[k as int]));
                    assert(decreases_to!(*v => vs@[k as int]));
                }
                let e = encode(&vs[k]);
                out.push(e);
                k += 1;
            }
            proof {
                lemma_decode_models_characterize(out@);
                lemma_value_models_characterize(vs@);
                assert(decode_models(out@) is Some);
                let ms = decode_models(out@)->0;
                assert forall|i: int| 0 <= i < n implies ms[i] == value_models(vs@)[i] by {
                    assert(Some(ms[i]) == decode_model(out@[i]));
                    assert(decode_model(out@[i]) == Some(value_model(vs@[i])));
                }
                assert(ms =~= value_models(vs@));
            }
            RawValue::Multifield(out)
        },
        ClipsValue::Fact(f) => RawValue::FactAddress(f.handle),
        ClipsValue::InstanceName(s) => RawValue::InstanceName(s.clone()),
        ClipsValue::Instance(i) => RawValue::InstanceAddress(i.handle),
        ClipsValue::ExternalAddress(a) => RawValue::ExternalAddress(a.handle),
    }
}

/// Multifield decoding preserves length and per-element order: when a
/// multifield decodes at all, the decoded sequence has the same length,
/// and each element is the decoding of the engine element at the same
/// position.
pub proof fn lemma_decode_multifield_preserves_shape(rs: Vec<RawValue>)
    requires
        decode_model(RawValue::Multifield(rs)) is Some,
    ensures
        decode_model(RawValue::Multifield(rs)) matches Some(m) && m matches ValueModel::Multifield(
            ms,
        ) && ms.len() == rs@.len() && forall|i: int|
            0 <= i < rs@.len() ==> Some(#[trigger] ms[i]) == decode_model(rs@[i]),
{
    lemma_decode_models_characterize(rs@);
}

/// A value whose kind tag the bridge does not understand never decodes:
/// there is no default result for it.
pub proof fn lemma_decode_unknown_refused(tag: u32)
    ensures
        decode_model(RawValue::Unknown(tag)) is None,
{
}

} // verus!
