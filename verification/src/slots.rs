//! Reading an instance's slots.
//!
//! The engine answers "what slots does this instance's class have" with
//! a multifield of symbol lexemes, and hands each slot's value out as a
//! tagged-union value.  The verified part of slot reading is here: the
//! extraction of the ordered name list from that multifield, and the
//! pairing of names with decoded values in class-slot order.  Fetching
//! the two raw answers is the unverified shell's job.

use vstd::prelude::*;

use crate::value::decode;
use crate::value::decode_model;
use crate::value::value_model;
use crate::value::ClipsValue;
use crate::value::RawValue;

verus! {

/// One slot of an instance: its name and its decoded value.
#[derive(Debug, PartialEq, Eq)]
pub struct InstanceSlot {
    pub name: String,
    pub value: ClipsValue,
}

/// The ordered name list held by a slot-names answer: `Some` exactly
/// when every element of the sequence is a symbol lexeme, and then the
/// names in order.
pub open spec fn symbol_names(s: Seq<RawValue>) -> Option<Seq<Seq<char>>>
    decreases s,
{
    if s.len() == 0 {
        Some(Seq::<Seq<char>>::empty())
    } else {
        match s[0] {
            RawValue::Symbol(name) => match symbol_names(s.subrange(1, s.len() as int)) {
                Some(names) => Some(seq![name@] + names),
                None => None,
            },
            _ => None,
        }
    }
}

/// What a whole slot-names answer yields: the engine must hand back a
/// multifield of symbol lexemes; anything else is refused.
pub open spec fn slot_names_model(raw: RawValue) -> Option<Seq<Seq<char>>> {
    match raw {
        RawValue::Multifield(rs) => symbol_names(rs@),
        _ => None,
    }
}

/// Extracts the ordered slot-name list from the engine's slot-names
/// answer.  Returns `None` exactly when the answer is not a multifield
/// of symbol lexemes — a shape this bridge must treat as a fatal
/// engine/bridge mismatch rather than guess at.
pub fn slot_names_from(raw: &RawValue) -> (r: Option<Vec<String>>)
    ensures
        match r {
            Some(names) => slot_names_model(*raw) == Some(names.deep_view()),
            None => slot_names_model(*raw) is None,
        },
{
    match raw {
        RawValue::Multifield(rs) => {
            let mut out: Vec<String> = Vec::new();
            let n = rs.len();
            let mut k: usize = 0;
            while k < n
                invariant
                    *raw == RawValue::Multifield(*rs),
                    k <= n,
                    n == rs@.len(),
                    out@.len() == k,
                    forall|j: int| 0 <= j < k ==> (#[trigger] rs@[j] matches RawValue::Symbol(
                        name,
                    ) && out@[j]@ == name@),
                decreases n - k,
            {
                match &rs[k] {
                    RawValue::Symbol(name) => {
                        out.push(name.clone());
                    },
                    _ => {
                        proof {
                            lemma_symbol_names_characterize(rs@);
                        }
                        return None;
                    },
                }
                k += 1;
            }
            proof {
                lemma_symbol_names_characterize(rs@);
                assert(symbol_names(rs@) is Some);
                assert forall|i: int| 0 <= i < n implies symbol_names(rs@)->0[i] == out.deep_view()[i]
                by {
                    assert(rs@[i] matches RawValue::Symbol(name) && out@[i]@ == name@);
                }
                assert(symbol_names(rs@)->0 =~= out.deep_view());
            }
            Some(out)
        },
        _ => None,
    }
}

/// Element-wise reading of [`symbol_names`]: the answer is `Some`
/// exactly when every element is a symbol, and then the names keep
/// length and order.
pub proof fn lemma_symbol_names_characterize(s: Seq<RawValue>)
    ensures
        symbol_names(s) is Some <==> (forall|i: int|
            0 <= i < s.len() ==> (#[trigger] s[i]) matches RawValue::Symbol(name)),
        symbol_names(s) is Some ==> symbol_names(s)->0.len() == s.len(),
        symbol_names(s) is Some ==> forall|i: int|
            0 <= i < s.len() ==> ((#[trigger] s[i]) matches RawValue::Symbol(name) && symbol_names(
                s,
            )->0[i] == name@),
    decreases s.len(),
{
    if s.len() > 0 {
        let tail = s.subrange(1, s.len() as int);
        lemma_symbol_names_characterize(tail);
        assert(forall|i: int| 0 <= i < tail.len() ==> #[trigger] tail[i] == s[i + 1]);
        match s[0] {
            RawValue::Symbol(name) => {
                if symbol_names(tail) is Some {
                    assert forall|i: int| 0 <= i < s.len() implies (#[trigger] s[i]) matches
                        RawValue::Symbol(n2) && symbol_names(s)->0[i] == n2@ by {
                        if i > 0 {
                            assert(tail[i - 1] == s[i]);
                            assert(symbol_names(s)->0[i] == symbol_names(tail)->0[i - 1]);
                        }
                    }
                } else {
                    let j = choose|j: int|
                        0 <= j < tail.len() && !((#[trigger] tail[j]) matches RawValue::Symbol(n2));
                    assert(!(s[j + 1] matches RawValue::Symbol(n2)));
                }
            },
            _ => {},
        }
    }
}

/// Pairs slot names with their decoded values, in class-slot order.
///
/// `values[i]` is the engine's answer for the slot called `names[i]`;
/// the result keeps that order.  Returns `None` exactly when some value
/// refuses to decode (an unknown kind tag somewhere inside it).
pub fn pair_slots(names: &Vec<String>, values: &Vec<RawValue>) -> (r: Option<Vec<InstanceSlot>>)
    requires
        names@.len() == values@.len(),
    ensures
        match r {
            Some(slots) => {
                &&& slots@.len() == names@.len()
                &&& forall|i: int|
                    0 <= i < slots@.len() ==> (#[trigger] slots@[i]).name@ == names@[i]@
                &&& forall|i: int|
                    0 <= i < slots@.len() ==> decode_model(values@[i]) == Some(
                        value_model((#[trigger] slots@[i]).value),
                    )
            },
            None => exists|i: int|
                0 <= i < values@.len() && (#[trigger] decode_model(values@[i])) is None,
        },
{
    let mut out: Vec<InstanceSlot> = Vec::new();
    let n = values.len();
    let mut k: usize = 0;
    while k < n
        invariant
            k <= n,
            n == values@.len(),
            names@.len() == n,
            out@.len() == k,
            forall|j: int| 0 <= j < k ==> (#[trigger] out@[j]).name@ == names@[j]@,
            forall|j: int| 0 <= j < k ==> decode_model(values@[j]) == Some(
                value_model((#[trigger] out@[j]).value),
            ),
        decreases n - k,
    {
        let name = names[k].clone();
        match decode(&values[k]) {
            Some(value) => {
                out.push(InstanceSlot { name, value });
            },
            None => {
                return None;
            },
        }
        k += 1;
    }
    Some(out)
}

} // verus!
