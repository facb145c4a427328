//! The dispatch path: what the one callback that the runtime knows does with a
//! token, an argument buffer and a return buffer.

use vstd::prelude::*;
use crate::registry::HostRegistry;
use crate::value::{lemma_raw_round_trip, RawValue, WasmValue};

verus! {

/// The wire forms of a list of values, in the same order.
pub open spec fn raws_of(values: Seq<WasmValue>) -> Seq<RawValue> {
    values.map_values(|v: WasmValue| v.raw_of())
}

/// Whether every wire form of a list stands for a value.
pub open spec fn all_typed(raws: Seq<RawValue>) -> bool {
    forall|i: int| 0 <= i < raws.len() ==> WasmValue::of_raw(#[trigger] raws[i]) is Some
}

/// The values that a list of wire forms stands for, in the same order, if
/// every one of them stands for a value.
pub open spec fn values_of(raws: Seq<RawValue>) -> Option<Seq<WasmValue>> {
    if all_typed(raws) {
        Some(raws.map_values(|r: RawValue| WasmValue::of_raw(r).unwrap()))
    } else {
        None
    }
}

/// What the callback reports for an outcome of a closure, and what the return
/// buffer then holds: code 0 and the wire forms of the results where the
/// closure succeeded, the closure's own code and the buffer as it was where
/// it failed.
pub open spec fn settled(outcome: Result<Vec<WasmValue>, u8>, before: Seq<RawValue>) -> (
    u8,
    Seq<RawValue>,
) {
    match outcome {
        Ok(values) => (0u8, raws_of(values@)),
        Err(code) => (code, before),
    }
}

/// Whether the closure `real_fn` may be called on the arguments `input` with a
/// return buffer of `arity` slots: it accepts the arguments, and whenever it
/// succeeds it gives exactly `arity` results.
pub open spec fn callable_on<F: Fn(Vec<WasmValue>) -> Result<Vec<WasmValue>, u8>>(
    real_fn: F,
    input: Seq<WasmValue>,
    arity: nat,
) -> bool {
    &&& forall|args: Vec<WasmValue>| args@ == input ==> call_requires(real_fn, (args,))
    &&& forall|args: Vec<WasmValue>, outcome: Result<Vec<WasmValue>, u8>|
        args@ == input && #[trigger] call_ensures(real_fn, (args,), outcome) ==> (outcome matches Ok(
            values,
        ) ==> values@.len() == arity)
}

/// Whether `outcome` is something that the closure `real_fn` can give for the
/// arguments `input`.
pub open spec fn answers<F: Fn(Vec<WasmValue>) -> Result<Vec<WasmValue>, u8>>(
    real_fn: F,
    input: Seq<WasmValue>,
    outcome: Result<Vec<WasmValue>, u8>,
) -> bool {
    exists|args: Vec<WasmValue>| args@ == input && #[trigger] call_ensures(real_fn, (args,), outcome)
}

/// The wire forms of a list of values stand for that very list.
pub proof fn lemma_values_round_trip(values: Seq<WasmValue>)
    ensures
        values_of(raws_of(values)) == Some(values),
{
    let raws = raws_of(values);
    assert forall|i: int| 0 <= i < raws.len() implies WasmValue::of_raw(#[trigger] raws[i]) == Some(
        values[i],
    ) by {
        lemma_raw_round_trip(values[i], raws[i]);
    }
    assert(all_typed(raws));
    assert(raws.map_values(|r: RawValue| WasmValue::of_raw(r).unwrap()) =~= values);
}

/// Returns the wire forms of `values`, in the same order.
pub fn encode_values(values: &Vec<WasmValue>) -> (raws: Vec<RawValue>)
    ensures
        raws@ == raws_of(values@),
{
    let mut raws: Vec<RawValue> = Vec::with_capacity(values.len());
    let mut i: usize = 0;
    while i < values.len()
        invariant
            i <= values.len(),
            raws@ == raws_of(values@.take(i as int)),
        decreases values.len() - i,
    {
        raws.push(values[i].as_raw());
        proof {
            assert(values@.take(i + 1) == values@.take(i as int).push(values@[i as int]));
            assert(raws@ =~= raws_of(values@.take(i + 1)));
        }
        i += 1;
    }
    proof {
        assert(values@.take(i as int) == values@);
    }
    raws
}

/// Turns the argument buffer into values, one for each slot and in the same
/// order. Returns `None` when a slot carries a code that is not the code of
/// any kind.
pub fn marshal_input(params: &Vec<RawValue>) -> (input: Option<Vec<WasmValue>>)
    ensures
        match input {
            Some(values) => values_of(params@) == Some(values@),
            None => values_of(params@) is None,
        },
{
    let mut values: Vec<WasmValue> = Vec::with_capacity(params.len());
    let mut i: usize = 0;
    while i < params.len()
        invariant
            i <= params.len(),
            values_of(params@.take(i as int)) == Some(values@),
        decreases params.len() - i,
    {
        match WasmValue::from_raw(params[i]) {
            Some(value) => {
                values.push(value);
                proof {
                    let before = params@.take(i as int);
                    let after = params@.take(i + 1);
                    assert(after == before.push(params@[i as int]));
                    assert(all_typed(after)) by {
                        assert forall|j: int| 0 <= j < after.len() implies WasmValue::of_raw(
                            #[trigger] after[j],
                        ) is Some by {
                            if j < i {
                                assert(after[j] == before[j]);
                            }
                        }
                    }
                    assert(values@ =~= after.map_values(|r: RawValue| WasmValue::of_raw(r).unwrap()));
                }
            },
            None => {
                proof {
                    assert(WasmValue::of_raw(params@[i as int]) is None);
                }
                return None;
            },
        }
        i += 1;
    }
    proof {
        assert(params@.take(i as int) == params@);
    }
    Some(values)
}

/// Settles an outcome of a closure: on success writes the wire form of each
/// result into its slot of the return buffer and reports code 0; on failure
/// writes nothing and reports the code that the closure supplied.
///
/// A closure that succeeds with a number of results other than the number of
/// slots was registered under a wrong signature: that is an error of the
/// caller.
pub fn marshal_output(outcome: Result<Vec<WasmValue>, u8>, slots: &mut Vec<RawValue>) -> (code: u8)
    requires
        outcome matches Ok(values) ==> values@.len() == old(slots)@.len(),
    ensures
        (code, final(slots)@) == settled(outcome, old(slots)@),
{
    match outcome {
        Ok(values) => {
            let mut i: usize = 0;
            while i < values.len()
                invariant
                    i <= values.len(),
                    values@.len() == slots@.len(),
                    forall|j: int| 0 <= j < i ==> slots@[j] == values@[j].raw_of(),
                decreases values.len() - i,
            {
                slots.set(i, values[i].as_raw());
                i += 1;
            }
            proof {
                assert(slots@ =~= raws_of(values@));
            }
            0
        },
        Err(code) => code,
    }
}

/// Runs the closure registered under `key` on the arguments in `params` and
/// settles its outcome in `slots`, as [`marshal_output`] does. Returns the
/// code to report: 0 for success, the closure's own code for failure.
///
/// It is an error of the caller to dispatch to a token under which nothing is
/// registered, to hand over an argument whose code is not that of any kind,
/// or to dispatch to a closure that does not fit the return buffer.
pub fn dispatch<F: Fn(Vec<WasmValue>) -> Result<Vec<WasmValue>, u8>>(
    registry: &HostRegistry<F>,
    key: usize,
    params: &Vec<RawValue>,
    slots: &mut Vec<RawValue>,
) -> (code: u8)
    requires
        registry@.contains_key(key),
        values_of(params@) is Some,
        callable_on(registry@[key], values_of(params@).unwrap(), old(slots)@.len()),
    ensures
        exists|outcome: Result<Vec<WasmValue>, u8>|
            #[trigger] answers(registry@[key], values_of(params@).unwrap(), outcome) && (
                code,
                final(slots)@,
            ) == settled(outcome, old(slots)@),
{
    let input = marshal_input(params).unwrap();
    let real_fn = registry.resolve(key);
    let outcome = real_fn(input);
    proof {
        assert(answers(registry@[key], values_of(params@).unwrap(), outcome));
    }
    marshal_output(outcome, slots)
}

} // verus!
