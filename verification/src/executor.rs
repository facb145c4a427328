//! An execution context that runs host functions in the calling thread, along
//! the dispatch path that a runtime takes.

use vstd::prelude::*;
use crate::error::WasmEdgeError;
use crate::func::{Binding, Engine, FuncRef, Function};
use crate::func_type::FuncType;
use crate::registry::HostRegistry;
use crate::trampoline::{
    answers, callable_on, dispatch, encode_values, lemma_values_round_trip, marshal_input, raws_of,
    settled,
};
use crate::val_type::ValType;
use crate::value::{RawValue, WasmValue};

verus! {

/// The values that a return buffer holds before anything is written into it:
/// one of each kind, with an all-zero payload.
pub open spec fn blank(kinds: Seq<ValType>) -> Seq<WasmValue> {
    kinds.map_values(|k: ValType| WasmValue { bits: 0, ty: k })
}

/// What the context makes of an outcome of a closure whose function has the
/// result kinds `results`. The results of a success are handed on. A failure
/// is handed on as [`WasmEdgeError::User`] with the closure's code; the code 0
/// is the code of success, so a closure that fails with it is taken to have
/// succeeded and to have left the return buffer blank.
pub open spec fn relayed(
    closure_outcome: Result<Vec<WasmValue>, u8>,
    results: Seq<ValType>,
    outcome: Result<Vec<WasmValue>, WasmEdgeError>,
) -> bool {
    match closure_outcome {
        Ok(values) => outcome matches Ok(v) && v@ == values@,
        Err(code) => if code == 0 {
            outcome matches Ok(v) && v@ == blank(results)
        } else {
            outcome == Err::<Vec<WasmValue>, WasmEdgeError>(WasmEdgeError::User(code as u32))
        },
    }
}

/// An execution context for the closures of one registry.
///
/// The view is the mapping of the registry.
#[verifier::reject_recursive_types(F)]
pub struct HostExecutor<'a, F> {
    registry: &'a HostRegistry<F>,
}

impl<'a, F> View for HostExecutor<'a, F> {
    type V = Map<usize, F>;

    closed spec fn view(&self) -> Map<usize, F> {
        self.registry@
    }
}

impl<'a, F: Fn(Vec<WasmValue>) -> Result<Vec<WasmValue>, u8>> HostExecutor<'a, F> {
    /// Makes an execution context for the closures of `registry`.
    pub fn create(registry: &'a HostRegistry<F>) -> (executor: HostExecutor<'a, F>)
        ensures
            executor@ == registry@,
    {
        HostExecutor { registry }
    }

    /// Returns a blank return buffer for results of the kinds `kinds`.
    fn blank_slots(kinds: &Vec<ValType>) -> (slots: Vec<RawValue>)
        ensures
            slots@ == raws_of(blank(kinds@)),
    {
        let mut slots: Vec<RawValue> = Vec::with_capacity(kinds.len());
        let mut i: usize = 0;
        while i < kinds.len()
            invariant
                i <= kinds.len(),
                slots@ == raws_of(blank(kinds@.take(i as int))),
            decreases kinds.len() - i,
        {
            slots.push(RawValue { value: 0, kind: kinds[i].code() });
            proof {
                assert(kinds@.take(i + 1) == kinds@.take(i as int).push(kinds@[i as int]));
                assert(slots@ =~= raws_of(blank(kinds@.take(i + 1))));
            }
            i += 1;
        }
        proof {
            assert(kinds@.take(i as int) == kinds@);
        }
        slots
    }

    /// Runs the closure registered under `key` as a runtime would: the
    /// arguments go over in their wire form, the closure is reached through
    /// [`dispatch`], and the results come back out of the return buffer.
    fn run(&self, key: usize, ty: &FuncType, params: Vec<WasmValue>) -> (outcome: Result<
        Vec<WasmValue>,
        WasmEdgeError,
    >)
        requires
            self@.contains_key(key),
            callable_on(self@[key], params@, ty@.results.len()),
        ensures
            exists|closure_outcome: Result<Vec<WasmValue>, u8>|
                #[trigger] answers(self@[key], params@, closure_outcome) && relayed(
                    closure_outcome,
                    ty@.results,
                    outcome,
                ),
    {
        let kinds = ty.returns_type_iter();
        let raw_params = encode_values(&params);
        let mut slots = HostExecutor::<F>::blank_slots(&kinds);
        proof {
            lemma_values_round_trip(params@);
            lemma_values_round_trip(blank(kinds@));
        }
        let ghost before = slots@;
        let code = dispatch(self.registry, key, &raw_params, &mut slots);
        let ghost closure_outcome = choose|c: Result<Vec<WasmValue>, u8>|
            #[trigger] answers(self@[key], params@, c) && (code, slots@) == settled(c, before);
        if code != 0 {
            Err(WasmEdgeError::User(code as u32))
        } else {
            proof {
                if let Ok(values) = closure_outcome {
                    lemma_values_round_trip(values@);
                }
            }
            let values = marshal_input(&slots).unwrap();
            Ok(values)
        }
    }
}

impl<'a, F: Fn(Vec<WasmValue>) -> Result<Vec<WasmValue>, u8>> Engine for HostExecutor<'a, F> {
    open spec fn accepts(&self, func: Binding, params: Seq<WasmValue>) -> bool {
        &&& self@.contains_key(func.key)
        &&& callable_on(self@[func.key], params, func.results.len())
    }

    open spec fn runs(
        &self,
        func: Binding,
        params: Seq<WasmValue>,
        outcome: Result<Vec<WasmValue>, WasmEdgeError>,
        after: &Self,
    ) -> bool {
        &&& after@ == self@
        &&& exists|closure_outcome: Result<Vec<WasmValue>, u8>|
            #[trigger] answers(self@[func.key], params, closure_outcome) && relayed(
                closure_outcome,
                func.results,
                outcome,
            )
    }

    fn run_func(&mut self, func: &Function, params: Vec<WasmValue>) -> (outcome: Result<
        Vec<WasmValue>,
        WasmEdgeError,
    >) {
        match func.ty() {
            Ok(ty) => self.run(func.key(), &ty, params),
            Err(e) => Err(e),
        }
    }

    fn run_func_ref(&mut self, func: &FuncRef, params: Vec<WasmValue>) -> (outcome: Result<
        Vec<WasmValue>,
        WasmEdgeError,
    >) {
        match func.ty() {
            Ok(ty) => self.run(func.key(), &ty, params),
            Err(e) => Err(e),
        }
    }
}

} // verus!
