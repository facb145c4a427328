//! Host function handles: the owning handle, the non-owning reference to it,
//! and the execution context through which both are invoked.

use vstd::prelude::*;
use crate::error::{FuncError, WasmEdgeError};
use crate::func_type::{copy_kinds, FuncType, Signature};
use crate::registry::HostRegistry;
use crate::val_type::ValType;
use crate::value::WasmValue;

verus! {

/// What a function object holds: the token of its closure, its signature and
/// its cost.
pub struct Binding {
    /// The token under which the closure is registered.
    pub key: usize,
    /// The kinds of the parameters, in order.
    pub params: Seq<ValType>,
    /// The kinds of the results, in order.
    pub results: Seq<ValType>,
    /// The cost of a call, as the statistics of a runtime count it.
    pub cost: u64,
}

/// An execution context: something that knows how to run a function object.
///
/// The two predicates say what an implementation demands and what it
/// promises; the methods are held to them.
pub trait Engine {
    /// Whether this context can be asked to run `func` on `params`.
    spec fn accepts(&self, func: Binding, params: Seq<WasmValue>) -> bool;

    /// Whether running `func` on `params` can end with `outcome` and leave the
    /// context as `after`.
    spec fn runs(
        &self,
        func: Binding,
        params: Seq<WasmValue>,
        outcome: Result<Vec<WasmValue>, WasmEdgeError>,
        after: &Self,
    ) -> bool;

    /// Runs the function object of an owning handle.
    fn run_func(&mut self, func: &Function, params: Vec<WasmValue>) -> (outcome: Result<
        Vec<WasmValue>,
        WasmEdgeError,
    >)
        requires
            old(self).accepts(func@, params@),
        ensures
            old(self).runs(func@, params@, outcome, final(self)),
    ;

    /// Runs the function object that a reference refers to.
    fn run_func_ref(&mut self, func: &FuncRef, params: Vec<WasmValue>) -> (outcome: Result<
        Vec<WasmValue>,
        WasmEdgeError,
    >)
        requires
            old(self).accepts(func@, params@),
        ensures
            old(self).runs(func@, params@, outcome, final(self)),
    ;
}

/// The function object itself.
#[derive(Debug)]
struct InnerFunc {
    key: usize,
    params: Vec<ValType>,
    results: Vec<ValType>,
    cost: u64,
}

impl InnerFunc {
    #[verifier::type_invariant]
    spec fn counts_fit(self) -> bool {
        self.params@.len() <= u32::MAX && self.results@.len() <= u32::MAX
    }

    spec fn binding(self) -> Binding {
        Binding { key: self.key, params: self.params@, results: self.results@, cost: self.cost }
    }

    fn duplicate(&self) -> (copy: InnerFunc)
        ensures
            copy.binding() == self.binding(),
    {
        proof {
            use_type_invariant(self);
        }
        InnerFunc {
            key: self.key,
            params: copy_kinds(&self.params),
            results: copy_kinds(&self.results),
            cost: self.cost,
        }
    }

    fn ty(&self) -> (result: Result<FuncType, WasmEdgeError>)
        ensures
            result matches Ok(ty) && ty@ == (Signature {
                params: self.binding().params,
                results: self.binding().results,
                registered: true,
            }),
    {
        proof {
            use_type_invariant(self);
        }
        FuncType::query(Some((copy_kinds(&self.params), copy_kinds(&self.results))))
    }
}

/// The owning handle of a host function: a function object bound to a
/// registered closure.
///
/// The view is what the function object holds.
#[derive(Debug)]
pub struct Function {
    inner: InnerFunc,
    registered: bool,
}

impl View for Function {
    type V = Binding;

    closed spec fn view(&self) -> Binding {
        self.inner.binding()
    }
}

/// A reference to a host function that owns nothing.
///
/// The view is what the function object referred to holds.
#[derive(Debug)]
pub struct FuncRef {
    inner: InnerFunc,
}

impl View for FuncRef {
    type V = Binding;

    closed spec fn view(&self) -> Binding {
        self.inner.binding()
    }
}

impl Function {
    /// Whether something else than this handle owns the function object, so
    /// that the handle must not release it.
    pub closed spec fn owned_elsewhere(&self) -> bool {
        self.registered
    }

    /// Creates a host function of signature `ty` that runs `real_fn`, at the
    /// cost `cost`: registers the closure in `registry` and binds the function
    /// object to its token. The handle owns the function object. Here the
    /// function object is part of the handle, so that making it cannot fail;
    /// where a runtime makes it, [`Function::bind`] settles the runtime's
    /// answer.
    ///
    /// Fails with [`FuncError::CreateBinding`] when the registry already holds
    /// as many closures as it admits; the registry is then left as it was.
    pub fn create<F>(registry: &mut HostRegistry<F>, ty: &FuncType, real_fn: F, cost: u64) -> (result:
        Result<Function, WasmEdgeError>)
        ensures
            final(registry).bound() == old(registry).bound(),
            match result {
                Ok(func) => {
                    &&& old(registry)@.len() < old(registry).bound()
                    &&& !old(registry)@.contains_key(func@.key)
                    &&& final(registry)@ == old(registry)@.insert(func@.key, real_fn)
                    &&& func@ == (Binding {
                        key: func@.key,
                        params: ty@.params,
                        results: ty@.results,
                        cost,
                    })
                    &&& !func.owned_elsewhere()
                },
                Err(e) => {
                    &&& old(registry)@.len() >= old(registry).bound()
                    &&& e == WasmEdgeError::Func(FuncError::CreateBinding(old(registry).bound()))
                    &&& final(registry)@ == old(registry)@
                },
            },
    {
        match registry.register(real_fn) {
            Ok(key) => Function::bind(registry, key, ty, cost, true),
            Err(e) => Err(WasmEdgeError::Func(e)),
        }
    }

    /// Settles the binding of a closure that is registered under `key`, once
    /// it is known whether the function object could be materialised. Where it
    /// could, the handle to it is returned. Where it could not, the closure is
    /// taken out of the registry again, so that no token is left without an
    /// owner.
    ///
    /// Fails with [`FuncError::Create`] when `materialised` is false.
    pub fn bind<F>(
        registry: &mut HostRegistry<F>,
        key: usize,
        ty: &FuncType,
        cost: u64,
        materialised: bool,
    ) -> (result: Result<Function, WasmEdgeError>)
        ensures
            final(registry).bound() == old(registry).bound(),
            match result {
                Ok(func) => {
                    &&& materialised
                    &&& final(registry)@ == old(registry)@
                    &&& func@ == (Binding { key, params: ty@.params, results: ty@.results, cost })
                    &&& !func.owned_elsewhere()
                },
                Err(e) => {
                    &&& !materialised
                    &&& e == WasmEdgeError::Func(FuncError::Create)
                    &&& final(registry)@ == old(registry)@.remove(key)
                },
            },
    {
        if materialised {
            let inner = InnerFunc {
                key,
                params: ty.params_type_iter(),
                results: ty.returns_type_iter(),
                cost,
            };
            Ok(Function { inner, registered: false })
        } else {
            let _ = registry.remove(key);
            Err(WasmEdgeError::Func(FuncError::Create))
        }
    }

    /// Returns the signature of the function. The signature belongs to the
    /// function object, not to the caller.
    pub fn ty(&self) -> (result: Result<FuncType, WasmEdgeError>)
        ensures
            result matches Ok(ty) && ty@ == (Signature {
                params: self@.params,
                results: self@.results,
                registered: true,
            }),
    {
        self.inner.ty()
    }

    /// Runs this host function in `engine` on `args` and returns what `engine`
    /// returns.
    pub fn call<E: Engine>(&self, engine: &mut E, args: Vec<WasmValue>) -> (outcome: Result<
        Vec<WasmValue>,
        WasmEdgeError,
    >)
        requires
            old(engine).accepts(self@, args@),
        ensures
            old(engine).runs(self@, args@, outcome, final(engine)),
    {
        engine.run_func(self, args)
    }

    /// Returns a reference to this host function that owns nothing.
    pub fn as_ref(&self) -> (func_ref: FuncRef)
        ensures
            func_ref@ == self@,
    {
        FuncRef { inner: self.inner.duplicate() }
    }

    /// Returns the token under which the closure of this function is
    /// registered.
    pub fn key(&self) -> (key: usize)
        ensures
            key == self@.key,
    {
        self.inner.key
    }

    /// Returns the cost that the function was created with.
    pub fn cost(&self) -> (cost: u64)
        ensures
            cost == self@.cost,
    {
        self.inner.cost
    }

    /// Tells whether something else than this handle owns the function
    /// object.
    pub fn registered(&self) -> (registered: bool)
        ensures
            registered == self.owned_elsewhere(),
    {
        self.registered
    }

    /// Records that the function object has been handed to an owner of its
    /// own, a module for instance: from now on this handle releases nothing.
    pub fn set_registered(&mut self)
        ensures
            final(self)@ == old(self)@,
            final(self).owned_elsewhere(),
    {
        self.registered = true;
    }

    /// Gives the handle up. A handle that owns its function object releases
    /// it: the closure leaves the registry and is returned. A handle whose
    /// function object is owned elsewhere releases nothing.
    ///
    /// The handle is consumed, so nothing is released twice.
    pub fn release<F>(self, registry: &mut HostRegistry<F>) -> (released: Option<F>)
        ensures
            final(registry).bound() == old(registry).bound(),
            self.owned_elsewhere() ==> released is None && final(registry)@ == old(registry)@,
            !self.owned_elsewhere() ==> {
                &&& final(registry)@ == old(registry)@.remove(self@.key)
                &&& match released {
                    Some(f) => old(registry)@.contains_key(self@.key) && f == old(registry)@[self@.key],
                    None => !old(registry)@.contains_key(self@.key),
                }
            },
    {
        if self.registered {
            None
        } else {
            registry.remove(self.inner.key)
        }
    }
}

impl FuncRef {
    /// Returns the signature of the function referred to. The signature
    /// belongs to the function object, not to the caller.
    pub fn ty(&self) -> (result: Result<FuncType, WasmEdgeError>)
        ensures
            result matches Ok(ty) && ty@ == (Signature {
                params: self@.params,
                results: self@.results,
                registered: true,
            }),
    {
        self.inner.ty()
    }

    /// Runs the host function referred to in `engine` on `args` and returns
    /// what `engine` returns.
    pub fn call<E: Engine>(&self, engine: &mut E, args: Vec<WasmValue>) -> (outcome: Result<
        Vec<WasmValue>,
        WasmEdgeError,
    >)
        requires
            old(engine).accepts(self@, args@),
        ensures
            old(engine).runs(self@, args@, outcome, final(engine)),
    {
        engine.run_func_ref(self, args)
    }

    /// Returns the token under which the closure of the function referred to
    /// is registered.
    pub fn key(&self) -> (key: usize)
        ensures
            key == self@.key,
    {
        self.inner.key
    }
}

} // verus!
