//! Function signatures: an ordered list of parameter kinds and an ordered list
//! of return kinds, and their exchange with the kind lists of `wasmedge_types`.

use vstd::prelude::*;
use crate::error::{FuncError, WasmEdgeError};
use crate::kind_lists::{
    list_view, listed_args, listed_results, lists_args, lists_new, lists_results, outside_knows,
    outside_knows_all,
};
use crate::val_type::{lemma_code_round_trip, ValType};

verus! {

/// What a [`FuncType`] stands for.
pub struct Signature {
    /// The kinds of the parameters, in order.
    pub params: Seq<ValType>,
    /// The kinds of the returns, in order.
    pub results: Seq<ValType>,
    /// Whether the runtime, not the holder, owns the signature.
    pub registered: bool,
}

/// The wire codes of a list of kinds, in the same order.
pub open spec fn codes_of(kinds: Seq<ValType>) -> Seq<u32> {
    kinds.map_values(|k: ValType| k.code_of())
}

/// Whether every code of a list stands for a kind.
pub open spec fn all_known(codes: Seq<u32>) -> bool {
    forall|i: int| 0 <= i < codes.len() ==> ValType::of_code(#[trigger] codes[i]) is Some
}

/// The kinds that a list of wire codes stands for, in the same order, if every
/// one of them stands for a kind.
pub open spec fn kinds_of(codes: Seq<u32>) -> Option<Seq<ValType>> {
    if all_known(codes) {
        Some(codes.map_values(|c: u32| ValType::of_code(c).unwrap()))
    } else {
        None
    }
}

/// The optional list under which a list of kinds is described to
/// `wasmedge_types`: an empty list is left out.
pub open spec fn described(kinds: Seq<ValType>) -> Option<Seq<u32>> {
    if kinds.len() > 0 {
        Some(codes_of(kinds))
    } else {
        None
    }
}

/// The kinds that an optional list of wire codes describes: a list that was
/// left out describes no kinds at all, as an empty one does.
pub open spec fn understood(list: Option<Seq<u32>>) -> Option<Seq<ValType>> {
    match list {
        Some(codes) => kinds_of(codes),
        None => Some(Seq::<ValType>::empty()),
    }
}

/// Returns the wire codes of `kinds`, in the same order.
pub fn encode_kinds(kinds: &Vec<ValType>) -> (codes: Vec<u32>)
    ensures
        codes@ == codes_of(kinds@),
{
    let mut codes: Vec<u32> = Vec::new();
    let mut i: usize = 0;
    while i < kinds.len()
        invariant
            i <= kinds.len(),
            codes@ == codes_of(kinds@.take(i as int)),
        decreases kinds.len() - i,
    {
        codes.push(kinds[i].code());
        proof {
            assert(kinds@.take(i + 1) == kinds@.take(i as int).push(kinds@[i as int]));
            assert(codes@ =~= codes_of(kinds@.take(i + 1)));
        }
        i += 1;
    }
    proof {
        assert(kinds@.take(i as int) == kinds@);
    }
    codes
}

/// Returns the kinds that `codes` stand for, in the same order, or `None` when
/// one of them is not the code of any kind.
pub fn decode_kinds(codes: &Vec<u32>) -> (kinds: Option<Vec<ValType>>)
    ensures
        match kinds {
            Some(k) => kinds_of(codes@) == Some(k@),
            None => kinds_of(codes@) is None,
        },
{
    let mut kinds: Vec<ValType> = Vec::new();
    let mut i: usize = 0;
    while i < codes.len()
        invariant
            i <= codes.len(),
            kinds_of(codes@.take(i as int)) == Some(kinds@),
        decreases codes.len() - i,
    {
        match ValType::from_code(codes[i]) {
            Some(kind) => {
                kinds.push(kind);
                proof {
                    let before = codes@.take(i as int);
                    let after = codes@.take(i + 1);
                    assert(after == before.push(codes@[i as int]));
                    assert(all_known(after)) by {
                        assert forall|j: int| 0 <= j < after.len() implies ValType::of_code(
                            #[trigger] after[j],
                        ) is Some by {
                            if j < i {
                                assert(after[j] == before[j]);
                            }
                        }
                    }
                    assert(kinds@ =~= after.map_values(|c: u32| ValType::of_code(c).unwrap()));
                }
            },
            None => {
                proof {
                    assert(ValType::of_code(codes@[i as int]) is None);
                }
                return None;
            },
        }
        i += 1;
    }
    proof {
        assert(codes@.take(i as int) == codes@);
    }
    Some(kinds)
}

/// The signature of a host function.
#[derive(Debug)]
pub struct FuncType {
    params: Vec<ValType>,
    results: Vec<ValType>,
    registered: bool,
}

impl View for FuncType {
    type V = Signature;

    closed spec fn view(&self) -> Signature {
        Signature { params: self.params@, results: self.results@, registered: self.registered }
    }
}

impl FuncType {
    #[verifier::type_invariant]
    spec fn counts_fit(self) -> bool {
        self.params@.len() <= u32::MAX && self.results@.len() <= u32::MAX
    }

    /// What [`FuncType::create`] makes of two lists of kinds: a signature that
    /// its holder owns, unless a list is longer than a 32-bit count can say.
    pub open spec fn created(args: Seq<ValType>, results: Seq<ValType>) -> Result<
        Signature,
        WasmEdgeError,
    > {
        if args.len() <= u32::MAX && results.len() <= u32::MAX {
            Ok(Signature { params: args, results, registered: false })
        } else {
            Err(WasmEdgeError::FuncTypeCreate)
        }
    }

    /// Creates the signature with the parameter kinds `args` and the return
    /// kinds `results`. Either list may be empty.
    ///
    /// Fails with [`WasmEdgeError::FuncTypeCreate`] when a list has more
    /// entries than the 32-bit counts of the boundary can express.
    pub fn create(args: Vec<ValType>, results: Vec<ValType>) -> (result: Result<
        FuncType,
        WasmEdgeError,
    >)
        ensures
            match result {
                Ok(ty) => FuncType::created(args@, results@) == Ok::<Signature, WasmEdgeError>(ty@),
                Err(e) => FuncType::created(args@, results@) == Err::<Signature, WasmEdgeError>(e),
            },
    {
        if args.len() > 0xFFFF_FFFF || results.len() > 0xFFFF_FFFF {
            return Err(WasmEdgeError::FuncTypeCreate);
        }
        Ok(FuncType { params: args, results, registered: false })
    }

    /// Returns the number of parameters.
    pub fn params_len(&self) -> (n: u32)
        ensures
            n == self@.params.len(),
    {
        proof {
            use_type_invariant(self);
        }
        self.params.len() as u32
    }

    /// Returns the kinds of the parameters, in order.
    pub fn params_type_iter(&self) -> (kinds: Vec<ValType>)
        ensures
            kinds@ == self@.params,
            kinds@.len() <= u32::MAX,
    {
        proof {
            use_type_invariant(self);
        }
        copy_kinds(&self.params)
    }

    /// Returns the number of returns.
    pub fn returns_len(&self) -> (n: u32)
        ensures
            n == self@.results.len(),
    {
        proof {
            use_type_invariant(self);
        }
        self.results.len() as u32
    }

    /// Returns the kinds of the returns, in order.
    pub fn returns_type_iter(&self) -> (kinds: Vec<ValType>)
        ensures
            kinds@ == self@.results,
            kinds@.len() <= u32::MAX,
    {
        proof {
            use_type_invariant(self);
        }
        copy_kinds(&self.results)
    }

    /// Tells whether the runtime, not the holder, owns the signature.
    pub fn registered(&self) -> (registered: bool)
        ensures
            registered == self@.registered,
    {
        self.registered
    }

    /// What [`FuncType::query`] makes of what a runtime reports for the
    /// signature of a function object: a signature that the runtime owns, or
    /// no signature when the runtime reports none or reports a list longer
    /// than a 32-bit count can say.
    pub open spec fn queried(reported: Option<(Seq<ValType>, Seq<ValType>)>) -> Result<
        Signature,
        WasmEdgeError,
    > {
        match reported {
            Some((params, results)) => if params.len() <= u32::MAX && results.len() <= u32::MAX {
                Ok(Signature { params, results, registered: true })
            } else {
                Err(WasmEdgeError::Func(FuncError::Type))
            },
            None => Err(WasmEdgeError::Func(FuncError::Type)),
        }
    }

    /// Settles what a runtime reports when it is asked for the signature of a
    /// function object: the parameter kinds and the return kinds, or nothing.
    /// The signature that comes of it belongs to the runtime.
    ///
    /// Fails with [`FuncError::Type`] when the runtime reports nothing, or a
    /// list with more entries than a 32-bit count can express.
    pub fn query(reported: Option<(Vec<ValType>, Vec<ValType>)>) -> (result: Result<
        FuncType,
        WasmEdgeError,
    >)
        ensures
            match result {
                Ok(ty) => FuncType::queried(reported_view(reported)) == Ok::<
                    Signature,
                    WasmEdgeError,
                >(ty@),
                Err(e) => FuncType::queried(reported_view(reported)) == Err::<
                    Signature,
                    WasmEdgeError,
                >(e),
            },
    {
        match reported {
            Some((params, results)) => {
                if params.len() > 0xFFFF_FFFF || results.len() > 0xFFFF_FFFF {
                    return Err(WasmEdgeError::Func(FuncError::Type));
                }
                Ok(FuncType { params, results, registered: true })
            },
            None => Err(WasmEdgeError::Func(FuncError::Type)),
        }
    }
}

/// What a runtime reports for a signature, as a plain value.
pub open spec fn reported_view(reported: Option<(Vec<ValType>, Vec<ValType>)>) -> Option<
    (Seq<ValType>, Seq<ValType>),
> {
    match reported {
        Some((params, results)) => Some((params@, results@)),
        None => None,
    }
}

/// Returns a list with the same kinds in the same order.
pub(crate) fn copy_kinds(kinds: &Vec<ValType>) -> (copy: Vec<ValType>)
    ensures
        copy@ == kinds@,
{
    let mut copy: Vec<ValType> = Vec::with_capacity(kinds.len());
    let mut i: usize = 0;
    while i < kinds.len()
        invariant
            i <= kinds.len(),
            copy@ == kinds@.take(i as int),
        decreases kinds.len() - i,
    {
        copy.push(kinds[i]);
        proof {
            assert(kinds@.take(i + 1) == kinds@.take(i as int).push(kinds@[i as int]));
        }
        i += 1;
    }
    proof {
        assert(kinds@.take(i as int) == kinds@);
    }
    copy
}

/// Returns the kinds that an optional list of codes describes, or `None` when
/// one of the codes is not the code of any kind.
pub fn understand(list: &Option<Vec<u32>>) -> (kinds: Option<Vec<ValType>>)
    ensures
        match kinds {
            Some(k) => understood(list_view(*list)) == Some(k@),
            None => understood(list_view(*list)) is None,
        },
{
    match list {
        Some(codes) => decode_kinds(codes),
        None => Some(Vec::new()),
    }
}

/// Returns the optional list of codes under which `kinds` is described: `None`
/// for an empty list.
pub fn describe(kinds: &Vec<ValType>) -> (list: Option<Vec<u32>>)
    ensures
        list_view(list) == described(kinds@),
        outside_knows_all(list),
{
    if kinds.len() > 0 {
        let codes = encode_kinds(kinds);
        proof {
            assert forall|i: int| 0 <= i < codes@.len() implies outside_knows(
                #[trigger] codes@[i],
            ) by {
                lemma_code_round_trip(kinds@[i], 0);
            }
        }
        Some(codes)
    } else {
        None
    }
}

impl FuncType {
    /// What [`FuncType::from_types`] makes of the two optional lists of a
    /// description: the signature created from the kinds they describe, or no
    /// signature when a code in them is not the code of any kind.
    pub open spec fn converted(args: Option<Seq<u32>>, results: Option<Seq<u32>>) -> Result<
        Signature,
        WasmEdgeError,
    > {
        match (understood(args), understood(results)) {
            (Some(a), Some(r)) => FuncType::created(a, r),
            _ => Err(WasmEdgeError::FuncTypeCreate),
        }
    }

    /// Creates the signature that a plain description describes. A list that
    /// the description leaves out counts as empty.
    ///
    /// Fails with [`WasmEdgeError::FuncTypeCreate`] when the description names
    /// something that is not one of the kinds of [`ValType`], or when
    /// [`FuncType::create`] fails.
    pub fn from_types(list: &wasmedge_types::FuncType) -> (result: Result<FuncType, WasmEdgeError>)
        ensures
            match result {
                Ok(ty) => FuncType::converted(listed_args(*list), listed_results(*list)) == Ok::<
                    Signature,
                    WasmEdgeError,
                >(ty@),
                Err(e) => FuncType::converted(listed_args(*list), listed_results(*list)) == Err::<
                    Signature,
                    WasmEdgeError,
                >(e),
            },
    {
        let args = lists_args(list);
        let results = lists_results(list);
        match understand(&args) {
            Some(a) => match understand(&results) {
                Some(r) => FuncType::create(a, r),
                None => Err(WasmEdgeError::FuncTypeCreate),
            },
            None => Err(WasmEdgeError::FuncTypeCreate),
        }
    }

    /// Returns the plain description of this signature. An empty list is left
    /// out of it.
    pub fn to_types(&self) -> (list: wasmedge_types::FuncType)
        ensures
            listed_args(list) == described(self@.params),
            listed_results(list) == described(self@.results),
    {
        let args = describe(&self.params);
        let results = describe(&self.results);
        lists_new(args, results)
    }
}

/// The codes of a list of kinds are understood as that very list.
pub proof fn lemma_kinds_round_trip(kinds: Seq<ValType>)
    ensures
        kinds_of(codes_of(kinds)) == Some(kinds),
{
    let codes = codes_of(kinds);
    assert forall|i: int| 0 <= i < codes.len() implies ValType::of_code(#[trigger] codes[i])
        == Some(kinds[i]) by {
        lemma_code_round_trip(kinds[i], 0);
    }
    assert(all_known(codes));
    assert(codes.map_values(|c: u32| ValType::of_code(c).unwrap()) =~= kinds);
}

/// Describing a signature and creating one from the description gives the
/// same kinds in the same order, and a signature that its holder owns. A list
/// that is left out of a description is understood as an empty one is.
pub proof fn lemma_description_round_trip(params: Seq<ValType>, results: Seq<ValType>)
    requires
        params.len() <= u32::MAX,
        results.len() <= u32::MAX,
    ensures
        FuncType::converted(described(params), described(results)) == Ok::<
            Signature,
            WasmEdgeError,
        >(Signature { params, results, registered: false }),
        understood(None) == understood(Some(Seq::<u32>::empty())),
{
    lemma_kinds_round_trip(params);
    lemma_kinds_round_trip(results);
    assert(understood(described(params)) == Some(params)) by {
        if params.len() == 0 {
            assert(params =~= Seq::<ValType>::empty());
        }
    }
    assert(understood(described(results)) == Some(results)) by {
        if results.len() == 0 {
            assert(results =~= Seq::<ValType>::empty());
        }
    }
    assert(kinds_of(Seq::<u32>::empty()) == Some(Seq::<ValType>::empty())) by {
        assert(Seq::<u32>::empty().map_values(|c: u32| ValType::of_code(c).unwrap())
            =~= Seq::<ValType>::empty());
    }
}

/// A signature that was created is read back as it was given: the same kinds
/// in the same order, and counts that are the lengths of the two lists. This
/// holds of every pair of lists whose lengths a 32-bit count can say.
pub proof fn lemma_signature_round_trip(args: Seq<ValType>, results: Seq<ValType>)
    requires
        args.len() <= u32::MAX,
        results.len() <= u32::MAX,
    ensures
        FuncType::created(args, results) is Ok,
        FuncType::created(args, results).unwrap().params == args,
        FuncType::created(args, results).unwrap().results == results,
        FuncType::created(args, results).unwrap().params.len() == args.len(),
        FuncType::created(args, results).unwrap().results.len() == results.len(),
        !FuncType::created(args, results).unwrap().registered,
{
}

} // verus!
