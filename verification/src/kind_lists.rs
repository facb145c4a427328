//! The plain description of a signature that `wasmedge_types` defines, as far
//! as this crate reads and writes it.

use vstd::prelude::*;
use crate::val_type::ValType;
use wasmedge_types::FuncType as KindLists;

verus! {

/// `wasmedge_types::FuncType`, the plain description of a signature: an
/// optional list of parameter kinds and an optional list of return kinds.
#[verifier::external_type_specification]
#[verifier::external_body]
pub struct ExKindLists(KindLists);

/// The wire codes of the kinds that `FuncType::args` of `wasmedge_types` gives
/// for a description, each kind turned into its code by that crate's
/// `From<ValType> for u32`; `None` where `args` gives `None`.
pub uninterp spec fn listed_args(list: KindLists) -> Option<Seq<u32>>;

/// As [`listed_args`], of `FuncType::returns` of `wasmedge_types`.
pub uninterp spec fn listed_results(list: KindLists) -> Option<Seq<u32>>;

/// The code under which `wasmedge_types` says "no kind". It is a code of that
/// crate, and not the code of any [`ValType`].
pub const CODE_NO_KIND: u32 = 0x40;

/// Whether `wasmedge_types` has a kind with this code: the seven kinds of
/// [`ValType`], and the one by which that crate says "no kind".
pub open spec fn outside_knows(code: u32) -> bool {
    ValType::of_code(code) is Some || code == CODE_NO_KIND
}

/// Whether `wasmedge_types` has a kind for every code of an optional list.
pub open spec fn outside_knows_all(list: Option<Vec<u32>>) -> bool {
    match list {
        Some(codes) => forall|i: int| 0 <= i < codes@.len() ==> outside_knows(#[trigger] codes@[i]),
        None => true,
    }
}

/// An optional list of codes as a plain value.
pub open spec fn list_view(list: Option<Vec<u32>>) -> Option<Seq<u32>> {
    match list {
        Some(codes) => Some(codes@),
        None => None,
    }
}

/// Calls `FuncType::new` of `wasmedge_types`, after `ValType::from` of that
/// crate has turned each code into a kind. That conversion panics on a code
/// for which the crate has no kind, which `requires` leaves out. The crate
/// stores the two lists as they are given and hands them out unchanged, and
/// its two code tables are inverse to each other: so the description lists the
/// very codes it was made from.
#[verifier::external_body]
pub(crate) fn lists_new(args: Option<Vec<u32>>, results: Option<Vec<u32>>) -> (list: KindLists)
    requires
        outside_knows_all(args),
        outside_knows_all(results),
    ensures
        listed_args(list) == list_view(args),
        listed_results(list) == list_view(results),
{
    KindLists::new(
        args.map(|a| a.into_iter().map(wasmedge_types::ValType::from).collect()),
        results.map(|r| r.into_iter().map(wasmedge_types::ValType::from).collect()),
    )
}

/// Calls `FuncType::args` of `wasmedge_types` and turns each kind into its
/// code with that crate's `From<ValType> for u32`.
#[verifier::external_body]
pub(crate) fn lists_args(list: &KindLists) -> (codes: Option<Vec<u32>>)
    ensures
        list_view(codes) == listed_args(*list),
{
    list.args().map(|a| a.iter().map(|k| u32::from(*k)).collect())
}

/// Calls `FuncType::returns` of `wasmedge_types` and turns each kind into its
/// code with that crate's `From<ValType> for u32`.
#[verifier::external_body]
pub(crate) fn lists_results(list: &KindLists) -> (codes: Option<Vec<u32>>)
    ensures
        list_view(codes) == listed_results(*list),
{
    list.returns().map(|r| r.iter().map(|k| u32::from(*k)).collect())
}

} // verus!
