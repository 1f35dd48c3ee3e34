use vstd::prelude::*;

verus! {

/// `indexmap::IndexMap`, a map that keeps its keys in insertion order. Its
/// values are carried through this library, never inspected.
#[verifier::external_type_specification]
#[verifier::external_body]
#[verifier::reject_recursive_types(K)]
#[verifier::reject_recursive_types(V)]
#[verifier::reject_recursive_types(S)]
pub struct ExIndexMap<K, V, S>(indexmap::IndexMap<K, V, S>);

} // verus!
