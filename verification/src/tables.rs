//! The concurrent hash map that holds the registries' tables.
use vstd::prelude::*;
use dashmap::DashMap;

verus! {

/// `dashmap::DashMap` is opaque to verification; each table that uses it names
/// its contents and reaches it through wrappers with contracts.
#[verifier::external_type_specification]
#[verifier::external_body]
#[verifier::reject_recursive_types(K)]
#[verifier::reject_recursive_types(V)]
#[verifier::reject_recursive_types(S)]
pub struct ExDashMap<K, V, S>(DashMap<K, V, S>);

} // verus!
