//! Non-interactive key derivation: fetch the persisted master key so
//! the caller can apply BIP32-style child derivation to it. The store
//! is never mutated.

use vstd::prelude::*;

use crate::errors::required_error_spec;
use crate::keygen::blob_model;
use crate::store::SessionStore;
use crate::types::{Claims, EcdsaStruct};

verus! {

/// Fetches the master key for `(customer_id, id)`; the derived child
/// key is computed by the caller and never persisted.
pub fn first(store: &SessionStore, claims: &Claims, id: &String) -> (r: Result<String, String>)
    requires
        store.wf(),
    ensures
        match r {
            Ok(d) => {
                &&& store@.contains_key((claims.sub@, id@, EcdsaStruct::Party1MasterKey))
                &&& store@[(claims.sub@, id@, EcdsaStruct::Party1MasterKey)] == blob_model(
                    EcdsaStruct::Party1MasterKey,
                    d@,
                )
            },
            Err(e) => {
                &&& !store@.contains_key((claims.sub@, id@, EcdsaStruct::Party1MasterKey))
                &&& e@ == required_error_spec(EcdsaStruct::Party1MasterKey, claims.sub@, id@)
            },
        },
{
    proof {
        store.lemma_typed();
    }
    match store.get_required(&claims.sub, id, &EcdsaStruct::Party1MasterKey) {
        Ok(a) => match a.cast_blob(&EcdsaStruct::Party1MasterKey) {
            Ok(d) => Ok(d.clone()),
            Err(e) => Err(e),
        },
        Err(e) => Err(e),
    }
}

} // verus!
