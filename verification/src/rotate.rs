//! The Rotate state machine: four rounds that replace the secret shares
//! of an existing master key. A rotation factor outside the acceptable
//! bounds ends the second round with an empty answer and no writes; a
//! verification failure at the last round surfaces an error and leaves
//! the master key untouched.

use vstd::prelude::*;

use crate::artifact::Artifact;
use crate::errors::{required_error_spec, rotation_failed_error, rotation_failed_error_spec};
use crate::keygen::blob_model;
use crate::store::SessionStore;
use crate::types::{Claims, EcdsaStruct};

verus! {

/// First round, after the primitive call: persist the coin-flip
/// commitment.
pub fn rotate_first(
    store: &mut SessionStore,
    claims: &Claims,
    id: &String,
    rotate_commit_message: String,
)
    requires
        old(store).wf(),
    ensures
        final(store).wf(),
        final(store)@ == old(store)@.insert(
            (claims.sub@, id@, EcdsaStruct::RotateCommitMessage1),
            blob_model(EcdsaStruct::RotateCommitMessage1, rotate_commit_message@),
        ),
{
    store.put(
        &claims.sub,
        id,
        &EcdsaStruct::RotateCommitMessage1,
        Artifact::blob_for(&EcdsaStruct::RotateCommitMessage1, rotate_commit_message),
    );
}

/// Second round, before the primitive calls: fetch the coin-flip
/// commitment and the current master key.
pub fn rotate_second_load(store: &SessionStore, claims: &Claims, id: &String) -> (r: Result<
    (String, String),
    String,
>)
    requires
        store.wf(),
    ensures
        match r {
            Ok(parts) => {
                &&& store@.contains_key((claims.sub@, id@, EcdsaStruct::RotateCommitMessage1))
                &&& store@.contains_key((claims.sub@, id@, EcdsaStruct::Party1MasterKey))
                &&& store@[(claims.sub@, id@, EcdsaStruct::RotateCommitMessage1)] == blob_model(
                    EcdsaStruct::RotateCommitMessage1,
                    parts.0@,
                )
                &&& store@[(claims.sub@, id@, EcdsaStruct::Party1MasterKey)] == blob_model(
                    EcdsaStruct::Party1MasterKey,
                    parts.1@,
                )
            },
            Err(e) => {
                if !store@.contains_key((claims.sub@, id@, EcdsaStruct::RotateCommitMessage1)) {
                    e@ == required_error_spec(
                        EcdsaStruct::RotateCommitMessage1,
                        claims.sub@,
                        id@,
                    )
                } else {
                    &&& !store@.contains_key((claims.sub@, id@, EcdsaStruct::Party1MasterKey))
                    &&& e@ == required_error_spec(
                        EcdsaStruct::Party1MasterKey,
                        claims.sub@,
                        id@,
                    )
                }
            },
        },
{
    proof {
        store.lemma_typed();
    }
    let rotate_commit_message = match store.get_required(
        &claims.sub,
        id,
        &EcdsaStruct::RotateCommitMessage1,
    ) {
        Ok(a) => match a.cast_blob(&EcdsaStruct::RotateCommitMessage1) {
            Ok(d) => d.clone(),
            Err(e) => {
                return Err(e);
            },
        },
        Err(e) => {
            return Err(e);
        },
    };
    let master_key = match store.get_required(&claims.sub, id, &EcdsaStruct::Party1MasterKey) {
        Ok(a) => match a.cast_blob(&EcdsaStruct::Party1MasterKey) {
            Ok(d) => d.clone(),
            Err(e) => {
                return Err(e);
            },
        },
        Err(e) => {
            return Err(e);
        },
    };
    Ok((rotate_commit_message, master_key))
}

/// The outputs of the second-round primitives, serialized; absent when
/// the rotation factor failed the bound check.
pub struct RotateSecondOutputs {
    pub random1: String,
    pub rotation_first_msg: String,
    pub private_new: String,
}

/// Second round, after the primitive calls: a rotation factor outside
/// the acceptable bounds answers with nothing and persists nothing —
/// the one success-shaped abort of the protocol; otherwise persist the
/// coin-flip randomness, the first rotation message, and the new
/// private share.
pub fn rotate_second_decide(
    store: &mut SessionStore,
    claims: &Claims,
    id: &String,
    outcome: Option<RotateSecondOutputs>,
) -> (r: Option<()>)
    requires
        old(store).wf(),
    ensures
        final(store).wf(),
        match outcome {
            None => r is None && final(store)@ == old(store)@,
            Some(out) => {
                &&& r is Some
                &&& final(store)@ == old(store)@.insert(
                    (claims.sub@, id@, EcdsaStruct::RotateRandom1),
                    blob_model(EcdsaStruct::RotateRandom1, out.random1@),
                ).insert(
                    (claims.sub@, id@, EcdsaStruct::RotateFirstMsg),
                    blob_model(EcdsaStruct::RotateFirstMsg, out.rotation_first_msg@),
                ).insert(
                    (claims.sub@, id@, EcdsaStruct::RotatePrivateNew),
                    blob_model(EcdsaStruct::RotatePrivateNew, out.private_new@),
                )
            },
        },
{
    match outcome {
        None => None,
        Some(out) => {
            store.put(
                &claims.sub,
                id,
                &EcdsaStruct::RotateRandom1,
                Artifact::blob_for(&EcdsaStruct::RotateRandom1, out.random1),
            );
            store.put(
                &claims.sub,
                id,
                &EcdsaStruct::RotateFirstMsg,
                Artifact::blob_for(&EcdsaStruct::RotateFirstMsg, out.rotation_first_msg),
            );
            store.put(
                &claims.sub,
                id,
                &EcdsaStruct::RotatePrivateNew,
                Artifact::blob_for(&EcdsaStruct::RotatePrivateNew, out.private_new),
            );
            Some(())
        },
    }
}

/// Third round, before the primitive call: fetch the new private share
/// the second round persisted.
pub fn rotate_third_load(store: &SessionStore, claims: &Claims, id: &String) -> (r: Result<
    String,
    String,
>)
    requires
        store.wf(),
    ensures
        match r {
            Ok(d) => {
                &&& store@.contains_key((claims.sub@, id@, EcdsaStruct::RotatePrivateNew))
                &&& store@[(claims.sub@, id@, EcdsaStruct::RotatePrivateNew)] == blob_model(
                    EcdsaStruct::RotatePrivateNew,
                    d@,
                )
            },
            Err(e) => {
                &&& !store@.contains_key((claims.sub@, id@, EcdsaStruct::RotatePrivateNew))
                &&& e@ == required_error_spec(EcdsaStruct::RotatePrivateNew, claims.sub@, id@)
            },
        },
{
    proof {
        store.lemma_typed();
    }
    match store.get_required(&claims.sub, id, &EcdsaStruct::RotatePrivateNew) {
        Ok(a) => match a.cast_blob(&EcdsaStruct::RotatePrivateNew) {
            Ok(d) => Ok(d.clone()),
            Err(e) => Err(e),
        },
        Err(e) => Err(e),
    }
}

/// Third round, after the primitive call: persist the alpha value, the
/// PDL decommitment, party two's first message, and party one's second
/// message.
pub fn rotate_third_commit(
    store: &mut SessionStore,
    claims: &Claims,
    id: &String,
    alpha: String,
    pdl_decommit: String,
    rotation_party_two_first: String,
    rotation_party_one_second: String,
)
    requires
        old(store).wf(),
    ensures
        final(store).wf(),
        final(store)@ == old(store)@.insert(
            (claims.sub@, id@, EcdsaStruct::RotateAlpha),
            blob_model(EcdsaStruct::RotateAlpha, alpha@),
        ).insert(
            (claims.sub@, id@, EcdsaStruct::RotatePdlDecom),
            blob_model(EcdsaStruct::RotatePdlDecom, pdl_decommit@),
        ).insert(
            (claims.sub@, id@, EcdsaStruct::RotateParty2First),
            blob_model(EcdsaStruct::RotateParty2First, rotation_party_two_first@),
        ).insert(
            (claims.sub@, id@, EcdsaStruct::RotateParty1Second),
            blob_model(EcdsaStruct::RotateParty1Second, rotation_party_one_second@),
        ),
{
    store.put(
        &claims.sub,
        id,
        &EcdsaStruct::RotateAlpha,
        Artifact::blob_for(&EcdsaStruct::RotateAlpha, alpha),
    );
    store.put(
        &claims.sub,
        id,
        &EcdsaStruct::RotatePdlDecom,
        Artifact::blob_for(&EcdsaStruct::RotatePdlDecom, pdl_decommit),
    );
    store.put(
        &claims.sub,
        id,
        &EcdsaStruct::RotateParty2First,
        Artifact::blob_for(&EcdsaStruct::RotateParty2First, rotation_party_two_first),
    );
    store.put(
        &claims.sub,
        id,
        &EcdsaStruct::RotateParty1Second,
        Artifact::blob_for(&EcdsaStruct::RotateParty1Second, rotation_party_one_second),
    );
}

/// What the final rotation round consumes, fetched from the store.
pub struct RotateForthInputs {
    pub rotation_first_msg: String,
    pub private_new: String,
    pub random1: String,
    pub rotation_party_two_first: String,
    pub alpha: String,
    pub pdl_decommit: String,
    pub master_key: String,
}

/// Fourth round, before the primitive call: fetch everything the final
/// rotation verification consumes.
pub fn rotate_forth_load(store: &SessionStore, claims: &Claims, id: &String) -> (r: Result<
    RotateForthInputs,
    String,
>)
    requires
        store.wf(),
    ensures
        match r {
            Ok(inp) => {
                &&& store@.contains_key((claims.sub@, id@, EcdsaStruct::RotateFirstMsg))
                &&& store@.contains_key((claims.sub@, id@, EcdsaStruct::RotatePrivateNew))
                &&& store@.contains_key((claims.sub@, id@, EcdsaStruct::RotateRandom1))
                &&& store@.contains_key((claims.sub@, id@, EcdsaStruct::RotateParty2First))
                &&& store@.contains_key((claims.sub@, id@, EcdsaStruct::RotateAlpha))
                &&& store@.contains_key((claims.sub@, id@, EcdsaStruct::RotatePdlDecom))
                &&& store@.contains_key((claims.sub@, id@, EcdsaStruct::Party1MasterKey))
                &&& store@[(claims.sub@, id@, EcdsaStruct::RotateFirstMsg)] == blob_model(
                    EcdsaStruct::RotateFirstMsg,
                    inp.rotation_first_msg@,
                )
                &&& store@[(claims.sub@, id@, EcdsaStruct::RotatePrivateNew)] == blob_model(
                    EcdsaStruct::RotatePrivateNew,
                    inp.private_new@,
                )
                &&& store@[(claims.sub@, id@, EcdsaStruct::RotateRandom1)] == blob_model(
                    EcdsaStruct::RotateRandom1,
                    inp.random1@,
                )
                &&& store@[(claims.sub@, id@, EcdsaStruct::RotateParty2First)] == blob_model(
                    EcdsaStruct::RotateParty2First,
                    inp.rotation_party_two_first@,
                )
                &&& store@[(claims.sub@, id@, EcdsaStruct::RotateAlpha)] == blob_model(
                    EcdsaStruct::RotateAlpha,
                    inp.alpha@,
                )
                &&& store@[(claims.sub@, id@, EcdsaStruct::RotatePdlDecom)] == blob_model(
                    EcdsaStruct::RotatePdlDecom,
                    inp.pdl_decommit@,
                )
                &&& store@[(claims.sub@, id@, EcdsaStruct::Party1MasterKey)] == blob_model(
                    EcdsaStruct::Party1MasterKey,
                    inp.master_key@,
                )
            },
            Err(e) => {
                if !store@.contains_key((claims.sub@, id@, EcdsaStruct::RotateFirstMsg)) {
                    e@ == required_error_spec(EcdsaStruct::RotateFirstMsg, claims.sub@, id@)
                } else if !store@.contains_key(
                    (claims.sub@, id@, EcdsaStruct::RotatePrivateNew),
                ) {
                    e@ == required_error_spec(EcdsaStruct::RotatePrivateNew, claims.sub@, id@)
                } else if !store@.contains_key((claims.sub@, id@, EcdsaStruct::RotateRandom1)) {
                    e@ == required_error_spec(EcdsaStruct::RotateRandom1, claims.sub@, id@)
                } else if !store@.contains_key(
                    (claims.sub@, id@, EcdsaStruct::RotateParty2First),
                ) {
                    e@ == required_error_spec(EcdsaStruct::RotateParty2First, claims.sub@, id@)
                } else if !store@.contains_key((claims.sub@, id@, EcdsaStruct::RotateAlpha)) {
                    e@ == required_error_spec(EcdsaStruct::RotateAlpha, claims.sub@, id@)
                } else if !store@.contains_key((claims.sub@, id@, EcdsaStruct::RotatePdlDecom)) {
                    e@ == required_error_spec(EcdsaStruct::RotatePdlDecom, claims.sub@, id@)
                } else {
                    &&& !store@.contains_key((claims.sub@, id@, EcdsaStruct::Party1MasterKey))
                    &&& e@ == required_error_spec(
                        EcdsaStruct::Party1MasterKey,
                        claims.sub@,
                        id@,
                    )
                }
            },
        },
{
    proof {
        store.lemma_typed();
    }
    let rotation_first_msg = match store.get_required(&claims.sub, id, &EcdsaStruct::RotateFirstMsg)
        {
        Ok(a) => match a.cast_blob(&EcdsaStruct::RotateFirstMsg) {
            Ok(d) => d.clone(),
            Err(e) => {
                return Err(e);
            },
        },
        Err(e) => {
            return Err(e);
        },
    };
    let private_new = match store.get_required(&claims.sub, id, &EcdsaStruct::RotatePrivateNew) {
        Ok(a) => match a.cast_blob(&EcdsaStruct::RotatePrivateNew) {
            Ok(d) => d.clone(),
            Err(e) => {
                return Err(e);
            },
        },
        Err(e) => {
            return Err(e);
        },
    };
    let random1 = match store.get_required(&claims.sub, id, &EcdsaStruct::RotateRandom1) {
        Ok(a) => match a.cast_blob(&EcdsaStruct::RotateRandom1) {
            Ok(d) => d.clone(),
            Err(e) => {
                return Err(e);
            },
        },
        Err(e) => {
            return Err(e);
        },
    };
    let rotation_party_two_first = match store.get_required(
        &claims.sub,
        id,
        &EcdsaStruct::RotateParty2First,
    ) {
        Ok(a) => match a.cast_blob(&EcdsaStruct::RotateParty2First) {
            Ok(d) => d.clone(),
            Err(e) => {
                return Err(e);
            },
        },
        Err(e) => {
            return Err(e);
        },
    };
    let alpha = match store.get_required(&claims.sub, id, &EcdsaStruct::RotateAlpha) {
        Ok(a) => match a.cast_blob(&EcdsaStruct::RotateAlpha) {
            Ok(d) => d.clone(),
            Err(e) => {
                return Err(e);
            },
        },
        Err(e) => {
            return Err(e);
        },
    };
    let pdl_decommit = match store.get_required(&claims.sub, id, &EcdsaStruct::RotatePdlDecom) {
        Ok(a) => match a.cast_blob(&EcdsaStruct::RotatePdlDecom) {
            Ok(d) => d.clone(),
            Err(e) => {
                return Err(e);
            },
        },
        Err(e) => {
            return Err(e);
        },
    };
    let master_key = match store.get_required(&claims.sub, id, &EcdsaStruct::Party1MasterKey) {
        Ok(a) => match a.cast_blob(&EcdsaStruct::Party1MasterKey) {
            Ok(d) => d.clone(),
            Err(e) => {
                return Err(e);
            },
        },
        Err(e) => {
            return Err(e);
        },
    };
    Ok(
        RotateForthInputs {
            rotation_first_msg,
            private_new,
            random1,
            rotation_party_two_first,
            alpha,
            pdl_decommit,
            master_key,
        },
    )
}

/// Fourth round, after the primitive call: on success, overwrite the
/// master key with the rotated one; on a verification failure, surface
/// the rotation error and leave every slot untouched.
pub fn rotate_forth_finish(
    store: &mut SessionStore,
    claims: &Claims,
    id: &String,
    rotated_master_key: Option<String>,
) -> (r: Result<(), String>)
    requires
        old(store).wf(),
    ensures
        final(store).wf(),
        match r {
            Ok(_) => {
                &&& rotated_master_key matches Some(m) && final(store)@ == old(store)@.insert(
                    (claims.sub@, id@, EcdsaStruct::Party1MasterKey),
                    blob_model(EcdsaStruct::Party1MasterKey, m@),
                )
            },
            Err(e) => {
                &&& rotated_master_key is None
                &&& e@ == rotation_failed_error_spec(claims.sub@, id@)
                &&& final(store)@ == old(store)@
            },
        },
{
    match rotated_master_key {
        Some(m) => {
            store.put(
                &claims.sub,
                id,
                &EcdsaStruct::Party1MasterKey,
                Artifact::blob_for(&EcdsaStruct::Party1MasterKey, m),
            );
            Ok(())
        },
        None => Err(rotation_failed_error(&claims.sub, id)),
    }
}

} // verus!
