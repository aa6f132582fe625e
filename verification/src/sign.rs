//! The Sign state machine: the two same-session rounds, and the
//! cross-session variant whose ephemeral artifacts live in the scratch
//! store under a freshly minted `ssid`. A signature verification failure
//! taints the session before the error is surfaced, and a tainted
//! session refuses any further first round.

use vstd::prelude::*;

use crate::artifact::{Abort, Artifact, ArtifactModel};
use crate::errors::{
    blocked_error, blocked_error_spec, required_error_spec, scratch_missing_error,
    scratch_missing_error_spec, sign_failed_error, sign_failed_error_spec, sign_failed_ssid_error,
    sign_failed_ssid_error_spec, ssid_shape_error_spec, unauthorized_error,
    unauthorized_error_spec, unauthorized_ssid_error, unauthorized_ssid_error_spec,
};
use crate::ids::{count_char, fresh_uuid, lemma_uuid_comma_free, ssid_id, ssid_of, ssid_parse, ssid_sid};
use crate::keygen::blob_model;
use crate::scratch::ScratchStore;
use crate::store::{SessionStore, abort_blocked_spec};
use crate::types::{Claims, EcdsaStruct, idify, idify_spec};

verus! {

/// The per-message transaction-authorization decision: a sign round
/// stops here exactly when the gates are on and the answer came back
/// `Ok(false)`; an answer that is an error does not stop the round.
pub open spec fn tx_denied_spec(redis_env: bool, granted: Result<bool, String>) -> bool {
    redis_env && granted matches Ok(false)
}

/// First same-session round: refuse a tainted session, then persist
/// party two's ephemeral first message and party one's ephemeral key
/// pair.
pub fn sign_first(
    store: &mut SessionStore,
    claims: &Claims,
    id: &String,
    eph_key_gen_first_message_party_two: String,
    eph_ec_key_pair: String,
) -> (r: Result<(), String>)
    requires
        old(store).wf(),
    ensures
        final(store).wf(),
        match r {
            Ok(_) => {
                &&& !abort_blocked_spec(old(store)@, claims.sub@, id@)
                &&& final(store)@ == old(store)@.insert(
                    (claims.sub@, id@, EcdsaStruct::EphKeyGenFirstMsg),
                    blob_model(
                        EcdsaStruct::EphKeyGenFirstMsg,
                        eph_key_gen_first_message_party_two@,
                    ),
                ).insert(
                    (claims.sub@, id@, EcdsaStruct::EphEcKeyPair),
                    blob_model(EcdsaStruct::EphEcKeyPair, eph_ec_key_pair@),
                )
            },
            Err(e) => {
                &&& abort_blocked_spec(old(store)@, claims.sub@, id@)
                &&& e@ == blocked_error_spec(claims.sub@)
                &&& final(store)@ == old(store)@
            },
        },
{
    if store.is_blocked(&claims.sub, id) {
        return Err(blocked_error(&claims.sub));
    }
    store.put(
        &claims.sub,
        id,
        &EcdsaStruct::EphKeyGenFirstMsg,
        Artifact::blob_for(&EcdsaStruct::EphKeyGenFirstMsg, eph_key_gen_first_message_party_two),
    );
    store.put(
        &claims.sub,
        id,
        &EcdsaStruct::EphEcKeyPair,
        Artifact::blob_for(&EcdsaStruct::EphEcKeyPair, eph_ec_key_pair),
    );
    Ok(())
}

/// What the same-session signature primitive consumes, fetched from the
/// store.
pub struct SignSecondInputs {
    pub master_key: String,
    pub eph_ec_key_pair: String,
    pub eph_key_gen_first_msg: String,
}

/// Second same-session round, before the primitive call: consult the
/// transaction-authorization gate, then fetch the master key and the
/// ephemeral artifacts the first round persisted.
pub fn sign_second_load(
    store: &SessionStore,
    claims: &Claims,
    id: &String,
    redis_env: bool,
    granted: Result<bool, String>,
) -> (r: Result<SignSecondInputs, String>)
    requires
        store.wf(),
    ensures
        match r {
            Ok(inp) => {
                &&& !tx_denied_spec(redis_env, granted)
                &&& store@.contains_key((claims.sub@, id@, EcdsaStruct::Party1MasterKey))
                &&& store@.contains_key((claims.sub@, id@, EcdsaStruct::EphEcKeyPair))
                &&& store@.contains_key((claims.sub@, id@, EcdsaStruct::EphKeyGenFirstMsg))
                &&& store@[(claims.sub@, id@, EcdsaStruct::Party1MasterKey)] == blob_model(
                    EcdsaStruct::Party1MasterKey,
                    inp.master_key@,
                )
                &&& store@[(claims.sub@, id@, EcdsaStruct::EphEcKeyPair)] == blob_model(
                    EcdsaStruct::EphEcKeyPair,
                    inp.eph_ec_key_pair@,
                )
                &&& store@[(claims.sub@, id@, EcdsaStruct::EphKeyGenFirstMsg)] == blob_model(
                    EcdsaStruct::EphKeyGenFirstMsg,
                    inp.eph_key_gen_first_msg@,
                )
            },
            Err(e) => {
                if tx_denied_spec(redis_env, granted) {
                    e@ == unauthorized_error_spec(claims.sub@, id@)
                } else if !store@.contains_key(
                    (claims.sub@, id@, EcdsaStruct::Party1MasterKey),
                ) {
                    e@ == required_error_spec(EcdsaStruct::Party1MasterKey, claims.sub@, id@)
                } else if !store@.contains_key(
                    (claims.sub@, id@, EcdsaStruct::EphKeyGenFirstMsg),
                ) {
                    e@ == required_error_spec(EcdsaStruct::EphKeyGenFirstMsg, claims.sub@, id@)
                } else {
                    &&& !store@.contains_key((claims.sub@, id@, EcdsaStruct::EphEcKeyPair))
                    &&& e@ == required_error_spec(EcdsaStruct::EphEcKeyPair, claims.sub@, id@)
                }
            },
        },
{
    if redis_env {
        if let Ok(g) = &granted {
            if !*g {
                return Err(unauthorized_error(&claims.sub, id));
            }
        }
    }
    proof {
        store.lemma_typed();
    }
    let master_key = match store.get_required(&claims.sub, id, &EcdsaStruct::Party1MasterKey) {
        Ok(a) => match a.cast_blob(&EcdsaStruct::Party1MasterKey) {
            Ok(d) => d.clone(),
            Err(e) => {
                return Err(e);
            },
        },
        Err(e) => {
            return Err(e);
        },
    };
    let eph_key_gen_first_msg = match store.get_required(
        &claims.sub,
        id,
        &EcdsaStruct::EphKeyGenFirstMsg,
    ) {
        Ok(a) => match a.cast_blob(&EcdsaStruct::EphKeyGenFirstMsg) {
            Ok(d) => d.clone(),
            Err(e) => {
                return Err(e);
            },
        },
        Err(e) => {
            return Err(e);
        },
    };
    let eph_ec_key_pair = match store.get_required(&claims.sub, id, &EcdsaStruct::EphEcKeyPair) {
        Ok(a) => match a.cast_blob(&EcdsaStruct::EphEcKeyPair) {
            Ok(d) => d.clone(),
            Err(e) => {
                return Err(e);
            },
        },
        Err(e) => {
            return Err(e);
        },
    };
    Ok(SignSecondInputs { master_key, eph_ec_key_pair, eph_key_gen_first_msg })
}

/// Second same-session round, after the primitive call: pass a
/// signature through untouched; on a verification failure, taint the
/// session before surfacing the error.
pub fn sign_second_finish(
    store: &mut SessionStore,
    claims: &Claims,
    id: &String,
    signature: Option<String>,
) -> (r: Result<String, String>)
    requires
        old(store).wf(),
    ensures
        final(store).wf(),
        match r {
            Ok(sig) => {
                &&& signature matches Some(s) && sig == s
                &&& final(store)@ == old(store)@
            },
            Err(e) => {
                &&& signature is None
                &&& e@ == sign_failed_error_spec(claims.sub@, id@)
                &&& final(store)@ == old(store)@.insert(
                    (claims.sub@, id@, EcdsaStruct::Abort),
                    ArtifactModel::Abort { blocked: true },
                )
                &&& abort_blocked_spec(final(store)@, claims.sub@, id@)
            },
        },
{
    match signature {
        Some(sig) => Ok(sig),
        None => {
            store.put(&claims.sub, id, &EcdsaStruct::Abort, Artifact::Abort(Abort { blocked: true }));
            Err(sign_failed_error(&claims.sub, id))
        },
    }
}

/// First cross-session round: refuse a tainted session, mint a fresh
/// sub-session id, and write both ephemeral artifacts to the scratch
/// store under `customer_id + "_" + ssid + "_" + tag`.
pub fn sign_first_v2(
    store: &SessionStore,
    scratch: &mut ScratchStore,
    claims: &Claims,
    id: &String,
    eph_key_gen_first_message_party_two: String,
    eph_ec_key_pair: String,
) -> (r: Result<String, String>)
    requires
        store.wf(),
        old(scratch).wf(),
    ensures
        final(scratch).wf(),
        match r {
            Ok(ssid) => {
                &&& !abort_blocked_spec(store@, claims.sub@, id@)
                &&& ssid@.len() == id@.len() + 37
                &&& ssid@.take(id@.len() as int) == id@
                &&& ssid@[id@.len() as int] == ','
                &&& count_char(ssid@, ',') == count_char(id@, ',') + 1
                &&& count_char(id@, ',') == 0 ==> (count_char(ssid@, ',') == 1 && ssid_id(ssid@)
                    == id@)
                &&& final(scratch)@ == old(scratch)@.insert(
                    idify_spec(claims.sub@, ssid@, EcdsaStruct::EphKeyGenFirstMsg),
                    eph_key_gen_first_message_party_two@,
                ).insert(
                    idify_spec(claims.sub@, ssid@, EcdsaStruct::EphEcKeyPair),
                    eph_ec_key_pair@,
                )
            },
            Err(e) => {
                &&& abort_blocked_spec(store@, claims.sub@, id@)
                &&& e@ == blocked_error_spec(claims.sub@)
                &&& final(scratch)@ == old(scratch)@
            },
        },
{
    if store.is_blocked(&claims.sub, id) {
        return Err(blocked_error(&claims.sub));
    }
    let sid = fresh_uuid();
    let ssid = ssid_of(id, &sid);
    proof {
        reveal_strlit(",");
        lemma_uuid_comma_free(sid@);
        crate::ids::lemma_count_concat(id@ + ","@, sid@, ',');
        crate::ids::lemma_count_concat(id@, ","@, ',');
        crate::ids::lemma_count_single_comma();
        assert(","@.len() == 1);
        assert(id@ + ","@ + sid@ =~= ssid@);
        assert(ssid@.take(id@.len() as int) =~= id@);
        if count_char(id@, ',') == 0 {
            crate::laws::lemma_ssid_round_trip(id@, sid@);
        }
    }
    let key1 = idify(&claims.sub, &ssid, &EcdsaStruct::EphKeyGenFirstMsg);
    scratch.set(&key1, &eph_key_gen_first_message_party_two);
    let key2 = idify(&claims.sub, &ssid, &EcdsaStruct::EphEcKeyPair);
    scratch.set(&key2, &eph_ec_key_pair);
    Ok(ssid)
}

/// What the cross-session signature primitive consumes.
pub struct SignSecondV2Inputs {
    /// The session id recovered from the `ssid`.
    pub id: String,
    /// The sub-session id recovered from the `ssid`.
    pub sid: String,
    pub master_key: String,
    pub eph_ec_key_pair: String,
    pub eph_key_gen_first_msg: String,
}

/// Second cross-session round, before the primitive call: consult the
/// transaction-authorization gate, recover `(id, sid)` from the `ssid`,
/// fetch the master key for the session, then take both ephemeral
/// artifacts out of the scratch store, deleting them whatever the
/// signature outcome will be.
pub fn sign_second_v2_load(
    store: &SessionStore,
    scratch: &mut ScratchStore,
    claims: &Claims,
    ssid: &String,
    redis_env: bool,
    granted: Result<bool, String>,
) -> (r: Result<SignSecondV2Inputs, String>)
    requires
        store.wf(),
        old(scratch).wf(),
    ensures
        final(scratch).wf(),
        match r {
            Ok(inp) => {
                &&& !tx_denied_spec(redis_env, granted)
                &&& count_char(ssid@, ',') == 1
                &&& inp.id@ == ssid_id(ssid@)
                &&& inp.sid@ == ssid_sid(ssid@)
                &&& store@.contains_key((claims.sub@, inp.id@, EcdsaStruct::Party1MasterKey))
                &&& store@[(claims.sub@, inp.id@, EcdsaStruct::Party1MasterKey)] == blob_model(
                    EcdsaStruct::Party1MasterKey,
                    inp.master_key@,
                )
                &&& old(scratch)@.contains_key(
                    idify_spec(claims.sub@, ssid@, EcdsaStruct::EphEcKeyPair),
                )
                &&& old(scratch)@.contains_key(
                    idify_spec(claims.sub@, ssid@, EcdsaStruct::EphKeyGenFirstMsg),
                )
                &&& inp.eph_ec_key_pair@ == old(scratch)@[idify_spec(
                    claims.sub@,
                    ssid@,
                    EcdsaStruct::EphEcKeyPair,
                )]
                &&& inp.eph_key_gen_first_msg@ == old(scratch)@[idify_spec(
                    claims.sub@,
                    ssid@,
                    EcdsaStruct::EphKeyGenFirstMsg,
                )]
                &&& final(scratch)@ == old(scratch)@.remove(
                    idify_spec(claims.sub@, ssid@, EcdsaStruct::EphEcKeyPair),
                ).remove(idify_spec(claims.sub@, ssid@, EcdsaStruct::EphKeyGenFirstMsg))
            },
            Err(e) => {
                if tx_denied_spec(redis_env, granted) {
                    e@ == unauthorized_ssid_error_spec(ssid@) && final(scratch)@ == old(scratch)@
                } else if count_char(ssid@, ',') != 1 {
                    e@ == ssid_shape_error_spec() && final(scratch)@ == old(scratch)@
                } else if !store@.contains_key(
                    (claims.sub@, ssid_id(ssid@), EcdsaStruct::Party1MasterKey),
                ) {
                    &&& e@ == required_error_spec(
                        EcdsaStruct::Party1MasterKey,
                        claims.sub@,
                        ssid_id(ssid@),
                    )
                    &&& final(scratch)@ == old(scratch)@
                } else if !old(scratch)@.contains_key(
                    idify_spec(claims.sub@, ssid@, EcdsaStruct::EphEcKeyPair),
                ) {
                    &&& e@ == scratch_missing_error_spec(
                        idify_spec(claims.sub@, ssid@, EcdsaStruct::EphEcKeyPair),
                    )
                    &&& final(scratch)@ == old(scratch)@
                } else {
                    &&& !old(scratch)@.contains_key(
                        idify_spec(claims.sub@, ssid@, EcdsaStruct::EphKeyGenFirstMsg),
                    )
                    &&& e@ == scratch_missing_error_spec(
                        idify_spec(claims.sub@, ssid@, EcdsaStruct::EphKeyGenFirstMsg),
                    )
                    &&& final(scratch)@ == old(scratch)@
                }
            },
        },
{
    if redis_env {
        if let Ok(g) = &granted {
            if !*g {
                return Err(unauthorized_ssid_error(ssid));
            }
        }
    }
    let (id, sid) = match ssid_parse(ssid) {
        Ok(parts) => parts,
        Err(e) => {
            return Err(e);
        },
    };
    proof {
        store.lemma_typed();
    }
    let master_key = match store.get_required(&claims.sub, &id, &EcdsaStruct::Party1MasterKey) {
        Ok(a) => match a.cast_blob(&EcdsaStruct::Party1MasterKey) {
            Ok(d) => d.clone(),
            Err(e) => {
                return Err(e);
            },
        },
        Err(e) => {
            return Err(e);
        },
    };
    let key1 = idify(&claims.sub, ssid, &EcdsaStruct::EphEcKeyPair);
    let eph_ec_key_pair = match scratch.get(&key1) {
        Some(v) => v.clone(),
        None => {
            return Err(scratch_missing_error(&key1));
        },
    };
    let key2 = idify(&claims.sub, ssid, &EcdsaStruct::EphKeyGenFirstMsg);
    let eph_key_gen_first_msg = match scratch.get(&key2) {
        Some(v) => v.clone(),
        None => {
            return Err(scratch_missing_error(&key2));
        },
    };
    scratch.del(&key1);
    scratch.del(&key2);
    Ok(SignSecondV2Inputs { id, sid, master_key, eph_ec_key_pair, eph_key_gen_first_msg })
}

/// Second cross-session round, after the primitive call: pass a
/// signature through untouched; on a verification failure, taint the
/// session named inside the `ssid` before surfacing the error.
pub fn sign_second_v2_finish(
    store: &mut SessionStore,
    claims: &Claims,
    ssid: &String,
    id: &String,
    sid: &String,
    signature: Option<String>,
) -> (r: Result<String, String>)
    requires
        old(store).wf(),
    ensures
        final(store).wf(),
        match r {
            Ok(sig) => {
                &&& signature matches Some(s) && sig == s
                &&& final(store)@ == old(store)@
            },
            Err(e) => {
                &&& signature is None
                &&& e@ == sign_failed_ssid_error_spec(claims.sub@, ssid@, id@, sid@)
                &&& final(store)@ == old(store)@.insert(
                    (claims.sub@, id@, EcdsaStruct::Abort),
                    ArtifactModel::Abort { blocked: true },
                )
                &&& abort_blocked_spec(final(store)@, claims.sub@, id@)
            },
        },
{
    match signature {
        Some(sig) => Ok(sig),
        None => {
            store.put(&claims.sub, id, &EcdsaStruct::Abort, Artifact::Abort(Abort { blocked: true }));
            Err(sign_failed_ssid_error(&claims.sub, ssid, id, sid))
        },
    }
}

} // verus!
