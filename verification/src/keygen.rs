//! The KeyGen state machine: six rounds that take a session from nothing
//! to a persisted master-key share. Each round checks its gates, reads
//! the artifacts earlier rounds must have persisted, hands them to the
//! caller for the cryptographic primitive call, and persists the
//! primitive's outputs; a round whose precondition is missing reports
//! exactly which artifact is required and writes nothing further.

use vstd::prelude::*;

use crate::artifact::{Abort, Artifact, ArtifactModel, HdPos};
use crate::errors::{active_share_error, active_share_error_spec, required_error_spec};
use crate::ids::{count_char, fresh_uuid, lemma_uuid_comma_free};
use crate::store::{SessionStore, has_active_share_spec};
use crate::types::{Claims, EcdsaStruct, struct_name_of};

verus! {

/// The environment-driven gate switches, read once at process start.
pub struct GateConfig {
    /// Whether the active-share and transaction-authorization gates are
    /// enabled.
    pub redis_env: bool,
    /// The value of the flag that turns an existing active share into a
    /// KeyGen refusal, when the flag is set.
    pub fail_keygen_if_active_share: Option<String>,
}

/// The model of a serialized artifact stored under `tag`.
pub open spec fn blob_model(tag: EcdsaStruct, data: Seq<char>) -> ArtifactModel {
    ArtifactModel::Blob { struct_name: struct_name_of(tag), data }
}

/// Whether the first KeyGen round must be refused: the gates are
/// enabled, the customer already has an active share, and the refusal
/// flag is set to `"true"`.
pub open spec fn keygen_refused_spec(
    m: Map<(Seq<char>, Seq<char>, EcdsaStruct), ArtifactModel>,
    customer_id: Seq<char>,
    gates: GateConfig,
) -> bool {
    &&& gates.redis_env
    &&& has_active_share_spec(m, customer_id)
    &&& gates.fail_keygen_if_active_share matches Some(f) && f@ == "true"@
}

/// The outputs of the first-round primitive, serialized.
pub struct KeygenFirstOutputs {
    pub key_gen_first_msg: String,
    pub comm_witness: String,
    pub ec_key_pair: String,
}

/// First round: consult the active-share gate, mint a fresh session id,
/// and persist the account position, the first message, the commitment
/// witness, the key pair, and a clear taint marker.
pub fn first(
    store: &mut SessionStore,
    claims: &Claims,
    gates: &GateConfig,
    outputs: KeygenFirstOutputs,
) -> (r: Result<String, String>)
    requires
        old(store).wf(),
    ensures
        final(store).wf(),
        match r {
            Ok(id) => {
                &&& !keygen_refused_spec(old(store)@, claims.sub@, *gates)
                &&& id@.len() == 36
                &&& count_char(id@, ',') == 0
                &&& final(store)@ == old(store)@.insert(
                    (claims.sub@, id@, EcdsaStruct::POS),
                    ArtifactModel::Pos { pos: 0 },
                ).insert(
                    (claims.sub@, id@, EcdsaStruct::KeyGenFirstMsg),
                    blob_model(EcdsaStruct::KeyGenFirstMsg, outputs.key_gen_first_msg@),
                ).insert(
                    (claims.sub@, id@, EcdsaStruct::CommWitness),
                    blob_model(EcdsaStruct::CommWitness, outputs.comm_witness@),
                ).insert(
                    (claims.sub@, id@, EcdsaStruct::EcKeyPair),
                    blob_model(EcdsaStruct::EcKeyPair, outputs.ec_key_pair@),
                ).insert(
                    (claims.sub@, id@, EcdsaStruct::Abort),
                    ArtifactModel::Abort { blocked: false },
                )
            },
            Err(e) => {
                &&& keygen_refused_spec(old(store)@, claims.sub@, *gates)
                &&& e@ == active_share_error_spec(claims.sub@)
                &&& final(store)@ == old(store)@
            },
        },
{
    if gates.redis_env {
        if store.has_active_share(&claims.sub) {
            if let Some(f) = &gates.fail_keygen_if_active_share {
                let true_flag = String::from_str("true");
                if *f == true_flag {
                    return Err(active_share_error(&claims.sub));
                }
            }
        }
    }
    let id = fresh_uuid();
    proof {
        lemma_uuid_comma_free(id@);
    }
    store.put(&claims.sub, &id, &EcdsaStruct::POS, Artifact::Pos(HdPos { pos: 0 }));
    store.put(
        &claims.sub,
        &id,
        &EcdsaStruct::KeyGenFirstMsg,
        Artifact::blob_for(&EcdsaStruct::KeyGenFirstMsg, outputs.key_gen_first_msg),
    );
    store.put(
        &claims.sub,
        &id,
        &EcdsaStruct::CommWitness,
        Artifact::blob_for(&EcdsaStruct::CommWitness, outputs.comm_witness),
    );
    store.put(
        &claims.sub,
        &id,
        &EcdsaStruct::EcKeyPair,
        Artifact::blob_for(&EcdsaStruct::EcKeyPair, outputs.ec_key_pair),
    );
    store.put(&claims.sub, &id, &EcdsaStruct::Abort, Artifact::Abort(Abort { blocked: false }));
    Ok(id)
}

/// Second round, before the primitive call: persist party two's public
/// key and fetch the commitment witness and key pair the first round
/// persisted.
pub fn second_load(
    store: &mut SessionStore,
    claims: &Claims,
    id: &String,
    party2_public: String,
) -> (r: Result<(String, String), String>)
    requires
        old(store).wf(),
    ensures
        final(store).wf(),
        final(store)@ == old(store)@.insert(
            (claims.sub@, id@, EcdsaStruct::Party2Public),
            blob_model(EcdsaStruct::Party2Public, party2_public@),
        ),
        match r {
            Ok(parts) => {
                &&& old(store)@.contains_key((claims.sub@, id@, EcdsaStruct::CommWitness))
                &&& old(store)@.contains_key((claims.sub@, id@, EcdsaStruct::EcKeyPair))
                &&& old(store)@[(claims.sub@, id@, EcdsaStruct::CommWitness)] == blob_model(
                    EcdsaStruct::CommWitness,
                    parts.0@,
                )
                &&& old(store)@[(claims.sub@, id@, EcdsaStruct::EcKeyPair)] == blob_model(
                    EcdsaStruct::EcKeyPair,
                    parts.1@,
                )
            },
            Err(e) => {
                if !old(store)@.contains_key((claims.sub@, id@, EcdsaStruct::CommWitness)) {
                    e@ == required_error_spec(EcdsaStruct::CommWitness, claims.sub@, id@)
                } else {
                    &&& !old(store)@.contains_key((claims.sub@, id@, EcdsaStruct::EcKeyPair))
                    &&& e@ == required_error_spec(EcdsaStruct::EcKeyPair, claims.sub@, id@)
                }
            },
        },
{
    store.put(
        &claims.sub,
        id,
        &EcdsaStruct::Party2Public,
        Artifact::blob_for(&EcdsaStruct::Party2Public, party2_public),
    );
    proof {
        store.lemma_typed();
    }
    let comm_witness = match store.get_required(&claims.sub, id, &EcdsaStruct::CommWitness) {
        Ok(a) => match a.cast_blob(&EcdsaStruct::CommWitness) {
            Ok(d) => d.clone(),
            Err(e) => {
                return Err(e);
            },
        },
        Err(e) => {
            return Err(e);
        },
    };
    let ec_key_pair = match store.get_required(&claims.sub, id, &EcdsaStruct::EcKeyPair) {
        Ok(a) => match a.cast_blob(&EcdsaStruct::EcKeyPair) {
            Ok(d) => d.clone(),
            Err(e) => {
                return Err(e);
            },
        },
        Err(e) => {
            return Err(e);
        },
    };
    Ok((comm_witness, ec_key_pair))
}

/// Second round, after the primitive call: persist the Paillier key
/// pair and party one's private share.
pub fn second_commit(
    store: &mut SessionStore,
    claims: &Claims,
    id: &String,
    paillier_key_pair: String,
    party_one_private: String,
)
    requires
        old(store).wf(),
    ensures
        final(store).wf(),
        final(store)@ == old(store)@.insert(
            (claims.sub@, id@, EcdsaStruct::PaillierKeyPair),
            blob_model(EcdsaStruct::PaillierKeyPair, paillier_key_pair@),
        ).insert(
            (claims.sub@, id@, EcdsaStruct::Party1Private),
            blob_model(EcdsaStruct::Party1Private, party_one_private@),
        ),
{
    store.put(
        &claims.sub,
        id,
        &EcdsaStruct::PaillierKeyPair,
        Artifact::blob_for(&EcdsaStruct::PaillierKeyPair, paillier_key_pair),
    );
    store.put(
        &claims.sub,
        id,
        &EcdsaStruct::Party1Private,
        Artifact::blob_for(&EcdsaStruct::Party1Private, party_one_private),
    );
}

/// Third round, before the primitive call: fetch party one's private
/// share.
pub fn third_load(store: &SessionStore, claims: &Claims, id: &String) -> (r: Result<String, String>)
    requires
        store.wf(),
    ensures
        match r {
            Ok(d) => {
                &&& store@.contains_key((claims.sub@, id@, EcdsaStruct::Party1Private))
                &&& store@[(claims.sub@, id@, EcdsaStruct::Party1Private)] == blob_model(
                    EcdsaStruct::Party1Private,
                    d@,
                )
            },
            Err(e) => {
                &&& !store@.contains_key((claims.sub@, id@, EcdsaStruct::Party1Private))
                &&& e@ == required_error_spec(EcdsaStruct::Party1Private, claims.sub@, id@)
            },
        },
{
    proof {
        store.lemma_typed();
    }
    match store.get_required(&claims.sub, id, &EcdsaStruct::Party1Private) {
        Ok(a) => match a.cast_blob(&EcdsaStruct::Party1Private) {
            Ok(d) => Ok(d.clone()),
            Err(e) => Err(e),
        },
        Err(e) => Err(e),
    }
}

/// Third round, after the primitive call: persist the PDL decommitment,
/// the alpha value, and party two's first PDL message.
pub fn third_commit(
    store: &mut SessionStore,
    claims: &Claims,
    id: &String,
    pdl_decommit: String,
    alpha: String,
    party2_pdl_first_msg: String,
)
    requires
        old(store).wf(),
    ensures
        final(store).wf(),
        final(store)@ == old(store)@.insert(
            (claims.sub@, id@, EcdsaStruct::PDLDecommit),
            blob_model(EcdsaStruct::PDLDecommit, pdl_decommit@),
        ).insert(
            (claims.sub@, id@, EcdsaStruct::Alpha),
            blob_model(EcdsaStruct::Alpha, alpha@),
        ).insert(
            (claims.sub@, id@, EcdsaStruct::Party2PDLFirstMsg),
            blob_model(EcdsaStruct::Party2PDLFirstMsg, party2_pdl_first_msg@),
        ),
{
    store.put(
        &claims.sub,
        id,
        &EcdsaStruct::PDLDecommit,
        Artifact::blob_for(&EcdsaStruct::PDLDecommit, pdl_decommit),
    );
    store.put(&claims.sub, id, &EcdsaStruct::Alpha, Artifact::blob_for(&EcdsaStruct::Alpha, alpha));
    store.put(
        &claims.sub,
        id,
        &EcdsaStruct::Party2PDLFirstMsg,
        Artifact::blob_for(&EcdsaStruct::Party2PDLFirstMsg, party2_pdl_first_msg),
    );
}

/// What the fourth-round primitive call consumes, fetched from the store.
pub struct KeygenFourthInputs {
    pub party_one_private: String,
    pub party2_pdl_first_msg: String,
    pub pdl_decommit: String,
    pub alpha: String,
}

/// Fourth round: fetch everything the final PDL verification consumes.
/// The round persists nothing; a verification failure is surfaced by the
/// caller as this session's hard error and does not taint the session.
pub fn fourth_load(store: &SessionStore, claims: &Claims, id: &String) -> (r: Result<
    KeygenFourthInputs,
    String,
>)
    requires
        store.wf(),
    ensures
        match r {
            Ok(inp) => {
                &&& store@.contains_key((claims.sub@, id@, EcdsaStruct::Party1Private))
                &&& store@.contains_key((claims.sub@, id@, EcdsaStruct::Party2PDLFirstMsg))
                &&& store@.contains_key((claims.sub@, id@, EcdsaStruct::PDLDecommit))
                &&& store@.contains_key((claims.sub@, id@, EcdsaStruct::Alpha))
                &&& store@[(claims.sub@, id@, EcdsaStruct::Party1Private)] == blob_model(
                    EcdsaStruct::Party1Private,
                    inp.party_one_private@,
                )
                &&& store@[(claims.sub@, id@, EcdsaStruct::Party2PDLFirstMsg)] == blob_model(
                    EcdsaStruct::Party2PDLFirstMsg,
                    inp.party2_pdl_first_msg@,
                )
                &&& store@[(claims.sub@, id@, EcdsaStruct::PDLDecommit)] == blob_model(
                    EcdsaStruct::PDLDecommit,
                    inp.pdl_decommit@,
                )
                &&& store@[(claims.sub@, id@, EcdsaStruct::Alpha)] == blob_model(
                    EcdsaStruct::Alpha,
                    inp.alpha@,
                )
            },
            Err(e) => {
                if !store@.contains_key((claims.sub@, id@, EcdsaStruct::Party1Private)) {
                    e@ == required_error_spec(EcdsaStruct::Party1Private, claims.sub@, id@)
                } else if !store@.contains_key(
                    (claims.sub@, id@, EcdsaStruct::Party2PDLFirstMsg),
                ) {
                    e@ == required_error_spec(EcdsaStruct::Party2PDLFirstMsg, claims.sub@, id@)
                } else if !store@.contains_key((claims.sub@, id@, EcdsaStruct::PDLDecommit)) {
                    e@ == required_error_spec(EcdsaStruct::PDLDecommit, claims.sub@, id@)
                } else {
                    &&& !store@.contains_key((claims.sub@, id@, EcdsaStruct::Alpha))
                    &&& e@ == required_error_spec(EcdsaStruct::Alpha, claims.sub@, id@)
                }
            },
        },
{
    proof {
        store.lemma_typed();
    }
    let party_one_private = match store.get_required(&claims.sub, id, &EcdsaStruct::Party1Private) {
        Ok(a) => match a.cast_blob(&EcdsaStruct::Party1Private) {
            Ok(d) => d.clone(),
            Err(e) => {
                return Err(e);
            },
        },
        Err(e) => {
            return Err(e);
        },
    };
    let party2_pdl_first_msg = match store.get_required(
        &claims.sub,
        id,
        &EcdsaStruct::Party2PDLFirstMsg,
    ) {
        Ok(a) => match a.cast_blob(&EcdsaStruct::Party2PDLFirstMsg) {
            Ok(d) => d.clone(),
            Err(e) => {
                return Err(e);
            },
        },
        Err(e) => {
            return Err(e);
        },
    };
    let pdl_decommit = match store.get_required(&claims.sub, id, &EcdsaStruct::PDLDecommit) {
        Ok(a) => match a.cast_blob(&EcdsaStruct::PDLDecommit) {
            Ok(d) => d.clone(),
            Err(e) => {
                return Err(e);
            },
        },
        Err(e) => {
            return Err(e);
        },
    };
    let alpha = match store.get_required(&claims.sub, id, &EcdsaStruct::Alpha) {
        Ok(a) => match a.cast_blob(&EcdsaStruct::Alpha) {
            Ok(d) => d.clone(),
            Err(e) => {
                return Err(e);
            },
        },
        Err(e) => {
            return Err(e);
        },
    };
    Ok(KeygenFourthInputs { party_one_private, party2_pdl_first_msg, pdl_decommit, alpha })
}

/// Chain-code first round, after the primitive call: persist the
/// chain-code first message, commitment witness and key pair.
pub fn chain_code_first_commit(
    store: &mut SessionStore,
    claims: &Claims,
    id: &String,
    cc_first_msg: String,
    cc_comm_witness: String,
    cc_ec_key_pair: String,
)
    requires
        old(store).wf(),
    ensures
        final(store).wf(),
        final(store)@ == old(store)@.insert(
            (claims.sub@, id@, EcdsaStruct::CCKeyGenFirstMsg),
            blob_model(EcdsaStruct::CCKeyGenFirstMsg, cc_first_msg@),
        ).insert(
            (claims.sub@, id@, EcdsaStruct::CCCommWitness),
            blob_model(EcdsaStruct::CCCommWitness, cc_comm_witness@),
        ).insert(
            (claims.sub@, id@, EcdsaStruct::CCEcKeyPair),
            blob_model(EcdsaStruct::CCEcKeyPair, cc_ec_key_pair@),
        ),
{
    store.put(
        &claims.sub,
        id,
        &EcdsaStruct::CCKeyGenFirstMsg,
        Artifact::blob_for(&EcdsaStruct::CCKeyGenFirstMsg, cc_first_msg),
    );
    store.put(
        &claims.sub,
        id,
        &EcdsaStruct::CCCommWitness,
        Artifact::blob_for(&EcdsaStruct::CCCommWitness, cc_comm_witness),
    );
    store.put(
        &claims.sub,
        id,
        &EcdsaStruct::CCEcKeyPair,
        Artifact::blob_for(&EcdsaStruct::CCEcKeyPair, cc_ec_key_pair),
    );
}

/// Chain-code second round, before the primitive calls: fetch the
/// chain-code commitment witness and key pair.
pub fn chain_code_second_load(store: &SessionStore, claims: &Claims, id: &String) -> (r: Result<
    (String, String),
    String,
>)
    requires
        store.wf(),
    ensures
        match r {
            Ok(parts) => {
                &&& store@.contains_key((claims.sub@, id@, EcdsaStruct::CCCommWitness))
                &&& store@.contains_key((claims.sub@, id@, EcdsaStruct::CCEcKeyPair))
                &&& store@[(claims.sub@, id@, EcdsaStruct::CCCommWitness)] == blob_model(
                    EcdsaStruct::CCCommWitness,
                    parts.0@,
                )
                &&& store@[(claims.sub@, id@, EcdsaStruct::CCEcKeyPair)] == blob_model(
                    EcdsaStruct::CCEcKeyPair,
                    parts.1@,
                )
            },
            Err(e) => {
                if !store@.contains_key((claims.sub@, id@, EcdsaStruct::CCCommWitness)) {
                    e@ == required_error_spec(EcdsaStruct::CCCommWitness, claims.sub@, id@)
                } else {
                    &&& !store@.contains_key((claims.sub@, id@, EcdsaStruct::CCEcKeyPair))
                    &&& e@ == required_error_spec(EcdsaStruct::CCEcKeyPair, claims.sub@, id@)
                }
            },
        },
{
    proof {
        store.lemma_typed();
    }
    let cc_comm_witness = match store.get_required(&claims.sub, id, &EcdsaStruct::CCCommWitness) {
        Ok(a) => match a.cast_blob(&EcdsaStruct::CCCommWitness) {
            Ok(d) => d.clone(),
            Err(e) => {
                return Err(e);
            },
        },
        Err(e) => {
            return Err(e);
        },
    };
    let cc_ec_key_pair = match store.get_required(&claims.sub, id, &EcdsaStruct::CCEcKeyPair) {
        Ok(a) => match a.cast_blob(&EcdsaStruct::CCEcKeyPair) {
            Ok(d) => d.clone(),
            Err(e) => {
                return Err(e);
            },
        },
        Err(e) => {
            return Err(e);
        },
    };
    Ok((cc_comm_witness, cc_ec_key_pair))
}

/// What the master-key assembly consumes, fetched from the store.
pub struct MasterKeyInputs {
    pub party2_public: String,
    pub paillier_key_pair: String,
    pub chain_code: String,
    pub party_one_private: String,
    pub comm_witness: String,
}

/// Chain-code second round, middle step: persist the computed chain
/// code, then fetch everything the master-key assembly consumes. The
/// chain-code slot it reads back is the one just written, so that read
/// can never be the missing artifact.
pub fn chain_code_second_continue(
    store: &mut SessionStore,
    claims: &Claims,
    id: &String,
    chain_code: String,
) -> (r: Result<MasterKeyInputs, String>)
    requires
        old(store).wf(),
    ensures
        final(store).wf(),
        final(store)@ == old(store)@.insert(
            (claims.sub@, id@, EcdsaStruct::CC),
            blob_model(EcdsaStruct::CC, chain_code@),
        ),
        match r {
            Ok(inp) => {
                &&& old(store)@.contains_key((claims.sub@, id@, EcdsaStruct::Party2Public))
                &&& old(store)@.contains_key((claims.sub@, id@, EcdsaStruct::PaillierKeyPair))
                &&& old(store)@.contains_key((claims.sub@, id@, EcdsaStruct::Party1Private))
                &&& old(store)@.contains_key((claims.sub@, id@, EcdsaStruct::CommWitness))
                &&& old(store)@[(claims.sub@, id@, EcdsaStruct::Party2Public)] == blob_model(
                    EcdsaStruct::Party2Public,
                    inp.party2_public@,
                )
                &&& old(store)@[(claims.sub@, id@, EcdsaStruct::PaillierKeyPair)] == blob_model(
                    EcdsaStruct::PaillierKeyPair,
                    inp.paillier_key_pair@,
                )
                &&& inp.chain_code@ == chain_code@
                &&& old(store)@[(claims.sub@, id@, EcdsaStruct::Party1Private)] == blob_model(
                    EcdsaStruct::Party1Private,
                    inp.party_one_private@,
                )
                &&& old(store)@[(claims.sub@, id@, EcdsaStruct::CommWitness)] == blob_model(
                    EcdsaStruct::CommWitness,
                    inp.comm_witness@,
                )
            },
            Err(e) => {
                if !old(store)@.contains_key((claims.sub@, id@, EcdsaStruct::Party2Public)) {
                    e@ == required_error_spec(EcdsaStruct::Party2Public, claims.sub@, id@)
                } else if !old(store)@.contains_key(
                    (claims.sub@, id@, EcdsaStruct::PaillierKeyPair),
                ) {
                    e@ == required_error_spec(EcdsaStruct::PaillierKeyPair, claims.sub@, id@)
                } else if !old(store)@.contains_key(
                    (claims.sub@, id@, EcdsaStruct::Party1Private),
                ) {
                    e@ == required_error_spec(EcdsaStruct::Party1Private, claims.sub@, id@)
                } else {
                    &&& !old(store)@.contains_key((claims.sub@, id@, EcdsaStruct::CommWitness))
                    &&& e@ == required_error_spec(EcdsaStruct::CommWitness, claims.sub@, id@)
                }
            },
        },
{
    store.put(
        &claims.sub,
        id,
        &EcdsaStruct::CC,
        Artifact::blob_for(&EcdsaStruct::CC, chain_code),
    );
    proof {
        store.lemma_typed();
    }
    let party2_public = match store.get_required(&claims.sub, id, &EcdsaStruct::Party2Public) {
        Ok(a) => match a.cast_blob(&EcdsaStruct::Party2Public) {
            Ok(d) => d.clone(),
            Err(e) => {
                return Err(e);
            },
        },
        Err(e) => {
            return Err(e);
        },
    };
    let paillier_key_pair = match store.get_required(&claims.sub, id, &EcdsaStruct::PaillierKeyPair)
        {
        Ok(a) => match a.cast_blob(&EcdsaStruct::PaillierKeyPair) {
            Ok(d) => d.clone(),
            Err(e) => {
                return Err(e);
            },
        },
        Err(e) => {
            return Err(e);
        },
    };
    let chain_code_read = match store.get_required(&claims.sub, id, &EcdsaStruct::CC) {
        Ok(a) => match a.cast_blob(&EcdsaStruct::CC) {
            Ok(d) => d.clone(),
            Err(e) => {
                return Err(e);
            },
        },
        Err(e) => {
            return Err(e);
        },
    };
    let party_one_private = match store.get_required(&claims.sub, id, &EcdsaStruct::Party1Private) {
        Ok(a) => match a.cast_blob(&EcdsaStruct::Party1Private) {
            Ok(d) => d.clone(),
            Err(e) => {
                return Err(e);
            },
        },
        Err(e) => {
            return Err(e);
        },
    };
    let comm_witness = match store.get_required(&claims.sub, id, &EcdsaStruct::CommWitness) {
        Ok(a) => match a.cast_blob(&EcdsaStruct::CommWitness) {
            Ok(d) => d.clone(),
            Err(e) => {
                return Err(e);
            },
        },
        Err(e) => {
            return Err(e);
        },
    };
    Ok(
        MasterKeyInputs {
            party2_public,
            paillier_key_pair,
            chain_code: chain_code_read,
            party_one_private,
            comm_witness,
        },
    )
}

/// Chain-code second round, final step: persist the assembled master
/// key, finishing KeyGen for this session.
pub fn chain_code_second_commit(
    store: &mut SessionStore,
    claims: &Claims,
    id: &String,
    master_key: String,
)
    requires
        old(store).wf(),
    ensures
        final(store).wf(),
        final(store)@ == old(store)@.insert(
            (claims.sub@, id@, EcdsaStruct::Party1MasterKey),
            blob_model(EcdsaStruct::Party1MasterKey, master_key@),
        ),
{
    store.put(
        &claims.sub,
        id,
        &EcdsaStruct::Party1MasterKey,
        Artifact::blob_for(&EcdsaStruct::Party1MasterKey, master_key),
    );
}

} // verus!
