//! End-to-end scenarios over the KeyGen, Sign and Rotate state machines,
//! driven with synthetic serialized artifacts in place of the
//! cryptographic primitives' outputs.

use gotham_engine::artifact::{Abort, Artifact, HdPos};
use gotham_engine::derivation;
use gotham_engine::keygen::{self, GateConfig, KeygenFirstOutputs};
use gotham_engine::rotate::{self, RotateSecondOutputs};
use gotham_engine::scratch::ScratchStore;
use gotham_engine::sign;
use gotham_engine::store::SessionStore;
use gotham_engine::types::{Claims, EcdsaStruct, idify};

fn customer() -> Claims {
    Claims { sub: String::from("cust-1") }
}

fn open_gates() -> GateConfig {
    GateConfig { redis_env: false, fail_keygen_if_active_share: None }
}

fn seed_master_key(store: &mut SessionStore, claims: &Claims, id: &str, data: &str) {
    store.put(
        &claims.sub,
        &String::from(id),
        &EcdsaStruct::Party1MasterKey,
        Artifact::blob_for(&EcdsaStruct::Party1MasterKey, String::from(data)),
    );
}

#[test]
fn happy_keygen_six_rounds() {
    let mut store = SessionStore::new();
    let claims = customer();
    let gates = open_gates();
    let id = keygen::first(
        &mut store,
        &claims,
        &gates,
        KeygenFirstOutputs {
            key_gen_first_msg: String::from("kg1"),
            comm_witness: String::from("cw"),
            ec_key_pair: String::from("ekp"),
        },
    )
    .unwrap();
    assert_eq!(id.len(), 36);

    let (cw, ekp) = keygen::second_load(&mut store, &claims, &id, String::from("p2pub")).unwrap();
    assert_eq!(cw, "cw");
    assert_eq!(ekp, "ekp");
    keygen::second_commit(&mut store, &claims, &id, String::from("paillier"), String::from("p1priv"));

    let p1priv = keygen::third_load(&store, &claims, &id).unwrap();
    assert_eq!(p1priv, "p1priv");
    keygen::third_commit(
        &mut store,
        &claims,
        &id,
        String::from("pdldecom"),
        String::from("alpha"),
        String::from("p2pdl1"),
    );

    let inp4 = keygen::fourth_load(&store, &claims, &id).unwrap();
    assert_eq!(inp4.party_one_private, "p1priv");
    assert_eq!(inp4.party2_pdl_first_msg, "p2pdl1");
    assert_eq!(inp4.pdl_decommit, "pdldecom");
    assert_eq!(inp4.alpha, "alpha");

    keygen::chain_code_first_commit(
        &mut store,
        &claims,
        &id,
        String::from("ccm1"),
        String::from("cccw"),
        String::from("ccekp"),
    );
    let (cccw, ccekp) = keygen::chain_code_second_load(&store, &claims, &id).unwrap();
    assert_eq!(cccw, "cccw");
    assert_eq!(ccekp, "ccekp");
    let mk_inp = keygen::chain_code_second_continue(&mut store, &claims, &id, String::from("cc"))
        .unwrap();
    assert_eq!(mk_inp.party2_public, "p2pub");
    assert_eq!(mk_inp.paillier_key_pair, "paillier");
    assert_eq!(mk_inp.chain_code, "cc");
    assert_eq!(mk_inp.party_one_private, "p1priv");
    assert_eq!(mk_inp.comm_witness, "cw");
    keygen::chain_code_second_commit(&mut store, &claims, &id, String::from("mk1"));

    assert_eq!(derivation::first(&store, &claims, &id).unwrap(), "mk1");
    match store.get(&claims.sub, &id, &EcdsaStruct::POS) {
        Some(Artifact::Pos(HdPos { pos })) => assert_eq!(*pos, 0),
        other => panic!("POS slot holds {:?}", other),
    }
    match store.get(&claims.sub, &id, &EcdsaStruct::Abort) {
        Some(Artifact::Abort(Abort { blocked })) => assert!(!blocked),
        other => panic!("Abort slot holds {:?}", other),
    }
    assert!(store.has_active_share(&claims.sub));
}

#[test]
fn keygen_first_ids_are_not_reused() {
    let mut store = SessionStore::new();
    let claims = customer();
    let gates = open_gates();
    let outputs = || KeygenFirstOutputs {
        key_gen_first_msg: String::from("kg1"),
        comm_witness: String::from("cw"),
        ec_key_pair: String::from("ekp"),
    };
    let id1 = keygen::first(&mut store, &claims, &gates, outputs()).unwrap();
    let id2 = keygen::first(&mut store, &claims, &gates, outputs()).unwrap();
    let id3 = keygen::first(&mut store, &claims, &gates, outputs()).unwrap();
    assert_ne!(id1, id2);
    assert_ne!(id1, id3);
    assert_ne!(id2, id3);
}

#[test]
fn active_share_rejection_under_enabled_gate() {
    let mut store = SessionStore::new();
    let claims = customer();
    seed_master_key(&mut store, &claims, "old-session", "mk-old");
    let gates = GateConfig {
        redis_env: true,
        fail_keygen_if_active_share: Some(String::from("true")),
    };
    let err = keygen::first(
        &mut store,
        &claims,
        &gates,
        KeygenFirstOutputs {
            key_gen_first_msg: String::from("kg1"),
            comm_witness: String::from("cw"),
            ec_key_pair: String::from("ekp"),
        },
    )
    .err()
    .unwrap();
    assert_eq!(err, "customerId cust-1 already has an active share, abort KeyGen");
    assert!(err.contains("cust-1"));
}

#[test]
fn active_share_tolerated_when_flag_not_true_or_gate_off() {
    let mut store = SessionStore::new();
    let claims = customer();
    seed_master_key(&mut store, &claims, "old-session", "mk-old");
    let outputs = || KeygenFirstOutputs {
        key_gen_first_msg: String::from("kg1"),
        comm_witness: String::from("cw"),
        ec_key_pair: String::from("ekp"),
    };
    let gates_flag_off = GateConfig {
        redis_env: true,
        fail_keygen_if_active_share: Some(String::from("false")),
    };
    assert!(keygen::first(&mut store, &claims, &gates_flag_off, outputs()).is_ok());
    let gates_env_off = GateConfig {
        redis_env: false,
        fail_keygen_if_active_share: Some(String::from("true")),
    };
    assert!(keygen::first(&mut store, &claims, &gates_env_off, outputs()).is_ok());
}

#[test]
fn keygen_second_out_of_order_names_comm_witness() {
    let mut store = SessionStore::new();
    let claims = customer();
    let id = String::from("sess-1");
    let err = keygen::second_load(&mut store, &claims, &id, String::from("p2pub")).err().unwrap();
    assert_eq!(err, "Value from CommWitness with customerId: cust-1, id: sess-1 is required");
    match store.get(&claims.sub, &id, &EcdsaStruct::Party2Public) {
        Some(Artifact::Blob(b)) => assert_eq!(b.data, "p2pub"),
        other => panic!("Party2Public slot holds {:?}", other),
    }
}

#[test]
fn out_of_order_sign_second_names_the_ephemeral_message() {
    let mut store = SessionStore::new();
    let claims = customer();
    let id = String::from("sess-1");
    seed_master_key(&mut store, &claims, "sess-1", "mk1");
    let err = sign::sign_second_load(&store, &claims, &id, false, Ok(true)).err().unwrap();
    assert_eq!(
        err,
        "Value from EphKeyGenFirstMsg with customerId: cust-1, id: sess-1 is required"
    );
    let empty = SessionStore::new();
    let err2 = sign::sign_second_load(&empty, &claims, &id, false, Ok(true)).err().unwrap();
    assert_eq!(
        err2,
        "Value from Party1MasterKey with customerId: cust-1, id: sess-1 is required"
    );
}

#[test]
fn sign_second_denied_when_not_granted() {
    let mut store = SessionStore::new();
    let claims = customer();
    let id = String::from("sess-1");
    seed_master_key(&mut store, &claims, "sess-1", "mk1");
    let err = sign::sign_second_load(&store, &claims, &id, true, Ok(false)).err().unwrap();
    assert_eq!(err, "Unauthorized transaction from redis-pps for customer_id cust-1, id sess-1:");
    let probe = sign::sign_second_load(&store, &claims, &id, true, Err(String::from("down")));
    assert!(probe.is_err());
    assert!(probe.err().unwrap().contains("is required"));
}

#[test]
fn sign_taint_blocks_later_sign_first() {
    let mut store = SessionStore::new();
    let claims = customer();
    let id = String::from("sess-1");
    seed_master_key(&mut store, &claims, "sess-1", "mk1");
    sign::sign_first(&mut store, &claims, &id, String::from("p2eph"), String::from("ephkp"))
        .unwrap();
    let inp = sign::sign_second_load(&store, &claims, &id, false, Ok(true)).unwrap();
    assert_eq!(inp.master_key, "mk1");
    assert_eq!(inp.eph_ec_key_pair, "ephkp");
    assert_eq!(inp.eph_key_gen_first_msg, "p2eph");
    let err = sign::sign_second_finish(&mut store, &claims, &id, None).err().unwrap();
    assert_eq!(
        err,
        "sign_second failed for customer_id cust-1, id sess-1. Inserted into Abort table"
    );
    assert!(store.is_blocked(&claims.sub, &id));
    let err2 = sign::sign_first(
        &mut store,
        &claims,
        &id,
        String::from("p2eph"),
        String::from("ephkp"),
    )
    .err()
    .unwrap();
    assert_eq!(err2, "customer_id cust-1 exists in Abort table and thus is blocked");
}

#[test]
fn sign_second_success_passes_the_signature_through() {
    let mut store = SessionStore::new();
    let claims = customer();
    let id = String::from("sess-1");
    seed_master_key(&mut store, &claims, "sess-1", "mk1");
    sign::sign_first(&mut store, &claims, &id, String::from("p2eph"), String::from("ephkp"))
        .unwrap();
    let sig = sign::sign_second_finish(&mut store, &claims, &id, Some(String::from("sig-recid")))
        .unwrap();
    assert_eq!(sig, "sig-recid");
    assert!(!store.is_blocked(&claims.sub, &id));
}

#[test]
fn rotate_bound_failure_returns_none_and_mutates_nothing() {
    let mut store = SessionStore::new();
    let claims = customer();
    let id = String::from("sess-1");
    seed_master_key(&mut store, &claims, "sess-1", "mk1");
    rotate::rotate_first(&mut store, &claims, &id, String::from("rcm"));
    let (rcm, mk) = rotate::rotate_second_load(&store, &claims, &id).unwrap();
    assert_eq!(rcm, "rcm");
    assert_eq!(mk, "mk1");
    let answer = rotate::rotate_second_decide(&mut store, &claims, &id, None);
    assert!(answer.is_none());
    assert_eq!(derivation::first(&store, &claims, &id).unwrap(), "mk1");
    assert!(store.get(&claims.sub, &id, &EcdsaStruct::RotateRandom1).is_none());
    assert!(store.get(&claims.sub, &id, &EcdsaStruct::RotateCommitMessage1).is_some());
}

#[test]
fn rotate_full_flow_replaces_the_master_key() {
    let mut store = SessionStore::new();
    let claims = customer();
    let id = String::from("sess-1");
    seed_master_key(&mut store, &claims, "sess-1", "mk1");
    rotate::rotate_first(&mut store, &claims, &id, String::from("rcm"));
    rotate::rotate_second_load(&store, &claims, &id).unwrap();
    let answer = rotate::rotate_second_decide(
        &mut store,
        &claims,
        &id,
        Some(RotateSecondOutputs {
            random1: String::from("rand1"),
            rotation_first_msg: String::from("rot1"),
            private_new: String::from("privnew"),
        }),
    );
    assert!(answer.is_some());
    assert_eq!(rotate::rotate_third_load(&store, &claims, &id).unwrap(), "privnew");
    rotate::rotate_third_commit(
        &mut store,
        &claims,
        &id,
        String::from("ralpha"),
        String::from("rdecom"),
        String::from("rp2first"),
        String::from("rp1second"),
    );
    let inp = rotate::rotate_forth_load(&store, &claims, &id).unwrap();
    assert_eq!(inp.rotation_first_msg, "rot1");
    assert_eq!(inp.private_new, "privnew");
    assert_eq!(inp.random1, "rand1");
    assert_eq!(inp.rotation_party_two_first, "rp2first");
    assert_eq!(inp.alpha, "ralpha");
    assert_eq!(inp.pdl_decommit, "rdecom");
    assert_eq!(inp.master_key, "mk1");
    rotate::rotate_forth_finish(&mut store, &claims, &id, Some(String::from("mk2"))).unwrap();
    assert_eq!(derivation::first(&store, &claims, &id).unwrap(), "mk2");
}

#[test]
fn rotate_forth_failure_keeps_the_master_key() {
    let mut store = SessionStore::new();
    let claims = customer();
    let id = String::from("sess-1");
    seed_master_key(&mut store, &claims, "sess-1", "mk1");
    let err = rotate::rotate_forth_finish(&mut store, &claims, &id, None).err().unwrap();
    assert_eq!(err, "rotation failed for customerId: cust-1, id: sess-1");
    assert_eq!(derivation::first(&store, &claims, &id).unwrap(), "mk1");
}

#[test]
fn rotate_third_out_of_order_reports_private_new() {
    let store = SessionStore::new();
    let claims = customer();
    let id = String::from("sess-1");
    let err = rotate::rotate_third_load(&store, &claims, &id).err().unwrap();
    assert_eq!(err, "Value from RotatePrivateNew with customerId: cust-1, id: sess-1 is required");
}

#[test]
fn cross_session_sign_round_trip_clears_scratch_keys() {
    let mut store = SessionStore::new();
    let mut scratch = ScratchStore::new();
    let claims = customer();
    let id = String::from("sess-1");
    seed_master_key(&mut store, &claims, "sess-1", "mk1");
    let ssid = sign::sign_first_v2(
        &store,
        &mut scratch,
        &claims,
        &id,
        String::from("p2eph"),
        String::from("ephkp"),
    )
    .unwrap();
    assert!(ssid.starts_with("sess-1,"));
    assert_eq!(ssid.len(), "sess-1".len() + 1 + 36);
    let key1 = idify(&claims.sub, &ssid, &EcdsaStruct::EphKeyGenFirstMsg);
    let key2 = idify(&claims.sub, &ssid, &EcdsaStruct::EphEcKeyPair);
    assert_eq!(scratch.get(&key1).unwrap(), "p2eph");
    assert_eq!(scratch.get(&key2).unwrap(), "ephkp");
    let inp = sign::sign_second_v2_load(&store, &mut scratch, &claims, &ssid, false, Ok(true))
        .unwrap();
    assert_eq!(inp.id, "sess-1");
    assert_eq!(format!("{},{}", inp.id, inp.sid), ssid);
    assert_eq!(inp.master_key, "mk1");
    assert_eq!(inp.eph_ec_key_pair, "ephkp");
    assert_eq!(inp.eph_key_gen_first_msg, "p2eph");
    assert!(scratch.get(&key1).is_none());
    assert!(scratch.get(&key2).is_none());
    let sig = sign::sign_second_v2_finish(
        &mut store,
        &claims,
        &ssid,
        &inp.id,
        &inp.sid,
        Some(String::from("sig-recid")),
    )
    .unwrap();
    assert_eq!(sig, "sig-recid");
    assert!(!store.is_blocked(&claims.sub, &id));
}

#[test]
fn cross_session_sign_failure_taints_and_still_clears_scratch() {
    let mut store = SessionStore::new();
    let mut scratch = ScratchStore::new();
    let claims = customer();
    let id = String::from("sess-1");
    seed_master_key(&mut store, &claims, "sess-1", "mk1");
    let ssid = sign::sign_first_v2(
        &store,
        &mut scratch,
        &claims,
        &id,
        String::from("p2eph"),
        String::from("ephkp"),
    )
    .unwrap();
    let inp = sign::sign_second_v2_load(&store, &mut scratch, &claims, &ssid, false, Ok(true))
        .unwrap();
    let key1 = idify(&claims.sub, &ssid, &EcdsaStruct::EphKeyGenFirstMsg);
    let key2 = idify(&claims.sub, &ssid, &EcdsaStruct::EphEcKeyPair);
    assert!(scratch.get(&key1).is_none());
    assert!(scratch.get(&key2).is_none());
    let err = sign::sign_second_v2_finish(&mut store, &claims, &ssid, &inp.id, &inp.sid, None)
        .err()
        .unwrap();
    assert_eq!(
        err,
        format!(
            "sign_second failed for customer_id cust-1, ssid {}, id: sess-1, sid: {}. Inserted into Abort table",
            ssid, inp.sid
        )
    );
    assert!(store.is_blocked(&claims.sub, &id));
    let err2 = sign::sign_first_v2(
        &store,
        &mut scratch,
        &claims,
        &id,
        String::from("p2eph"),
        String::from("ephkp"),
    )
    .err()
    .unwrap();
    assert_eq!(err2, "customer_id cust-1 exists in Abort table and thus is blocked");
}

#[test]
fn cross_session_sign_second_rejects_malformed_ssid() {
    let mut store = SessionStore::new();
    let mut scratch = ScratchStore::new();
    let claims = customer();
    seed_master_key(&mut store, &claims, "sess-1", "mk1");
    let err = sign::sign_second_v2_load(
        &store,
        &mut scratch,
        &claims,
        &String::from("sess-1"),
        false,
        Ok(true),
    )
    .err()
    .unwrap();
    assert_eq!(err, "ssid must include only two values: id,sid");
    let err2 = sign::sign_second_v2_load(
        &store,
        &mut scratch,
        &claims,
        &String::from("sess-1,a,b"),
        false,
        Ok(true),
    )
    .err()
    .unwrap();
    assert_eq!(err2, "ssid must include only two values: id,sid");
}

#[test]
fn cross_session_sign_second_denied_when_not_granted() {
    let mut store = SessionStore::new();
    let mut scratch = ScratchStore::new();
    let claims = customer();
    seed_master_key(&mut store, &claims, "sess-1", "mk1");
    let ssid = String::from("sess-1,sub-1");
    let err = sign::sign_second_v2_load(&store, &mut scratch, &claims, &ssid, true, Ok(false))
        .err()
        .unwrap();
    assert_eq!(err, "Unauthorized transaction from redis-pps: sess-1,sub-1");
}

#[test]
fn cross_session_sign_second_reports_missing_scratch_value() {
    let mut store = SessionStore::new();
    let mut scratch = ScratchStore::new();
    let claims = customer();
    seed_master_key(&mut store, &claims, "sess-1", "mk1");
    let ssid = String::from("sess-1,sub-1");
    let err = sign::sign_second_v2_load(&store, &mut scratch, &claims, &ssid, false, Ok(true))
        .err()
        .unwrap();
    assert_eq!(
        err,
        "Failed getting from scratch store at key [cust-1_sess-1,sub-1_EphEcKeyPair]: no value"
    );
}

#[test]
fn keygen_second_missing_only_key_pair_names_it() {
    let mut store = SessionStore::new();
    let claims = customer();
    let id = String::from("sess-1");
    store.put(
        &claims.sub,
        &id,
        &EcdsaStruct::CommWitness,
        Artifact::blob_for(&EcdsaStruct::CommWitness, String::from("cw")),
    );
    let err = keygen::second_load(&mut store, &claims, &id, String::from("p2pub")).err().unwrap();
    assert_eq!(err, "Value from EcKeyPair with customerId: cust-1, id: sess-1 is required");
}

#[test]
fn keygen_fourth_reports_the_first_missing_artifact() {
    let mut store = SessionStore::new();
    let claims = customer();
    let id = String::from("sess-1");
    let err = keygen::fourth_load(&store, &claims, &id).err().unwrap();
    assert_eq!(err, "Value from Party1Private with customerId: cust-1, id: sess-1 is required");
    store.put(
        &claims.sub,
        &id,
        &EcdsaStruct::Party1Private,
        Artifact::blob_for(&EcdsaStruct::Party1Private, String::from("p1priv")),
    );
    let err2 = keygen::fourth_load(&store, &claims, &id).err().unwrap();
    assert_eq!(
        err2,
        "Value from Party2PDLFirstMsg with customerId: cust-1, id: sess-1 is required"
    );
}

#[test]
fn chain_code_second_continue_needs_the_second_round() {
    let mut store = SessionStore::new();
    let claims = customer();
    let id = String::from("sess-1");
    let err = keygen::chain_code_second_continue(&mut store, &claims, &id, String::from("cc"))
        .err()
        .unwrap();
    assert_eq!(err, "Value from Party2Public with customerId: cust-1, id: sess-1 is required");
    match store.get(&claims.sub, &id, &EcdsaStruct::CC) {
        Some(Artifact::Blob(b)) => assert_eq!(b.data, "cc"),
        other => panic!("CC slot holds {:?}", other),
    }
}

#[test]
fn derivation_needs_a_master_key() {
    let store = SessionStore::new();
    let claims = customer();
    let id = String::from("sess-1");
    let err = derivation::first(&store, &claims, &id).err().unwrap();
    assert_eq!(err, "Value from Party1MasterKey with customerId: cust-1, id: sess-1 is required");
}

#[test]
fn empty_customer_and_session_ids_are_plain_strings() {
    let mut store = SessionStore::new();
    let claims = Claims { sub: String::new() };
    let id = String::new();
    seed_master_key(&mut store, &claims, "", "mk");
    assert_eq!(derivation::first(&store, &claims, &id).unwrap(), "mk");
    assert!(store.has_active_share(&claims.sub));
    let err = rotate::rotate_third_load(&store, &claims, &id).err().unwrap();
    assert_eq!(err, "Value from RotatePrivateNew with customerId: , id:  is required");
}
