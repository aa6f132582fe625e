//! Tests for the identifier types, the tag functions, the key encoding,
//! the error texts, and the two stores.

use gotham_engine::artifact::{Abort, Artifact, HdPos};
use gotham_engine::errors::{
    active_share_error, blocked_error, rotation_failed_error, scratch_missing_error,
    sign_failed_error, sign_failed_ssid_error, ssid_shape_error, unauthorized_error,
    unauthorized_ssid_error,
};
use gotham_engine::ids::{fresh_uuid, ssid_of, ssid_parse};
use gotham_engine::scratch::ScratchStore;
use gotham_engine::store::SessionStore;
use gotham_engine::types::{
    Authenticator, Claims, DatabaseError, DbConnector, DbIndex, EcdsaStruct, idify,
};

#[test]
fn tag_to_string_matches_variant_names() {
    assert_eq!(EcdsaStruct::KeyGenFirstMsg.to_string(), "KeyGenFirstMsg");
    assert_eq!(EcdsaStruct::CommWitness.to_string(), "CommWitness");
    assert_eq!(EcdsaStruct::Party1MasterKey.to_string(), "Party1MasterKey");
    assert_eq!(EcdsaStruct::EphKeyGenFirstMsg.to_string(), "EphKeyGenFirstMsg");
    assert_eq!(EcdsaStruct::RotateCommitMessage1.to_string(), "RotateCommitMessage1");
    assert_eq!(EcdsaStruct::POS.to_string(), "POS");
    assert_eq!(EcdsaStruct::Abort.to_string(), "Abort");
}

#[test]
fn tag_table_names_keep_master_key_compatibility() {
    assert_eq!(EcdsaStruct::Party1MasterKey.to_table_name("prod"), "prod_Party1MasterKey");
    assert_eq!(EcdsaStruct::CommWitness.to_table_name("prod"), "prod-gotham-CommWitness");
    assert_eq!(EcdsaStruct::Abort.to_table_name("dev"), "dev-gotham-Abort");
}

#[test]
fn tag_require_customer_id_only_for_master_key_and_abort() {
    assert!(EcdsaStruct::Party1MasterKey.require_customer_id());
    assert!(EcdsaStruct::Abort.require_customer_id());
    assert!(!EcdsaStruct::CommWitness.require_customer_id());
    assert!(!EcdsaStruct::POS.require_customer_id());
    assert!(!EcdsaStruct::RotateAlpha.require_customer_id());
    assert!(!EcdsaStruct::EphEcKeyPair.require_customer_id());
}

#[test]
fn tag_struct_names_follow_the_binding_table() {
    assert_eq!(EcdsaStruct::KeyGenFirstMsg.to_struct_name(), "Party1KeyGenFirstMessage");
    assert_eq!(EcdsaStruct::Party2Public.to_struct_name(), "Secp256k1Point");
    assert_eq!(EcdsaStruct::CC.to_struct_name(), "ChainCode1");
    assert_eq!(EcdsaStruct::Party1MasterKey.to_struct_name(), "MasterKey1");
    assert_eq!(EcdsaStruct::EphKeyGenFirstMsg.to_struct_name(), "Party2EphKeyGenFirstMessage");
    assert_eq!(EcdsaStruct::RotateRandom1.to_struct_name(), "Rotation");
    assert_eq!(EcdsaStruct::RotatePrivateNew.to_struct_name(), "Party1Private");
    assert_eq!(EcdsaStruct::RotateParty1Second.to_struct_name(), "Party1PDLFirstMessage");
    assert_eq!(EcdsaStruct::POS.to_struct_name(), "POS");
}

#[test]
fn idify_concatenates_customer_id_and_tag() {
    let customer = String::from("cust-1");
    let id = String::from("some-id");
    let key = idify(&customer, &id, &EcdsaStruct::EphKeyGenFirstMsg);
    assert_eq!(key, "cust-1_some-id_EphKeyGenFirstMsg");
    let key2 = idify(&customer, &id, &EcdsaStruct::Party1MasterKey);
    assert_eq!(key2, "cust-1_some-id_Party1MasterKey");
}

#[test]
fn error_texts_are_exact() {
    let c = String::from("cust-1");
    let id = String::from("id-9");
    let ssid = String::from("id-9,sub-1");
    let sid = String::from("sub-1");
    assert_eq!(
        active_share_error(&c),
        "customerId cust-1 already has an active share, abort KeyGen"
    );
    assert_eq!(blocked_error(&c), "customer_id cust-1 exists in Abort table and thus is blocked");
    assert_eq!(
        unauthorized_error(&c, &id),
        "Unauthorized transaction from redis-pps for customer_id cust-1, id id-9:"
    );
    assert_eq!(
        unauthorized_ssid_error(&ssid),
        "Unauthorized transaction from redis-pps: id-9,sub-1"
    );
    assert_eq!(
        sign_failed_error(&c, &id),
        "sign_second failed for customer_id cust-1, id id-9. Inserted into Abort table"
    );
    assert_eq!(
        sign_failed_ssid_error(&c, &ssid, &id, &sid),
        "sign_second failed for customer_id cust-1, ssid id-9,sub-1, id: id-9, sid: sub-1. Inserted into Abort table"
    );
    assert_eq!(rotation_failed_error(&c, &id), "rotation failed for customerId: cust-1, id: id-9");
    assert_eq!(ssid_shape_error(), "ssid must include only two values: id,sid");
    let key = String::from("k1");
    assert_eq!(
        scratch_missing_error(&key),
        "Failed getting from scratch store at key [k1]: no value"
    );
}

#[test]
fn put_then_get_round_trips_bitwise() {
    let mut store = SessionStore::new();
    let c = String::from("cust-1");
    let id = String::from("id-1");
    store.put(
        &c,
        &id,
        &EcdsaStruct::CC,
        Artifact::blob_for(&EcdsaStruct::CC, String::from("chain-code-bytes")),
    );
    match store.get(&c, &id, &EcdsaStruct::CC) {
        Some(Artifact::Blob(b)) => {
            assert_eq!(b.struct_name, "ChainCode1");
            assert_eq!(b.data, "chain-code-bytes");
        }
        other => panic!("unexpected slot contents: {:?}", other),
    }
}

#[test]
fn put_overwrites_last_write_wins() {
    let mut store = SessionStore::new();
    let c = String::from("cust-1");
    let id = String::from("id-1");
    store.put(&c, &id, &EcdsaStruct::CC, Artifact::blob_for(&EcdsaStruct::CC, "old".to_string()));
    store.put(&c, &id, &EcdsaStruct::CC, Artifact::blob_for(&EcdsaStruct::CC, "new".to_string()));
    match store.get(&c, &id, &EcdsaStruct::CC) {
        Some(Artifact::Blob(b)) => assert_eq!(b.data, "new"),
        other => panic!("unexpected slot contents: {:?}", other),
    }
}

#[test]
fn get_distinguishes_missing_from_other_slots() {
    let mut store = SessionStore::new();
    let c = String::from("cust-1");
    let id = String::from("id-1");
    store.put(&c, &id, &EcdsaStruct::POS, Artifact::Pos(HdPos { pos: 0 }));
    assert!(store.get(&c, &id, &EcdsaStruct::CC).is_none());
    assert!(store.get(&c, &String::from("id-2"), &EcdsaStruct::POS).is_none());
    assert!(store.get(&String::from("cust-2"), &id, &EcdsaStruct::POS).is_none());
    assert!(store.get(&c, &id, &EcdsaStruct::POS).is_some());
}

#[test]
fn get_required_reports_the_missing_tag() {
    let store = SessionStore::new();
    let c = String::from("cust-1");
    let id = String::from("id-1");
    let err = store.get_required(&c, &id, &EcdsaStruct::CommWitness).err().unwrap();
    assert_eq!(err, "Value from CommWitness with customerId: cust-1, id: id-1 is required");
}

#[test]
fn has_active_share_sees_only_master_keys_of_the_customer() {
    let mut store = SessionStore::new();
    let c1 = String::from("cust-1");
    let c2 = String::from("cust-2");
    let id = String::from("id-1");
    assert!(!store.has_active_share(&c1));
    store.put(&c1, &id, &EcdsaStruct::CC, Artifact::blob_for(&EcdsaStruct::CC, "x".to_string()));
    assert!(!store.has_active_share(&c1));
    store.put(
        &c2,
        &id,
        &EcdsaStruct::Party1MasterKey,
        Artifact::blob_for(&EcdsaStruct::Party1MasterKey, "mk".to_string()),
    );
    assert!(!store.has_active_share(&c1));
    assert!(store.has_active_share(&c2));
    store.put(
        &c1,
        &id,
        &EcdsaStruct::Party1MasterKey,
        Artifact::blob_for(&EcdsaStruct::Party1MasterKey, "mk".to_string()),
    );
    assert!(store.has_active_share(&c1));
}

#[test]
fn is_blocked_defaults_to_false_and_follows_the_marker() {
    let mut store = SessionStore::new();
    let c = String::from("cust-1");
    let id = String::from("id-1");
    assert!(!store.is_blocked(&c, &id));
    store.put(&c, &id, &EcdsaStruct::Abort, Artifact::Abort(Abort { blocked: false }));
    assert!(!store.is_blocked(&c, &id));
    store.put(&c, &id, &EcdsaStruct::Abort, Artifact::Abort(Abort { blocked: true }));
    assert!(store.is_blocked(&c, &id));
}

#[test]
fn scratch_set_get_del() {
    let mut scratch = ScratchStore::new();
    let k = String::from("cust_ssid_EphEcKeyPair");
    let v = String::from("serialized");
    assert!(scratch.get(&k).is_none());
    scratch.set(&k, &v);
    assert_eq!(scratch.get(&k).unwrap(), "serialized");
    let v2 = String::from("other");
    scratch.set(&k, &v2);
    assert_eq!(scratch.get(&k).unwrap(), "other");
    scratch.del(&k);
    assert!(scratch.get(&k).is_none());
    scratch.del(&k);
    assert!(scratch.get(&k).is_none());
}

#[test]
fn ssid_parse_accepts_exactly_one_comma() {
    let ok = ssid_parse(&String::from("sess-1,sub-2")).unwrap();
    assert_eq!(ok.0, "sess-1");
    assert_eq!(ok.1, "sub-2");
    let e1 = ssid_parse(&String::from("nocomma")).err().unwrap();
    assert_eq!(e1, "ssid must include only two values: id,sid");
    let e2 = ssid_parse(&String::from("a,b,c")).err().unwrap();
    assert_eq!(e2, "ssid must include only two values: id,sid");
    let edge = ssid_parse(&String::from(",")).unwrap();
    assert_eq!(edge.0, "");
    assert_eq!(edge.1, "");
}

#[test]
fn ssid_of_then_parse_round_trips() {
    let id = String::from("sess-1");
    let sid = String::from("sub-9");
    let ssid = ssid_of(&id, &sid);
    assert_eq!(ssid, "sess-1,sub-9");
    let parts = ssid_parse(&ssid).unwrap();
    assert_eq!(parts.0, id);
    assert_eq!(parts.1, sid);
}

#[test]
fn fresh_uuid_has_hyphenated_lowercase_form() {
    let u = fresh_uuid();
    assert_eq!(u.len(), 36);
    for (i, ch) in u.chars().enumerate() {
        if i == 8 || i == 13 || i == 18 || i == 23 {
            assert_eq!(ch, '-');
        } else {
            assert!(ch.is_ascii_hexdigit() && !ch.is_ascii_uppercase());
        }
    }
    let u2 = fresh_uuid();
    assert_ne!(u, u2);
}

#[test]
fn common_types_construct_and_compare() {
    let claims = Claims { sub: String::from("cust-1") };
    assert_eq!(claims.sub, "cust-1");
    let idx = DbIndex { customerId: String::from("cust-1"), id: String::from("id-1") };
    assert_eq!(idx, idx.clone());
    assert_eq!(DatabaseError::ReadError(3), DatabaseError::ReadError(3));
    assert_ne!(DatabaseError::ReadError(3), DatabaseError::InsertError(3));
    assert!(matches!(DbConnector::RocksDB, DbConnector::RocksDB));
    assert!(matches!(Authenticator::Passthrough, Authenticator::Passthrough));
}
