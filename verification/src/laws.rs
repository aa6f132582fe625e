//! The laws the library states of itself, proved over the store model.
//! Properties that speak of a single call stand in that function's
//! contract instead: each round's `ensures` gives its exact write-set
//! (so an interrupted protocol can only leave whole-round writes
//! missing, never stray ones), `idify` pins down the flat key encoding,
//! and the round functions say exactly when each error is returned.

use vstd::prelude::*;

use crate::artifact::ArtifactModel;
use crate::ids::{
    count_char, lemma_count_concat, lemma_count_single_comma, lemma_split_unique, ssid_id,
    ssid_sid, ssid_split,
};
use crate::keygen::blob_model;
use crate::store::{abort_blocked_spec, has_active_share_spec};
use crate::types::EcdsaStruct;

verus! {

/// A successful sign needs the session's master key (see
/// `sign_second_load`), and a customer with a persisted master key is
/// exactly one the active-share check answers true for: every session
/// observed by a successful sign belongs to a customer with an active
/// share.
pub proof fn lemma_sign_implies_active_share(
    m: Map<(Seq<char>, Seq<char>, EcdsaStruct), ArtifactModel>,
    customer_id: Seq<char>,
    id: Seq<char>,
)
    requires
        m.contains_key((customer_id, id, EcdsaStruct::Party1MasterKey)),
    ensures
        has_active_share_spec(m, customer_id),
{
    assert(m.contains_key((customer_id, id, EcdsaStruct::Party1MasterKey)));
}

/// A failed second sign round leaves the session tainted: the store it
/// produces (see `sign_second_finish` and `sign_second_v2_finish`)
/// blocks the session, and a blocked session is exactly what makes the
/// first sign rounds refuse (see `sign_first` and `sign_first_v2`).
pub proof fn lemma_sign_failure_taints(
    m: Map<(Seq<char>, Seq<char>, EcdsaStruct), ArtifactModel>,
    customer_id: Seq<char>,
    id: Seq<char>,
)
    ensures
        abort_blocked_spec(
            m.insert(
                (customer_id, id, EcdsaStruct::Abort),
                ArtifactModel::Abort { blocked: true },
            ),
            customer_id,
            id,
        ),
{
}

/// A rotation that reaches a successful fourth round replaces exactly
/// the master-key slot: that slot then holds the rotated key and every
/// other slot keeps its value. The two failing outcomes leave the store
/// untouched outright (see `rotate_second_decide` on a bound-check
/// failure and `rotate_forth_finish` on a verification failure).
pub proof fn lemma_rotate_replaces_master_key(
    m: Map<(Seq<char>, Seq<char>, EcdsaStruct), ArtifactModel>,
    customer_id: Seq<char>,
    id: Seq<char>,
    rotated: Seq<char>,
)
    ensures
        m.insert(
            (customer_id, id, EcdsaStruct::Party1MasterKey),
            blob_model(EcdsaStruct::Party1MasterKey, rotated),
        )[(customer_id, id, EcdsaStruct::Party1MasterKey)] == blob_model(
            EcdsaStruct::Party1MasterKey,
            rotated,
        ),
        forall|k: (Seq<char>, Seq<char>, EcdsaStruct)|
            #![trigger m.insert((customer_id, id, EcdsaStruct::Party1MasterKey), blob_model(EcdsaStruct::Party1MasterKey, rotated))[k]]
            m.contains_key(k) && k != (customer_id, id, EcdsaStruct::Party1MasterKey) ==> m.insert(
                (customer_id, id, EcdsaStruct::Party1MasterKey),
                blob_model(EcdsaStruct::Party1MasterKey, rotated),
            )[k] == m[k],
{
}

/// Put-then-get: a store that has just written a value under a key
/// answers exactly that value for the key (see `put` and `get`; the
/// executable round trip is bitwise, since `get` hands back the stored
/// artifact itself).
pub proof fn lemma_put_then_get(
    m: Map<(Seq<char>, Seq<char>, EcdsaStruct), ArtifactModel>,
    customer_id: Seq<char>,
    id: Seq<char>,
    tag: EcdsaStruct,
    value: ArtifactModel,
)
    ensures
        m.insert((customer_id, id, tag), value).contains_key((customer_id, id, tag)),
        m.insert((customer_id, id, tag), value)[(customer_id, id, tag)] == value,
{
}

/// Minting then parsing a cross-session identifier recovers exactly the
/// session id and sub-session id, provided the session id holds no
/// comma; the sub-session id is a minted UUID and never holds one.
pub proof fn lemma_ssid_round_trip(id: Seq<char>, sid: Seq<char>)
    requires
        count_char(id, ',') == 0,
        count_char(sid, ',') == 0,
    ensures
        count_char(id + ","@ + sid, ',') == 1,
        ssid_id(id + ","@ + sid) == id,
        ssid_sid(id + ","@ + sid) == sid,
{
    lemma_count_concat(id + ","@, sid, ',');
    lemma_count_concat(id, ","@, ',');
    lemma_count_single_comma();
    let s = id + ","@ + sid;
    let w = (id, sid);
    assert(s == w.0 + ","@ + w.1 && count_char(w.0, ',') == 0 && count_char(w.1, ',') == 0);
    assert(exists|p: (Seq<char>, Seq<char>)|
        s == p.0 + ","@ + p.1 && count_char(p.0, ',') == 0 && count_char(p.1, ',') == 0);
    let p = ssid_split(s);
    assert(s == p.0 + ","@ + p.1 && count_char(p.0, ',') == 0 && count_char(p.1, ',') == 0);
    lemma_split_unique(id, sid, p.0, p.1);
}

} // verus!
