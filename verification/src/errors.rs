//! The error messages the service surfaces, each built against an exact
//! specification of its text.

use vstd::prelude::*;

use crate::types::{EcdsaStruct, tag_name};

verus! {

/// Message reported when a round needs an artifact that an earlier round
/// should have persisted and the slot is empty.
pub open spec fn required_error_spec(t: EcdsaStruct, customer_id: Seq<char>, id: Seq<char>) -> Seq<
    char,
> {
    "Value from "@ + tag_name(t) + " with customerId: "@ + customer_id + ", id: "@ + id
        + " is required"@
}

/// Builds the missing-precondition message for `(tag, customer_id, id)`.
pub fn required_error(tag: &EcdsaStruct, customer_id: &String, id: &String) -> (r: String)
    ensures
        r@ == required_error_spec(*tag, customer_id@, id@),
{
    let mut r = String::from_str("Value from ");
    let name = tag.to_string();
    r.append(name.as_str());
    r.append(" with customerId: ");
    r.append(customer_id.as_str());
    r.append(", id: ");
    r.append(id.as_str());
    r.append(" is required");
    r
}

/// Message refusing KeyGen for a customer that already holds an active share.
pub open spec fn active_share_error_spec(customer_id: Seq<char>) -> Seq<char> {
    "customerId "@ + customer_id + " already has an active share, abort KeyGen"@
}

/// Builds the active-share refusal for `customer_id`.
pub fn active_share_error(customer_id: &String) -> (r: String)
    ensures
        r@ == active_share_error_spec(customer_id@),
{
    let mut r = String::from_str("customerId ");
    r.append(customer_id.as_str());
    r.append(" already has an active share, abort KeyGen");
    r
}

/// Message refusing a sign attempt on a tainted session.
pub open spec fn blocked_error_spec(customer_id: Seq<char>) -> Seq<char> {
    "customer_id "@ + customer_id + " exists in Abort table and thus is blocked"@
}

/// Builds the tainted-session refusal for `customer_id`.
pub fn blocked_error(customer_id: &String) -> (r: String)
    ensures
        r@ == blocked_error_spec(customer_id@),
{
    let mut r = String::from_str("customer_id ");
    r.append(customer_id.as_str());
    r.append(" exists in Abort table and thus is blocked");
    r
}

/// Message refusing a same-session sign whose transaction was not granted.
pub open spec fn unauthorized_error_spec(customer_id: Seq<char>, id: Seq<char>) -> Seq<char> {
    "Unauthorized transaction from redis-pps for customer_id "@ + customer_id + ", id "@ + id
        + ":"@
}

/// Builds the transaction-authorization refusal for `(customer_id, id)`.
pub fn unauthorized_error(customer_id: &String, id: &String) -> (r: String)
    ensures
        r@ == unauthorized_error_spec(customer_id@, id@),
{
    let mut r = String::from_str("Unauthorized transaction from redis-pps for customer_id ");
    r.append(customer_id.as_str());
    r.append(", id ");
    r.append(id.as_str());
    r.append(":");
    r
}

/// Message refusing a cross-session sign whose transaction was not granted.
pub open spec fn unauthorized_ssid_error_spec(ssid: Seq<char>) -> Seq<char> {
    "Unauthorized transaction from redis-pps: "@ + ssid
}

/// Builds the transaction-authorization refusal for `ssid`.
pub fn unauthorized_ssid_error(ssid: &String) -> (r: String)
    ensures
        r@ == unauthorized_ssid_error_spec(ssid@),
{
    let mut r = String::from_str("Unauthorized transaction from redis-pps: ");
    r.append(ssid.as_str());
    r
}

/// Message surfaced after a same-session signature verification failure,
/// once the session has been tainted.
pub open spec fn sign_failed_error_spec(customer_id: Seq<char>, id: Seq<char>) -> Seq<char> {
    "sign_second failed for customer_id "@ + customer_id + ", id "@ + id
        + ". Inserted into Abort table"@
}

/// Builds the sign-failure message for `(customer_id, id)`.
pub fn sign_failed_error(customer_id: &String, id: &String) -> (r: String)
    ensures
        r@ == sign_failed_error_spec(customer_id@, id@),
{
    let mut r = String::from_str("sign_second failed for customer_id ");
    r.append(customer_id.as_str());
    r.append(", id ");
    r.append(id.as_str());
    r.append(". Inserted into Abort table");
    r
}

/// Message surfaced after a cross-session signature verification failure,
/// once the session has been tainted.
pub open spec fn sign_failed_ssid_error_spec(
    customer_id: Seq<char>,
    ssid: Seq<char>,
    id: Seq<char>,
    sid: Seq<char>,
) -> Seq<char> {
    "sign_second failed for customer_id "@ + customer_id + ", ssid "@ + ssid + ", id: "@ + id
        + ", sid: "@ + sid + ". Inserted into Abort table"@
}

/// Builds the cross-session sign-failure message.
pub fn sign_failed_ssid_error(
    customer_id: &String,
    ssid: &String,
    id: &String,
    sid: &String,
) -> (r: String)
    ensures
        r@ == sign_failed_ssid_error_spec(customer_id@, ssid@, id@, sid@),
{
    let mut r = String::from_str("sign_second failed for customer_id ");
    r.append(customer_id.as_str());
    r.append(", ssid ");
    r.append(ssid.as_str());
    r.append(", id: ");
    r.append(id.as_str());
    r.append(", sid: ");
    r.append(sid.as_str());
    r.append(". Inserted into Abort table");
    r
}

/// Message surfaced when the final rotation round fails verification; the
/// master key is left untouched.
pub open spec fn rotation_failed_error_spec(customer_id: Seq<char>, id: Seq<char>) -> Seq<char> {
    "rotation failed for customerId: "@ + customer_id + ", id: "@ + id
}

/// Builds the rotation-failure message for `(customer_id, id)`.
pub fn rotation_failed_error(customer_id: &String, id: &String) -> (r: String)
    ensures
        r@ == rotation_failed_error_spec(customer_id@, id@),
{
    let mut r = String::from_str("rotation failed for customerId: ");
    r.append(customer_id.as_str());
    r.append(", id: ");
    r.append(id.as_str());
    r
}

/// Message refusing a malformed cross-session identifier.
pub open spec fn ssid_shape_error_spec() -> Seq<char> {
    "ssid must include only two values: id,sid"@
}

/// Builds the malformed-ssid message.
pub fn ssid_shape_error() -> (r: String)
    ensures
        r@ == ssid_shape_error_spec(),
{
    String::from_str("ssid must include only two values: id,sid")
}

/// Message naming a scratch-store read that found no value under its key.
pub open spec fn scratch_missing_error_spec(key: Seq<char>) -> Seq<char> {
    "Failed getting from scratch store at key ["@ + key + "]: no value"@
}

/// Builds the scratch-store missing-value message for `key`.
pub fn scratch_missing_error(key: &String) -> (r: String)
    ensures
        r@ == scratch_missing_error_spec(key@),
{
    let mut r = String::from_str("Failed getting from scratch store at key [");
    r.append(key.as_str());
    r.append("]: no value");
    r
}

} // verus!
