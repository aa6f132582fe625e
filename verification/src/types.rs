//! Common identifier types and the artifact-tag enumeration shared by the
//! session store and the protocol state machines.

use vstd::prelude::*;

verus! {

/// The authenticated caller; `sub` carries the customer identifier.
#[derive(Debug, Clone)]
pub struct Claims {
    pub sub: String,
}

/// Typed database failures, each carrying a numeric backend code.
#[derive(Debug, Clone, Copy, PartialEq, Eq, Structural)]
pub enum DatabaseError {
    /// Failed to open the database.
    ConnectionError(i32),
    /// Failed to create a table.
    TableCreationError(i32),
    /// Failed to write a value.
    InsertError(i32),
    /// Failed to read a value.
    ReadError(i32),
    /// Failed to delete a `(key, value)` pair.
    DeleteError(i32),
    /// Bad store configuration.
    ConfigError(i32),
}

/// Which backend keeps the protocol state between rounds.
#[derive(Debug, Clone, Copy, PartialEq, Eq, Structural)]
pub enum DbConnector {
    RocksDB,
    DynamoDB,
    Redis,
}

/// How incoming requests are authorized.
#[derive(Debug, Clone, Copy, PartialEq, Eq, Structural)]
pub enum Authenticator {
    /// Passthrough mode: authentication happens at the transport level.
    Passthrough,
    /// Verification with a valid JWT.
    Jwt,
}

/// Index of a session in the store: the customer and the session id minted
/// by the first KeyGen round.
#[allow(non_snake_case)]
#[derive(Debug, Clone, PartialEq)]
pub struct DbIndex {
    pub customerId: String,
    pub id: String,
}

/// The artifact tags: one per kind of value a session slot can hold.
#[derive(Debug, Clone, Copy, PartialEq, Eq, Structural)]
pub enum EcdsaStruct {
    KeyGenFirstMsg,
    CommWitness,
    EcKeyPair,
    PaillierKeyPair,
    Party1Private,
    Party2Public,

    PDLDecommit,
    Alpha,
    Party2PDLFirstMsg,

    CCKeyGenFirstMsg,
    CCCommWitness,
    CCEcKeyPair,
    CC,

    Party1MasterKey,

    EphEcKeyPair,
    EphKeyGenFirstMsg,

    RotateCommitMessage1,
    RotateRandom1,
    RotateFirstMsg,
    RotatePrivateNew,
    RotatePdlDecom,
    RotateParty2First,
    RotateParty1Second,
    RotateAlpha,

    POS,
    Abort,
}

/// The printed name of a tag, used in flat store keys and error messages.
pub open spec fn tag_name(t: EcdsaStruct) -> Seq<char> {
    match t {
        EcdsaStruct::KeyGenFirstMsg => "KeyGenFirstMsg"@,
        EcdsaStruct::CommWitness => "CommWitness"@,
        EcdsaStruct::EcKeyPair => "EcKeyPair"@,
        EcdsaStruct::PaillierKeyPair => "PaillierKeyPair"@,
        EcdsaStruct::Party1Private => "Party1Private"@,
        EcdsaStruct::Party2Public => "Party2Public"@,
        EcdsaStruct::PDLDecommit => "PDLDecommit"@,
        EcdsaStruct::Alpha => "Alpha"@,
        EcdsaStruct::Party2PDLFirstMsg => "Party2PDLFirstMsg"@,
        EcdsaStruct::CCKeyGenFirstMsg => "CCKeyGenFirstMsg"@,
        EcdsaStruct::CCCommWitness => "CCCommWitness"@,
        EcdsaStruct::CCEcKeyPair => "CCEcKeyPair"@,
        EcdsaStruct::CC => "CC"@,
        EcdsaStruct::Party1MasterKey => "Party1MasterKey"@,
        EcdsaStruct::EphEcKeyPair => "EphEcKeyPair"@,
        EcdsaStruct::EphKeyGenFirstMsg => "EphKeyGenFirstMsg"@,
        EcdsaStruct::RotateCommitMessage1 => "RotateCommitMessage1"@,
        EcdsaStruct::RotateRandom1 => "RotateRandom1"@,
        EcdsaStruct::RotateFirstMsg => "RotateFirstMsg"@,
        EcdsaStruct::RotatePrivateNew => "RotatePrivateNew"@,
        EcdsaStruct::RotatePdlDecom => "RotatePdlDecom"@,
        EcdsaStruct::RotateParty2First => "RotateParty2First"@,
        EcdsaStruct::RotateParty1Second => "RotateParty1Second"@,
        EcdsaStruct::RotateAlpha => "RotateAlpha"@,
        EcdsaStruct::POS => "POS"@,
        EcdsaStruct::Abort => "Abort"@,
    }
}

/// The concrete type name bound to a tag: a value stored under the tag
/// deserializes as exactly this type.
pub open spec fn struct_name_of(t: EcdsaStruct) -> Seq<char> {
    match t {
        EcdsaStruct::KeyGenFirstMsg => "Party1KeyGenFirstMessage"@,
        EcdsaStruct::CommWitness => "Party1CommWitness"@,
        EcdsaStruct::EcKeyPair => "Party1EcKeyPair"@,
        EcdsaStruct::PaillierKeyPair => "Party1PaillierKeyPair"@,
        EcdsaStruct::Party1Private => "Party1Private"@,
        EcdsaStruct::Party2Public => "Secp256k1Point"@,
        EcdsaStruct::PDLDecommit => "Party1PDLDecommit"@,
        EcdsaStruct::Alpha => "Alpha"@,
        EcdsaStruct::Party2PDLFirstMsg => "Party2PDLFirstMessage"@,
        EcdsaStruct::CCKeyGenFirstMsg => "DHPoKParty1FirstMessage"@,
        EcdsaStruct::CCCommWitness => "DHPoKCommWitness"@,
        EcdsaStruct::CCEcKeyPair => "DHPoKEcKeyPair"@,
        EcdsaStruct::CC => "ChainCode1"@,
        EcdsaStruct::Party1MasterKey => "MasterKey1"@,
        EcdsaStruct::EphEcKeyPair => "Party1EphEcKeyPair"@,
        EcdsaStruct::EphKeyGenFirstMsg => "Party2EphKeyGenFirstMessage"@,
        EcdsaStruct::RotateCommitMessage1 => "RotateCommitMessage1"@,
        EcdsaStruct::RotateRandom1 => "Rotation"@,
        EcdsaStruct::RotateFirstMsg => "RotationParty1Message1"@,
        EcdsaStruct::RotatePrivateNew => "Party1Private"@,
        EcdsaStruct::RotatePdlDecom => "Party1PDLDecommit"@,
        EcdsaStruct::RotateParty2First => "Party2PDLFirstMessage"@,
        EcdsaStruct::RotateParty1Second => "Party1PDLFirstMessage"@,
        EcdsaStruct::RotateAlpha => "RotateAlpha"@,
        EcdsaStruct::POS => "POS"@,
        EcdsaStruct::Abort => "Abort"@,
    }
}

/// The name of the backend table holding values of a tag: kept as
/// `{env}_Party1MasterKey` for the master-key tag for backward
/// compatibility, and `{env}-gotham-{tag}` for every other tag.
pub open spec fn table_name_spec(t: EcdsaStruct, env: Seq<char>) -> Seq<char> {
    if t is Party1MasterKey {
        env + "_"@ + tag_name(t)
    } else {
        env + "-gotham-"@ + tag_name(t)
    }
}

impl EcdsaStruct {
    /// The printed name of this tag.
    pub fn to_string(&self) -> (r: String)
        ensures
            r@ == tag_name(*self),
    {
        match self {
            EcdsaStruct::KeyGenFirstMsg => String::from_str("KeyGenFirstMsg"),
            EcdsaStruct::CommWitness => String::from_str("CommWitness"),
            EcdsaStruct::EcKeyPair => String::from_str("EcKeyPair"),
            EcdsaStruct::PaillierKeyPair => String::from_str("PaillierKeyPair"),
            EcdsaStruct::Party1Private => String::from_str("Party1Private"),
            EcdsaStruct::Party2Public => String::from_str("Party2Public"),
            EcdsaStruct::PDLDecommit => String::from_str("PDLDecommit"),
            EcdsaStruct::Alpha => String::from_str("Alpha"),
            EcdsaStruct::Party2PDLFirstMsg => String::from_str("Party2PDLFirstMsg"),
            EcdsaStruct::CCKeyGenFirstMsg => String::from_str("CCKeyGenFirstMsg"),
            EcdsaStruct::CCCommWitness => String::from_str("CCCommWitness"),
            EcdsaStruct::CCEcKeyPair => String::from_str("CCEcKeyPair"),
            EcdsaStruct::CC => String::from_str("CC"),
            EcdsaStruct::Party1MasterKey => String::from_str("Party1MasterKey"),
            EcdsaStruct::EphEcKeyPair => String::from_str("EphEcKeyPair"),
            EcdsaStruct::EphKeyGenFirstMsg => String::from_str("EphKeyGenFirstMsg"),
            EcdsaStruct::RotateCommitMessage1 => String::from_str("RotateCommitMessage1"),
            EcdsaStruct::RotateRandom1 => String::from_str("RotateRandom1"),
            EcdsaStruct::RotateFirstMsg => String::from_str("RotateFirstMsg"),
            EcdsaStruct::RotatePrivateNew => String::from_str("RotatePrivateNew"),
            EcdsaStruct::RotatePdlDecom => String::from_str("RotatePdlDecom"),
            EcdsaStruct::RotateParty2First => String::from_str("RotateParty2First"),
            EcdsaStruct::RotateParty1Second => String::from_str("RotateParty1Second"),
            EcdsaStruct::RotateAlpha => String::from_str("RotateAlpha"),
            EcdsaStruct::POS => String::from_str("POS"),
            EcdsaStruct::Abort => String::from_str("Abort"),
        }
    }

    /// The name of the backend table that holds values of this tag.
    pub fn to_table_name(&self, env: &str) -> (r: String)
        ensures
            r@ == table_name_spec(*self, env@),
    {
        let mut r = env.to_owned();
        if let EcdsaStruct::Party1MasterKey = self {
            r.append("_");
        } else {
            r.append("-gotham-");
        }
        let name = self.to_string();
        r.append(name.as_str());
        r
    }

    /// Whether rows of this tag are keyed by `(customer_id, session_id)`
    /// rather than by `(session_id)` alone.
    pub fn require_customer_id(&self) -> (r: bool)
        ensures
            r == (*self is Party1MasterKey || *self is Abort),
    {
        matches!(self, EcdsaStruct::Party1MasterKey | EcdsaStruct::Abort)
    }

    /// The concrete type name bound to this tag.
    pub fn to_struct_name(&self) -> (r: String)
        ensures
            r@ == struct_name_of(*self),
    {
        match self {
            EcdsaStruct::KeyGenFirstMsg => String::from_str("Party1KeyGenFirstMessage"),
            EcdsaStruct::CommWitness => String::from_str("Party1CommWitness"),
            EcdsaStruct::EcKeyPair => String::from_str("Party1EcKeyPair"),
            EcdsaStruct::PaillierKeyPair => String::from_str("Party1PaillierKeyPair"),
            EcdsaStruct::Party1Private => String::from_str("Party1Private"),
            EcdsaStruct::Party2Public => String::from_str("Secp256k1Point"),
            EcdsaStruct::PDLDecommit => String::from_str("Party1PDLDecommit"),
            EcdsaStruct::Alpha => String::from_str("Alpha"),
            EcdsaStruct::Party2PDLFirstMsg => String::from_str("Party2PDLFirstMessage"),
            EcdsaStruct::CCKeyGenFirstMsg => String::from_str("DHPoKParty1FirstMessage"),
            EcdsaStruct::CCCommWitness => String::from_str("DHPoKCommWitness"),
            EcdsaStruct::CCEcKeyPair => String::from_str("DHPoKEcKeyPair"),
            EcdsaStruct::CC => String::from_str("ChainCode1"),
            EcdsaStruct::Party1MasterKey => String::from_str("MasterKey1"),
            EcdsaStruct::EphEcKeyPair => String::from_str("Party1EphEcKeyPair"),
            EcdsaStruct::EphKeyGenFirstMsg => String::from_str("Party2EphKeyGenFirstMessage"),
            EcdsaStruct::RotateCommitMessage1 => String::from_str("RotateCommitMessage1"),
            EcdsaStruct::RotateRandom1 => String::from_str("Rotation"),
            EcdsaStruct::RotateFirstMsg => String::from_str("RotationParty1Message1"),
            EcdsaStruct::RotatePrivateNew => String::from_str("Party1Private"),
            EcdsaStruct::RotatePdlDecom => String::from_str("Party1PDLDecommit"),
            EcdsaStruct::RotateParty2First => String::from_str("Party2PDLFirstMessage"),
            EcdsaStruct::RotateParty1Second => String::from_str("Party1PDLFirstMessage"),
            EcdsaStruct::RotateAlpha => String::from_str("RotateAlpha"),
            EcdsaStruct::POS => String::from_str("POS"),
            EcdsaStruct::Abort => String::from_str("Abort"),
        }
    }
}

/// The flat key under which an artifact lives in a single-namespace
/// backend: `customer_id + "_" + id + "_" + tag_name`.
pub open spec fn idify_spec(user_id: Seq<char>, id: Seq<char>, name: EcdsaStruct) -> Seq<char> {
    user_id + "_"@ + id + "_"@ + tag_name(name)
}

/// Builds the flat store key for `(user_id, id, name)`.
pub fn idify(user_id: &String, id: &String, name: &EcdsaStruct) -> (r: String)
    ensures
        r@ == idify_spec(user_id@, id@, *name),
{
    let mut r = user_id.clone();
    r.append("_");
    r.append(id.as_str());
    r.append("_");
    let tag = name.to_string();
    r.append(tag.as_str());
    r
}

} // verus!
