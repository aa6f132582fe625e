//! Artifacts: the values a session slot can hold. The taint marker and the
//! BIP32 position are plain records the state machines read; every
//! cryptographic value is an opaque serialized blob carrying the name of
//! the concrete type it deserializes to.

use vstd::prelude::*;

use crate::types::{EcdsaStruct, struct_name_of};

verus! {

/// Taint marker for a session: once `blocked` is set, further sign
/// attempts on the session are refused.
#[derive(Debug, Clone, Copy, PartialEq, Eq, Structural)]
pub struct Abort {
    pub blocked: bool,
}

/// BIP32 account position, reserved; always written as `pos == 0`.
#[derive(Debug, Clone, Copy, PartialEq, Eq, Structural)]
pub struct HdPos {
    pub pos: u32,
}

/// A serialized protocol value: its self-describing concrete type name
/// and the serialized payload.
#[derive(Debug, Clone)]
pub struct Blob {
    pub struct_name: String,
    pub data: String,
}

/// A value held by one session slot.
#[derive(Debug, Clone)]
pub enum Artifact {
    Abort(Abort),
    Pos(HdPos),
    Blob(Blob),
}

/// Mathematical model of an artifact.
pub enum ArtifactModel {
    Abort { blocked: bool },
    Pos { pos: u32 },
    Blob { struct_name: Seq<char>, data: Seq<char> },
}

impl View for Artifact {
    type V = ArtifactModel;

    open spec fn view(&self) -> ArtifactModel {
        match self {
            Artifact::Abort(a) => ArtifactModel::Abort { blocked: a.blocked },
            Artifact::Pos(p) => ArtifactModel::Pos { pos: p.pos },
            Artifact::Blob(b) => ArtifactModel::Blob {
                struct_name: b.struct_name@,
                data: b.data@,
            },
        }
    }
}

/// The type binding of the store: the artifact under tag `t` holds
/// exactly the kind of value bound to `t`, and for serialized values the
/// recorded type name is the one bound to the tag.
pub open spec fn artifact_matches(t: EcdsaStruct, a: ArtifactModel) -> bool {
    match t {
        EcdsaStruct::Abort => a is Abort,
        EcdsaStruct::POS => a is Pos,
        _ => a matches ArtifactModel::Blob { struct_name, .. } && struct_name == struct_name_of(
            t,
        ),
    }
}

impl Artifact {
    /// Wraps a serialized payload under the type name bound to `tag`.
    pub fn blob_for(tag: &EcdsaStruct, data: String) -> (r: Artifact)
        ensures
            r@ == (ArtifactModel::Blob { struct_name: struct_name_of(*tag), data: data@ }),
    {
        Artifact::Blob(Blob { struct_name: tag.to_struct_name(), data })
    }

    /// The serialized payload, provided this artifact holds a value of the
    /// type bound to `tag`; the cast error of the store layer otherwise.
    pub fn cast_blob(&self, tag: &EcdsaStruct) -> (r: Result<&String, String>)
        ensures
            match r {
                Ok(d) => (self@ matches ArtifactModel::Blob { struct_name, data }
                    && struct_name == struct_name_of(*tag) && d@ == data),
                Err(e) => {
                    &&& !(self@ matches ArtifactModel::Blob { struct_name, .. }
                        && struct_name == struct_name_of(*tag))
                    &&& e@ == cast_error_spec(*tag)
                },
            },
    {
        match self {
            Artifact::Blob(b) => {
                let expected = tag.to_struct_name();
                if b.struct_name == expected {
                    Ok(&b.data)
                } else {
                    Err(cast_error(tag))
                }
            },
            _ => Err(cast_error(tag)),
        }
    }

    /// The taint marker, provided this artifact holds one; the cast error
    /// of the store layer otherwise.
    pub fn cast_abort(&self) -> (r: Result<Abort, String>)
        ensures
            match r {
                Ok(a) => self@ == (ArtifactModel::Abort { blocked: a.blocked }),
                Err(e) => !(self@ is Abort) && e@ == cast_error_spec(EcdsaStruct::Abort),
            },
    {
        match self {
            Artifact::Abort(a) => Ok(*a),
            _ => Err(cast_error(&EcdsaStruct::Abort)),
        }
    }
}

/// The message reported when a stored value does not deserialize as the
/// type bound to the tag it was fetched under.
pub open spec fn cast_error_spec(t: EcdsaStruct) -> Seq<char> {
    "Unable to cast to "@ + struct_name_of(t)
}

/// Builds the cast-failure message for `tag`.
pub fn cast_error(tag: &EcdsaStruct) -> (r: String)
    ensures
        r@ == cast_error_spec(*tag),
{
    let mut r = String::from_str("Unable to cast to ");
    let name = tag.to_struct_name();
    r.append(name.as_str());
    r
}

} // verus!
