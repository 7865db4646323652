//! The identifiers every other crate keys by.
//!
//! Every identifier is a UUIDv7 held as a `u128`: the newtype stops one kind
//! of identifier being passed where another belongs, and the UUIDv7 makes it
//! sort by creation time. Its text is the canonical UUID form, 8-4-4-4-12.

use vstd::prelude::*;
use crate::uuid_text::{canonical_text, canonical_uuid_text, parse_uuid, uuid_text_value};

verus! {

/// What arrived, as one unit.
#[derive(Clone, Copy, Debug, PartialEq, Eq, Structural, Hash, PartialOrd, Ord)]
pub struct StreamId(pub u128);

impl StreamId {
    pub fn new(value: u128) -> (r: Self)
        ensures
            r.0 == value,
    {
        Self(value)
    }

    pub fn value(self) -> (r: u128)
        ensures
            r == self.0,
    {
        self.0
    }

    /// Canonical UUID form, 8-4-4-4-12.
    pub fn to_string(&self) -> (r: String)
        ensures
            r@ == canonical_uuid_text(self.0),
    {
        canonical_text(self.0)
    }
}

impl std::str::FromStr for StreamId {
    type Err = String;

    fn from_str(text: &str) -> (r: Result<Self, String>)
        ensures
            match r {
                Ok(id) => uuid_text_value(text@) == Ok::<u128, Seq<char>>(id.0),
                Err(m) => uuid_text_value(text@) == Err::<u128, Seq<char>>(m@),
            },
    {
        match parse_uuid(text) {
            Ok(v) => Ok(Self(v)),
            Err(m) => Err(m),
        }
    }
}

/// A Message made from a Stream.
#[derive(Clone, Copy, Debug, PartialEq, Eq, Structural, Hash, PartialOrd, Ord)]
pub struct MessageId(pub u128);

impl MessageId {
    pub fn new(value: u128) -> (r: Self)
        ensures
            r.0 == value,
    {
        Self(value)
    }

    pub fn value(self) -> (r: u128)
        ensures
            r == self.0,
    {
        self.0
    }

    /// Canonical UUID form, 8-4-4-4-12.
    pub fn to_string(&self) -> (r: String)
        ensures
            r@ == canonical_uuid_text(self.0),
    {
        canonical_text(self.0)
    }
}

impl std::str::FromStr for MessageId {
    type Err = String;

    fn from_str(text: &str) -> (r: Result<Self, String>)
        ensures
            match r {
                Ok(id) => uuid_text_value(text@) == Ok::<u128, Seq<char>>(id.0),
                Err(m) => uuid_text_value(text@) == Err::<u128, Seq<char>>(m@),
            },
    {
        match parse_uuid(text) {
            Ok(v) => Ok(Self(v)),
            Err(m) => Err(m),
        }
    }
}

/// The path a Message takes end to end.
#[derive(Clone, Copy, Debug, PartialEq, Eq, Structural, Hash, PartialOrd, Ord)]
pub struct JourneyId(pub u128);

impl JourneyId {
    pub fn new(value: u128) -> (r: Self)
        ensures
            r.0 == value,
    {
        Self(value)
    }

    pub fn value(self) -> (r: u128)
        ensures
            r == self.0,
    {
        self.0
    }

    /// Canonical UUID form, 8-4-4-4-12.
    pub fn to_string(&self) -> (r: String)
        ensures
            r@ == canonical_uuid_text(self.0),
    {
        canonical_text(self.0)
    }
}

impl std::str::FromStr for JourneyId {
    type Err = String;

    fn from_str(text: &str) -> (r: Result<Self, String>)
        ensures
            match r {
                Ok(id) => uuid_text_value(text@) == Ok::<u128, Seq<char>>(id.0),
                Err(m) => uuid_text_value(text@) == Err::<u128, Seq<char>>(m@),
            },
    {
        match parse_uuid(text) {
            Ok(v) => Ok(Self(v)),
            Err(m) => Err(m),
        }
    }
}

/// One section of a Journey.
#[derive(Clone, Copy, Debug, PartialEq, Eq, Structural, Hash, PartialOrd, Ord)]
pub struct SectionId(pub u128);

impl SectionId {
    pub fn new(value: u128) -> (r: Self)
        ensures
            r.0 == value,
    {
        Self(value)
    }

    pub fn value(self) -> (r: u128)
        ensures
            r == self.0,
    {
        self.0
    }

    /// Canonical UUID form, 8-4-4-4-12.
    pub fn to_string(&self) -> (r: String)
        ensures
            r@ == canonical_uuid_text(self.0),
    {
        canonical_text(self.0)
    }
}

impl std::str::FromStr for SectionId {
    type Err = String;

    fn from_str(text: &str) -> (r: Result<Self, String>)
        ensures
            match r {
                Ok(id) => uuid_text_value(text@) == Ok::<u128, Seq<char>>(id.0),
                Err(m) => uuid_text_value(text@) == Err::<u128, Seq<char>>(m@),
            },
    {
        match parse_uuid(text) {
            Ok(v) => Ok(Self(v)),
            Err(m) => Err(m),
        }
    }
}

/// A deployed artifact.
#[derive(Clone, Copy, Debug, PartialEq, Eq, Structural, Hash, PartialOrd, Ord)]
pub struct ArtifactId(pub u128);

impl ArtifactId {
    pub fn new(value: u128) -> (r: Self)
        ensures
            r.0 == value,
    {
        Self(value)
    }

    pub fn value(self) -> (r: u128)
        ensures
            r == self.0,
    {
        self.0
    }

    /// Canonical UUID form, 8-4-4-4-12.
    pub fn to_string(&self) -> (r: String)
        ensures
            r@ == canonical_uuid_text(self.0),
    {
        canonical_text(self.0)
    }
}

impl std::str::FromStr for ArtifactId {
    type Err = String;

    fn from_str(text: &str) -> (r: Result<Self, String>)
        ensures
            match r {
                Ok(id) => uuid_text_value(text@) == Ok::<u128, Seq<char>>(id.0),
                Err(m) => uuid_text_value(text@) == Err::<u128, Seq<char>>(m@),
            },
    {
        match parse_uuid(text) {
            Ok(v) => Ok(Self(v)),
            Err(m) => Err(m),
        }
    }
}

/// One execution of an artifact.
#[derive(Clone, Copy, Debug, PartialEq, Eq, Structural, Hash, PartialOrd, Ord)]
pub struct ExecutionId(pub u128);

impl ExecutionId {
    pub fn new(value: u128) -> (r: Self)
        ensures
            r.0 == value,
    {
        Self(value)
    }

    pub fn value(self) -> (r: u128)
        ensures
            r == self.0,
    {
        self.0
    }

    /// Canonical UUID form, 8-4-4-4-12.
    pub fn to_string(&self) -> (r: String)
        ensures
            r@ == canonical_uuid_text(self.0),
    {
        canonical_text(self.0)
    }
}

impl std::str::FromStr for ExecutionId {
    type Err = String;

    fn from_str(text: &str) -> (r: Result<Self, String>)
        ensures
            match r {
                Ok(id) => uuid_text_value(text@) == Ok::<u128, Seq<char>>(id.0),
                Err(m) => uuid_text_value(text@) == Err::<u128, Seq<char>>(m@),
            },
    {
        match parse_uuid(text) {
            Ok(v) => Ok(Self(v)),
            Err(m) => Err(m),
        }
    }
}

/// One audit record.
#[derive(Clone, Copy, Debug, PartialEq, Eq, Structural, Hash, PartialOrd, Ord)]
pub struct AuditId(pub u128);

impl AuditId {
    pub fn new(value: u128) -> (r: Self)
        ensures
            r.0 == value,
    {
        Self(value)
    }

    pub fn value(self) -> (r: u128)
        ensures
            r == self.0,
    {
        self.0
    }

    /// Canonical UUID form, 8-4-4-4-12.
    pub fn to_string(&self) -> (r: String)
        ensures
            r@ == canonical_uuid_text(self.0),
    {
        canonical_text(self.0)
    }
}

impl std::str::FromStr for AuditId {
    type Err = String;

    fn from_str(text: &str) -> (r: Result<Self, String>)
        ensures
            match r {
                Ok(id) => uuid_text_value(text@) == Ok::<u128, Seq<char>>(id.0),
                Err(m) => uuid_text_value(text@) == Err::<u128, Seq<char>>(m@),
            },
    {
        match parse_uuid(text) {
            Ok(v) => Ok(Self(v)),
            Err(m) => Err(m),
        }
    }
}

/// A node of a deployment.
#[derive(Clone, Copy, Debug, PartialEq, Eq, Structural, Hash, PartialOrd, Ord)]
pub struct NodeId(pub u128);

impl NodeId {
    pub fn new(value: u128) -> (r: Self)
        ensures
            r.0 == value,
    {
        Self(value)
    }

    pub fn value(self) -> (r: u128)
        ensures
            r == self.0,
    {
        self.0
    }

    /// Canonical UUID form, 8-4-4-4-12.
    pub fn to_string(&self) -> (r: String)
        ensures
            r@ == canonical_uuid_text(self.0),
    {
        canonical_text(self.0)
    }
}

impl std::str::FromStr for NodeId {
    type Err = String;

    fn from_str(text: &str) -> (r: Result<Self, String>)
        ensures
            match r {
                Ok(id) => uuid_text_value(text@) == Ok::<u128, Seq<char>>(id.0),
                Err(m) => uuid_text_value(text@) == Err::<u128, Seq<char>>(m@),
            },
    {
        match parse_uuid(text) {
            Ok(v) => Ok(Self(v)),
            Err(m) => Err(m),
        }
    }
}

/// A cluster of nodes.
#[derive(Clone, Copy, Debug, PartialEq, Eq, Structural, Hash, PartialOrd, Ord)]
pub struct ClusterId(pub u128);

impl ClusterId {
    pub fn new(value: u128) -> (r: Self)
        ensures
            r.0 == value,
    {
        Self(value)
    }

    pub fn value(self) -> (r: u128)
        ensures
            r == self.0,
    {
        self.0
    }

    /// Canonical UUID form, 8-4-4-4-12.
    pub fn to_string(&self) -> (r: String)
        ensures
            r@ == canonical_uuid_text(self.0),
    {
        canonical_text(self.0)
    }
}

impl std::str::FromStr for ClusterId {
    type Err = String;

    fn from_str(text: &str) -> (r: Result<Self, String>)
        ensures
            match r {
                Ok(id) => uuid_text_value(text@) == Ok::<u128, Seq<char>>(id.0),
                Err(m) => uuid_text_value(text@) == Err::<u128, Seq<char>>(m@),
            },
    {
        match parse_uuid(text) {
            Ok(v) => Ok(Self(v)),
            Err(m) => Err(m),
        }
    }
}

/// A Party, the identity holder in both directions.
#[derive(Clone, Copy, Debug, PartialEq, Eq, Structural, Hash, PartialOrd, Ord)]
pub struct PartyId(pub u128);

impl PartyId {
    pub fn new(value: u128) -> (r: Self)
        ensures
            r.0 == value,
    {
        Self(value)
    }

    pub fn value(self) -> (r: u128)
        ensures
            r == self.0,
    {
        self.0
    }

    /// Canonical UUID form, 8-4-4-4-12.
    pub fn to_string(&self) -> (r: String)
        ensures
            r@ == canonical_uuid_text(self.0),
    {
        canonical_text(self.0)
    }
}

impl std::str::FromStr for PartyId {
    type Err = String;

    fn from_str(text: &str) -> (r: Result<Self, String>)
        ensures
            match r {
                Ok(id) => uuid_text_value(text@) == Ok::<u128, Seq<char>>(id.0),
                Err(m) => uuid_text_value(text@) == Err::<u128, Seq<char>>(m@),
            },
    {
        match parse_uuid(text) {
            Ok(v) => Ok(Self(v)),
            Err(m) => Err(m),
        }
    }
}

} // verus!
