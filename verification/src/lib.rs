//! Core Xmip identifiers, shared types and stable public contracts: the
//! identifiers every other crate keys by, the `Severity` and `ExecutionPhase`
//! every audit record carries, `ExecutionScope`, the `Clock` and
//! `IdGenerator` traits, and the identity vocabulary the three gates share.
#![allow(unused_imports)]

pub mod text;
pub mod uuid_text;
pub mod ids;
pub mod scope;
pub mod generator;
pub mod credential;
pub mod direction;
pub mod established;
pub mod purpose;
pub mod mechanism;
pub mod isolation;

pub use ids::{
    ArtifactId, AuditId, ClusterId, ExecutionId, JourneyId, MessageId, NodeId, PartyId,
    SectionId, StreamId,
};
pub use scope::{ArtifactRef, ExecutionPhase, ExecutionScope, Severity};
pub use generator::{Clock, IdGenerator, UuidV7Generator};
pub use uuid_text::parse_uuid;
pub use credential::CredentialRef;
pub use direction::{Arriving, Departing};
pub use established::Established;
pub use purpose::Purpose;
pub use mechanism::{Assurance, IdentityClass, Layer, Mechanism};
pub use isolation::IdentityContext;
