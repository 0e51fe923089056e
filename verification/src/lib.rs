//! Kaloron: a schema-first type-shape library with version-gated lifecycles,
//! and the decision logic of its hx RPC protocol.
//!
//! The schema side describes values (`Schema`) and the lifecycle of each
//! field, variant, method and service (`VersionRange`), and digests the
//! shape visible at a version into an effective schema hash. The protocol
//! side decides, without doing I/O, how sessions are negotiated, how calls
//! are numbered, dispatched and answered, and how frames are cut.

pub mod version;
pub mod wire;
pub mod schema;
pub mod schema_copy;
pub mod activation;
pub mod service;
pub mod typeshape;
pub mod tuples;
pub mod gated;
pub mod receive;
pub mod accept;
pub mod error;
pub mod call;
pub mod text;
pub mod message;
pub mod framing;
pub mod negotiation;
pub mod endpoint;
pub mod server;
pub mod client;

pub use crate::call::InFlightCallIds;
pub use crate::error::RpcError;
pub use crate::gated::Gated;
pub use crate::schema::{
    EnumSchema, Field, NamedStructSchema, NewTypeStructSchema, Primitive, Schema,
    TupleStructSchema, UnitStructSchema, Variant, VariantKind,
};
pub use crate::service::{MethodSchema, ServiceSchema};
pub use crate::typeshape::{
    MarkerCompositeTypeShapeEnum, MarkerCompositeTypeShapeNamedStruct,
    MarkerCompositeTypeShapeNewTypeStruct, MarkerCompositeTypeShapeTupleStruct, ServiceFactory,
    TypeShape,
};
pub use crate::version::{
    binary_search_activation, ActivationState, DeprecationSpan, Version, VersionActivationEntry,
    VersionRange,
};
