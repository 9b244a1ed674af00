//! Resource descriptors and request synthesis for a Kubernetes-style REST
//! API.
//!
//! A [`CustomResource`] names a resource type by kind, API group and version,
//! optionally within a namespace. A [`RawApi`] turns it, a verb and the
//! verb's parameters into a [`RequestSpec`]: method, path, query and body.
//! Nothing here performs any I/O.

pub mod crds;
pub mod params;
pub mod query;
pub mod raw;
pub mod request;
pub mod text;
pub mod typed;

pub use crds::{BuildError, CrBuilder, CustomResource};
pub use params::{FieldValidation, ListParams, PatchParams, PatchStrategy, PostParams};
pub use raw::RawApi;
pub use request::{Method, RequestError, RequestSpec};
pub use typed::Api;
