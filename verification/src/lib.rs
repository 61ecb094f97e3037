//! A static analyzer for Kubernetes deployment descriptors. It looks for
//! four architectural smells in a set of manifests, and can propose the
//! manifests that remove them:
//!
//! - a workload with more than one container of its own
//!   ([`multiple_containers`]),
//! - a workload that can be reached past any gateway ([`no_apigateway`]),
//! - an invoked service that is reached on its node and not through a
//!   Service ([`endpoint_based`]),
//! - a call that neither a circuit breaker nor a routing policy protects
//!   ([`wobbly`]).
//!
//! The rules read a model of the manifests ([`k8s_types`]), the
//! configuration and the catalog of known images ([`config_type`]) and,
//! where there is one, a model of the architecture ([`tosca_types`]). They
//! write nothing: each rule returns an [`report::Outcome`] that says what it
//! found and which manifests it would write.

pub mod text;
pub mod k8s_types;
pub mod config_type;
pub mod tosca_types;
pub mod report;
pub mod yaml_handler;
pub mod classifier;
pub mod topology;
pub mod multiple_containers;
pub mod no_apigateway;
pub mod endpoint_based;
pub mod wobbly;
pub mod cmd_handler;
