//! The reconciliation core of a controller that keeps user-account resources
//! of a cluster in step with the accounts of a remote database service.
//!
//! The library decides and its caller acts. Every function takes a resource,
//! and where something was asked of the outside also the answer, and says
//! what is to happen next: which call to make, which status to write, when to
//! look at the resource again. The caller makes the calls to the remote
//! service and to the cluster and comes back with what they answered.
//!
//! [`operator`] dispatches a resource by its metadata and keeps the finalizer
//! that holds back deletion. [`atlas::context`] decides what applying a
//! resource and cleaning up after it ask of the remote service, and
//! [`atlas::repository`] says where each call goes and how its response is to
//! be read. [`atlas::reconcile`] chains the decisions into whole reconciles
//! and states what holds of all of them. [`crd`] is the resource itself.

pub mod atlas;
pub mod config;
pub mod control_loop_watcher;
pub mod crd;
pub mod k8s;
pub mod operator;
