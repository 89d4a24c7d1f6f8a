//! Client-side models for a remote identity-and-access-management service:
//! token claims validation, session and enforcer models, and the generic
//! model/query argument types of the SDK.

pub mod authn;
pub mod enforcer;
pub mod sdk;
