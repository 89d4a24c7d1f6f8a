//! Enforcer policy objects and the argument types of enforcement queries.

use vstd::prelude::*;
use crate::sdk::Model;

verus! {

/// A policy enforcer resource of the remote service.
#[derive(Debug, Clone, PartialEq, Eq)]
pub struct Enforcer {
    pub owner: String,
    pub name: String,
    pub display_name: String,
    pub description: String,
    pub model: String,
    pub adapter: String,
    pub model_cfg: std::collections::HashMap<String, String>,
    pub created_time: String,
    pub updated_time: String,
}

impl Default for Enforcer {
    fn default() -> (r: Self)
        ensures
            r.owner@ == Seq::<char>::empty(),
            r.name@ == Seq::<char>::empty(),
            r.display_name@ == Seq::<char>::empty(),
            r.description@ == Seq::<char>::empty(),
            r.model@ == Seq::<char>::empty(),
            r.adapter@ == Seq::<char>::empty(),
            r.model_cfg@ == Map::<String, String>::empty(),
            r.created_time@ == Seq::<char>::empty(),
            r.updated_time@ == Seq::<char>::empty(),
    {
        Enforcer {
            owner: String::new(),
            name: String::new(),
            display_name: String::new(),
            description: String::new(),
            model: String::new(),
            adapter: String::new(),
            model_cfg: std::collections::HashMap::new(),
            created_time: String::new(),
            updated_time: String::new(),
        }
    }
}

impl Model for Enforcer {
    open spec fn spec_ident() -> Seq<char> {
        "enforcer"@
    }

    open spec fn spec_plural_ident() -> Seq<char> {
        "enforcers"@
    }

    open spec fn spec_support_update_columns() -> bool {
        false
    }

    open spec fn spec_owner(&self) -> Seq<char> {
        self.owner@
    }

    open spec fn spec_name(&self) -> Seq<char> {
        self.name@
    }

    fn ident() -> (r: &'static str) {
        "enforcer"
    }

    fn plural_ident() -> (r: &'static str) {
        "enforcers"
    }

    fn support_update_columns() -> (r: bool) {
        false
    }

    fn owner(&self) -> (r: &str) {
        &self.owner
    }

    fn name(&self) -> (r: &str) {
        &self.name
    }
}

/// Identifiers selecting which enforcer answers an enforcement query.
#[derive(Debug, Clone, PartialEq, Eq)]
pub struct EnforceQueryArgs {
    pub permission_id: Option<String>,
    pub model_id: Option<String>,
    pub resource_id: Option<String>,
    pub enforcer_id: Option<String>,
}

impl Default for EnforceQueryArgs {
    fn default() -> (r: Self)
        ensures
            r.permission_id is None,
            r.model_id is None,
            r.resource_id is None,
            r.enforcer_id is None,
    {
        EnforceQueryArgs {
            permission_id: None,
            model_id: None,
            resource_id: None,
            enforcer_id: None,
        }
    }
}

/// One access request handed to the enforcer, as a tuple of strings
/// (typically subject, object and action).
pub type CasbinRequest = Vec<String>;

/// A single enforcement call: which enforcer to ask, and the request.
#[derive(Debug, Clone, PartialEq, Eq)]
pub struct EnforceArgs {
    pub query: EnforceQueryArgs,
    pub casbin_request: CasbinRequest,
}

impl Default for EnforceArgs {
    fn default() -> (r: Self)
        ensures
            r.query.permission_id is None,
            r.query.model_id is None,
            r.query.resource_id is None,
            r.query.enforcer_id is None,
            r.casbin_request@ == Seq::<String>::empty(),
    {
        EnforceArgs { query: EnforceQueryArgs::default(), casbin_request: Vec::new() }
    }
}

/// Identifiers selecting which enforcer answers a batch enforcement query.
#[derive(Debug, Clone, PartialEq, Eq)]
pub struct BatchEnforceQueryArgs {
    pub permission_id: Option<String>,
    pub model_id: Option<String>,
    pub enforcer_id: Option<String>,
}

impl Default for BatchEnforceQueryArgs {
    fn default() -> (r: Self)
        ensures
            r.permission_id is None,
            r.model_id is None,
            r.enforcer_id is None,
    {
        BatchEnforceQueryArgs {
            permission_id: None,
            model_id: None,
            enforcer_id: None,
        }
    }
}

/// A batch enforcement call: which enforcer to ask, and the requests.
#[derive(Debug, Clone, PartialEq, Eq)]
pub struct BatchEnforceArgs {
    pub query: BatchEnforceQueryArgs,
    pub casbin_requests: Vec<CasbinRequest>,
}

impl Default for BatchEnforceArgs {
    fn default() -> (r: Self)
        ensures
            r.query.permission_id is None,
            r.query.model_id is None,
            r.query.enforcer_id is None,
            r.casbin_requests@ == Seq::<CasbinRequest>::empty(),
    {
        BatchEnforceArgs { query: BatchEnforceQueryArgs::default(), casbin_requests: Vec::new() }
    }
}

} // verus!
