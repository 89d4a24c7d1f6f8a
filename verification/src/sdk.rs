//! Generic model and query argument types shared by the SDK's resource
//! helpers.

use vstd::prelude::*;

verus! {

/// A remote resource the SDK can manage. An implementation supplies the
/// identifiers the SDK uses when addressing the resource, and its owner and
/// name, from which the resource's id `owner/name` is formed.
pub trait Model: Sized {
    /// The singular identifier in spec form.
    spec fn spec_ident() -> Seq<char>;

    /// The plural identifier in spec form.
    spec fn spec_plural_ident() -> Seq<char>;

    /// Whether individual columns can be updated one by one, in spec form.
    spec fn spec_support_update_columns() -> bool;

    /// The owner field in spec form.
    spec fn spec_owner(&self) -> Seq<char>;

    /// The name field in spec form.
    spec fn spec_name(&self) -> Seq<char>;

    /// Model identifier, used for splicing URLs.
    fn ident() -> (r: &'static str)
        ensures
            r@ == Self::spec_ident(),
    ;

    /// Models identifier, used for splicing URLs.
    fn plural_ident() -> (r: &'static str)
        ensures
            r@ == Self::spec_plural_ident(),
    ;

    /// Indicate whether this model currently supports updating individual
    /// columns one by one.
    fn support_update_columns() -> (r: bool)
        ensures
            r == Self::spec_support_update_columns(),
    ;

    fn owner(&self) -> (r: &str)
        ensures
            r@ == self.spec_owner(),
    ;

    fn name(&self) -> (r: &str)
        ensures
            r@ == self.spec_name(),
    ;

    fn id(&self) -> (r: String)
        ensures
            r@ == self.spec_owner() + "/"@ + self.spec_name(),
    {
        let mut r = self.owner().to_owned();
        r.append("/");
        r.append(self.name());
        proof {
            assert(r@ =~= self.spec_owner() + "/"@ + self.spec_name());
        }
        r
    }
}

#[derive(Debug, Clone, PartialEq, Eq)]
pub struct ModelModifyArgs<M> {
    pub action: ModelAction,
    pub model: M,
    pub columns: Option<Vec<String>>,
}

#[derive(Debug, Clone, PartialEq, Eq)]
pub struct ModelAddArgs<M> {
    pub model: M,
}

#[derive(Debug, Clone, PartialEq, Eq)]
pub struct ModelUpdateArgs<M> {
    pub model: M,
    pub columns: Vec<String>,
}

#[derive(Debug, Clone, PartialEq, Eq)]
pub struct ModelDeleteArgs<M> {
    pub model: M,
}

/// The modification a model request asks the remote service to perform.
#[derive(Debug, Clone, Copy, PartialEq, Eq)]
pub enum ModelAction {
    Add,
    Delete,
    Update,
}

impl ModelAction {
    /// The action's name on the wire.
    pub fn as_str(&self) -> (r: &'static str)
        ensures
            *self is Add ==> r@ == "add"@,
            *self is Delete ==> r@ == "delete"@,
            *self is Update ==> r@ == "update"@,
    {
        match self {
            ModelAction::Add => "add",
            ModelAction::Delete => "delete",
            ModelAction::Update => "update",
        }
    }
}

/// Whether a model request changed anything on the remote service.
#[derive(Debug, Clone, Copy, PartialEq, Eq)]
pub enum ModelActionAffect {
    Affected,
    Unaffected,
}

impl ModelActionAffect {
    pub fn is_affected(&self) -> (r: bool)
        ensures
            r == (*self is Affected),
    {
        matches!(self, ModelActionAffect::Affected)
    }

    /// The outcome's display name.
    pub fn as_str(&self) -> (r: &'static str)
        ensures
            *self is Affected ==> r@ == "Affected"@,
            *self is Unaffected ==> r@ == "Unaffected"@,
    {
        match self {
            ModelActionAffect::Affected => "Affected",
            ModelActionAffect::Unaffected => "Unaffected",
        }
    }
}

impl Default for ModelActionAffect {
    fn default() -> (r: Self)
        ensures
            r is Affected,
    {
        ModelActionAffect::Affected
    }
}

/// Paging, filtering and sorting arguments of a list query.
#[derive(Debug, Clone, PartialEq, Eq)]
pub struct QueryArgs {
    pub page_size: Option<i32>,
    pub page: Option<i32>,
    pub field: Option<String>,
    pub value: Option<String>,
    pub sort_field: Option<String>,
    pub sort_order: Option<String>,
}

impl Default for QueryArgs {
    fn default() -> (r: Self)
        ensures
            r.page_size is None,
            r.page is None,
            r.field is None,
            r.value is None,
            r.sort_field is None,
            r.sort_order is None,
    {
        QueryArgs {
            page_size: None,
            page: None,
            field: None,
            value: None,
            sort_field: None,
            sort_order: None,
        }
    }
}

/// A page of models together with the total number of matches.
#[derive(Debug)]
pub struct QueryResult<M> {
    items: Vec<M>,
    total: i64,
}

impl<M> QueryResult<M> {
    /// The page of models this result carries.
    pub closed spec fn spec_items(self) -> Vec<M> {
        self.items
    }

    /// The total number of matches this result reports.
    pub closed spec fn spec_total(self) -> i64 {
        self.total
    }

    pub fn items(&self) -> (r: &Vec<M>)
        ensures
            *r == self.spec_items(),
    {
        &self.items
    }

    pub fn total(&self) -> (r: i64)
        ensures
            r == self.spec_total(),
    {
        self.total
    }
}

impl<M> From<(Vec<M>, i64)> for QueryResult<M> {
    fn from(value: (Vec<M>, i64)) -> (r: Self) {
        QueryResult { items: value.0, total: value.1 }
    }
}

impl<M> vstd::std_specs::convert::FromSpecImpl<(Vec<M>, i64)> for QueryResult<M> {
    open spec fn obeys_from_spec() -> bool {
        true
    }

    closed spec fn from_spec(value: (Vec<M>, i64)) -> Self {
        QueryResult { items: value.0, total: value.1 }
    }
}

/// What conversion from a `(page, total)` pair builds: the items are the
/// first component and the total the second.
pub proof fn lemma_query_result_from<M>(value: (Vec<M>, i64))
    ensures
        <QueryResult<M> as vstd::std_specs::convert::FromSpec<(Vec<M>, i64)>>::from_spec(
            value,
        ).spec_items() == value.0,
        <QueryResult<M> as vstd::std_specs::convert::FromSpec<(Vec<M>, i64)>>::from_spec(
            value,
        ).spec_total() == value.1,
{
}

} // verus!
