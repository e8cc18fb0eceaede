//! The command table: every (resource kind, verb) pair the client supports,
//! and the plan — which collaborator calls to sequence and which formatter
//! to apply — that each command compiles to. The dispatcher interprets the
//! plan; nothing else branches on verbs.

use vstd::prelude::*;

use crate::object::Obj;

verus! {

/// The resource families the client manages.
#[derive(Clone, Copy)]
pub enum ResourceKind {
    Dataset,
    User,
}

/// Which blank template seeds a creation; the collaborator knows the
/// skeleton for each.
#[derive(Clone, Copy)]
pub enum TemplateKind {
    Dataset,
    User,
    Policy,
}

/// A single-object retrieval.
pub enum FetchOp {
    Get { kind: ResourceKind, id: String },
    GetPolicy { parent: String, policy_id: u32 },
}

/// Where an edited object is submitted.
pub enum SubmitOp {
    Post { kind: ResourceKind },
    Put { kind: ResourceKind, id: String },
    PostPolicy { parent: String },
    PutPolicy { parent: String, policy_id: u32 },
}

/// One request to the remote API collaborator.
pub enum ApiCall {
    List { kind: ResourceKind, limit: Option<u32>, offset: Option<u32> },
    Get { kind: ResourceKind, id: String },
    Post { kind: ResourceKind, obj: Obj },
    Put { kind: ResourceKind, id: String, obj: Obj },
    Delete { kind: ResourceKind, id: String },
    PutData { id: String, data: Vec<char> },
    GetData { id: String },
    Query { id: String, sql: String },
    ListPolicies { id: String },
    PostPolicy { parent: String, obj: Obj },
    GetPolicy { parent: String, policy_id: u32 },
    PutPolicy { parent: String, policy_id: u32, obj: Obj },
    DeletePolicy { parent: String, policy_id: u32 },
}

/// The request that submits an object through a submit operation.
pub open spec fn submit_call_spec(s: SubmitOp, obj: Obj) -> ApiCall {
    match s {
        SubmitOp::Post { kind } => ApiCall::Post { kind, obj },
        SubmitOp::Put { kind, id } => ApiCall::Put { kind, id, obj },
        SubmitOp::PostPolicy { parent } => ApiCall::PostPolicy { parent, obj },
        SubmitOp::PutPolicy { parent, policy_id } => ApiCall::PutPolicy {
            parent,
            policy_id,
            obj,
        },
    }
}

/// Builds the request that submits `obj` through `s`.
pub fn submit_call(s: SubmitOp, obj: Obj) -> (c: ApiCall)
    ensures
        c == submit_call_spec(s, obj),
{
    match s {
        SubmitOp::Post { kind } => ApiCall::Post { kind, obj },
        SubmitOp::Put { kind, id } => ApiCall::Put { kind, id, obj },
        SubmitOp::PostPolicy { parent } => ApiCall::PostPolicy { parent, obj },
        SubmitOp::PutPolicy { parent, policy_id } => ApiCall::PutPolicy {
            parent,
            policy_id,
            obj,
        },
    }
}

/// The request that performs a single-object retrieval.
pub open spec fn fetch_call_spec(f: FetchOp) -> ApiCall {
    match f {
        FetchOp::Get { kind, id } => ApiCall::Get { kind, id },
        FetchOp::GetPolicy { parent, policy_id } => ApiCall::GetPolicy { parent, policy_id },
    }
}

/// Builds the request of a single-object retrieval.
pub fn fetch_call(f: FetchOp) -> (c: ApiCall)
    ensures
        c == fetch_call_spec(f),
{
    match f {
        FetchOp::Get { kind, id } => ApiCall::Get { kind, id },
        FetchOp::GetPolicy { parent, policy_id } => ApiCall::GetPolicy { parent, policy_id },
    }
}

/// One command descriptor: which flow runs and with which parameters.
pub enum Plan {
    /// One list call at the given bounds; the result list is formatted.
    PagedList { kind: ResourceKind, limit: Option<u32>, offset: Option<u32> },
    /// The pagination aggregator collects the whole collection.
    AggregateAll { kind: ResourceKind },
    /// Template, interactive edit, submit, format the submitted object.
    CreateFlow { template: TemplateKind, submit: SubmitOp },
    /// Fetch one object and format it.
    RetrieveFlow { fetch: FetchOp },
    /// Fetch, interactive edit, submit, format the submitted object.
    UpdateFlow { fetch: FetchOp, submit: SubmitOp },
    /// One deletion call; no output on success.
    DeleteFlow { call: ApiCall },
    /// Read a local file, then replace the collection's data; no output.
    ImportFlow { id: String, file: String },
    /// Fetch the collection's raw data payload and format it.
    ExportFlow { id: String },
    /// Run an ad-hoc query and format its rows.
    QueryFlow { id: String, sql: String },
    /// List a collection's policies (unpaged) and format them.
    PolicyListFlow { id: String },
}

/// The dataset commands the client accepts.
pub enum DataSetCommand {
    /// One page of datasets.
    List { limit: Option<u32>, offset: Option<u32> },
    /// Every dataset, aggregated page by page.
    ListAll {},
    /// A new dataset, edited from the blank template.
    Create {},
    /// One dataset's details.
    Retrieve { id: String },
    /// Edit and resubmit one dataset.
    Update { id: String },
    /// Permanently delete one dataset.
    Delete { id: String },
    /// Replace a dataset's data with a local file's contents.
    Import { file: String, id: String },
    /// A dataset's raw data payload.
    Export { id: String },
    /// Rows returned for a query against one dataset.
    Query { id: String, sql: String },
    /// The access policies of one dataset.
    ListPolicies { id: String },
    /// A new policy on a dataset, edited from the blank template.
    CreatePolicy { id: String },
    /// One policy's details.
    RetrievePolicy { id: String, policy_id: u32 },
    /// Edit and resubmit one policy.
    UpdatePolicy { id: String, policy_id: u32 },
    /// Permanently delete one policy.
    DeletePolicy { id: String, policy_id: u32 },
}

/// The user commands the client accepts.
pub enum UserCommand {
    /// One page of users.
    List { limit: Option<u32>, offset: Option<u32> },
    /// Every user, aggregated page by page.
    ListAll {},
    /// A new user, edited from the blank template.
    Create {},
    /// One user's details.
    Retrieve { user_id: String },
    /// Edit and resubmit one user.
    Update { user_id: String },
    /// Permanently delete one user.
    Delete { user_id: String },
}

/// The table row of each dataset command.
pub open spec fn dataset_plan(c: DataSetCommand) -> Plan {
    match c {
        DataSetCommand::List { limit, offset } => Plan::PagedList {
            kind: ResourceKind::Dataset,
            limit,
            offset,
        },
        DataSetCommand::ListAll {} => Plan::AggregateAll { kind: ResourceKind::Dataset },
        DataSetCommand::Create {} => Plan::CreateFlow {
            template: TemplateKind::Dataset,
            submit: SubmitOp::Post { kind: ResourceKind::Dataset },
        },
        DataSetCommand::Retrieve { id } => Plan::RetrieveFlow {
            fetch: FetchOp::Get { kind: ResourceKind::Dataset, id },
        },
        DataSetCommand::Update { id } => Plan::UpdateFlow {
            fetch: FetchOp::Get { kind: ResourceKind::Dataset, id: id },
            submit: SubmitOp::Put { kind: ResourceKind::Dataset, id: id },
        },
        DataSetCommand::Delete { id } => Plan::DeleteFlow {
            call: ApiCall::Delete { kind: ResourceKind::Dataset, id },
        },
        DataSetCommand::Import { file, id } => Plan::ImportFlow { id, file },
        DataSetCommand::Export { id } => Plan::ExportFlow { id },
        DataSetCommand::Query { id, sql } => Plan::QueryFlow { id, sql },
        DataSetCommand::ListPolicies { id } => Plan::PolicyListFlow { id },
        DataSetCommand::CreatePolicy { id } => Plan::CreateFlow {
            template: TemplateKind::Policy,
            submit: SubmitOp::PostPolicy { parent: id },
        },
        DataSetCommand::RetrievePolicy { id, policy_id } => Plan::RetrieveFlow {
            fetch: FetchOp::GetPolicy { parent: id, policy_id },
        },
        DataSetCommand::UpdatePolicy { id, policy_id } => Plan::UpdateFlow {
            fetch: FetchOp::GetPolicy { parent: id, policy_id },
            submit: SubmitOp::PutPolicy { parent: id, policy_id },
        },
        DataSetCommand::DeletePolicy { id, policy_id } => Plan::DeleteFlow {
            call: ApiCall::DeletePolicy { parent: id, policy_id },
        },
    }
}

/// The table row of each user command.
pub open spec fn user_plan(c: UserCommand) -> Plan {
    match c {
        UserCommand::List { limit, offset } => Plan::PagedList {
            kind: ResourceKind::User,
            limit,
            offset,
        },
        UserCommand::ListAll {} => Plan::AggregateAll { kind: ResourceKind::User },
        UserCommand::Create {} => Plan::CreateFlow {
            template: TemplateKind::User,
            submit: SubmitOp::Post { kind: ResourceKind::User },
        },
        UserCommand::Retrieve { user_id } => Plan::RetrieveFlow {
            fetch: FetchOp::Get { kind: ResourceKind::User, id: user_id },
        },
        UserCommand::Update { user_id } => Plan::UpdateFlow {
            fetch: FetchOp::Get { kind: ResourceKind::User, id: user_id },
            submit: SubmitOp::Put { kind: ResourceKind::User, id: user_id },
        },
        UserCommand::Delete { user_id } => Plan::DeleteFlow {
            call: ApiCall::Delete { kind: ResourceKind::User, id: user_id },
        },
    }
}

impl DataSetCommand {
    /// Compiles this command to its plan, as the table states it.
    pub fn plan(self) -> (p: Plan)
        ensures
            p == dataset_plan(self),
    {
        match self {
            DataSetCommand::List { limit, offset } => Plan::PagedList {
                kind: ResourceKind::Dataset,
                limit,
                offset,
            },
            DataSetCommand::ListAll {} => Plan::AggregateAll { kind: ResourceKind::Dataset },
            DataSetCommand::Create {} => Plan::CreateFlow {
                template: TemplateKind::Dataset,
                submit: SubmitOp::Post { kind: ResourceKind::Dataset },
            },
            DataSetCommand::Retrieve { id } => Plan::RetrieveFlow {
                fetch: FetchOp::Get { kind: ResourceKind::Dataset, id },
            },
            DataSetCommand::Update { id } => Plan::UpdateFlow {
                fetch: FetchOp::Get { kind: ResourceKind::Dataset, id: id.clone() },
                submit: SubmitOp::Put { kind: ResourceKind::Dataset, id },
            },
            DataSetCommand::Delete { id } => Plan::DeleteFlow {
                call: ApiCall::Delete { kind: ResourceKind::Dataset, id },
            },
            DataSetCommand::Import { file, id } => Plan::ImportFlow { id, file },
            DataSetCommand::Export { id } => Plan::ExportFlow { id },
            DataSetCommand::Query { id, sql } => Plan::QueryFlow { id, sql },
            DataSetCommand::ListPolicies { id } => Plan::PolicyListFlow { id },
            DataSetCommand::CreatePolicy { id } => Plan::CreateFlow {
                template: TemplateKind::Policy,
                submit: SubmitOp::PostPolicy { parent: id },
            },
            DataSetCommand::RetrievePolicy { id, policy_id } => Plan::RetrieveFlow {
                fetch: FetchOp::GetPolicy { parent: id, policy_id },
            },
            DataSetCommand::UpdatePolicy { id, policy_id } => Plan::UpdateFlow {
                fetch: FetchOp::GetPolicy { parent: id.clone(), policy_id },
                submit: SubmitOp::PutPolicy { parent: id, policy_id },
            },
            DataSetCommand::DeletePolicy { id, policy_id } => Plan::DeleteFlow {
                call: ApiCall::DeletePolicy { parent: id, policy_id },
            },
        }
    }
}

impl UserCommand {
    /// Compiles this command to its plan, as the table states it.
    pub fn plan(self) -> (p: Plan)
        ensures
            p == user_plan(self),
    {
        match self {
            UserCommand::List { limit, offset } => Plan::PagedList {
                kind: ResourceKind::User,
                limit,
                offset,
            },
            UserCommand::ListAll {} => Plan::AggregateAll { kind: ResourceKind::User },
            UserCommand::Create {} => Plan::CreateFlow {
                template: TemplateKind::User,
                submit: SubmitOp::Post { kind: ResourceKind::User },
            },
            UserCommand::Retrieve { user_id } => Plan::RetrieveFlow {
                fetch: FetchOp::Get { kind: ResourceKind::User, id: user_id },
            },
            UserCommand::Update { user_id } => Plan::UpdateFlow {
                fetch: FetchOp::Get { kind: ResourceKind::User, id: user_id.clone() },
                submit: SubmitOp::Put { kind: ResourceKind::User, id: user_id },
            },
            UserCommand::Delete { user_id } => Plan::DeleteFlow {
                call: ApiCall::Delete { kind: ResourceKind::User, id: user_id },
            },
        }
    }
}

} // verus!
