//! The command dispatcher: one command is compiled to its plan and then
//! driven to completion as a sequence of actions — collaborator calls, the
//! interactive edit, a local file read, the final output — with the caller
//! performing each action and feeding its outcome back as an event. Every
//! collaborator failure is fatal for the command; the temporary edit file is
//! explicitly released on every path before the dispatch can end.

use vstd::prelude::*;

use crate::command::ApiCall;
use crate::command::Plan;
use crate::command::ResourceKind;
use crate::command::SubmitOp;
use crate::command::TemplateKind;
use crate::command::fetch_call;
use crate::command::fetch_call_spec;
use crate::command::submit_call;
use crate::command::submit_call_spec;
use crate::edit::EditError;
use crate::edit::EditSession;
use crate::edit::parse_obj;
use crate::edit::render_obj;
use crate::format::Table;
use crate::format::format_list;
use crate::format::format_list_spec;
use crate::format::format_obj;
use crate::format::format_obj_spec;
use crate::format::format_table;
use crate::format::format_table_spec;
use crate::format::format_text;
use crate::format::format_text_spec;
use crate::object::Obj;
use crate::paginate::Aggregator;
use crate::paginate::PAGE_SIZE;

verus! {

/// Why a command failed; every failure aborts the command at once.
pub enum CliError {
    /// A collaborator call failed.
    TransportError,
    /// The external editor exited with failure.
    EditAborted,
    /// The edited text did not parse back into an object.
    EditParseError,
    /// The output template referenced a missing field or was malformed.
    TemplateError,
}

/// What the caller must do next.
pub enum Action {
    /// Perform this collaborator request and report its outcome.
    Call { call: ApiCall },
    /// Hand back the blank creation template of this kind.
    NeedTemplate { kind: TemplateKind },
    /// Write `text` to the scoped temporary edit file, run the editor on
    /// it, read the file back, and report the editor's outcome.
    Edit { text: Vec<char> },
    /// Delete the scoped temporary edit file, then confirm.
    ReleaseEditFile,
    /// Read this local file and hand back its contents.
    ReadFile { path: String },
    /// The command succeeded; print the output, if any. Terminal.
    Finish { output: Option<Vec<char>> },
    /// The command failed. Terminal.
    Fail { error: CliError },
}

/// What the caller reports back.
pub enum Event {
    /// Begin the dispatch; the first event of every command.
    Start,
    /// A list call returned these objects.
    Page { items: Vec<Obj> },
    /// A call returned this single object.
    Object { obj: Obj },
    /// A call succeeded with nothing to return.
    Ack,
    /// A data read — remote payload or local file — returned this text.
    Text { text: Vec<char> },
    /// A query returned this table.
    Rows { table: Table },
    /// The blank creation template.
    Template { obj: Obj },
    /// The editor finished; `editor_ok` is its exit status, `text` the
    /// file's contents read back.
    Edited { editor_ok: bool, text: Vec<char> },
    /// The temporary edit file has been deleted.
    Released,
    /// The pending call or read failed.
    Failed,
}

/// What a concluded edit leads to once the file release is confirmed.
pub enum AfterRelease {
    /// Submit the edited object.
    Submit { submit: SubmitOp, obj: Obj },
    /// Abort the command with this error.
    Abort { error: CliError },
}

/// Where a dispatch stands between two actions.
pub enum Phase {
    /// Nothing issued yet; holds the command's plan.
    Ready { plan: Plan },
    /// One page was requested; it will be formatted as a list.
    AwaitPage,
    /// The aggregator is collecting the whole collection.
    Aggregating { kind: ResourceKind, agg: Aggregator },
    /// The blank creation template was requested.
    AwaitTemplate { submit: SubmitOp },
    /// A single object was requested; it will be formatted.
    AwaitFetched,
    /// A single object was requested; it will be edited, then submitted.
    AwaitFetchedForEdit { submit: SubmitOp },
    /// The editor is running on the session's temporary file.
    Editing { submit: SubmitOp, session: EditSession },
    /// The temporary file's deletion was requested.
    Releasing { next: AfterRelease },
    /// The edited object was submitted; the result will be formatted.
    AwaitSubmitted,
    /// A call with no payload in its answer is pending.
    AwaitAck,
    /// A local file read is pending; its text will replace the data of the
    /// collection with this id.
    AwaitFileText { id: String },
    /// The raw data payload was requested; it will be formatted as text.
    AwaitExportText,
    /// A query was issued; its rows will be formatted as a table.
    AwaitTable,
    /// The policy list was requested; it will be formatted as a list.
    AwaitPolicyList,
    /// The command succeeded. Terminal.
    Finished,
    /// The command failed. Terminal.
    Failed,
}

/// One command's dispatch: the current phase and the output template the
/// final formatting will use.
pub struct Dispatcher {
    pub phase: Phase,
    pub template: Option<Vec<char>>,
}

impl Dispatcher {
    /// The dispatch's internal consistency: a running aggregation is not
    /// done, and a running edit session holds its file.
    pub open spec fn wf(self) -> bool {
        match self.phase {
            Phase::Aggregating { agg, .. } => !agg.done,
            Phase::Editing { session, .. } => session.file_open && !session.finished,
            _ => true,
        }
    }

    /// Whether the scoped temporary edit file exists in this phase.
    pub open spec fn holds_edit_file(self) -> bool {
        self.phase is Editing || self.phase is Releasing
    }

    /// Whether the dispatch has ended.
    pub open spec fn is_terminal(self) -> bool {
        self.phase is Finished || self.phase is Failed
    }

    /// Which events the current phase can take, and under which machine
    /// bounds; the caller checks these before stepping.
    pub open spec fn accepts(self, ev: Event) -> bool {
        match self.phase {
            Phase::Ready { .. } => ev is Start,
            Phase::AwaitPage => ev is Page || ev is Failed,
            Phase::Aggregating { agg, .. } => (ev is Page && agg.offset + PAGE_SIZE
                <= u32::MAX && agg.calls + 1 <= u32::MAX) || ev is Failed,
            Phase::AwaitTemplate { .. } => ev is Template,
            Phase::AwaitFetched => ev is Object || ev is Failed,
            Phase::AwaitFetchedForEdit { .. } => ev is Object || ev is Failed,
            Phase::Editing { .. } => ev is Edited,
            Phase::Releasing { .. } => ev is Released,
            Phase::AwaitSubmitted => ev is Object || ev is Failed,
            Phase::AwaitAck => ev is Ack || ev is Failed,
            Phase::AwaitFileText { .. } => ev is Text || ev is Failed,
            Phase::AwaitExportText => ev is Text || ev is Failed,
            Phase::AwaitTable => ev is Rows || ev is Failed,
            Phase::AwaitPolicyList => ev is Page || ev is Failed,
            Phase::Finished => false,
            Phase::Failed => false,
        }
    }

    /// Whether the scoped temporary edit file exists in this phase.
    pub fn edit_file_open(&self) -> (b: bool)
        ensures
            b == self.holds_edit_file(),
    {
        match self.phase {
            Phase::Editing { .. } => true,
            Phase::Releasing { .. } => true,
            _ => false,
        }
    }

    /// Whether the dispatch has ended.
    pub fn done(&self) -> (b: bool)
        ensures
            b == self.is_terminal(),
    {
        match self.phase {
            Phase::Finished => true,
            Phase::Failed => true,
            _ => false,
        }
    }

    /// A dispatch about to run `plan`, formatting its output through
    /// `template`.
    pub fn new(plan: Plan, template: Option<Vec<char>>) -> (d: Dispatcher)
        ensures
            d.phase == (Phase::Ready { plan }),
            d.template == template,
            d.wf(),
            !d.holds_edit_file(),
            !d.is_terminal(),
    {
        Dispatcher { phase: Phase::Ready { plan }, template }
    }

    /// One step of the dispatch: takes the last action's outcome, returns
    /// the next action. The clauses below are the transition table; two
    /// hold on every step: a failure event is fatal at once, and no
    /// terminal action is ever produced while the edit file exists.
    pub fn step(self, ev: Event) -> (r: (Dispatcher, Action))
        requires
            self.wf(),
            self.accepts(ev),
        ensures
            r.0.wf(),
            r.0.template == self.template,
            r.1 is Finish || r.1 is Fail ==> r.0.is_terminal() && !r.0.holds_edit_file(),
            r.0.is_terminal() ==> r.1 is Finish || r.1 is Fail,
            ev is Failed ==> r.1 == (Action::Fail { error: CliError::TransportError })
                && r.0.phase is Failed,
            self.phase matches Phase::Ready { plan: Plan::PagedList { kind, limit, offset } }
                ==> r.1 == (Action::Call { call: ApiCall::List { kind, limit, offset } })
                && r.0.phase is AwaitPage,
            self.phase matches Phase::Ready { plan: Plan::AggregateAll { kind } } ==> r.1 == (
            Action::Call {
                call: ApiCall::List { kind, limit: Some(PAGE_SIZE), offset: Some(0u32) },
            }) && (r.0.phase matches Phase::Aggregating { kind: k2, agg } && k2 == kind
                && agg.items@ =~= Seq::<Obj>::empty() && agg.offset == 0 && agg.calls == 0),
            self.phase matches Phase::Ready { plan: Plan::CreateFlow { template, submit } }
                ==> r.1 == (Action::NeedTemplate { kind: template }) && r.0.phase == (
            Phase::AwaitTemplate { submit }),
            self.phase matches Phase::Ready { plan: Plan::RetrieveFlow { fetch } } ==> r.1 == (
            Action::Call { call: fetch_call_spec(fetch) }) && r.0.phase is AwaitFetched,
            self.phase matches Phase::Ready { plan: Plan::UpdateFlow { fetch, submit } } ==> r.1
                == (Action::Call { call: fetch_call_spec(fetch) }) && r.0.phase == (
            Phase::AwaitFetchedForEdit { submit }),
            self.phase matches Phase::Ready { plan: Plan::DeleteFlow { call } } ==> r.1 == (
            Action::Call { call }) && r.0.phase is AwaitAck,
            self.phase matches Phase::Ready { plan: Plan::ImportFlow { id, file } } ==> r.1 == (
            Action::ReadFile { path: file }) && r.0.phase == (Phase::AwaitFileText { id }),
            self.phase matches Phase::Ready { plan: Plan::ExportFlow { id } } ==> r.1 == (
            Action::Call { call: ApiCall::GetData { id } }) && r.0.phase is AwaitExportText,
            self.phase matches Phase::Ready { plan: Plan::QueryFlow { id, sql } } ==> r.1 == (
            Action::Call { call: ApiCall::Query { id, sql } }) && r.0.phase is AwaitTable,
            self.phase matches Phase::Ready { plan: Plan::PolicyListFlow { id } } ==> r.1 == (
            Action::Call { call: ApiCall::ListPolicies { id } }) && r.0.phase is AwaitPolicyList,
            ev matches Event::Page { items } ==> self.phase is AwaitPage
                ==> (match format_list_spec(self.template, items@) {
                Some(v) => r.1 matches Action::Finish { output: Some(ov) } && ov@ == v
                    && r.0.phase is Finished,
                None => r.1 == (Action::Fail { error: CliError::TemplateError })
                    && r.0.phase is Failed,
            }),
            ev matches Event::Page { items } ==> self.phase is AwaitPolicyList
                ==> (match format_list_spec(self.template, items@) {
                Some(v) => r.1 matches Action::Finish { output: Some(ov) } && ov@ == v
                    && r.0.phase is Finished,
                None => r.1 == (Action::Fail { error: CliError::TemplateError })
                    && r.0.phase is Failed,
            }),
            self.phase matches Phase::Aggregating { kind, agg } ==> ev matches Event::Page { items }
                ==> (if items@.len() < PAGE_SIZE {
                match format_list_spec(self.template, agg.items@ + items@) {
                    Some(v) => r.1 matches Action::Finish { output: Some(ov) } && ov@ == v
                        && r.0.phase is Finished,
                    None => r.1 == (Action::Fail { error: CliError::TemplateError })
                        && r.0.phase is Failed,
                }
            } else {
                r.1 == (Action::Call {
                    call: ApiCall::List {
                        kind,
                        limit: Some(PAGE_SIZE),
                        offset: Some((agg.offset + PAGE_SIZE) as u32),
                    },
                }) && (r.0.phase matches Phase::Aggregating { kind: k2, agg: a2 } && k2 == kind
                    && a2.items@ == agg.items@ + items@ && a2.offset == agg.offset + PAGE_SIZE
                    && a2.calls == agg.calls + 1)
            }),
            self.phase matches Phase::AwaitTemplate { submit } ==> ev matches Event::Template { obj }
                ==> (r.1 matches Action::Edit { text } && text@ == render_obj(obj@)) && (
            r.0.phase matches Phase::Editing { submit: s2, session } && s2 == submit
                && session.source@ == obj@),
            self.phase matches Phase::AwaitFetchedForEdit { submit } ==> ev matches Event::Object {
                obj,
            } ==> (r.1 matches Action::Edit { text } && text@ == render_obj(obj@)) && (
            r.0.phase matches Phase::Editing { submit: s2, session } && s2 == submit
                && session.source@ == obj@),
            ev matches Event::Object { obj } ==> self.phase is AwaitFetched ==> (
            match format_obj_spec(self.template, obj@) {
                Some(v) => r.1 matches Action::Finish { output: Some(ov) } && ov@ == v
                    && r.0.phase is Finished,
                None => r.1 == (Action::Fail { error: CliError::TemplateError })
                    && r.0.phase is Failed,
            }),
            ev matches Event::Object { obj } ==> self.phase is AwaitSubmitted ==> (
            match format_obj_spec(self.template, obj@) {
                Some(v) => r.1 matches Action::Finish { output: Some(ov) } && ov@ == v
                    && r.0.phase is Finished,
                None => r.1 == (Action::Fail { error: CliError::TemplateError })
                    && r.0.phase is Failed,
            }),
            self.phase matches Phase::Editing { submit, session } ==> ev matches Event::Edited {
                editor_ok,
                text,
            } ==> r.1 is ReleaseEditFile && (r.0.phase matches Phase::Releasing { next } && (
            if !editor_ok {
                next == (AfterRelease::Abort { error: CliError::EditAborted })
            } else {
                match parse_obj(text@) {
                    Some(ov) => next matches AfterRelease::Submit { submit: s2, obj } && s2
                        == submit && obj@ == ov,
                    None => next == (AfterRelease::Abort { error: CliError::EditParseError }),
                }
            })),
            self.phase matches Phase::Releasing { next: AfterRelease::Submit { submit, obj } }
                ==> r.1 == (Action::Call { call: submit_call_spec(submit, obj) })
                && r.0.phase is AwaitSubmitted,
            self.phase matches Phase::Releasing { next: AfterRelease::Abort { error } } ==> r.1
                == (Action::Fail { error }) && r.0.phase is Failed,
            self.phase is AwaitAck ==> ev is Ack ==> r.1 == (Action::Finish { output: None })
                && r.0.phase is Finished,
            self.phase matches Phase::AwaitFileText { id } ==> ev matches Event::Text { text }
                ==> r.1 == (Action::Call { call: ApiCall::PutData { id, data: text } })
                && r.0.phase is AwaitAck,
            ev matches Event::Text { text } ==> self.phase is AwaitExportText ==> (
            match format_text_spec(self.template, text@) {
                Some(v) => r.1 matches Action::Finish { output: Some(ov) } && ov@ == v
                    && r.0.phase is Finished,
                None => r.1 == (Action::Fail { error: CliError::TemplateError })
                    && r.0.phase is Failed,
            }),
            ev matches Event::Rows { table } ==> self.phase is AwaitTable ==> (
            match format_table_spec(self.template, table) {
                Some(v) => r.1 matches Action::Finish { output: Some(ov) } && ov@ == v
                    && r.0.phase is Finished,
                None => r.1 == (Action::Fail { error: CliError::TemplateError })
                    && r.0.phase is Failed,
            }),
    {
        let Dispatcher { phase, template } = self;
        match (phase, ev) {
            (_, Event::Failed) => (
                Dispatcher { phase: Phase::Failed, template },
                Action::Fail { error: CliError::TransportError },
            ),
            (Phase::Ready { plan }, Event::Start) => match plan {
                Plan::PagedList { kind, limit, offset } => (
                    Dispatcher { phase: Phase::AwaitPage, template },
                    Action::Call { call: ApiCall::List { kind, limit, offset } },
                ),
                Plan::AggregateAll { kind } => (
                    Dispatcher {
                        phase: Phase::Aggregating { kind, agg: Aggregator::new() },
                        template,
                    },
                    Action::Call {
                        call: ApiCall::List { kind, limit: Some(PAGE_SIZE), offset: Some(0u32) },
                    },
                ),
                Plan::CreateFlow { template: tk, submit } => (
                    Dispatcher { phase: Phase::AwaitTemplate { submit }, template },
                    Action::NeedTemplate { kind: tk },
                ),
                Plan::RetrieveFlow { fetch } => (
                    Dispatcher { phase: Phase::AwaitFetched, template },
                    Action::Call { call: fetch_call(fetch) },
                ),
                Plan::UpdateFlow { fetch, submit } => (
                    Dispatcher { phase: Phase::AwaitFetchedForEdit { submit }, template },
                    Action::Call { call: fetch_call(fetch) },
                ),
                Plan::DeleteFlow { call } => (
                    Dispatcher { phase: Phase::AwaitAck, template },
                    Action::Call { call },
                ),
                Plan::ImportFlow { id, file } => (
                    Dispatcher { phase: Phase::AwaitFileText { id }, template },
                    Action::ReadFile { path: file },
                ),
                Plan::ExportFlow { id } => (
                    Dispatcher { phase: Phase::AwaitExportText, template },
                    Action::Call { call: ApiCall::GetData { id } },
                ),
                Plan::QueryFlow { id, sql } => (
                    Dispatcher { phase: Phase::AwaitTable, template },
                    Action::Call { call: ApiCall::Query { id, sql } },
                ),
                Plan::PolicyListFlow { id } => (
                    Dispatcher { phase: Phase::AwaitPolicyList, template },
                    Action::Call { call: ApiCall::ListPolicies { id } },
                ),
            },
            (Phase::AwaitPage, Event::Page { items }) => match format_list(&items, &template) {
                Some(out) => (
                    Dispatcher { phase: Phase::Finished, template },
                    Action::Finish { output: Some(out) },
                ),
                None => (
                    Dispatcher { phase: Phase::Failed, template },
                    Action::Fail { error: CliError::TemplateError },
                ),
            },
            (Phase::AwaitPolicyList, Event::Page { items }) => match format_list(
                &items,
                &template,
            ) {
                Some(out) => (
                    Dispatcher { phase: Phase::Finished, template },
                    Action::Finish { output: Some(out) },
                ),
                None => (
                    Dispatcher { phase: Phase::Failed, template },
                    Action::Fail { error: CliError::TemplateError },
                ),
            },
            (Phase::Aggregating { kind, agg }, Event::Page { items }) => {
                let mut agg = agg;
                agg.absorb(items);
                if !agg.done {
                    let offset = agg.offset;
                    (
                        Dispatcher { phase: Phase::Aggregating { kind, agg }, template },
                        Action::Call {
                            call: ApiCall::List {
                                kind,
                                limit: Some(PAGE_SIZE),
                                offset: Some(offset),
                            },
                        },
                    )
                } else {
                    match format_list(&agg.items, &template) {
                        Some(out) => (
                            Dispatcher { phase: Phase::Finished, template },
                            Action::Finish { output: Some(out) },
                        ),
                        None => (
                            Dispatcher { phase: Phase::Failed, template },
                            Action::Fail { error: CliError::TemplateError },
                        ),
                    }
                }
            },
            (Phase::AwaitTemplate { submit }, Event::Template { obj }) => {
                let (session, text) = EditSession::open(obj);
                (
                    Dispatcher { phase: Phase::Editing { submit, session }, template },
                    Action::Edit { text },
                )
            },
            (Phase::AwaitFetchedForEdit { submit }, Event::Object { obj }) => {
                let (session, text) = EditSession::open(obj);
                (
                    Dispatcher { phase: Phase::Editing { submit, session }, template },
                    Action::Edit { text },
                )
            },
            (Phase::AwaitFetched, Event::Object { obj }) => match format_obj(&obj, &template) {
                Some(out) => (
                    Dispatcher { phase: Phase::Finished, template },
                    Action::Finish { output: Some(out) },
                ),
                None => (
                    Dispatcher { phase: Phase::Failed, template },
                    Action::Fail { error: CliError::TemplateError },
                ),
            },
            (Phase::AwaitSubmitted, Event::Object { obj }) => match format_obj(&obj, &template) {
                Some(out) => (
                    Dispatcher { phase: Phase::Finished, template },
                    Action::Finish { output: Some(out) },
                ),
                None => (
                    Dispatcher { phase: Phase::Failed, template },
                    Action::Fail { error: CliError::TemplateError },
                ),
            },
            (Phase::Editing { submit, session }, Event::Edited { editor_ok, text }) => {
                let mut session = session;
                let next = match session.conclude(editor_ok, &text) {
                    Ok(obj) => AfterRelease::Submit { submit, obj },
                    Err(EditError::Aborted) => AfterRelease::Abort {
                        error: CliError::EditAborted,
                    },
                    Err(EditError::Parse) => AfterRelease::Abort {
                        error: CliError::EditParseError,
                    },
                };
                (
                    Dispatcher { phase: Phase::Releasing { next }, template },
                    Action::ReleaseEditFile,
                )
            },
            (Phase::Releasing { next }, Event::Released) => match next {
                AfterRelease::Submit { submit, obj } => (
                    Dispatcher { phase: Phase::AwaitSubmitted, template },
                    Action::Call { call: submit_call(submit, obj) },
                ),
                AfterRelease::Abort { error } => (
                    Dispatcher { phase: Phase::Failed, template },
                    Action::Fail { error },
                ),
            },
            (Phase::AwaitAck, Event::Ack) => (
                Dispatcher { phase: Phase::Finished, template },
                Action::Finish { output: None },
            ),
            (Phase::AwaitFileText { id }, Event::Text { text }) => (
                Dispatcher { phase: Phase::AwaitAck, template },
                Action::Call { call: ApiCall::PutData { id, data: text } },
            ),
            (Phase::AwaitExportText, Event::Text { text }) => match format_text(&text, &template) {
                Some(out) => (
                    Dispatcher { phase: Phase::Finished, template },
                    Action::Finish { output: Some(out) },
                ),
                None => (
                    Dispatcher { phase: Phase::Failed, template },
                    Action::Fail { error: CliError::TemplateError },
                ),
            },
            (Phase::AwaitTable, Event::Rows { table }) => match format_table(&table, &template) {
                Some(out) => (
                    Dispatcher { phase: Phase::Finished, template },
                    Action::Finish { output: Some(out) },
                ),
                None => (
                    Dispatcher { phase: Phase::Failed, template },
                    Action::Fail { error: CliError::TemplateError },
                ),
            },
            _ => {
                proof {
                    assert(false);
                }
                (
                    Dispatcher { phase: Phase::Failed, template },
                    Action::Fail { error: CliError::TransportError },
                )
            },
        }
    }
}

} // verus!
