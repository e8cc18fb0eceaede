use domo_cli::command::{ApiCall, DataSetCommand, Plan, ResourceKind, UserCommand};
use domo_cli::dispatch::{Action, CliError, Dispatcher, Event};
use domo_cli::object::{Field, Obj};

fn chars(s: &str) -> Vec<char> {
    s.chars().collect()
}

fn obj(pairs: &[(&str, &str)]) -> Obj {
    Obj {
        fields: pairs
            .iter()
            .map(|(n, v)| Field { name: chars(n), value: chars(v) })
            .collect(),
    }
}

#[test]
fn delete_makes_exactly_one_call_and_prints_nothing() {
    let plan = DataSetCommand::Delete { id: "ds-1".to_string() }.plan();
    let d = Dispatcher::new(plan, None);
    let mut calls: u32 = 0;
    let (d, a) = d.step(Event::Start);
    match a {
        Action::Call { call: ApiCall::Delete { kind, id } } => {
            calls += 1;
            assert!(matches!(kind, ResourceKind::Dataset));
            assert_eq!(id, "ds-1");
        }
        _ => panic!("expected the deletion call"),
    }
    let (d, a) = d.step(Event::Ack);
    match a {
        Action::Finish { output } => assert!(output.is_none()),
        _ => panic!("expected the dispatch to finish"),
    }
    assert_eq!(calls, 1);
    assert!(d.done());
}

#[test]
fn user_delete_targets_the_user_resource() {
    let plan = UserCommand::Delete { user_id: "u-9".to_string() }.plan();
    let d = Dispatcher::new(plan, None);
    let (_d, a) = d.step(Event::Start);
    match a {
        Action::Call { call: ApiCall::Delete { kind, id } } => {
            assert!(matches!(kind, ResourceKind::User));
            assert_eq!(id, "u-9");
        }
        _ => panic!("expected the deletion call"),
    }
}

#[test]
fn retrieve_formats_the_fetched_object() {
    let plan = DataSetCommand::Retrieve { id: "ds-2".to_string() }.plan();
    let d = Dispatcher::new(plan, None);
    let (d, a) = d.step(Event::Start);
    match a {
        Action::Call { call: ApiCall::Get { id, .. } } => assert_eq!(id, "ds-2"),
        _ => panic!("expected the fetch call"),
    }
    let (d, a) = d.step(Event::Object { obj: obj(&[("id", "ds-2"), ("name", "x")]) });
    match a {
        Action::Finish { output } => {
            let text: String = output.expect("an object is printed").iter().collect();
            assert_eq!(text, "id=ds-2\nname=x\n");
        }
        _ => panic!("expected the dispatch to finish"),
    }
    assert!(d.done());
}

#[test]
fn create_flow_edits_then_submits_then_formats() {
    let plan = DataSetCommand::Create {}.plan();
    let d = Dispatcher::new(plan, Some(chars("made {id}")));
    let (d, a) = d.step(Event::Start);
    assert!(matches!(a, Action::NeedTemplate { .. }));
    let (d, a) = d.step(Event::Template { obj: obj(&[("id", ""), ("name", "")]) });
    let text = match a {
        Action::Edit { text } => text,
        _ => panic!("expected the edit of the template"),
    };
    assert!(d.edit_file_open());
    let edited: Vec<char> = chars("id=n-1\nname=fresh\n");
    let _ = text;
    let (d, a) = d.step(Event::Edited { editor_ok: true, text: edited });
    assert!(matches!(a, Action::ReleaseEditFile));
    let (d, a) = d.step(Event::Released);
    assert!(!d.edit_file_open());
    match a {
        Action::Call { call: ApiCall::Post { obj, .. } } => {
            let name: String = obj.fields[1].value.iter().collect();
            assert_eq!(name, "fresh");
        }
        _ => panic!("expected the submit call"),
    }
    let (d, a) = d.step(Event::Object { obj: obj(&[("id", "n-1")]) });
    match a {
        Action::Finish { output } => {
            let text: String = output.expect("the created object is printed").iter().collect();
            assert_eq!(text, "made n-1");
        }
        _ => panic!("expected the dispatch to finish"),
    }
    assert!(d.done());
    assert!(!d.edit_file_open());
}

#[test]
fn unparseable_edit_fails_without_a_submission() {
    let plan = DataSetCommand::Create {}.plan();
    let d = Dispatcher::new(plan, None);
    let (d, _a) = d.step(Event::Start);
    let (d, _a) = d.step(Event::Template { obj: obj(&[("id", "")]) });
    let (d, a) = d.step(Event::Edited { editor_ok: true, text: chars("garbage") });
    assert!(matches!(a, Action::ReleaseEditFile));
    assert!(d.edit_file_open());
    let (d, a) = d.step(Event::Released);
    assert!(matches!(a, Action::Fail { error: CliError::EditParseError }));
    assert!(d.done());
    assert!(!d.edit_file_open());
}

#[test]
fn failed_editor_aborts_after_releasing_the_file() {
    let plan = UserCommand::Create {}.plan();
    let d = Dispatcher::new(plan, None);
    let (d, _a) = d.step(Event::Start);
    let (d, _a) = d.step(Event::Template { obj: obj(&[("id", "")]) });
    let (d, a) = d.step(Event::Edited { editor_ok: false, text: chars("") });
    assert!(matches!(a, Action::ReleaseEditFile));
    let (d, a) = d.step(Event::Released);
    assert!(matches!(a, Action::Fail { error: CliError::EditAborted }));
    assert!(d.done());
    assert!(!d.edit_file_open());
}

#[test]
fn update_flow_fetches_before_editing() {
    let plan = DataSetCommand::Update { id: "ds-3".to_string() }.plan();
    let d = Dispatcher::new(plan, None);
    let (d, a) = d.step(Event::Start);
    match a {
        Action::Call { call: ApiCall::Get { id, .. } } => assert_eq!(id, "ds-3"),
        _ => panic!("expected the fetch call"),
    }
    let (d, a) = d.step(Event::Object { obj: obj(&[("id", "ds-3"), ("name", "old")]) });
    let text = match a {
        Action::Edit { text } => text,
        _ => panic!("expected the edit"),
    };
    let unchanged: String = text.iter().collect();
    assert_eq!(unchanged, "id=ds-3\nname=old\n");
    let (d, a) = d.step(Event::Edited { editor_ok: true, text });
    assert!(matches!(a, Action::ReleaseEditFile));
    let (_d, a) = d.step(Event::Released);
    match a {
        Action::Call { call: ApiCall::Put { id, obj, .. } } => {
            assert_eq!(id, "ds-3");
            let name: String = obj.fields[1].value.iter().collect();
            assert_eq!(name, "old");
        }
        _ => panic!("expected the resubmission"),
    }
}

#[test]
fn transport_failure_is_fatal() {
    let plan = DataSetCommand::Export { id: "ds-4".to_string() }.plan();
    let d = Dispatcher::new(plan, None);
    let (d, a) = d.step(Event::Start);
    assert!(matches!(a, Action::Call { call: ApiCall::GetData { .. } }));
    let (d, a) = d.step(Event::Failed);
    assert!(matches!(a, Action::Fail { error: CliError::TransportError }));
    assert!(d.done());
}

#[test]
fn template_error_is_reported_not_swallowed() {
    let plan = DataSetCommand::List { limit: None, offset: None }.plan();
    let d = Dispatcher::new(plan, Some(chars("{absent}")));
    let (d, _a) = d.step(Event::Start);
    let (d, a) = d.step(Event::Page { items: vec![obj(&[("id", "1")])] });
    assert!(matches!(a, Action::Fail { error: CliError::TemplateError }));
    assert!(d.done());
}

#[test]
fn import_reads_the_file_then_replaces_the_data() {
    let plan =
        DataSetCommand::Import { file: "rows.csv".to_string(), id: "ds-5".to_string() }.plan();
    let d = Dispatcher::new(plan, None);
    let (d, a) = d.step(Event::Start);
    match a {
        Action::ReadFile { path } => assert_eq!(path, "rows.csv"),
        _ => panic!("expected the file read"),
    }
    let (d, a) = d.step(Event::Text { text: chars("a,b\n1,2\n") });
    match a {
        Action::Call { call: ApiCall::PutData { id, data } } => {
            assert_eq!(id, "ds-5");
            let csv: String = data.iter().collect();
            assert_eq!(csv, "a,b\n1,2\n");
        }
        _ => panic!("expected the data replacement call"),
    }
    let (d, a) = d.step(Event::Ack);
    match a {
        Action::Finish { output } => assert!(output.is_none()),
        _ => panic!("expected the dispatch to finish"),
    }
    assert!(d.done());
}

#[test]
fn query_formats_rows_as_a_table() {
    let plan =
        DataSetCommand::Query { id: "ds-6".to_string(), sql: "select 1".to_string() }.plan();
    let d = Dispatcher::new(plan, None);
    let (d, a) = d.step(Event::Start);
    match a {
        Action::Call { call: ApiCall::Query { id, sql } } => {
            assert_eq!(id, "ds-6");
            assert_eq!(sql, "select 1");
        }
        _ => panic!("expected the query call"),
    }
    let table = domo_cli::format::Table {
        columns: vec![chars("c")],
        rows: vec![vec![chars("1")]],
    };
    let (d, a) = d.step(Event::Rows { table });
    match a {
        Action::Finish { output } => {
            let text: String = output.expect("rows are printed").iter().collect();
            assert_eq!(text, "c\n1\n");
        }
        _ => panic!("expected the dispatch to finish"),
    }
    assert!(d.done());
}

#[test]
fn policy_commands_scope_by_parent_and_policy_id() {
    let plan =
        DataSetCommand::DeletePolicy { id: "ds-7".to_string(), policy_id: 12 }.plan();
    assert!(matches!(
        plan,
        Plan::DeleteFlow { call: ApiCall::DeletePolicy { policy_id: 12, .. } }
    ));
    let d = Dispatcher::new(plan, None);
    let (d, a) = d.step(Event::Start);
    match a {
        Action::Call { call: ApiCall::DeletePolicy { parent, policy_id } } => {
            assert_eq!(parent, "ds-7");
            assert_eq!(policy_id, 12);
        }
        _ => panic!("expected the policy deletion call"),
    }
    let (d, a) = d.step(Event::Ack);
    assert!(matches!(a, Action::Finish { output: None }));
    assert!(d.done());
}

#[test]
fn list_policies_formats_the_collection() {
    let plan = DataSetCommand::ListPolicies { id: "ds-8".to_string() }.plan();
    let d = Dispatcher::new(plan, None);
    let (d, a) = d.step(Event::Start);
    match a {
        Action::Call { call: ApiCall::ListPolicies { id } } => assert_eq!(id, "ds-8"),
        _ => panic!("expected the policy list call"),
    }
    let (d, a) = d.step(Event::Page { items: vec![obj(&[("pid", "1")]), obj(&[("pid", "2")])] });
    match a {
        Action::Finish { output } => {
            let text: String = output.expect("policies are printed").iter().collect();
            assert_eq!(text, "pid=1\n\npid=2\n\n");
        }
        _ => panic!("expected the dispatch to finish"),
    }
    assert!(d.done());
}

#[test]
fn paged_list_passes_bounds_through() {
    let plan = DataSetCommand::List { limit: Some(5), offset: Some(10) }.plan();
    let d = Dispatcher::new(plan, None);
    let (d, a) = d.step(Event::Start);
    match a {
        Action::Call { call: ApiCall::List { kind, limit, offset } } => {
            assert!(matches!(kind, ResourceKind::Dataset));
            assert_eq!(limit, Some(5));
            assert_eq!(offset, Some(10));
        }
        _ => panic!("expected the list call"),
    }
    let (d, a) = d.step(Event::Page { items: vec![obj(&[("id", "1")])] });
    match a {
        Action::Finish { output } => {
            let text: String = output.expect("the page is printed").iter().collect();
            assert_eq!(text, "id=1\n\n");
        }
        _ => panic!("expected the dispatch to finish"),
    }
    assert!(d.done());
}

#[test]
fn export_prints_the_payload_unchanged() {
    let plan = DataSetCommand::Export { id: "ds-9".to_string() }.plan();
    let d = Dispatcher::new(plan, None);
    let (d, a) = d.step(Event::Start);
    match a {
        Action::Call { call: ApiCall::GetData { id } } => assert_eq!(id, "ds-9"),
        _ => panic!("expected the data fetch"),
    }
    let (d, a) = d.step(Event::Text { text: chars("x,y\n7,8\n") });
    match a {
        Action::Finish { output } => {
            let text: String = output.expect("the payload is printed").iter().collect();
            assert_eq!(text, "x,y\n7,8\n");
        }
        _ => panic!("expected the dispatch to finish"),
    }
    assert!(d.done());
}
