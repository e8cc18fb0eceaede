use domo_cli::command::{ApiCall, Plan, ResourceKind};
use domo_cli::dispatch::{Action, Dispatcher, Event};
use domo_cli::object::{Field, Obj};
use domo_cli::paginate::Aggregator;

fn chars(s: &str) -> Vec<char> {
    s.chars().collect()
}

fn obj_with_value(v: u32) -> Obj {
    Obj {
        fields: vec![Field { name: chars("n"), value: chars(&v.to_string()) }],
    }
}

fn page(start: u32, len: u32) -> Vec<Obj> {
    (start..start + len).map(obj_with_value).collect()
}

#[test]
fn aggregates_three_pages_in_order() {
    let mut agg = Aggregator::new();
    assert_eq!(agg.offset, 0);
    agg.absorb(page(0, 50));
    assert!(!agg.done);
    assert_eq!(agg.offset, 50);
    agg.absorb(page(50, 50));
    assert!(!agg.done);
    assert_eq!(agg.offset, 100);
    agg.absorb(page(100, 37));
    assert!(agg.done);
    assert_eq!(agg.calls, 3);
    assert_eq!(agg.items.len(), 137);
    for (i, o) in agg.items.iter().enumerate() {
        assert_eq!(o.fields[0].value, chars(&i.to_string()));
    }
}

#[test]
fn trailing_empty_page_terminates() {
    let mut agg = Aggregator::new();
    agg.absorb(page(0, 50));
    agg.absorb(page(50, 50));
    agg.absorb(page(100, 50));
    assert!(!agg.done);
    agg.absorb(Vec::new());
    assert!(agg.done);
    assert_eq!(agg.calls, 4);
    assert_eq!(agg.items.len(), 150);
}

#[test]
fn dispatcher_drives_aggregation_at_fifty_per_page() {
    let d = Dispatcher::new(Plan::AggregateAll { kind: ResourceKind::Dataset }, None);
    let (d, a) = d.step(Event::Start);
    let mut calls: u32 = 1;
    match a {
        Action::Call { call: ApiCall::List { limit, offset, .. } } => {
            assert_eq!(limit, Some(50));
            assert_eq!(offset, Some(0));
        }
        _ => panic!("expected a list call"),
    }
    let (d, a) = d.step(Event::Page { items: page(0, 50) });
    match a {
        Action::Call { call: ApiCall::List { limit, offset, .. } } => {
            calls += 1;
            assert_eq!(limit, Some(50));
            assert_eq!(offset, Some(50));
        }
        _ => panic!("expected a second list call"),
    }
    let (d, a) = d.step(Event::Page { items: page(50, 50) });
    match a {
        Action::Call { call: ApiCall::List { limit, offset, .. } } => {
            calls += 1;
            assert_eq!(limit, Some(50));
            assert_eq!(offset, Some(100));
        }
        _ => panic!("expected a third list call"),
    }
    let (d, a) = d.step(Event::Page { items: page(100, 37) });
    match a {
        Action::Finish { output } => {
            let out = output.expect("a list dispatch prints its collection");
            // all 137 items appear, in order
            let text: String = out.iter().collect();
            let mut at = 0;
            for i in 0..137 {
                let line = format!("n={}\n", i);
                let pos = text[at..].find(&line).expect("item missing from output");
                at += pos + line.len();
            }
        }
        _ => panic!("expected the aggregation to finish"),
    }
    assert_eq!(calls, 3);
    assert!(d.done());
}
