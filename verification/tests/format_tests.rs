use domo_cli::format::{apply_template, format_list, format_obj, format_table, format_text, Table};
use domo_cli::object::{Field, Obj};

fn chars(s: &str) -> Vec<char> {
    s.chars().collect()
}

fn obj(pairs: &[(&str, &str)]) -> Obj {
    Obj {
        fields: pairs
            .iter()
            .map(|(n, v)| Field { name: chars(n), value: chars(v) })
            .collect(),
    }
}

fn text_of(v: Vec<char>) -> String {
    v.iter().collect()
}

#[test]
fn default_list_dump_holds_both_objects_fields() {
    let os = vec![obj(&[("id", "1"), ("name", "first")]), obj(&[("id", "2"), ("name", "second")])];
    let out = format_list(&os, &None).expect("the default dump never fails");
    assert_eq!(text_of(out), "id=1\nname=first\n\nid=2\nname=second\n\n");
}

#[test]
fn template_with_missing_field_is_an_error() {
    let os = vec![obj(&[("id", "1")]), obj(&[("id", "2")])];
    assert!(format_list(&os, &Some(chars("{nonexistent}"))).is_none());
}

#[test]
fn template_substitutes_fields() {
    let o = obj(&[("id", "7"), ("name", "seven")]);
    let out = apply_template(&chars("{name} has id {id}!"), &o).expect("both fields exist");
    assert_eq!(text_of(out), "seven has id 7!");
}

#[test]
fn unclosed_reference_is_an_error() {
    let o = obj(&[("id", "7")]);
    assert!(apply_template(&chars("{id"), &o).is_none());
}

#[test]
fn single_object_default_dump() {
    let o = obj(&[("id", "7"), ("name", "seven")]);
    let out = format_obj(&o, &None).expect("the default dump never fails");
    assert_eq!(text_of(out), "id=7\nname=seven\n");
}

#[test]
fn list_template_renders_one_line_per_object() {
    let os = vec![obj(&[("id", "1")]), obj(&[("id", "2")])];
    let out = format_list(&os, &Some(chars("#{id}"))).expect("the field exists");
    assert_eq!(text_of(out), "#1\n#2\n");
}

#[test]
fn raw_text_passes_through_by_default() {
    let out = format_text(&chars("a,b\n1,2\n"), &None).expect("no template");
    assert_eq!(text_of(out), "a,b\n1,2\n");
}

#[test]
fn raw_text_template_sees_the_data_field() {
    let out = format_text(&chars("payload"), &Some(chars("<{data}>"))).expect("data exists");
    assert_eq!(text_of(out), "<payload>");
}

#[test]
fn table_default_dump_joins_cells() {
    let tb = Table {
        columns: vec![chars("a"), chars("b")],
        rows: vec![vec![chars("1"), chars("2")], vec![chars("3"), chars("4")]],
    };
    let out = format_table(&tb, &None).expect("the default dump never fails");
    assert_eq!(text_of(out), "a,b\n1,2\n3,4\n");
}

#[test]
fn table_template_names_cells_by_column() {
    let tb = Table {
        columns: vec![chars("a"), chars("b")],
        rows: vec![vec![chars("1"), chars("2")], vec![chars("3"), chars("4")]],
    };
    let out = format_table(&tb, &Some(chars("{b}-{a}"))).expect("both columns exist");
    assert_eq!(text_of(out), "2-1\n4-3\n");
}

#[test]
fn table_template_with_unknown_column_is_an_error() {
    let tb = Table { columns: vec![chars("a")], rows: vec![vec![chars("1")]] };
    assert!(format_table(&tb, &Some(chars("{z}"))).is_none());
}

#[test]
fn stray_closing_brace_is_literal() {
    let o = obj(&[("id", "7")]);
    let out = apply_template(&chars("a} {id}"), &o).expect("only an opening brace references");
    assert_eq!(text_of(out), "a} 7");
}

#[test]
fn empty_template_renders_empty_output() {
    let o = obj(&[("id", "7")]);
    let out = apply_template(&chars(""), &o).expect("an empty template is valid");
    assert_eq!(text_of(out), "");
}
