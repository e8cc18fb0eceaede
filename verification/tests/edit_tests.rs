use domo_cli::edit::{parse, render, EditError, EditSession};
use domo_cli::object::{Field, Obj};

fn chars(s: &str) -> Vec<char> {
    s.chars().collect()
}

fn template_obj() -> Obj {
    Obj {
        fields: vec![
            Field { name: chars("name"), value: chars("") },
            Field { name: chars("description"), value: chars("") },
            Field { name: chars("rows"), value: chars("0") },
        ],
    }
}

fn fields_of(o: &Obj) -> Vec<(String, String)> {
    o.fields
        .iter()
        .map(|f| (f.name.iter().collect(), f.value.iter().collect()))
        .collect()
}

#[test]
fn renders_one_line_per_field() {
    let o = template_obj();
    let text: String = render(&o).iter().collect();
    assert_eq!(text, "name=\ndescription=\nrows=0\n");
}

#[test]
fn parses_names_and_values() {
    let o = parse(&chars("a=1\nb=two words\n")).expect("well-formed text");
    assert_eq!(
        fields_of(&o),
        vec![
            ("a".to_string(), "1".to_string()),
            ("b".to_string(), "two words".to_string())
        ]
    );
}

#[test]
fn value_may_contain_the_separator() {
    let o = parse(&chars("eq=a=b\n")).expect("only the first separator splits");
    assert_eq!(fields_of(&o), vec![("eq".to_string(), "a=b".to_string())]);
}

#[test]
fn line_without_separator_is_malformed() {
    assert!(parse(&chars("name\n")).is_none());
}

#[test]
fn trailing_text_without_line_break_is_malformed() {
    assert!(parse(&chars("a=1")).is_none());
}

#[test]
fn unchanged_text_round_trips_to_the_template() {
    let (mut session, text) = EditSession::open(template_obj());
    let r = session.conclude(true, &text);
    let back = r.expect("an unchanged edit still submits");
    assert_eq!(fields_of(&back), fields_of(&template_obj()));
    assert!(!session.file_open);
}

#[test]
fn invalid_text_is_a_parse_error() {
    let (mut session, _text) = EditSession::open(template_obj());
    let r = session.conclude(true, &chars("this is not a field list"));
    assert!(matches!(r, Err(EditError::Parse)));
    assert!(!session.file_open);
}

#[test]
fn failed_editor_aborts_the_edit() {
    let (mut session, text) = EditSession::open(template_obj());
    let r = session.conclude(false, &text);
    assert!(matches!(r, Err(EditError::Aborted)));
    assert!(!session.file_open);
}
