//! The output formatter: a result value — one object, a list of objects, a
//! raw text payload, or a tabular query result — is rendered either through
//! a user-supplied template or by its default structured dump. A template is
//! literal text with `{name}` references to the value's fields; a reference
//! to a missing field, or an unclosed reference, is a template error, which
//! the renderers report as `None`.

use vstd::prelude::*;

use crate::edit::find_char;
use crate::edit::lemma_find_char;
use crate::edit::render_obj;
use crate::edit::render;
use crate::edit::copy_range;
use crate::edit::push_all;
use crate::object::Obj;
use crate::object::lookup;

verus! {

/// A tabular query result: column headers and rows of cells.
pub struct Table {
    pub columns: Vec<Vec<char>>,
    pub rows: Vec<Vec<Vec<char>>>,
}

/// A template rendered against one object: literal characters are kept, and
/// each `{name}` is replaced by the object's `name` field. `None` if a `{`
/// is never closed or a referenced field is missing.
pub open spec fn render_template(t: Seq<char>, o: Seq<(Seq<char>, Seq<char>)>) -> Option<
    Seq<char>,
>
    decreases t.len() via render_template_decreases
{
    if t.len() == 0 {
        Some(Seq::empty())
    } else if t[0] == '{' {
        match find_char(t.drop_first(), '}') {
            None => None,
            Some(i) => match lookup(o, t.subrange(1, i as int + 1)) {
                None => None,
                Some(v) => match render_template(t.subrange(i as int + 2, t.len() as int), o) {
                    None => None,
                    Some(r) => Some(v + r),
                },
            },
        }
    } else {
        match render_template(t.drop_first(), o) {
            None => None,
            Some(r) => Some(seq![t[0]] + r),
        }
    }
}

#[via_fn]
proof fn render_template_decreases(t: Seq<char>, o: Seq<(Seq<char>, Seq<char>)>) {
    if t.len() > 0 && t[0] == '{' {
        lemma_find_char(t.drop_first(), '}');
    }
}

/// The default dump of a list: each object's lines, a blank line after each.
pub open spec fn dump_list(os: Seq<Obj>) -> Seq<char>
    decreases os.len(),
{
    if os.len() == 0 {
        Seq::empty()
    } else {
        render_obj(os[0]@) + seq!['\n'] + dump_list(os.drop_first())
    }
}

/// A list rendered through a template: each object on its own line.
pub open spec fn render_list(t: Seq<char>, os: Seq<Obj>) -> Option<Seq<char>>
    decreases os.len(),
{
    if os.len() == 0 {
        Some(Seq::empty())
    } else {
        match render_template(t, os[0]@) {
            None => None,
            Some(r) => match render_list(t, os.drop_first()) {
                None => None,
                Some(rest) => Some(r + seq!['\n'] + rest),
            },
        }
    }
}

/// One table line: its cells joined by commas, ended by a line break.
pub open spec fn line_of(cells: Seq<Vec<char>>) -> Seq<char>
    decreases cells.len(),
{
    if cells.len() == 0 {
        Seq::empty()
    } else if cells.len() == 1 {
        cells[0]@ + seq!['\n']
    } else {
        cells[0]@ + seq![','] + line_of(cells.drop_first())
    }
}

/// The default dump of a table's rows, one line per row.
pub open spec fn dump_rows(rows: Seq<Vec<Vec<char>>>) -> Seq<char>
    decreases rows.len(),
{
    if rows.len() == 0 {
        Seq::empty()
    } else {
        line_of(rows[0]@) + dump_rows(rows.drop_first())
    }
}

/// The default dump of a table: the header line, then every row.
pub open spec fn dump_table(tb: Table) -> Seq<char> {
    line_of(tb.columns@) + dump_rows(tb.rows@)
}

/// One table row seen as an object: each column header names its cell.
pub open spec fn row_fields(cols: Seq<Vec<char>>, row: Seq<Vec<char>>) -> Seq<
    (Seq<char>, Seq<char>),
> {
    Seq::new(if cols.len() <= row.len() { cols.len() } else { row.len() },
        |i: int| (cols[i]@, row[i]@))
}

/// A table rendered through a template: each row as an object, one line per
/// row.
pub open spec fn render_rows(t: Seq<char>, cols: Seq<Vec<char>>, rows: Seq<Vec<Vec<char>>>)
    -> Option<Seq<char>>
    decreases rows.len(),
{
    if rows.len() == 0 {
        Some(Seq::empty())
    } else {
        match render_template(t, row_fields(cols, rows[0]@)) {
            None => None,
            Some(r) => match render_rows(t, cols, rows.drop_first()) {
                None => None,
                Some(rest) => Some(r + seq!['\n'] + rest),
            },
        }
    }
}

/// A raw text payload seen as an object with the single field `data`.
pub open spec fn text_fields(text: Seq<char>) -> Seq<(Seq<char>, Seq<char>)> {
    seq![("data"@, text)]
}

/// What formatting one object yields: the template rendering when a
/// template is given, the default dump otherwise.
pub open spec fn format_obj_spec(tmpl: Option<Vec<char>>, o: Seq<(Seq<char>, Seq<char>)>)
    -> Option<Seq<char>> {
    match tmpl {
        None => Some(render_obj(o)),
        Some(t) => render_template(t@, o),
    }
}

/// What formatting a list of objects yields.
pub open spec fn format_list_spec(tmpl: Option<Vec<char>>, os: Seq<Obj>) -> Option<Seq<char>> {
    match tmpl {
        None => Some(dump_list(os)),
        Some(t) => render_list(t@, os),
    }
}

/// What formatting a raw text payload yields: the text itself by default.
pub open spec fn format_text_spec(tmpl: Option<Vec<char>>, text: Seq<char>) -> Option<Seq<char>> {
    match tmpl {
        None => Some(text),
        Some(t) => render_template(t@, text_fields(text)),
    }
}

/// What formatting a table yields.
pub open spec fn format_table_spec(tmpl: Option<Vec<char>>, tb: Table) -> Option<Seq<char>> {
    match tmpl {
        None => Some(dump_table(tb)),
        Some(t) => render_rows(t@, tb.columns@, tb.rows@),
    }
}

/// Renders a template against one object; `None` is a template error.
pub fn apply_template(t: &Vec<char>, o: &Obj) -> (r: Option<Vec<char>>)
    ensures
        match r {
            Some(v) => render_template(t@, o@) == Some(v@),
            None => render_template(t@, o@) is None,
        },
{
    let mut out: Vec<char> = Vec::new();
    let mut i: usize = 0;
    proof {
        assert(t@.skip(0) =~= t@);
    }
    while i < t.len()
        invariant
            i <= t.len(),
            render_template(t@.skip(i as int), o@) matches Some(rest) ==> render_template(t@, o@)
                == Some(out@ + rest),
            render_template(t@.skip(i as int), o@) is None ==> render_template(t@, o@) is None,
        decreases t.len() - i,
    {
        let ghost s = t@.skip(i as int);
        let c = t[i];
        if c != '{' {
            let ghost prev = out@;
            out.push(c);
            proof {
                assert(s.drop_first() =~= t@.skip(i + 1));
                if let Some(r) = render_template(t@.skip(i + 1), o@) {
                    assert(render_template(s, o@) == Some(seq![t@[i as int]] + r));
                    assert(out@ + r =~= prev + (seq![t@[i as int]] + r));
                }
            }
            i = i + 1;
        } else {
            let mut j: usize = i + 1;
            while j < t.len() && t[j] != '}'
                invariant
                    i + 1 <= j <= t.len(),
                    forall|k: int| i + 1 <= k < j ==> t@[k] != '}',
                decreases t.len() - j,
            {
                j = j + 1;
            }
            proof {
                assert(s.drop_first() =~= t@.skip(i + 1));
            }
            if j == t.len() {
                proof {
                    lemma_find_char(s.drop_first(), '}');
                    if let Some(k) = find_char(s.drop_first(), '}') {
                        assert(s.drop_first()[k as int] == t@[i + 1 + k]);
                    }
                }
                return None;
            }
            proof {
                assert(s.drop_first()[(j - i - 1) as int] == t@[j as int]);
                assert(forall|k: int|
                    0 <= k < j - i - 1 ==> s.drop_first()[k] == t@[i + 1 + k] && s.drop_first()[k]
                        != '}');
                crate::edit::lemma_find_char_at(s.drop_first(), '}', (j - i - 1) as int);
                assert(s.subrange(1, (j - i - 1) as int + 1) =~= t@.subrange(
                    i as int + 1,
                    j as int,
                ));
            }
            let name = copy_range(t, i + 1, j);
            match o.find_field(&name) {
                None => {
                    return None;
                },
                Some(v) => {
                    let ghost prev = out@;
                    push_all(&mut out, v);
                    proof {
                        assert(s.subrange((j - i - 1) as int + 2, s.len() as int) =~= t@.skip(
                            j as int + 1,
                        ));
                        if let Some(r) = render_template(t@.skip(j as int + 1), o@) {
                            assert(render_template(s, o@) == Some(v@ + r));
                            assert(out@ + r =~= prev + (v@ + r));
                        }
                    }
                    i = j + 1;
                },
            }
        }
    }
    proof {
        assert(t@.skip(t@.len() as int) =~= Seq::<char>::empty());
        assert(out@ + Seq::<char>::empty() =~= out@);
    }
    Some(out)
}

/// Formats one object: template rendering, or the default dump.
pub fn format_obj(o: &Obj, tmpl: &Option<Vec<char>>) -> (r: Option<Vec<char>>)
    ensures
        match r {
            Some(v) => format_obj_spec(*tmpl, o@) == Some(v@),
            None => format_obj_spec(*tmpl, o@) is None,
        },
{
    match tmpl {
        None => Some(render(o)),
        Some(t) => apply_template(t, o),
    }
}

/// Formats a list of objects: template rendering per object, or the
/// default dump.
pub fn format_list(os: &Vec<Obj>, tmpl: &Option<Vec<char>>) -> (r: Option<Vec<char>>)
    ensures
        match r {
            Some(v) => format_list_spec(*tmpl, os@) == Some(v@),
            None => format_list_spec(*tmpl, os@) is None,
        },
{
    let mut out: Vec<char> = Vec::new();
    let mut i: usize = 0;
    proof {
        assert(os@.skip(0) =~= os@);
    }
    match tmpl {
        None => {
            while i < os.len()
                invariant
                    i <= os.len(),
                    dump_list(os@) == out@ + dump_list(os@.skip(i as int)),
                decreases os.len() - i,
            {
                let ghost prev = out@;
                let one = render(&os[i]);
                push_all(&mut out, &one);
                out.push('\n');
                proof {
                    assert(os@.skip(i as int).drop_first() =~= os@.skip(i + 1));
                    assert(os@.skip(i as int)[0] == os@[i as int]);
                    assert(out@ =~= prev + (render_obj(os@[i as int]@) + seq!['\n']));
                    assert(prev + (render_obj(os@[i as int]@) + seq!['\n']) + dump_list(
                        os@.skip(i + 1),
                    ) =~= prev + (render_obj(os@[i as int]@) + seq!['\n'] + dump_list(
                        os@.skip(i + 1),
                    )));
                }
                i = i + 1;
            }
            proof {
                assert(os@.skip(os@.len() as int) =~= Seq::<Obj>::empty());
                assert(out@ + Seq::<char>::empty() =~= out@);
            }
            Some(out)
        },
        Some(t) => {
            while i < os.len()
                invariant
                    i <= os.len(),
                    *tmpl matches Some(tv) && tv@ == t@,
                    render_list(t@, os@.skip(i as int)) matches Some(rest) ==> render_list(
                        t@,
                        os@,
                    ) == Some(out@ + rest),
                    render_list(t@, os@.skip(i as int)) is None ==> render_list(t@, os@) is None,
                decreases os.len() - i,
            {
                let ghost prev = out@;
                proof {
                    assert(os@.skip(i as int).drop_first() =~= os@.skip(i + 1));
                    assert(os@.skip(i as int)[0] == os@[i as int]);
                }
                match apply_template(t, &os[i]) {
                    None => {
                        proof {
                            assert(render_list(t@, os@.skip(i as int)) is None);
                        }
                        return None;
                    },
                    Some(one) => {
                        push_all(&mut out, &one);
                        out.push('\n');
                        proof {
                            if let Some(rest) = render_list(t@, os@.skip(i + 1)) {
                                assert(render_list(t@, os@.skip(i as int)) == Some(
                                    one@ + seq!['\n'] + rest,
                                ));
                                assert(out@ + rest =~= prev + (one@ + seq!['\n'] + rest));
                            }
                        }
                        i = i + 1;
                    },
                }
            }
            proof {
                assert(os@.skip(os@.len() as int) =~= Seq::<Obj>::empty());
                assert(out@ + Seq::<char>::empty() =~= out@);
            }
            Some(out)
        },
    }
}

/// Formats a raw text payload: template rendering against its single
/// `data` field, or the text itself.
pub fn format_text(text: &Vec<char>, tmpl: &Option<Vec<char>>) -> (r: Option<Vec<char>>)
    ensures
        match r {
            Some(v) => format_text_spec(*tmpl, text@) == Some(v@),
            None => format_text_spec(*tmpl, text@) is None,
        },
{
    match tmpl {
        None => {
            let mut out: Vec<char> = Vec::new();
            push_all(&mut out, text);
            proof {
                assert(Seq::<char>::empty() + text@ =~= text@);
            }
            Some(out)
        },
        Some(t) => {
            let mut name: Vec<char> = Vec::new();
            name.push('d');
            name.push('a');
            name.push('t');
            name.push('a');
            let mut value: Vec<char> = Vec::new();
            push_all(&mut value, text);
            let o = Obj { fields: vec![crate::object::Field { name, value }] };
            proof {
                reveal_strlit("data");
                assert(Seq::<char>::empty() + text@ =~= text@);
                assert(o.fields@[0].name@ =~= "data"@);
                assert(o@ =~~= text_fields(text@));
            }
            apply_template(t, &o)
        },
    }
}

/// Joins one table line: cells comma-separated, a line break at the end.
fn render_line(cells: &Vec<Vec<char>>) -> (r: Vec<char>)
    ensures
        r@ == line_of(cells@),
{
    let mut out: Vec<char> = Vec::new();
    let mut i: usize = 0;
    proof {
        assert(cells@.skip(0) =~= cells@);
    }
    while i < cells.len()
        invariant
            i <= cells.len(),
            line_of(cells@) == out@ + line_of(cells@.skip(i as int)),
        decreases cells.len() - i,
    {
        let ghost prev = out@;
        push_all(&mut out, &cells[i]);
        proof {
            assert(cells@.skip(i as int).drop_first() =~= cells@.skip(i + 1));
            assert(cells@.skip(i as int)[0] == cells@[i as int]);
        }
        if i + 1 < cells.len() {
            out.push(',');
            proof {
                assert(out@ + line_of(cells@.skip(i + 1)) =~= prev + (cells@[i as int]@
                    + seq![','] + line_of(cells@.skip(i + 1))));
            }
        } else {
            out.push('\n');
            proof {
                assert(cells@.skip(i as int).len() == 1);
                assert(line_of(cells@.skip(i as int)) == cells@[i as int]@ + seq!['\n']);
                assert(line_of(cells@.skip(i + 1)) == Seq::<char>::empty());
                assert(out@ + line_of(cells@.skip(i + 1)) =~= prev + (cells@[i as int]@
                    + seq!['\n']));
            }
        }
        i = i + 1;
    }
    proof {
        assert(cells@.skip(cells@.len() as int) =~= Seq::<Vec<char>>::empty());
        assert(out@ + Seq::<char>::empty() =~= out@);
    }
    out
}

/// A copy of a text buffer.
fn clone_chars(v: &Vec<char>) -> (r: Vec<char>)
    ensures
        r@ == v@,
{
    let r = copy_range(v, 0, v.len());
    proof {
        assert(v@.subrange(0, v@.len() as int) =~= v@);
    }
    r
}

/// One table row as an object: each column header names its cell.
fn row_obj(cols: &Vec<Vec<char>>, row: &Vec<Vec<char>>) -> (o: Obj)
    ensures
        o@ == row_fields(cols@, row@),
{
    let n = if cols.len() <= row.len() {
        cols.len()
    } else {
        row.len()
    };
    let mut fields: Vec<crate::object::Field> = Vec::new();
    let mut k: usize = 0;
    while k < n
        invariant
            k <= n,
            n == if cols@.len() <= row@.len() {
                cols@.len()
            } else {
                row@.len()
            },
            fields@.len() == k,
            forall|j: int| 0 <= j < k ==> #[trigger] fields@[j]@ == (cols@[j]@, row@[j]@),
        decreases n - k,
    {
        let name = clone_chars(&cols[k]);
        let value = clone_chars(&row[k]);
        fields.push(crate::object::Field { name, value });
        k = k + 1;
    }
    let o = Obj { fields };
    proof {
        assert(o@ =~~= row_fields(cols@, row@));
    }
    o
}

/// Formats a table: template rendering per row, or the default dump of the
/// header line and every row.
pub fn format_table(tb: &Table, tmpl: &Option<Vec<char>>) -> (r: Option<Vec<char>>)
    ensures
        match r {
            Some(v) => format_table_spec(*tmpl, *tb) == Some(v@),
            None => format_table_spec(*tmpl, *tb) is None,
        },
{
    let mut i: usize = 0;
    match tmpl {
        None => {
            let mut out = render_line(&tb.columns);
            proof {
                assert(tb.rows@.skip(0) =~= tb.rows@);
            }
            while i < tb.rows.len()
                invariant
                    i <= tb.rows.len(),
                    dump_table(*tb) == out@ + dump_rows(tb.rows@.skip(i as int)),
                decreases tb.rows.len() - i,
            {
                let ghost prev = out@;
                let one = render_line(&tb.rows[i]);
                push_all(&mut out, &one);
                proof {
                    assert(tb.rows@.skip(i as int).drop_first() =~= tb.rows@.skip(i + 1));
                    assert(tb.rows@.skip(i as int)[0] == tb.rows@[i as int]);
                    assert(out@ + dump_rows(tb.rows@.skip(i + 1)) =~= prev + (line_of(
                        tb.rows@[i as int]@,
                    ) + dump_rows(tb.rows@.skip(i + 1))));
                }
                i = i + 1;
            }
            proof {
                assert(tb.rows@.skip(tb.rows@.len() as int) =~= Seq::<Vec<Vec<char>>>::empty());
                assert(out@ + Seq::<char>::empty() =~= out@);
            }
            Some(out)
        },
        Some(t) => {
            let mut out: Vec<char> = Vec::new();
            proof {
                assert(tb.rows@.skip(0) =~= tb.rows@);
            }
            while i < tb.rows.len()
                invariant
                    i <= tb.rows.len(),
                    *tmpl matches Some(tv) && tv@ == t@,
                    render_rows(t@, tb.columns@, tb.rows@.skip(i as int)) matches Some(rest)
                        ==> render_rows(t@, tb.columns@, tb.rows@) == Some(out@ + rest),
                    render_rows(t@, tb.columns@, tb.rows@.skip(i as int)) is None ==> render_rows(
                        t@,
                        tb.columns@,
                        tb.rows@,
                    ) is None,
                decreases tb.rows.len() - i,
            {
                let ghost prev = out@;
                proof {
                    assert(tb.rows@.skip(i as int).drop_first() =~= tb.rows@.skip(i + 1));
                    assert(tb.rows@.skip(i as int)[0] == tb.rows@[i as int]);
                }
                let o = row_obj(&tb.columns, &tb.rows[i]);
                match apply_template(t, &o) {
                    None => {
                        proof {
                            assert(render_rows(t@, tb.columns@, tb.rows@.skip(i as int)) is None);
                        }
                        return None;
                    },
                    Some(one) => {
                        push_all(&mut out, &one);
                        out.push('\n');
                        proof {
                            if let Some(rest) = render_rows(t@, tb.columns@, tb.rows@.skip(i + 1)) {
                                assert(render_rows(t@, tb.columns@, tb.rows@.skip(i as int))
                                    == Some(one@ + seq!['\n'] + rest));
                                assert(out@ + rest =~= prev + (one@ + seq!['\n'] + rest));
                            }
                        }
                        i = i + 1;
                    },
                }
            }
            proof {
                assert(tb.rows@.skip(tb.rows@.len() as int) =~= Seq::<Vec<Vec<char>>>::empty());
                assert(out@ + Seq::<char>::empty() =~= out@);
            }
            Some(out)
        },
    }
}

} // verus!
