//! The edit-before-submit workflow: an object is rendered to an editable
//! `name=value` line format, handed to an external editor through a scoped
//! temporary file, read back and parsed into an object again. The file and
//! the editor process are driven by the caller; this module owns the text
//! format, the parse, and the session protocol that guarantees the file is
//! released on every exit path.

use vstd::prelude::*;

use crate::object::Field;
use crate::object::Obj;
use crate::object::wf_obj;

verus! {

/// Index of the first occurrence of `c` in `t`, if any.
pub open spec fn find_char(t: Seq<char>, c: char) -> Option<nat>
    decreases t.len(),
{
    if t.len() == 0 {
        None
    } else if t[0] == c {
        Some(0)
    } else {
        match find_char(t.drop_first(), c) {
            Some(i) => Some((i + 1) as nat),
            None => None,
        }
    }
}

pub proof fn lemma_find_char(t: Seq<char>, c: char)
    ensures
        match find_char(t, c) {
            Some(i) => i < t.len() && t[i as int] == c && (forall|j: int|
                0 <= j < i ==> t[j] != c),
            None => forall|j: int| 0 <= j < t.len() ==> t[j] != c,
        },
    decreases t.len(),
{
    if t.len() > 0 && t[0] != c {
        lemma_find_char(t.drop_first(), c);
        match find_char(t.drop_first(), c) {
            Some(i) => {
                assert(t[i as int + 1] == c) by {
                    assert(t.drop_first()[i as int] == c);
                }
                assert forall|j: int| 0 <= j < i + 1 implies t[j] != c by {
                    if j > 0 {
                        assert(t.drop_first()[j - 1] != c);
                    }
                }
            },
            None => {
                assert forall|j: int| 0 <= j < t.len() implies t[j] != c by {
                    if j > 0 {
                        assert(t.drop_first()[j - 1] != c);
                    }
                }
            },
        }
    }
}

/// One editable line: the text before the first `=` is the field name, the
/// text after it the value. A line without `=` is malformed.
pub open spec fn parse_line(l: Seq<char>) -> Option<(Seq<char>, Seq<char>)> {
    match find_char(l, '=') {
        None => None,
        Some(i) => Some((l.subrange(0, i as int), l.subrange(i as int + 1, l.len() as int))),
    }
}

/// The editable text of one field: `name=value` followed by a line break.
pub open spec fn render_field(f: (Seq<char>, Seq<char>)) -> Seq<char> {
    f.0 + seq!['='] + f.1 + seq!['\n']
}

/// The editable text of a whole object: its fields' lines in order.
pub open spec fn render_obj(o: Seq<(Seq<char>, Seq<char>)>) -> Seq<char>
    decreases o.len(),
{
    if o.len() == 0 {
        Seq::empty()
    } else {
        render_field(o[0]) + render_obj(o.drop_first())
    }
}

/// The object an editable text parses to: one field per `\n`-terminated
/// line, each line split at its first `=`. `None` on any malformed line or
/// on trailing text without a line break.
pub open spec fn parse_obj(t: Seq<char>) -> Option<Seq<(Seq<char>, Seq<char>)>>
    decreases t.len() via parse_obj_decreases
{
    if t.len() == 0 {
        Some(Seq::empty())
    } else {
        match find_char(t, '\n') {
            None => None,
            Some(i) => match parse_line(t.subrange(0, i as int)) {
                None => None,
                Some(f) => match parse_obj(t.subrange(i as int + 1, t.len() as int)) {
                    None => None,
                    Some(rest) => Some(seq![f] + rest),
                },
            },
        }
    }
}

#[via_fn]
proof fn parse_obj_decreases(t: Seq<char>) {
    if t.len() > 0 {
        lemma_find_char(t, '\n');
    }
}

/// Rendering appends one field's line at a time.
pub proof fn lemma_render_snoc(o: Seq<(Seq<char>, Seq<char>)>, f: (Seq<char>, Seq<char>))
    ensures
        render_obj(o.push(f)) == render_obj(o) + render_field(f),
    decreases o.len(),
{
    if o.len() == 0 {
        assert(o.push(f).drop_first() =~= Seq::<(Seq<char>, Seq<char>)>::empty());
        assert(o.push(f)[0] == f);
        assert(render_obj(o.push(f)) == render_field(f) + render_obj(
            Seq::<(Seq<char>, Seq<char>)>::empty(),
        ));
        assert(render_obj(o.push(f)) =~= render_obj(o) + render_field(f));
    } else {
        assert(o.push(f).drop_first() =~= o.drop_first().push(f));
        lemma_render_snoc(o.drop_first(), f);
        assert(o.push(f)[0] == o[0]);
        assert(render_obj(o.push(f)) =~= render_obj(o) + render_field(f));
    }
}

/// `find_char` returns exactly the position of the first occurrence.
pub proof fn lemma_find_char_at(s: Seq<char>, c: char, k: int)
    requires
        0 <= k < s.len(),
        s[k] == c,
        forall|j: int| 0 <= j < k ==> s[j] != c,
    ensures
        find_char(s, c) == Some(k as nat),
{
    lemma_find_char(s, c);
    match find_char(s, c) {
        Some(i) => {
            if i < k {
                assert(s[i as int] != c);
            } else if i > k {
                assert(s[k] == c);
            }
        },
        None => {
            assert(s[k] == c);
        },
    }
}

/// The round-trip law of the edit format: a well-formed object re-parses
/// from its own rendering unchanged, so an editor that leaves the text
/// untouched hands the same object back.
pub proof fn lemma_round_trip(o: Seq<(Seq<char>, Seq<char>)>)
    requires
        wf_obj(o),
    ensures
        parse_obj(render_obj(o)) == Some(o),
    decreases o.len(),
{
    if o.len() == 0 {
    } else {
        let f = o[0];
        let line = f.0 + seq!['='] + f.1;
        let rf = render_field(f);
        let t = render_obj(o);
        let rest = render_obj(o.drop_first());
        assert(t == rf + rest);
        let k = line.len();
        assert(rf[k as int] == '\n');
        assert(t[k as int] == '\n');
        assert(forall|j: int| 0 <= j < f.0.len() ==> t[j] == f.0[j] && t[j] != '\n');
        assert(t[f.0.len() as int] == '=');
        assert(forall|j: int|
            f.0.len() < j < k ==> t[j] == f.1[j - f.0.len() - 1] && t[j] != '\n');
        lemma_find_char(t, '\n');
        assert(find_char(t, '\n') == Some(k as nat)) by {
            match find_char(t, '\n') {
                Some(i) => {
                    if i < k {
                        assert(t[i as int] != '\n');
                    } else if i > k {
                        assert(t[k as int] == '\n');
                    }
                },
                None => {
                    assert(t[k as int] == '\n');
                },
            }
        }
        let l = t.subrange(0, k as int);
        assert(l =~= line);
        assert(forall|j: int| 0 <= j < f.0.len() ==> l[j] == f.0[j] && l[j] != '=');
        assert(l[f.0.len() as int] == '=');
        lemma_find_char(l, '=');
        assert(find_char(l, '=') == Some(f.0.len() as nat)) by {
            match find_char(l, '=') {
                Some(i) => {
                    if i < f.0.len() {
                        assert(l[i as int] != '=');
                    } else if i > f.0.len() {
                        assert(l[f.0.len() as int] == '=');
                    }
                },
                None => {
                    assert(l[f.0.len() as int] == '=');
                },
            }
        }
        assert(l.subrange(0, f.0.len() as int) =~= f.0);
        assert(l.subrange(f.0.len() as int + 1, l.len() as int) =~= f.1);
        assert(parse_line(l) == Some(f));
        let after = t.subrange(k as int + 1, t.len() as int);
        assert(after =~= rest);
        assert(wf_obj(o.drop_first())) by {
            assert(forall|i: int|
                0 <= i < o.drop_first().len() ==> o.drop_first()[i] == o[i + 1]);
        }
        lemma_round_trip(o.drop_first());
        assert(parse_obj(after) == Some(o.drop_first()));
        assert(seq![f] + o.drop_first() =~= o);
    }
}

/// Appends a copy of `src` to `dst`.
pub(crate) fn push_all(dst: &mut Vec<char>, src: &Vec<char>)
    ensures
        final(dst)@ == old(dst)@ + src@,
{
    let mut i: usize = 0;
    while i < src.len()
        invariant
            i <= src.len(),
            dst@ == old(dst)@ + src@.take(i as int),
        decreases src.len() - i,
    {
        dst.push(src[i]);
        proof {
            assert(old(dst)@ + src@.take(i as int) + seq![src@[i as int]] =~= old(dst)@
                + src@.take(i + 1));
        }
        i = i + 1;
    }
    proof {
        assert(old(dst)@ + src@.take(src@.len() as int) =~= old(dst)@ + src@);
    }
}

/// A copy of `t[a..b]`.
pub(crate) fn copy_range(t: &Vec<char>, a: usize, b: usize) -> (r: Vec<char>)
    requires
        a <= b <= t.len(),
    ensures
        r@ == t@.subrange(a as int, b as int),
{
    let mut r: Vec<char> = Vec::new();
    let mut i: usize = a;
    while i < b
        invariant
            a <= i <= b <= t.len(),
            r@ == t@.subrange(a as int, i as int),
        decreases b - i,
    {
        r.push(t[i]);
        proof {
            assert(t@.subrange(a as int, i as int) + seq![t@[i as int]] =~= t@.subrange(
                a as int,
                i + 1,
            ));
        }
        i = i + 1;
    }
    r
}

/// Renders an object to its editable text.
pub fn render(o: &Obj) -> (t: Vec<char>)
    ensures
        t@ == render_obj(o@),
{
    let mut t: Vec<char> = Vec::new();
    let mut i: usize = 0;
    proof {
        assert(o@.take(0) =~= Seq::<(Seq<char>, Seq<char>)>::empty());
    }
    while i < o.fields.len()
        invariant
            i <= o.fields.len(),
            o@.len() == o.fields.len(),
            t@ == render_obj(o@.take(i as int)),
        decreases o.fields.len() - i,
    {
        push_all(&mut t, &o.fields[i].name);
        t.push('=');
        push_all(&mut t, &o.fields[i].value);
        t.push('\n');
        proof {
            assert(t@ =~= render_obj(o@.take(i as int)) + render_field(o@[i as int]));
            lemma_render_snoc(o@.take(i as int), o@[i as int]);
            assert(o@.take(i as int).push(o@[i as int]) =~= o@.take(i + 1));
        }
        i = i + 1;
    }
    proof {
        assert(o@.take(o@.len() as int) =~= o@);
    }
    t
}

/// Parses an editable text back into an object; `None` on malformed input.
pub fn parse(t: &Vec<char>) -> (r: Option<Obj>)
    ensures
        match r {
            Some(o) => parse_obj(t@) == Some(o@),
            None => parse_obj(t@) is None,
        },
{
    let mut fields: Vec<Field> = Vec::new();
    let mut pos: usize = 0;
    proof {
        assert(t@.skip(0) =~= t@);
    }
    while pos < t.len()
        invariant
            pos <= t.len(),
            parse_obj(t@.skip(pos as int)) matches Some(rest) ==> parse_obj(t@) == Some(
                fields@.map_values(|fd: Field| fd@) + rest,
            ),
            parse_obj(t@.skip(pos as int)) is None ==> parse_obj(t@) is None,
        decreases t.len() - pos,
    {
        let ghost s = t@.skip(pos as int);
        let mut j: usize = pos;
        while j < t.len() && t[j] != '\n'
            invariant
                pos <= j <= t.len(),
                forall|k: int| pos <= k < j ==> t@[k] != '\n',
            decreases t.len() - j,
        {
            j = j + 1;
        }
        if j == t.len() {
            proof {
                lemma_find_char(s, '\n');
                if let Some(i) = find_char(s, '\n') {
                    assert(s[i as int] == t@[pos + i]);
                }
            }
            return None;
        }
        proof {
            assert(s[(j - pos) as int] == '\n');
            assert(forall|k: int| 0 <= k < j - pos ==> s[k] == t@[pos + k] && s[k] != '\n');
            lemma_find_char_at(s, '\n', (j - pos) as int);
        }
        let ghost line = s.subrange(0, (j - pos) as int);
        let mut e: usize = pos;
        while e < j && t[e] != '='
            invariant
                pos <= e <= j < t.len(),
                forall|k: int| pos <= k < e ==> t@[k] != '=',
            decreases j - e,
        {
            e = e + 1;
        }
        if e == j {
            proof {
                lemma_find_char(line, '=');
                if let Some(i) = find_char(line, '=') {
                    assert(line[i as int] == t@[pos + i]);
                }
            }
            return None;
        }
        proof {
            assert(line[(e - pos) as int] == t@[e as int]);
            assert(forall|k: int| 0 <= k < e - pos ==> line[k] == t@[pos + k] && line[k] != '=');
            lemma_find_char_at(line, '=', (e - pos) as int);
        }
        let name = copy_range(t, pos, e);
        let value = copy_range(t, e + 1, j);
        proof {
            assert(line.subrange(0, (e - pos) as int) =~= t@.subrange(pos as int, e as int));
            assert(line.subrange((e - pos) as int + 1, line.len() as int) =~= t@.subrange(
                e as int + 1,
                j as int,
            ));
        }
        let ghost f = (name@, value@);
        let ghost prev_fields = fields@.map_values(|fd: Field| fd@);
        fields.push(Field { name, value });
        proof {
            assert(s.subrange((j - pos) as int + 1, s.len() as int) =~= t@.skip(j as int + 1));
            assert(parse_obj(s) matches Some(r0) ==> r0 == seq![f] + parse_obj(
                t@.skip(j as int + 1),
            )->Some_0);
            assert(fields@.map_values(|fd: Field| fd@) =~= prev_fields.push(f));
            if let Some(rest) = parse_obj(t@.skip(j as int + 1)) {
                assert(parse_obj(s) == Some(seq![f] + rest));
                assert(prev_fields + (seq![f] + rest) =~= prev_fields.push(f) + rest);
            }
        }
        pos = j + 1;
    }
    proof {
        assert(t@.skip(t@.len() as int) =~= Seq::<char>::empty());
        assert(fields@.map_values(|fd: Field| fd@) + Seq::<(Seq<char>, Seq<char>)>::empty()
            =~= fields@.map_values(|fd: Field| fd@));
    }
    Some(Obj { fields })
}

/// Why the interactive edit of an object failed.
#[derive(Debug)]
pub enum EditError {
    /// The editor exited with failure.
    Aborted,
    /// The edited text did not parse back into an object.
    Parse,
}

/// One interactive edit of one object, from rendering the editable text to
/// parsing the editor's result. The caller owns the temporary file and the
/// editor process; `file_open` mirrors the file's lifetime, and every path
/// through `conclude` clears it before an outcome is produced, so a session
/// never ends holding the file.
pub struct EditSession {
    /// The object the edit started from.
    pub source: Obj,
    /// Whether the scoped temporary file of this session still exists.
    pub file_open: bool,
    /// Whether the session has produced its outcome.
    pub finished: bool,
}

impl EditSession {
    /// Starts an edit of `source`: the returned text is what the caller
    /// writes to the session's temporary file before starting the editor.
    pub fn open(source: Obj) -> (r: (EditSession, Vec<char>))
        ensures
            r.0.file_open,
            !r.0.finished,
            r.0.source@ == source@,
            r.1@ == render_obj(source@),
    {
        let text = render(&source);
        (
            EditSession { source, file_open: true, finished: false },
            text,
        )
    }

    /// Ends the edit with the editor's exit status and the text read back
    /// from the file. The file is released on every path — success, parse
    /// failure and editor failure alike — before any outcome is returned:
    /// a failed editor aborts the edit, unparseable text is a parse error,
    /// and anything else is the re-parsed object, whether or not the editor
    /// changed the text.
    pub fn conclude(&mut self, editor_ok: bool, edited: &Vec<char>) -> (r: Result<Obj, EditError>)
        requires
            old(self).file_open,
            !old(self).finished,
        ensures
            !final(self).file_open,
            final(self).finished,
            final(self).source@ == old(self).source@,
            match r {
                Ok(o) => editor_ok && parse_obj(edited@) == Some(o@),
                Err(EditError::Aborted) => !editor_ok,
                Err(EditError::Parse) => editor_ok && parse_obj(edited@) is None,
            },
    {
        self.file_open = false;
        self.finished = true;
        if !editor_ok {
            return Err(EditError::Aborted);
        }
        match parse(edited) {
            Some(o) => Ok(o),
            None => Err(EditError::Parse),
        }
    }
}

} // verus!
