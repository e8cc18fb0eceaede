//! Resource objects as the client sees them: a flat list of named text
//! fields. The remote API's JSON bodies are flattened into this shape before
//! the core logic touches them, and rebuilt from it afterwards.

use vstd::prelude::*;

verus! {

/// One named field of a resource object.
pub struct Field {
    pub name: Vec<char>,
    pub value: Vec<char>,
}

impl View for Field {
    type V = (Seq<char>, Seq<char>);

    open spec fn view(&self) -> (Seq<char>, Seq<char>) {
        (self.name@, self.value@)
    }
}

/// A resource object: an ordered list of named fields.
pub struct Obj {
    pub fields: Vec<Field>,
}

impl View for Obj {
    type V = Seq<(Seq<char>, Seq<char>)>;

    open spec fn view(&self) -> Seq<(Seq<char>, Seq<char>)> {
        self.fields@.map_values(|f: Field| f@)
    }
}

/// A field name fits the editable text form: it holds neither the
/// name/value separator nor a line break.
pub open spec fn wf_name(n: Seq<char>) -> bool {
    forall|i: int| 0 <= i < n.len() ==> n[i] != '=' && n[i] != '\n'
}

/// A field value fits the editable text form: it holds no line break.
pub open spec fn wf_value(v: Seq<char>) -> bool {
    forall|i: int| 0 <= i < v.len() ==> v[i] != '\n'
}

/// Every field of the object fits the editable text form.
pub open spec fn wf_obj(o: Seq<(Seq<char>, Seq<char>)>) -> bool {
    forall|i: int| 0 <= i < o.len() ==> wf_name(#[trigger] o[i].0) && wf_value(o[i].1)
}

/// The value of the first field named `name`, if any.
pub open spec fn lookup(o: Seq<(Seq<char>, Seq<char>)>, name: Seq<char>) -> Option<Seq<char>>
    decreases o.len(),
{
    if o.len() == 0 {
        None
    } else if o[0].0 == name {
        Some(o[0].1)
    } else {
        lookup(o.drop_first(), name)
    }
}

/// Character-by-character equality of two text buffers.
pub fn chars_eq(a: &Vec<char>, b: &Vec<char>) -> (r: bool)
    ensures
        r == (a@ == b@),
{
    if a.len() != b.len() {
        proof {
            assert(a@ != b@);
        }
        return false;
    }
    let mut i: usize = 0;
    while i < a.len()
        invariant
            i <= a.len(),
            a.len() == b.len(),
            forall|j: int| 0 <= j < i ==> a@[j] == b@[j],
        decreases a.len() - i,
    {
        if a[i] != b[i] {
            proof {
                assert(a@[i as int] != b@[i as int]);
            }
            return false;
        }
        i = i + 1;
    }
    proof {
        assert(a@ =~= b@);
    }
    true
}

impl Obj {
    /// The value of the first field named `name`, if any.
    pub fn find_field(&self, name: &Vec<char>) -> (r: Option<&Vec<char>>)
        ensures
            match r {
                Some(v) => lookup(self@, name@) == Some(v@),
                None => lookup(self@, name@) is None,
            },
    {
        let mut i: usize = 0;
        proof {
            assert(self@.skip(0) =~= self@);
        }
        while i < self.fields.len()
            invariant
                i <= self.fields.len(),
                lookup(self@, name@) == lookup(self@.skip(i as int), name@),
            decreases self.fields.len() - i,
        {
            proof {
                assert(self@.skip(i as int).drop_first() =~= self@.skip(i + 1));
                assert(self@.skip(i as int)[0] == self@[i as int]);
            }
            if chars_eq(&self.fields[i].name, name) {
                return Some(&self.fields[i].value);
            }
            i = i + 1;
        }
        proof {
            assert(self@.skip(i as int) =~= Seq::<(Seq<char>, Seq<char>)>::empty());
        }
        None
    }
}

} // verus!
