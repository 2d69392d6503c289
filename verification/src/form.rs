//! Submitted HTML forms: each field name with the values it was given.

use vstd::prelude::*;
use crate::store::texts_view;

verus! {

pub open spec fn form_view(fields: Seq<(String, Vec<String>)>) -> Seq<(Seq<char>, Seq<Seq<char>>)> {
    fields.map_values(|f: (String, Vec<String>)| (f.0@, texts_view(f.1@)))
}

/// The first value of the field `name`: the field that comes first under
/// that name decides, and it has no value when it was given none.
pub open spec fn spec_form_value(fields: Seq<(Seq<char>, Seq<Seq<char>>)>, name: Seq<char>) -> Option<Seq<char>>
    decreases fields.len(),
{
    if fields.len() == 0 {
        None
    } else if fields[0].0 == name {
        if fields[0].1.len() > 0 {
            Some(fields[0].1[0])
        } else {
            None
        }
    } else {
        spec_form_value(fields.drop_first(), name)
    }
}

pub fn form_value(fields: &Vec<(String, Vec<String>)>, name: &str) -> (v: Option<String>)
    ensures
        match spec_form_value(form_view(fields@), name@) {
            Some(t) => v is Some && v->0@ == t,
            None => v is None,
        },
{
    let ghost fs = form_view(fields@);
    let wanted = name.to_owned();
    let mut i: usize = 0;
    assert(fs.subrange(0, fs.len() as int) =~= fs);
    while i < fields.len()
        invariant
            i <= fields@.len(),
            fs == form_view(fields@),
            wanted@ == name@,
            spec_form_value(fs, name@) == spec_form_value(fs.subrange(i as int, fs.len() as int), name@),
        decreases fields@.len() - i,
    {
        let ghost rest = fs.subrange(i as int, fs.len() as int);
        assert(rest[0] == fs[i as int]);
        assert(rest.drop_first() =~= fs.subrange(i as int + 1, fs.len() as int));
        if fields[i].0.eq(&wanted) {
            let values = &fields[i].1;
            assert(fs[i as int].1 == texts_view(values@));
            if values.len() > 0 {
                return Some(values[0].clone());
            } else {
                return None;
            }
        }
        i = i + 1;
    }
    assert(fs.subrange(i as int, fs.len() as int) =~= Seq::<(Seq<char>, Seq<Seq<char>>)>::empty());
    None
}

} // verus!
