//! A model of the host runtime's object graph.
//!
//! The host hands the bridge opaque objects that are read through named,
//! individually fallible accessors (`getUser`, `getPort`, ...). The adapter at
//! the process boundary performs those accessor calls and records what each
//! one produced; the result is a [`Foreign`] value: a tree of texts, integers
//! and nested objects, with explicit markers for an accessor that returned
//! nothing and one that failed outright. The marshaller walks this tree and
//! never touches the host runtime itself.

use vstd::prelude::*;

verus! {

/// The logical fields the bridge reads from the host's objects, one per
/// accessor in the foreign interface.
#[derive(Clone, Copy, PartialEq, Eq, Structural, Debug)]
pub enum FieldName {
    User,
    Domain,
    Name,
    Email,
    From,
    To,
    Subject,
    Body,
    Server,
    Port,
    Username,
    Password,
}

/// What one accessor call on a foreign object produced.
#[derive(Debug)]
pub enum Foreign {
    /// The accessor returned a text value.
    Text(String),
    /// The accessor returned an integer value.
    Int(i32),
    /// The accessor returned a nested object, itself read field by field.
    Object(Vec<(FieldName, Foreign)>),
    /// The accessor returned no value (a null reference on the host side).
    Absent,
    /// The accessor call itself failed.
    Fault,
}

/// The first value recorded for `name` among `fields`, if any.
pub open spec fn spec_lookup(fields: Seq<(FieldName, Foreign)>, name: FieldName) -> Option<
    Foreign,
>
    decreases fields.len(),
{
    if fields.len() == 0 {
        None
    } else if fields[0].0 == name {
        Some(fields[0].1)
    } else {
        spec_lookup(fields.drop_first(), name)
    }
}

/// Finds the value recorded for `name` among `fields`.
pub fn lookup<'a>(fields: &'a Vec<(FieldName, Foreign)>, name: FieldName) -> (r: Option<
    &'a Foreign,
>)
    ensures
        match r {
            Some(v) => spec_lookup(fields@, name) == Some(*v),
            None => spec_lookup(fields@, name) is None,
        },
{
    let mut i: usize = 0;
    proof {
        assert(fields@.skip(0) =~= fields@);
    }
    while i < fields.len()
        invariant
            i <= fields.len(),
            spec_lookup(fields@, name) == spec_lookup(fields@.skip(i as int), name),
        decreases fields.len() - i,
    {
        proof {
            assert(fields@.skip(i as int)[0] == fields@[i as int]);
            assert(fields@.skip(i as int).drop_first() =~= fields@.skip(i as int + 1));
        }
        if fields[i].0 == name {
            return Some(&fields[i].1);
        }
        i += 1;
    }
    None
}

} // verus!
