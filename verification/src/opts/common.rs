//! What the three groups of options share: how a switch and a valued option turn
//! into arguments.

use vstd::prelude::*;

verus! {

/// `acc`, followed by `name` where the switch is on.
pub open spec fn with_switch(acc: Seq<Seq<char>>, name: Seq<char>, set: Option<bool>) -> Seq<
    Seq<char>,
> {
    if set == Some(true) {
        acc.push(name)
    } else {
        acc
    }
}

/// `acc`, followed by `name` and the value where there is one.
pub open spec fn with_value(acc: Seq<Seq<char>>, name: Seq<char>, value: Option<String>) -> Seq<
    Seq<char>,
> {
    match value {
        Some(text) => acc.push(name).push(text@),
        None => acc,
    }
}

/// A switch adds the same arguments to a list as to its tail alone.
pub proof fn lemma_with_switch_appends(
    head: Seq<Seq<char>>,
    tail: Seq<Seq<char>>,
    name: Seq<char>,
    set: Option<bool>,
)
    ensures
        with_switch(head + tail, name, set) == head + with_switch(tail, name, set),
{
    assert(with_switch(head + tail, name, set) =~= head + with_switch(tail, name, set));
}

/// A valued option adds the same arguments to a list as to its tail alone.
pub proof fn lemma_with_value_appends(
    head: Seq<Seq<char>>,
    tail: Seq<Seq<char>>,
    name: Seq<char>,
    value: Option<String>,
)
    ensures
        with_value(head + tail, name, value) == head + with_value(tail, name, value),
{
    assert(with_value(head + tail, name, value) =~= head + with_value(tail, name, value));
}

/// Appends `name` to `out` where the switch is on.
pub(crate) fn push_switch(out: &mut Vec<String>, name: &str, set: &Option<bool>)
    ensures
        final(out).deep_view() == with_switch(old(out).deep_view(), name@, *set),
{
    if let Some(true) = set {
        out.push(name.to_string());
        assert(out.deep_view() =~= old(out).deep_view().push(name@));
    }
}

/// Appends `name` and the value to `out` where there is a value.
pub(crate) fn push_value(out: &mut Vec<String>, name: &str, value: &Option<String>)
    ensures
        final(out).deep_view() == with_value(old(out).deep_view(), name@, *value),
{
    if let Some(text) = value {
        out.push(name.to_string());
        out.push(text.clone());
        assert(out.deep_view() =~= old(out).deep_view().push(name@).push(text@));
    }
}

/// A copy of an optional text.
pub(crate) fn copy_of(value: &Option<String>) -> (r: Option<String>)
    ensures
        r == *value,
{
    match value {
        Some(text) => Some(text.clone()),
        None => None,
    }
}

} // verus!
