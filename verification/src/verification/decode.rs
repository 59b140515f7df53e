//! Decoding a line of the status stream.

use super::schema::{
    backend_at, body_of, bool_at, construction_of, count_at, definition_of, definitions_of,
    details_at, details_error_of, details_errors_at, details_of, details_result_of, each,
    entity_of, exception_of, int_at, int_of, invalid_args_of, job_of, kind_of,
    lemma_each_failed, lemma_each_next, line_status, list_at, list_of, optional,
    optional_bool_at, optional_int_at, optional_position_at, outline_member_of, outline_of,
    position_of, remaining, report_of, required, result_of, statistics_of,
    status_of, text_at, text_job, type_of, viper_type_of, DecodeErrorView, MessageKind, Shape,
};
use super::status::{
    distinct_keys, members, views, Backend, Details, DetailsError, DetailsResult, Entity,
    OptionalPosition, ParseOptionalError, Position, ProgramDefinition, ProgramOutlineMember,
    Type, VerificationStatus, ViperType,
};
use crate::json::{
    as_array, as_bool, as_i64, as_str, as_u64, error_text, error_words, get, is_null, keys,
    keys_of, member, parse, trees, value_tree, JsonTree,
};
use vstd::string::*;
use crate::text::same_text;
use vstd::prelude::*;

verus! {

/// Why a line is no status message.
#[derive(Debug)]
pub enum DecodeError {
    /// The line is no JSON document.
    Syntax(serde_json::Error),
    /// A member that the message needs is not there.
    Missing { field: String },
    /// A member is there and has the wrong JSON type.
    Mismatch { field: String },
    /// The kind of message is none of the known ones.
    UnknownMessage { found: String },
    /// The backend is neither of the two.
    UnknownBackend { found: String },
    /// A position was given as a text that does not stand for "no position".
    Position(ParseOptionalError),
}

impl View for DecodeError {
    type V = DecodeErrorView;

    open spec fn view(&self) -> DecodeErrorView {
        match *self {
            DecodeError::Syntax(e) => DecodeErrorView::Syntax { message: error_text(e) },
            DecodeError::Missing { field } => DecodeErrorView::Missing { field: field@ },
            DecodeError::Mismatch { field } => DecodeErrorView::Mismatch { field: field@ },
            DecodeError::UnknownMessage { found } => DecodeErrorView::UnknownMessage {
                found: found@,
            },
            DecodeError::UnknownBackend { found } => DecodeErrorView::UnknownBackend {
                found: found@,
            },
            DecodeError::Position(e) => DecodeErrorView::Position { found: e.found@ },
        }
    }
}

impl DecodeError {
    /// The error in words.
    pub fn to_string(&self) -> (r: String)
        ensures
            r@ == self@.message(),
    {
        match self {
            DecodeError::Syntax(e) => error_words(e),
            DecodeError::Missing { field } => framed("missing field `", field.as_str()),
            DecodeError::Mismatch { field } => framed("invalid type of field `", field.as_str()),
            DecodeError::UnknownMessage { found } => framed(
                "unknown message type `",
                found.as_str(),
            ),
            DecodeError::UnknownBackend { found } => framed("unknown backend `", found.as_str()),
            DecodeError::Position(e) => e.to_string(),
        }
    }
}

/// `text` after `lead` and before a closing quote.
fn framed(lead: &str, text: &str) -> (r: String)
    ensures
        r@ == lead@ + text@ + "`"@,
{
    let mut out = lead.to_string();
    out.append(text);
    out.append("`");
    out
}

/// The error of a member that is not there.
fn missing(key: &str) -> (e: DecodeError)
    ensures
        e@ == (DecodeErrorView::Missing { field: key@ }),
{
    DecodeError::Missing { field: key.to_string() }
}

/// The error of a member of the wrong JSON type.
fn mismatch(key: &str) -> (e: DecodeError)
    ensures
        e@ == (DecodeErrorView::Mismatch { field: key@ }),
{
    DecodeError::Mismatch { field: key.to_string() }
}

/// The member under `key`, which has to be there.
fn read_required<'a>(v: &'a serde_json::Value, key: &str) -> (r: Result<
    &'a serde_json::Value,
    DecodeError,
>)
    ensures
        match (r, required(value_tree(*v), key@)) {
            (Ok(found), Ok(expected)) => expected == value_tree(*found),
            (Err(e), Err(expected)) => expected == e@,
            _ => false,
        },
{
    match get(v, key) {
        Some(found) => Ok(found),
        None => Err(missing(key)),
    }
}

/// The member under `key`, where it is there and not `null`.
fn read_optional<'a>(v: &'a serde_json::Value, key: &str) -> (r: Option<&'a serde_json::Value>)
    ensures
        match r {
            Some(found) => optional(value_tree(*v), key@) == Some(value_tree(*found)),
            None => optional(value_tree(*v), key@) is None,
        },
{
    match get(v, key) {
        Some(found) => if is_null(found) {
            None
        } else {
            Some(found)
        },
        None => None,
    }
}

/// The string under `key`.
fn read_text(v: &serde_json::Value, key: &str) -> (r: Result<String, DecodeError>)
    ensures
        match (r, text_at(value_tree(*v), key@)) {
            (Ok(text), Ok(expected)) => expected == text@,
            (Err(e), Err(expected)) => expected == e@,
            _ => false,
        },
{
    let found = read_required(v, key)?;
    match as_str(found) {
        Some(text) => Ok(text.to_string()),
        None => Err(mismatch(key)),
    }
}

/// A position.
fn read_position(v: &serde_json::Value) -> (r: Result<Position, DecodeError>)
    ensures
        match (r, position_of(value_tree(*v))) {
            (Ok(position), Ok(expected)) => expected == position@,
            (Err(e), Err(expected)) => expected == e@,
            _ => false,
        },
{
    let end = read_text(v, "end")?;
    let file = read_text(v, "file")?;
    let start = read_text(v, "start")?;
    Ok(Position { end, file, start })
}

/// The position under `key`, which is given as a text or as an object: a
/// text has to be one of the two that stand for "no position", and anything
/// else is read as a position.
fn string_or_struct(v: &serde_json::Value, key: &str) -> (r: Result<OptionalPosition, DecodeError>)
    ensures
        match (r, optional_position_at(value_tree(*v), key@)) {
            (Ok(position), Ok(expected)) => expected == position@,
            (Err(e), Err(expected)) => expected == e@,
            _ => false,
        },
{
    let found = read_required(v, key)?;
    match as_str(found) {
        Some(text) => match OptionalPosition::from_str(text) {
            Ok(absent) => Ok(absent),
            Err(e) => Err(DecodeError::Position(e)),
        },
        None => Ok(OptionalPosition::Given(read_position(found)?)),
    }
}

/// One reported error.
fn read_details_error(v: &serde_json::Value) -> (r: Result<DetailsError, DecodeError>)
    ensures
        match (r, details_error_of(value_tree(*v))) {
            (Ok(error), Ok(expected)) => expected == error@,
            (Err(e), Err(expected)) => expected == e@,
            _ => false,
        },
{
    let cached = read_bool(v, "cached")?;
    let position = string_or_struct(v, "position")?;
    let tag = read_text(v, "tag")?;
    let text = read_text(v, "text")?;
    Ok(DetailsError { cached, position, tag, text })
}

/// The reported errors in the array under `key`.
fn read_details_errors(v: &serde_json::Value, key: &str) -> (r: Result<
    Vec<DetailsError>,
    DecodeError,
>)
    ensures
        match (r, details_errors_at(value_tree(*v), key@)) {
            (Ok(errors), Ok(expected)) => expected == views(errors@),
            (Err(e), Err(expected)) => expected == e@,
            _ => false,
        },
{
    let items = read_list(v, key)?;
    let ghost one = |item: JsonTree| details_error_of(item);
    let mut out: Vec<DetailsError> = Vec::new();
    let mut i: usize = 0;
    assert(trees(items@).take(0) =~= Seq::empty());
    assert(views(out@) =~= Seq::empty());
    while i < items.len()
        invariant
            i <= items.len(),
            one == |item: JsonTree| details_error_of(item),
            list_at(value_tree(*v), key@) matches Ok(all) && all == trees(items@),
            each(trees(items@).take(i as int), one) matches Ok(done) && done == views(out@),
        decreases items.len() - i,
    {
        proof {
            lemma_each_next(trees(items@), one, i as int);
        }
        match read_details_error(&items[i]) {
            Ok(error) => {
                let ghost before = views(out@);
                out.push(error);
                assert(views(out@) =~= before.push(error@));
            },
            Err(e) => {
                proof {
                    lemma_each_failed(trees(items@), one, i + 1);
                }
                return Err(e);
            },
        }
        i += 1;
    }
    assert(trees(items@).take(i as int) =~= trees(items@));
    Ok(out)
}

/// The number that `found` is; `key` is where it stood.
fn read_int_of(found: &serde_json::Value, key: &str) -> (r: Result<i64, DecodeError>)
    ensures
        match (r, int_of(value_tree(*found), key@)) {
            (Ok(n), Ok(expected)) => expected == n,
            (Err(e), Err(expected)) => expected == e@,
            _ => false,
        },
{
    match as_i64(found) {
        Some(n) => Ok(n),
        None => Err(mismatch(key)),
    }
}

/// The integer under `key`.
fn read_int(v: &serde_json::Value, key: &str) -> (r: Result<i64, DecodeError>)
    ensures
        match (r, int_at(value_tree(*v), key@)) {
            (Ok(n), Ok(expected)) => expected == n,
            (Err(e), Err(expected)) => expected == e@,
            _ => false,
        },
{
    let found = read_required(v, key)?;
    read_int_of(found, key)
}

/// The integer under `key`, where the member is there and not `null`.
fn read_optional_int(v: &serde_json::Value, key: &str) -> (r: Result<Option<i64>, DecodeError>)
    ensures
        match (r, optional_int_at(value_tree(*v), key@)) {
            (Ok(n), Ok(expected)) => expected == n,
            (Err(e), Err(expected)) => expected == e@,
            _ => false,
        },
{
    match read_optional(v, key) {
        Some(found) => Ok(Some(read_int_of(found, key)?)),
        None => Ok(None),
    }
}

/// The truth value under `key`.
fn read_bool(v: &serde_json::Value, key: &str) -> (r: Result<bool, DecodeError>)
    ensures
        match (r, bool_at(value_tree(*v), key@)) {
            (Ok(b), Ok(expected)) => expected == b,
            (Err(e), Err(expected)) => expected == e@,
            _ => false,
        },
{
    let found = read_required(v, key)?;
    match as_bool(found) {
        Some(b) => Ok(b),
        None => Err(mismatch(key)),
    }
}

/// The truth value under `key`, where the member is there and not `null`.
fn read_optional_bool(v: &serde_json::Value, key: &str) -> (r: Result<Option<bool>, DecodeError>)
    ensures
        match (r, optional_bool_at(value_tree(*v), key@)) {
            (Ok(b), Ok(expected)) => expected == b,
            (Err(e), Err(expected)) => expected == e@,
            _ => false,
        },
{
    match read_optional(v, key) {
        Some(found) => match as_bool(found) {
            Some(b) => Ok(Some(b)),
            None => Err(mismatch(key)),
        },
        None => Ok(None),
    }
}

/// The elements of the array under `key`.
fn read_list<'a>(v: &'a serde_json::Value, key: &str) -> (r: Result<
    &'a Vec<serde_json::Value>,
    DecodeError,
>)
    ensures
        match (r, list_at(value_tree(*v), key@)) {
            (Ok(items), Ok(expected)) => expected == trees(items@),
            (Err(e), Err(expected)) => expected == e@,
            _ => false,
        },
{
    let found = read_required(v, key)?;
    match as_array(found) {
        Some(items) => Ok(items),
        None => Err(mismatch(key)),
    }
}

/// The backend of the name under `key`.
fn read_backend(v: &serde_json::Value, key: &str) -> (r: Result<Backend, DecodeError>)
    ensures
        match (r, backend_at(value_tree(*v), key@)) {
            (Ok(backend), Ok(expected)) => expected == backend,
            (Err(e), Err(expected)) => expected == e@,
            _ => false,
        },
{
    let name = read_text(v, key)?;
    if same_text(name.as_str(), "carbon") {
        Ok(Backend::Carbon)
    } else if same_text(name.as_str(), "silicon") {
        Ok(Backend::Silicon)
    } else {
        Err(DecodeError::UnknownBackend { found: name })
    }
}

/// Whether `shape` names the member `key`.
fn names(shape: Shape, key: &str) -> (r: bool)
    ensures
        r == shape.named().contains(key@),
{
    match shape {
        Shape::Details => same_text(key, "cached") || same_text(key, "result") || same_text(
            key,
            "time",
        ) || same_text(key, "entity"),
        Shape::Result => same_text(key, "details") || same_text(key, "kind") || same_text(
            key,
            "status",
        ) || same_text(key, "verifier"),
        Shape::Report => same_text(key, "phase") || same_text(key, "pid") || same_text(
            key,
            "process_exe",
        ) || same_text(key, "tool"),
    }
}

/// The members of `tree` under the keys in `seen` that `named` does not hold.
spec fn kept(tree: JsonTree, named: Set<Seq<char>>, seen: Seq<Seq<char>>) -> Map<
    Seq<char>,
    JsonTree,
> {
    Map::new(
        |key: Seq<char>| seen.contains(key) && !named.contains(key) && member(tree, key) is Some,
        |key: Seq<char>| member(tree, key)->Some_0,
    )
}

/// A list with one more element holds what it held, and that element.
proof fn lemma_one_more_seen(seen: Seq<Seq<char>>, next: Seq<char>, now: Seq<Seq<char>>)
    requires
        now == seen.push(next),
    ensures
        forall|key: Seq<char>| now.contains(key) <==> seen.contains(key) || key == next,
{
    assert forall|key: Seq<char>| now.contains(key) implies seen.contains(key) || key == next by {
        let j = choose|j: int| 0 <= j < now.len() && now[j] == key;
        if j < seen.len() {
            assert(seen[j] == key);
        }
    }
    assert forall|key: Seq<char>| seen.contains(key) || key == next implies now.contains(key) by {
        if seen.contains(key) {
            let j = choose|j: int| 0 <= j < seen.len() && seen[j] == key;
            assert(now[j] == key);
        } else {
            assert(now[seen.len() as int] == key);
        }
    }
}

/// The members of `v` that `shape` does not name.
fn read_remaining(v: &serde_json::Value, shape: Shape) -> (r: Vec<(String, serde_json::Value)>)
    ensures
        members(r@) == remaining(value_tree(*v), shape.named()),
        distinct_keys(r@),
{
    let all = keys(v);
    let ghost tree = value_tree(*v);
    let ghost named = shape.named();
    let mut out: Vec<(String, serde_json::Value)> = Vec::new();
    let mut i: usize = 0;
    assert(members(out@) =~= kept(tree, named, all.deep_view().take(0)));
    while i < all.len()
        invariant
            i <= all.len(),
            tree == value_tree(*v),
            named == shape.named(),
            all.deep_view().no_duplicates(),
            all.deep_view().to_set() == keys_of(tree),
            members(out@) == kept(tree, named, all.deep_view().take(i as int)),
            distinct_keys(out@),
            forall|k: int|
                0 <= k < out@.len() ==> all.deep_view().take(i as int).contains(
                    #[trigger] out@[k].0@,
                ),
        decreases all.len() - i,
    {
        let ghost before = all.deep_view().take(i as int);
        let ghost now = all.deep_view().take(i + 1);
        assert(now =~= before.push(all[i as int]@));
        proof {
            lemma_one_more_seen(before, all[i as int]@, now);
        }
        let keep: bool = !names(shape, all[i].as_str());
        if keep {
            match get(v, all[i].as_str()) {
                Some(found) => {
                    let ghost entries = out@;
                    assert(!before.contains(all[i as int]@)) by {
                        if before.contains(all[i as int]@) {
                            let j = choose|j: int|
                                0 <= j < before.len() && before[j] == all[i as int]@;
                            assert(all.deep_view()[j] == all.deep_view()[i as int]);
                        }
                    }
                    out.push((all[i].clone(), found.clone()));
                    assert(out@.drop_last() =~= entries);
                    assert(members(out@) =~= kept(tree, named, now));
                },
                None => {
                    assert(members(out@) =~= kept(tree, named, now));
                },
            }
        } else {
            assert(members(out@) =~= kept(tree, named, now));
        }
        i += 1;
    }
    proof {
        let seen = all.deep_view();
        assert(seen.take(i as int) =~= seen);
        assert forall|key: Seq<char>| seen.contains(key) <==> keys_of(tree).contains(key) by {
            assert(seen.to_set().contains(key) <==> seen.contains(key));
        }
        assert(kept(tree, named, seen) =~= remaining(tree, named));
    }
    out
}

/// A result.
fn read_details_result(v: &serde_json::Value) -> (r: Result<DetailsResult, DecodeError>)
    ensures
        match (r, details_result_of(value_tree(*v))) {
            (Ok(result), Ok(expected)) => expected == result@,
            (Err(e), Err(expected)) => expected == e@,
            _ => false,
        },
{
    let errors = read_details_errors(v, "errors")?;
    let result_type = read_text(v, "type")?;
    Ok(DetailsResult { errors, result_type })
}

/// An entity.
fn read_entity(v: &serde_json::Value) -> (r: Result<Entity, DecodeError>)
    ensures
        match (r, entity_of(value_tree(*v))) {
            (Ok(entity), Ok(expected)) => expected == entity@,
            (Err(e), Err(expected)) => expected == e@,
            _ => false,
        },
{
    let name = read_text(v, "name")?;
    let position = string_or_struct(v, "position")?;
    let entity_type = read_text(v, "type")?;
    Ok(Entity { name, position, entity_type })
}

/// Details.
fn read_details(v: &serde_json::Value) -> (r: Result<Details, DecodeError>)
    ensures
        match (r, details_of(value_tree(*v))) {
            (Ok(details), Ok(expected)) => expected == details@ && details.wf(),
            (Err(e), Err(expected)) => expected == e@,
            _ => false,
        },
{
    let cached = read_optional_bool(v, "cached")?;
    let result = match read_optional(v, "result") {
        Some(found) => Some(read_details_result(found)?),
        None => None,
    };
    let time = read_int(v, "time")?;
    let entity = match read_optional(v, "entity") {
        Some(found) => Some(read_entity(found)?),
        None => None,
    };
    let extra = read_remaining(v, Shape::Details);
    Ok(Details { cached, result, time, entity, extra })
}

/// The details under `key`.
fn read_details_at(v: &serde_json::Value, key: &str) -> (r: Result<Details, DecodeError>)
    ensures
        match (r, details_at(value_tree(*v), key@)) {
            (Ok(details), Ok(expected)) => expected == details@ && details.wf(),
            (Err(e), Err(expected)) => expected == e@,
            _ => false,
        },
{
    let found = read_required(v, key)?;
    read_details(found)
}

/// A member of the outline.
fn read_outline_member(v: &serde_json::Value) -> (r: Result<ProgramOutlineMember, DecodeError>)
    ensures
        match (r, outline_member_of(value_tree(*v))) {
            (Ok(found), Ok(expected)) => expected == found@,
            (Err(e), Err(expected)) => expected == e@,
            _ => false,
        },
{
    let name = read_text(v, "name")?;
    let position = string_or_struct(v, "position")?;
    let member_type = read_text(v, "type")?;
    Ok(ProgramOutlineMember { name, position, member_type })
}

/// A Viper type.
fn read_viper_type(v: &serde_json::Value) -> (r: Result<ViperType, DecodeError>)
    ensures
        match (r, viper_type_of(value_tree(*v))) {
            (Ok(found), Ok(expected)) => expected == found@,
            (Err(e), Err(expected)) => expected == e@,
            _ => false,
        },
{
    let kind = read_text(v, "kind")?;
    let typename = read_required(v, "typename")?;
    Ok(ViperType { kind, typename: typename.clone() })
}

/// The type of a definition.
fn read_type(v: &serde_json::Value) -> (r: Result<Type, DecodeError>)
    ensures
        match (r, type_of(value_tree(*v))) {
            (Ok(found), Ok(expected)) => expected == found@,
            (Err(e), Err(expected)) => expected == e@,
            _ => false,
        },
{
    let name = read_text(v, "name")?;
    let viper_type = match read_optional(v, "viperType") {
        Some(found) => Some(read_viper_type(found)?),
        None => None,
    };
    Ok(Type { name, viper_type })
}

/// A definition.
fn read_definition(v: &serde_json::Value) -> (r: Result<ProgramDefinition, DecodeError>)
    ensures
        match (r, definition_of(value_tree(*v))) {
            (Ok(found), Ok(expected)) => expected == found@,
            (Err(e), Err(expected)) => expected == e@,
            _ => false,
        },
{
    let location = string_or_struct(v, "location")?;
    let name = read_text(v, "name")?;
    let scope_end = read_text(v, "scopeEnd")?;
    let scope_start = read_text(v, "scopeStart")?;
    let found = read_required(v, "type")?;
    let verification_status_type = read_type(found)?;
    Ok(ProgramDefinition { location, name, scope_end, scope_start, verification_status_type })
}

/// The outline.
fn read_outline(body: &serde_json::Value) -> (r: Result<VerificationStatus, DecodeError>)
    ensures
        match (r, outline_of(value_tree(*body))) {
            (Ok(status), Ok(expected)) => expected == status@ && status.wf(),
            (Err(e), Err(expected)) => expected == e@,
            _ => false,
        },
{
    let items = read_list(body, "members")?;
    let ghost one = |item: JsonTree| outline_member_of(item);
    let mut out: Vec<ProgramOutlineMember> = Vec::new();
    let mut i: usize = 0;
    assert(trees(items@).take(0) =~= Seq::empty());
    assert(views(out@) =~= Seq::empty());
    while i < items.len()
        invariant
            i <= items.len(),
            one == |item: JsonTree| outline_member_of(item),
            list_at(value_tree(*body), "members"@) matches Ok(all) && all == trees(items@),
            each(trees(items@).take(i as int), one) matches Ok(done) && done == views(out@),
        decreases items.len() - i,
    {
        proof {
            lemma_each_next(trees(items@), one, i as int);
        }
        match read_outline_member(&items[i]) {
            Ok(found) => {
                let ghost before = views(out@);
                out.push(found);
                assert(views(out@) =~= before.push(found@));
            },
            Err(e) => {
                proof {
                    lemma_each_failed(trees(items@), one, i + 1);
                }
                return Err(e);
            },
        }
        i += 1;
    }
    assert(trees(items@).take(i as int) =~= trees(items@));
    Ok(VerificationStatus::ProgramOutline { members: out })
}

/// The definitions.
fn read_definitions(body: &serde_json::Value) -> (r: Result<VerificationStatus, DecodeError>)
    ensures
        match (r, definitions_of(value_tree(*body))) {
            (Ok(status), Ok(expected)) => expected == status@ && status.wf(),
            (Err(e), Err(expected)) => expected == e@,
            _ => false,
        },
{
    let items = read_list(body, "definitions")?;
    let ghost one = |item: JsonTree| definition_of(item);
    let mut out: Vec<ProgramDefinition> = Vec::new();
    let mut i: usize = 0;
    assert(trees(items@).take(0) =~= Seq::empty());
    assert(views(out@) =~= Seq::empty());
    while i < items.len()
        invariant
            i <= items.len(),
            one == |item: JsonTree| definition_of(item),
            list_at(value_tree(*body), "definitions"@) matches Ok(all) && all == trees(items@),
            each(trees(items@).take(i as int), one) matches Ok(done) && done == views(out@),
        decreases items.len() - i,
    {
        proof {
            lemma_each_next(trees(items@), one, i as int);
        }
        match read_definition(&items[i]) {
            Ok(found) => {
                let ghost before = views(out@);
                out.push(found);
                assert(views(out@) =~= before.push(found@));
            },
            Err(e) => {
                proof {
                    lemma_each_failed(trees(items@), one, i + 1);
                }
                return Err(e);
            },
        }
        i += 1;
    }
    assert(trees(items@).take(i as int) =~= trees(items@));
    Ok(VerificationStatus::ProgramDefinitions { definitions: out })
}

/// The statistics.
fn read_statistics(body: &serde_json::Value) -> (r: Result<VerificationStatus, DecodeError>)
    ensures
        match (r, statistics_of(value_tree(*body))) {
            (Ok(status), Ok(expected)) => expected == status@ && status.wf(),
            (Err(e), Err(expected)) => expected == e@,
            _ => false,
        },
{
    let domains = read_int(body, "domains")?;
    let fields = read_int(body, "fields")?;
    let functions = read_int(body, "functions")?;
    let methods = read_int(body, "methods")?;
    let predicates = read_int(body, "predicates")?;
    Ok(VerificationStatus::Statistics { domains, fields, functions, methods, predicates })
}

/// An exception.
fn read_exception(body: &serde_json::Value) -> (r: Result<VerificationStatus, DecodeError>)
    ensures
        match (r, exception_of(value_tree(*body))) {
            (Ok(status), Ok(expected)) => expected == status@ && status.wf(),
            (Err(e), Err(expected)) => expected == e@,
            _ => false,
        },
{
    let message = read_text(body, "message")?;
    let items = read_list(body, "stacktrace")?;
    let ghost one = |item: JsonTree|
        match item {
            JsonTree::Text(text) => Ok(text),
            _ => Err(DecodeErrorView::Mismatch { field: "stacktrace"@ }),
        };
    let mut out: Vec<String> = Vec::new();
    let mut i: usize = 0;
    assert(trees(items@).take(0) =~= Seq::empty());
    assert(out.deep_view() =~= Seq::empty());
    while i < items.len()
        invariant
            i <= items.len(),
            one == |item: JsonTree|
                match item {
                    JsonTree::Text(text) => Ok(text),
                    _ => Err(DecodeErrorView::Mismatch { field: "stacktrace"@ }),
                },
            text_at(value_tree(*body), "message"@) matches Ok(text) && text == message@,
            list_at(value_tree(*body), "stacktrace"@) matches Ok(all) && all == trees(items@),
            each(trees(items@).take(i as int), one) matches Ok(done) && done == out.deep_view(),
        decreases items.len() - i,
    {
        proof {
            lemma_each_next(trees(items@), one, i as int);
        }
        match as_str(&items[i]) {
            Some(text) => {
                let ghost before = out.deep_view();
                out.push(text.to_string());
                assert(out.deep_view() =~= before.push(text@));
            },
            None => {
                proof {
                    lemma_each_failed(trees(items@), one, i + 1);
                }
                return Err(mismatch("stacktrace"));
            },
        }
        i += 1;
    }
    assert(trees(items@).take(i as int) =~= trees(items@));
    Ok(VerificationStatus::ExceptionReport { message, stacktrace: out })
}

/// The arguments that were refused.
fn read_invalid_args(body: &serde_json::Value) -> (r: Result<VerificationStatus, DecodeError>)
    ensures
        match (r, invalid_args_of(value_tree(*body))) {
            (Ok(status), Ok(expected)) => expected == status@ && status.wf(),
            (Err(e), Err(expected)) => expected == e@,
            _ => false,
        },
{
    let tool = read_text(body, "tool")?;
    let errors = read_details_errors(body, "errors")?;
    Ok(VerificationStatus::InvalidArgsReport { tool, errors })
}

/// How building the syntax tree ended.
fn read_construction(body: &serde_json::Value) -> (r: Result<VerificationStatus, DecodeError>)
    ensures
        match (r, construction_of(value_tree(*body))) {
            (Ok(status), Ok(expected)) => expected == status@ && status.wf(),
            (Err(e), Err(expected)) => expected == e@,
            _ => false,
        },
{
    let details = read_details_at(body, "details")?;
    let status = read_text(body, "status")?;
    Ok(VerificationStatus::AstConstructionResult { details, status })
}

/// How verifying ended.
fn read_result(body: &serde_json::Value) -> (r: Result<VerificationStatus, DecodeError>)
    ensures
        match (r, result_of(value_tree(*body))) {
            (Ok(status), Ok(expected)) => expected == status@ && status.wf(),
            (Err(e), Err(expected)) => expected == e@,
            _ => false,
        },
{
    let details = read_details_at(body, "details")?;
    let kind = read_text(body, "kind")?;
    let status = read_text(body, "status")?;
    let verifier = read_backend(body, "verifier")?;
    let extra = read_remaining(body, Shape::Result);
    Ok(VerificationStatus::VerificationResult { details, kind, status, verifier, extra })
}

/// What a backend process reports.
fn read_report(body: &serde_json::Value) -> (r: Result<VerificationStatus, DecodeError>)
    ensures
        match (r, report_of(value_tree(*body))) {
            (Ok(status), Ok(expected)) => expected == status@ && status.wf(),
            (Err(e), Err(expected)) => expected == e@,
            _ => false,
        },
{
    let phase = read_text(body, "phase")?;
    let pid = read_optional_int(body, "pid")?;
    let process_exe = read_text(body, "process_exe")?;
    let tool = read_backend(body, "tool")?;
    let extra = read_remaining(body, Shape::Report);
    Ok(VerificationStatus::BackendSubProcessReport { phase, pid, process_exe, tool, extra })
}

/// The warnings: the elements of the body, as they are.
fn read_warnings(body: &serde_json::Value) -> (r: Result<Vec<serde_json::Value>, DecodeError>)
    ensures
        match (r, list_of(value_tree(*body), "msg_body"@)) {
            (Ok(warnings), Ok(expected)) => expected == trees(warnings@),
            (Err(e), Err(expected)) => expected == e@,
            _ => false,
        },
{
    let items = match as_array(body) {
        Some(items) => items,
        None => {
            return Err(mismatch("msg_body"));
        },
    };
    let mut out: Vec<serde_json::Value> = Vec::new();
    let mut i: usize = 0;
    while i < items.len()
        invariant
            i <= items.len(),
            out@ == items@.take(i as int),
        decreases items.len() - i,
    {
        out.push(items[i].clone());
        assert(out@ =~= items@.take(i + 1));
        i += 1;
    }
    assert(items@.take(i as int) =~= items@);
    Ok(out)
}

/// The integer under `key`, which has to fit `u64`.
fn read_count(v: &serde_json::Value, key: &str) -> (r: Result<u64, DecodeError>)
    ensures
        match (r, count_at(value_tree(*v), key@)) {
            (Ok(n), Ok(expected)) => expected == n,
            (Err(e), Err(expected)) => expected == e@,
            _ => false,
        },
{
    let found = read_required(v, key)?;
    match as_u64(found) {
        Some(n) => Ok(n),
        None => Err(mismatch(key)),
    }
}

/// Decodes the parsed answer to a submitted job: its two numbers, `ast_id`
/// first.
pub fn decode_job(v: &serde_json::Value) -> (r: Result<(u64, u64), DecodeError>)
    ensures
        match (r, job_of(value_tree(*v))) {
            (Ok(job), Ok(expected)) => expected == job,
            (Err(e), Err(expected)) => expected == e@,
            _ => false,
        },
{
    let ast_id = read_count(v, "ast_id")?;
    let id = read_count(v, "id")?;
    Ok((ast_id, id))
}

/// Decodes the answer to a submitted job: its two numbers, `ast_id` first.
pub fn decode_job_text(text: &str) -> (r: Result<(u64, u64), DecodeError>)
    ensures
        match (r, text_job(text@)) {
            (Ok(job), Ok(expected)) => expected == job,
            (Err(e), Err(expected)) => expected == e@,
            _ => false,
        },
{
    match parse(text) {
        Ok(v) => decode_job(&v),
        Err(e) => Err(DecodeError::Syntax(e)),
    }
}

/// The kind of message that the server calls `tag`.
fn read_kind(tag: &str) -> (r: Option<MessageKind>)
    ensures
        r == kind_of(tag@),
{
    if same_text(tag, "copyright_report") {
        Some(MessageKind::CopyrightReport)
    } else if same_text(tag, "warnings_during_parsing") {
        Some(MessageKind::WarningsDuringParsing)
    } else if same_text(tag, "warnings_during_typechecking") {
        Some(MessageKind::WarningsDuringTypechecking)
    } else if same_text(tag, "internal_warning_message") {
        Some(MessageKind::InternalWarningMessage)
    } else if same_text(tag, "invalid_args_report") {
        Some(MessageKind::InvalidArgsReport)
    } else if same_text(tag, "ast_construction_result") {
        Some(MessageKind::AstConstructionResult)
    } else if same_text(tag, "program_outline") {
        Some(MessageKind::ProgramOutline)
    } else if same_text(tag, "program_definitions") {
        Some(MessageKind::ProgramDefinitions)
    } else if same_text(tag, "statistics") {
        Some(MessageKind::Statistics)
    } else if same_text(tag, "exception_report") {
        Some(MessageKind::ExceptionReport)
    } else if same_text(tag, "configuration_confirmation") {
        Some(MessageKind::ConfigurationConfirmation)
    } else if same_text(tag, "verification_result") {
        Some(MessageKind::VerificationResult)
    } else if same_text(tag, "backend_sub_process_report") {
        Some(MessageKind::BackendSubProcessReport)
    } else {
        None
    }
}

/// The message of kind `kind` whose body is `body`.
fn read_body(kind: MessageKind, body: &serde_json::Value) -> (r: Result<
    VerificationStatus,
    DecodeError,
>)
    ensures
        match (r, body_of(kind, value_tree(*body))) {
            (Ok(status), Ok(expected)) => expected == status@ && status.wf(),
            (Err(e), Err(expected)) => expected == e@,
            _ => false,
        },
{
    match kind {
        MessageKind::CopyrightReport => {
            let text = read_text(body, "text")?;
            Ok(VerificationStatus::CopyrightReport { text })
        },
        MessageKind::WarningsDuringParsing => {
            let warnings = read_warnings(body)?;
            Ok(VerificationStatus::WarningsDuringParsing(warnings))
        },
        MessageKind::WarningsDuringTypechecking => {
            let warnings = read_warnings(body)?;
            Ok(VerificationStatus::WarningsDuringTypechecking(warnings))
        },
        MessageKind::InternalWarningMessage => {
            let text = read_text(body, "text")?;
            Ok(VerificationStatus::InternalWarningMessage { text })
        },
        MessageKind::InvalidArgsReport => read_invalid_args(body),
        MessageKind::AstConstructionResult => read_construction(body),
        MessageKind::ProgramOutline => read_outline(body),
        MessageKind::ProgramDefinitions => read_definitions(body),
        MessageKind::Statistics => read_statistics(body),
        MessageKind::ExceptionReport => read_exception(body),
        MessageKind::ConfigurationConfirmation => {
            let text = read_text(body, "text")?;
            Ok(VerificationStatus::ConfigurationConfirmation { text })
        },
        MessageKind::VerificationResult => read_result(body),
        MessageKind::BackendSubProcessReport => read_report(body),
    }
}

/// Decodes a parsed line of the status stream: the message that the document
/// is, or the first thing about it that keeps it from being one.
pub fn decode_status(v: &serde_json::Value) -> (r: Result<VerificationStatus, DecodeError>)
    ensures
        match (r, status_of(value_tree(*v))) {
            (Ok(status), Ok(expected)) => expected == status@ && status.wf(),
            (Err(e), Err(expected)) => expected == e@,
            _ => false,
        },
{
    let tag = read_text(v, "msg_type")?;
    match read_kind(tag.as_str()) {
        Some(kind) => {
            let body = read_required(v, "msg_body")?;
            read_body(kind, body)
        },
        None => Err(DecodeError::UnknownMessage { found: tag }),
    }
}

/// Decodes one line of the status stream. The line has to be one JSON
/// document, and the document a message of a known kind.
pub fn decode_line(line: &str) -> (r: Result<VerificationStatus, DecodeError>)
    ensures
        match (r, line_status(line@)) {
            (Ok(status), Ok(expected)) => expected == status@ && status.wf(),
            (Err(e), Err(expected)) => expected == e@,
            _ => false,
        },
{
    match parse(line) {
        Ok(v) => decode_status(&v),
        Err(e) => Err(DecodeError::Syntax(e)),
    }
}

} // verus!
