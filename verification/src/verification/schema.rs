//! What a JSON tree decodes to: the shape of each message, stated over trees.
//!
//! Members are read in the order in which they are written here, and the
//! first one that is missing or has the wrong shape decides the error. A
//! member that a shape does not name is passed over, unless the shape keeps
//! the remaining members.

use super::status::{
    means_no_position, Backend, DetailsErrorView, DetailsResultView, DetailsView, EntityView,
    ParseOptionalError, PositionView, ProgramDefinitionView, ProgramOutlineMemberView, TypeView,
    VerificationStatusView, ViperTypeView,
};
use crate::json::{member, parsed_json, JsonTree};
use vstd::prelude::*;

verus! {

/// Why a line is no status message.
pub enum DecodeErrorView {
    /// The line is no JSON document; `message` says why.
    Syntax { message: Seq<char> },
    /// A member that the shape needs is not there.
    Missing { field: Seq<char> },
    /// A member is there and has the wrong JSON type.
    Mismatch { field: Seq<char> },
    /// The kind of message is none of the known ones.
    UnknownMessage { found: Seq<char> },
    /// The backend is neither of the two.
    UnknownBackend { found: Seq<char> },
    /// A position was given as a text that does not stand for "no position".
    Position { found: Seq<char> },
}

impl DecodeErrorView {
    /// The error in words.
    pub open spec fn message(self) -> Seq<char> {
        match self {
            DecodeErrorView::Syntax { message } => message,
            DecodeErrorView::Missing { field } => "missing field `"@ + field + "`"@,
            DecodeErrorView::Mismatch { field } => "invalid type of field `"@ + field + "`"@,
            DecodeErrorView::UnknownMessage { found } => "unknown message type `"@ + found + "`"@,
            DecodeErrorView::UnknownBackend { found } => "unknown backend `"@ + found + "`"@,
            DecodeErrorView::Position { found } => ParseOptionalError::message(found),
        }
    }
}

/// The member under `key`, which has to be there.
pub open spec fn required(tree: JsonTree, key: Seq<char>) -> Result<JsonTree, DecodeErrorView> {
    match member(tree, key) {
        Some(found) => Ok(found),
        None => Err(DecodeErrorView::Missing { field: key }),
    }
}

/// The member under `key`, where it is there and not `null`.
pub open spec fn optional(tree: JsonTree, key: Seq<char>) -> Option<JsonTree> {
    match member(tree, key) {
        Some(JsonTree::Null) => None,
        found => found,
    }
}

/// The string under `key`.
pub open spec fn text_at(tree: JsonTree, key: Seq<char>) -> Result<Seq<char>, DecodeErrorView> {
    match required(tree, key) {
        Ok(JsonTree::Text(text)) => Ok(text),
        Ok(_) => Err(DecodeErrorView::Mismatch { field: key }),
        Err(e) => Err(e),
    }
}

/// The number that `tree` is, where it is an integer that fits `i64`.
pub open spec fn int_of(tree: JsonTree, key: Seq<char>) -> Result<i64, DecodeErrorView> {
    match tree {
        JsonTree::Integer(n) => if i64::MIN <= n <= i64::MAX {
            Ok(n as i64)
        } else {
            Err(DecodeErrorView::Mismatch { field: key })
        },
        _ => Err(DecodeErrorView::Mismatch { field: key }),
    }
}

/// The integer under `key`.
pub open spec fn int_at(tree: JsonTree, key: Seq<char>) -> Result<i64, DecodeErrorView> {
    match required(tree, key) {
        Ok(found) => int_of(found, key),
        Err(e) => Err(e),
    }
}

/// The integer under `key`, where the member is there and not `null`.
pub open spec fn optional_int_at(tree: JsonTree, key: Seq<char>) -> Result<
    Option<i64>,
    DecodeErrorView,
> {
    match optional(tree, key) {
        Some(found) => match int_of(found, key) {
            Ok(n) => Ok(Some(n)),
            Err(e) => Err(e),
        },
        None => Ok(None),
    }
}

/// The integer under `key`, which has to fit `u64`.
pub open spec fn count_at(tree: JsonTree, key: Seq<char>) -> Result<u64, DecodeErrorView> {
    match required(tree, key) {
        Ok(JsonTree::Integer(n)) => if 0 <= n <= u64::MAX {
            Ok(n as u64)
        } else {
            Err(DecodeErrorView::Mismatch { field: key })
        },
        Ok(_) => Err(DecodeErrorView::Mismatch { field: key }),
        Err(e) => Err(e),
    }
}

/// The truth value under `key`.
pub open spec fn bool_at(tree: JsonTree, key: Seq<char>) -> Result<bool, DecodeErrorView> {
    match required(tree, key) {
        Ok(JsonTree::Bool(b)) => Ok(b),
        Ok(_) => Err(DecodeErrorView::Mismatch { field: key }),
        Err(e) => Err(e),
    }
}

/// The truth value under `key`, where the member is there and not `null`.
pub open spec fn optional_bool_at(tree: JsonTree, key: Seq<char>) -> Result<
    Option<bool>,
    DecodeErrorView,
> {
    match optional(tree, key) {
        Some(JsonTree::Bool(b)) => Ok(Some(b)),
        Some(_) => Err(DecodeErrorView::Mismatch { field: key }),
        None => Ok(None),
    }
}

/// The elements of `tree`, which has to be an array; `key` is where it stood.
pub open spec fn list_of(tree: JsonTree, key: Seq<char>) -> Result<Seq<JsonTree>, DecodeErrorView> {
    match tree {
        JsonTree::Array(items) => Ok(items),
        _ => Err(DecodeErrorView::Mismatch { field: key }),
    }
}

/// The elements of the array under `key`.
pub open spec fn list_at(tree: JsonTree, key: Seq<char>) -> Result<Seq<JsonTree>, DecodeErrorView> {
    match required(tree, key) {
        Ok(found) => list_of(found, key),
        Err(e) => Err(e),
    }
}

/// Every element of `items` decoded by `one`, or the error of the first
/// element that does not decode.
pub open spec fn each<T>(
    items: Seq<JsonTree>,
    one: spec_fn(JsonTree) -> Result<T, DecodeErrorView>,
) -> Result<Seq<T>, DecodeErrorView>
    decreases items.len(),
{
    if items.len() == 0 {
        Ok(Seq::empty())
    } else {
        match each(items.drop_last(), one) {
            Ok(done) => match one(items.last()) {
                Ok(item) => Ok(done.push(item)),
                Err(e) => Err(e),
            },
            Err(e) => Err(e),
        }
    }
}

/// The backend of the name under `key`.
pub open spec fn backend_at(tree: JsonTree, key: Seq<char>) -> Result<Backend, DecodeErrorView> {
    match text_at(tree, key) {
        Ok(name) => if name == "carbon"@ {
            Ok(Backend::Carbon)
        } else if name == "silicon"@ {
            Ok(Backend::Silicon)
        } else {
            Err(DecodeErrorView::UnknownBackend { found: name })
        },
        Err(e) => Err(e),
    }
}

/// The members that a shape keeps beside those it names.
pub open spec fn remaining(tree: JsonTree, named: Set<Seq<char>>) -> Map<Seq<char>, JsonTree> {
    match tree {
        JsonTree::Object(m) => m.remove_keys(named),
        _ => Map::empty(),
    }
}

/// A position: `end`, `file` and `start`, each a string.
pub open spec fn position_of(tree: JsonTree) -> Result<PositionView, DecodeErrorView> {
    match text_at(tree, "end"@) {
        Ok(end) => match text_at(tree, "file"@) {
            Ok(file) => match text_at(tree, "start"@) {
                Ok(start) => Ok(PositionView { end, file, start }),
                Err(e) => Err(e),
            },
            Err(e) => Err(e),
        },
        Err(e) => Err(e),
    }
}

/// The position under `key`. Every position is given as a position, or as one
/// of the two texts that stand for "no position".
pub open spec fn optional_position_at(tree: JsonTree, key: Seq<char>) -> Result<
    Option<PositionView>,
    DecodeErrorView,
> {
    match required(tree, key) {
        Ok(JsonTree::Text(text)) => if means_no_position(text) {
            Ok(None)
        } else {
            Err(DecodeErrorView::Position { found: text })
        },
        Ok(found) => match position_of(found) {
            Ok(position) => Ok(Some(position)),
            Err(e) => Err(e),
        },
        Err(e) => Err(e),
    }
}

/// One reported error: `cached`, `position`, `tag` and `text`.
pub open spec fn details_error_of(tree: JsonTree) -> Result<DetailsErrorView, DecodeErrorView> {
    match bool_at(tree, "cached"@) {
        Ok(cached) => match optional_position_at(tree, "position"@) {
            Ok(position) => match text_at(tree, "tag"@) {
                Ok(tag) => match text_at(tree, "text"@) {
                    Ok(text) => Ok(DetailsErrorView { cached, position, tag, text }),
                    Err(e) => Err(e),
                },
                Err(e) => Err(e),
            },
            Err(e) => Err(e),
        },
        Err(e) => Err(e),
    }
}

/// The reported errors in the array under `key`.
pub open spec fn details_errors_at(tree: JsonTree, key: Seq<char>) -> Result<
    Seq<DetailsErrorView>,
    DecodeErrorView,
> {
    match list_at(tree, key) {
        Ok(items) => each(items, |item: JsonTree| details_error_of(item)),
        Err(e) => Err(e),
    }
}

/// A result: `errors` and `type`.
pub open spec fn details_result_of(tree: JsonTree) -> Result<DetailsResultView, DecodeErrorView> {
    match details_errors_at(tree, "errors"@) {
        Ok(errors) => match text_at(tree, "type"@) {
            Ok(result_type) => Ok(DetailsResultView { errors, result_type }),
            Err(e) => Err(e),
        },
        Err(e) => Err(e),
    }
}

/// An entity: `name`, `position` and `type`.
pub open spec fn entity_of(tree: JsonTree) -> Result<EntityView, DecodeErrorView> {
    match text_at(tree, "name"@) {
        Ok(name) => match optional_position_at(tree, "position"@) {
            Ok(position) => match text_at(tree, "type"@) {
                Ok(entity_type) => Ok(EntityView { name, position, entity_type }),
                Err(e) => Err(e),
            },
            Err(e) => Err(e),
        },
        Err(e) => Err(e),
    }
}

/// The three shapes that keep the members they do not name.
#[derive(Debug, Clone, Copy, PartialEq, Eq, Structural)]
pub enum Shape {
    /// Details.
    Details,
    /// The result of verifying.
    Result,
    /// The report of a backend process.
    Report,
}

impl Shape {
    /// The members that the shape names.
    pub open spec fn named(self) -> Set<Seq<char>> {
        match self {
            Shape::Details => set!["cached"@, "result"@, "time"@, "entity"@],
            Shape::Result => set!["details"@, "kind"@, "status"@, "verifier"@],
            Shape::Report => set!["phase"@, "pid"@, "process_exe"@, "tool"@],
        }
    }
}

/// Details: `cached`, `result` and `entity`, each of which may be left out,
/// `time`, and every other member as it is.
pub open spec fn details_of(tree: JsonTree) -> Result<DetailsView, DecodeErrorView> {
    match optional_bool_at(tree, "cached"@) {
        Ok(cached) => match (match optional(tree, "result"@) {
            Some(found) => match details_result_of(found) {
                Ok(result) => Ok(Some(result)),
                Err(e) => Err(e),
            },
            None => Ok(None),
        }) {
            Ok(result) => match int_at(tree, "time"@) {
                Ok(time) => match (match optional(tree, "entity"@) {
                    Some(found) => match entity_of(found) {
                        Ok(entity) => Ok(Some(entity)),
                        Err(e) => Err(e),
                    },
                    None => Ok(None),
                }) {
                    Ok(entity) => Ok(
                        DetailsView {
                            cached,
                            result,
                            time,
                            entity,
                            extra: remaining(tree, Shape::Details.named()),
                        },
                    ),
                    Err(e) => Err(e),
                },
                Err(e) => Err(e),
            },
            Err(e) => Err(e),
        },
        Err(e) => Err(e),
    }
}

/// The details under `key`.
pub open spec fn details_at(tree: JsonTree, key: Seq<char>) -> Result<DetailsView, DecodeErrorView> {
    match required(tree, key) {
        Ok(found) => details_of(found),
        Err(e) => Err(e),
    }
}

/// A member of the outline: `name`, `position` and `type`.
pub open spec fn outline_member_of(tree: JsonTree) -> Result<
    ProgramOutlineMemberView,
    DecodeErrorView,
> {
    match text_at(tree, "name"@) {
        Ok(name) => match optional_position_at(tree, "position"@) {
            Ok(position) => match text_at(tree, "type"@) {
                Ok(member_type) => Ok(ProgramOutlineMemberView { name, position, member_type }),
                Err(e) => Err(e),
            },
            Err(e) => Err(e),
        },
        Err(e) => Err(e),
    }
}

/// A Viper type: `kind`, and `typename` as it is.
pub open spec fn viper_type_of(tree: JsonTree) -> Result<ViperTypeView, DecodeErrorView> {
    match text_at(tree, "kind"@) {
        Ok(kind) => match required(tree, "typename"@) {
            Ok(typename) => Ok(ViperTypeView { kind, typename }),
            Err(e) => Err(e),
        },
        Err(e) => Err(e),
    }
}

/// The type of a definition: `name`, and `viperType`, which may be left out.
pub open spec fn type_of(tree: JsonTree) -> Result<TypeView, DecodeErrorView> {
    match text_at(tree, "name"@) {
        Ok(name) => match optional(tree, "viperType"@) {
            Some(found) => match viper_type_of(found) {
                Ok(viper_type) => Ok(TypeView { name, viper_type: Some(viper_type) }),
                Err(e) => Err(e),
            },
            None => Ok(TypeView { name, viper_type: None }),
        },
        Err(e) => Err(e),
    }
}

/// A definition: `location`, `name`, `scopeEnd`, `scopeStart` and `type`.
pub open spec fn definition_of(tree: JsonTree) -> Result<ProgramDefinitionView, DecodeErrorView> {
    match optional_position_at(tree, "location"@) {
        Ok(location) => match text_at(tree, "name"@) {
            Ok(name) => match text_at(tree, "scopeEnd"@) {
                Ok(scope_end) => match text_at(tree, "scopeStart"@) {
                    Ok(scope_start) => match required(tree, "type"@) {
                        Ok(found) => match type_of(found) {
                            Ok(verification_status_type) => Ok(
                                ProgramDefinitionView {
                                    location,
                                    name,
                                    scope_end,
                                    scope_start,
                                    verification_status_type,
                                },
                            ),
                            Err(e) => Err(e),
                        },
                        Err(e) => Err(e),
                    },
                    Err(e) => Err(e),
                },
                Err(e) => Err(e),
            },
            Err(e) => Err(e),
        },
        Err(e) => Err(e),
    }
}

/// The strings of `items`, each of which has to be one; `key` is where the
/// array stood.
pub open spec fn texts_of(items: Seq<JsonTree>, key: Seq<char>) -> Result<
    Seq<Seq<char>>,
    DecodeErrorView,
> {
    each(
        items,
        |item: JsonTree|
            match item {
                JsonTree::Text(text) => Ok(text),
                _ => Err(DecodeErrorView::Mismatch { field: key }),
            },
    )
}

/// The kinds of message.
#[derive(Debug, Clone, Copy, PartialEq, Eq, Structural)]
pub enum MessageKind {
    CopyrightReport,
    WarningsDuringParsing,
    WarningsDuringTypechecking,
    InternalWarningMessage,
    InvalidArgsReport,
    AstConstructionResult,
    ProgramOutline,
    ProgramDefinitions,
    Statistics,
    ExceptionReport,
    ConfigurationConfirmation,
    VerificationResult,
    BackendSubProcessReport,
}

/// The kind of message that the server calls `tag`.
pub open spec fn kind_of(tag: Seq<char>) -> Option<MessageKind> {
    if tag == "copyright_report"@ {
        Some(MessageKind::CopyrightReport)
    } else if tag == "warnings_during_parsing"@ {
        Some(MessageKind::WarningsDuringParsing)
    } else if tag == "warnings_during_typechecking"@ {
        Some(MessageKind::WarningsDuringTypechecking)
    } else if tag == "internal_warning_message"@ {
        Some(MessageKind::InternalWarningMessage)
    } else if tag == "invalid_args_report"@ {
        Some(MessageKind::InvalidArgsReport)
    } else if tag == "ast_construction_result"@ {
        Some(MessageKind::AstConstructionResult)
    } else if tag == "program_outline"@ {
        Some(MessageKind::ProgramOutline)
    } else if tag == "program_definitions"@ {
        Some(MessageKind::ProgramDefinitions)
    } else if tag == "statistics"@ {
        Some(MessageKind::Statistics)
    } else if tag == "exception_report"@ {
        Some(MessageKind::ExceptionReport)
    } else if tag == "configuration_confirmation"@ {
        Some(MessageKind::ConfigurationConfirmation)
    } else if tag == "verification_result"@ {
        Some(MessageKind::VerificationResult)
    } else if tag == "backend_sub_process_report"@ {
        Some(MessageKind::BackendSubProcessReport)
    } else {
        None
    }
}

/// A message that is one text.
pub open spec fn text_body(body: JsonTree) -> Result<Seq<char>, DecodeErrorView> {
    text_at(body, "text"@)
}

/// The outline: its `members`.
pub open spec fn outline_of(body: JsonTree) -> Result<VerificationStatusView, DecodeErrorView> {
    match list_at(body, "members"@) {
        Ok(items) => match each(items, |item: JsonTree| outline_member_of(item)) {
            Ok(members) => Ok(VerificationStatusView::ProgramOutline { members }),
            Err(e) => Err(e),
        },
        Err(e) => Err(e),
    }
}

/// The definitions: its `definitions`.
pub open spec fn definitions_of(body: JsonTree) -> Result<VerificationStatusView, DecodeErrorView> {
    match list_at(body, "definitions"@) {
        Ok(items) => match each(items, |item: JsonTree| definition_of(item)) {
            Ok(definitions) => Ok(VerificationStatusView::ProgramDefinitions { definitions }),
            Err(e) => Err(e),
        },
        Err(e) => Err(e),
    }
}

/// The statistics: five counts.
pub open spec fn statistics_of(body: JsonTree) -> Result<VerificationStatusView, DecodeErrorView> {
    match int_at(body, "domains"@) {
        Ok(domains) => match int_at(body, "fields"@) {
            Ok(fields) => match int_at(body, "functions"@) {
                Ok(functions) => match int_at(body, "methods"@) {
                    Ok(methods) => match int_at(body, "predicates"@) {
                        Ok(predicates) => Ok(
                            VerificationStatusView::Statistics {
                                domains,
                                fields,
                                functions,
                                methods,
                                predicates,
                            },
                        ),
                        Err(e) => Err(e),
                    },
                    Err(e) => Err(e),
                },
                Err(e) => Err(e),
            },
            Err(e) => Err(e),
        },
        Err(e) => Err(e),
    }
}

/// An exception: `message`, and `stacktrace`, an array of strings.
pub open spec fn exception_of(body: JsonTree) -> Result<VerificationStatusView, DecodeErrorView> {
    match text_at(body, "message"@) {
        Ok(message) => match list_at(body, "stacktrace"@) {
            Ok(items) => match texts_of(items, "stacktrace"@) {
                Ok(stacktrace) => Ok(VerificationStatusView::ExceptionReport { message, stacktrace }),
                Err(e) => Err(e),
            },
            Err(e) => Err(e),
        },
        Err(e) => Err(e),
    }
}

/// The arguments that were refused: `tool` and `errors`.
pub open spec fn invalid_args_of(body: JsonTree) -> Result<VerificationStatusView, DecodeErrorView> {
    match text_at(body, "tool"@) {
        Ok(tool) => match details_errors_at(body, "errors"@) {
            Ok(errors) => Ok(VerificationStatusView::InvalidArgsReport { tool, errors }),
            Err(e) => Err(e),
        },
        Err(e) => Err(e),
    }
}

/// How building the syntax tree ended: `details` and `status`.
pub open spec fn construction_of(body: JsonTree) -> Result<VerificationStatusView, DecodeErrorView> {
    match details_at(body, "details"@) {
        Ok(details) => match text_at(body, "status"@) {
            Ok(status) => Ok(VerificationStatusView::AstConstructionResult { details, status }),
            Err(e) => Err(e),
        },
        Err(e) => Err(e),
    }
}

/// How verifying ended: `details`, `kind`, `status` and `verifier`, and every
/// other member as it is.
pub open spec fn result_of(body: JsonTree) -> Result<VerificationStatusView, DecodeErrorView> {
    match details_at(body, "details"@) {
        Ok(details) => match text_at(body, "kind"@) {
            Ok(kind) => match text_at(body, "status"@) {
                Ok(status) => match backend_at(body, "verifier"@) {
                    Ok(verifier) => Ok(
                        VerificationStatusView::VerificationResult {
                            details,
                            kind,
                            status,
                            verifier,
                            extra: remaining(body, Shape::Result.named()),
                        },
                    ),
                    Err(e) => Err(e),
                },
                Err(e) => Err(e),
            },
            Err(e) => Err(e),
        },
        Err(e) => Err(e),
    }
}

/// What a backend process reports: `phase`, `pid`, which may be left out,
/// `process_exe` and `tool`, and every other member as it is.
pub open spec fn report_of(body: JsonTree) -> Result<VerificationStatusView, DecodeErrorView> {
    match text_at(body, "phase"@) {
        Ok(phase) => match optional_int_at(body, "pid"@) {
            Ok(pid) => match text_at(body, "process_exe"@) {
                Ok(process_exe) => match backend_at(body, "tool"@) {
                    Ok(tool) => Ok(
                        VerificationStatusView::BackendSubProcessReport {
                            phase,
                            pid,
                            process_exe,
                            tool,
                            extra: remaining(body, Shape::Report.named()),
                        },
                    ),
                    Err(e) => Err(e),
                },
                Err(e) => Err(e),
            },
            Err(e) => Err(e),
        },
        Err(e) => Err(e),
    }
}

/// The message of kind `kind` whose body is `body`.
pub open spec fn body_of(kind: MessageKind, body: JsonTree) -> Result<
    VerificationStatusView,
    DecodeErrorView,
> {
    match kind {
        MessageKind::CopyrightReport => match text_body(body) {
            Ok(text) => Ok(VerificationStatusView::CopyrightReport { text }),
            Err(e) => Err(e),
        },
        MessageKind::WarningsDuringParsing => match list_of(body, "msg_body"@) {
            Ok(warnings) => Ok(VerificationStatusView::WarningsDuringParsing(warnings)),
            Err(e) => Err(e),
        },
        MessageKind::WarningsDuringTypechecking => match list_of(body, "msg_body"@) {
            Ok(warnings) => Ok(VerificationStatusView::WarningsDuringTypechecking(warnings)),
            Err(e) => Err(e),
        },
        MessageKind::InternalWarningMessage => match text_body(body) {
            Ok(text) => Ok(VerificationStatusView::InternalWarningMessage { text }),
            Err(e) => Err(e),
        },
        MessageKind::InvalidArgsReport => invalid_args_of(body),
        MessageKind::AstConstructionResult => construction_of(body),
        MessageKind::ProgramOutline => outline_of(body),
        MessageKind::ProgramDefinitions => definitions_of(body),
        MessageKind::Statistics => statistics_of(body),
        MessageKind::ExceptionReport => exception_of(body),
        MessageKind::ConfigurationConfirmation => match text_body(body) {
            Ok(text) => Ok(VerificationStatusView::ConfigurationConfirmation { text }),
            Err(e) => Err(e),
        },
        MessageKind::VerificationResult => result_of(body),
        MessageKind::BackendSubProcessReport => report_of(body),
    }
}

/// The message that `tree` is: an object whose `msg_type` names the kind and
/// whose `msg_body` holds what a message of that kind carries.
pub open spec fn status_of(tree: JsonTree) -> Result<VerificationStatusView, DecodeErrorView> {
    match text_at(tree, "msg_type"@) {
        Ok(tag) => match kind_of(tag) {
            Some(kind) => match required(tree, "msg_body"@) {
                Ok(body) => body_of(kind, body),
                Err(e) => Err(e),
            },
            None => Err(DecodeErrorView::UnknownMessage { found: tag }),
        },
        Err(e) => Err(e),
    }
}

/// The message that `line` is: the line is one JSON document, and the
/// document is a message.
pub open spec fn line_status(line: Seq<char>) -> Result<VerificationStatusView, DecodeErrorView> {
    match parsed_json(line) {
        Ok(tree) => status_of(tree),
        Err(message) => Err(DecodeErrorView::Syntax { message }),
    }
}

/// The two numbers of an accepted job: `ast_id` and `id`, each of which has to
/// fit `u64`.
pub open spec fn job_of(tree: JsonTree) -> Result<(u64, u64), DecodeErrorView> {
    match count_at(tree, "ast_id"@) {
        Ok(ast_id) => match count_at(tree, "id"@) {
            Ok(id) => Ok((ast_id, id)),
            Err(e) => Err(e),
        },
        Err(e) => Err(e),
    }
}

/// The two numbers of the accepted job that `text` tells of: the text is one
/// JSON document, and the document an object with the two numbers.
pub open spec fn text_job(text: Seq<char>) -> Result<(u64, u64), DecodeErrorView> {
    match parsed_json(text) {
        Ok(tree) => job_of(tree),
        Err(message) => Err(DecodeErrorView::Syntax { message }),
    }
}

/// Decoding the elements one more at a time: the first `n + 1` elements decode
/// to what the first `n` decode to and then the next one, and an element that
/// does not decode ends it.
pub proof fn lemma_each_next<T>(
    items: Seq<JsonTree>,
    one: spec_fn(JsonTree) -> Result<T, DecodeErrorView>,
    n: int,
)
    requires
        0 <= n < items.len(),
    ensures
        each(items.take(n + 1), one) == match each(items.take(n), one) {
            Ok(done) => match one(items[n]) {
                Ok(item) => Ok(done.push(item)),
                Err(e) => Err(e),
            },
            Err(e) => Err::<Seq<T>, DecodeErrorView>(e),
        },
{
    assert(items.take(n + 1).drop_last() =~= items.take(n));
    assert(items.take(n + 1).last() == items[n]);
}

/// Once the first `n` elements have failed to decode, so has the whole.
pub proof fn lemma_each_failed<T>(
    items: Seq<JsonTree>,
    one: spec_fn(JsonTree) -> Result<T, DecodeErrorView>,
    n: int,
)
    requires
        0 <= n <= items.len(),
        each(items.take(n), one) is Err,
    ensures
        each(items, one) == each(items.take(n), one),
    decreases items.len() - n,
{
    if n == items.len() {
        assert(items.take(n) =~= items);
    } else {
        lemma_each_next(items, one, n);
        lemma_each_failed(items, one, n + 1);
    }
}

} // verus!
