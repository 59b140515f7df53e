//! The messages themselves, and what each of them stands for in contracts.

use crate::json::{trees, value_tree, JsonTree};
use crate::text::{quote, quoted, same_text};
use vstd::string::*;
use vstd::prelude::*;

verus! {

/// One of the two verification backends.
#[derive(Debug, Clone, Copy, PartialEq, Eq, Structural)]
pub enum Backend {
    Carbon,
    Silicon,
}

impl Default for Backend {
    fn default() -> (r: Self)
        ensures
            r == Backend::Silicon,
    {
        Backend::Silicon
    }
}

impl Backend {
    /// The name by which the server calls the backend.
    pub open spec fn name(self) -> Seq<char> {
        match self {
            Backend::Carbon => "carbon"@,
            Backend::Silicon => "silicon"@,
        }
    }

    /// The name by which the server calls the backend.
    pub fn to_string(&self) -> (r: String)
        ensures
            r@ == self.name(),
    {
        match self {
            Backend::Carbon => "carbon".to_string(),
            Backend::Silicon => "silicon".to_string(),
        }
    }
}

/// A place in a source file.
#[derive(Debug, Clone, PartialEq, Eq)]
pub struct Position {
    pub end: String,
    pub file: String,
    pub start: String,
}

/// What a [`Position`] stands for.
pub struct PositionView {
    pub end: Seq<char>,
    pub file: Seq<char>,
    pub start: Seq<char>,
}

impl View for Position {
    type V = PositionView;

    open spec fn view(&self) -> PositionView {
        PositionView { end: self.end@, file: self.file@, start: self.start@ }
    }
}

/// A place in a source file, or the statement that there is none.
#[derive(Debug, Clone, PartialEq, Eq)]
pub enum OptionalPosition {
    /// The place.
    Given(Position),
    /// There is no place to name.
    Absent,
}

impl View for OptionalPosition {
    type V = Option<PositionView>;

    open spec fn view(&self) -> Option<PositionView> {
        match self {
            OptionalPosition::Given(p) => Some(p@),
            OptionalPosition::Absent => None,
        }
    }
}

/// A text that was given for a position and is neither of the two that stand
/// for "no position".
#[derive(Debug)]
pub struct ParseOptionalError {
    pub found: String,
}

/// Whether `text` is one of the two texts that stand for "no position".
pub open spec fn means_no_position(text: Seq<char>) -> bool {
    text == "<no position>"@ || text == "<undefined>"@
}

impl OptionalPosition {
    /// Reads a position that was given as text: the two texts that stand for
    /// "no position" give the absent position, and every other text is
    /// refused and handed back.
    pub fn from_str(s: &str) -> (r: Result<OptionalPosition, ParseOptionalError>)
        ensures
            means_no_position(s@) ==> r matches Ok(OptionalPosition::Absent),
            !means_no_position(s@) ==> r is Err && r->Err_0.found@ == s@,
    {
        if same_text(s, "<no position>") || same_text(s, "<undefined>") {
            Ok(OptionalPosition::Absent)
        } else {
            Err(ParseOptionalError { found: s.to_string() })
        }
    }

    /// The position, where there is one.
    pub fn inner(&self) -> (r: Option<&Position>)
        ensures
            r == match *self {
                OptionalPosition::Given(p) => Some(&p),
                OptionalPosition::Absent => None,
            },
    {
        match self {
            OptionalPosition::Given(p) => Some(p),
            OptionalPosition::Absent => None,
        }
    }
}

impl ParseOptionalError {
    /// The error in words.
    pub open spec fn message(found: Seq<char>) -> Seq<char> {
        "expected \"<no position>\" or \"<undefined>\" found "@ + quoted(found)
    }

    /// The error in words, with the text that was found in quotes.
    pub fn to_string(&self) -> (r: String)
        ensures
            r@ == Self::message(self.found@),
    {
        let mut out = "expected \"<no position>\" or \"<undefined>\" found ".to_string();
        let found = quote(self.found.as_str());
        out.append(found.as_str());
        out
    }
}

/// What each element of `items` stands for, in order.
pub open spec fn views<T: View>(items: Seq<T>) -> Seq<T::V> {
    items.map_values(|item: T| item@)
}

/// The map that a list of members stands for: each key with the tree of its
/// value, a later entry taking the place of an earlier one with the same key.
pub open spec fn members(entries: Seq<(String, serde_json::Value)>) -> Map<Seq<char>, JsonTree>
    decreases entries.len(),
{
    if entries.len() == 0 {
        Map::empty()
    } else {
        members(entries.drop_last()).insert(entries.last().0@, value_tree(entries.last().1))
    }
}

/// Whether every key occurs once in a list of members.
pub open spec fn distinct_keys(entries: Seq<(String, serde_json::Value)>) -> bool {
    forall|i: int, j: int| 0 <= i < j < entries.len() ==> entries[i].0@ != entries[j].0@
}

/// One error that a backend reports.
#[derive(Debug, Clone, PartialEq, Eq)]
pub struct DetailsError {
    pub cached: bool,
    pub position: OptionalPosition,
    pub tag: String,
    pub text: String,
}

/// What a [`DetailsError`] stands for.
pub struct DetailsErrorView {
    pub cached: bool,
    pub position: Option<PositionView>,
    pub tag: Seq<char>,
    pub text: Seq<char>,
}

impl View for DetailsError {
    type V = DetailsErrorView;

    open spec fn view(&self) -> DetailsErrorView {
        DetailsErrorView {
            cached: self.cached,
            position: self.position@,
            tag: self.tag@,
            text: self.text@,
        }
    }
}

/// How a step ended, with the errors that it found.
#[derive(Debug, Clone, PartialEq, Eq)]
pub struct DetailsResult {
    pub errors: Vec<DetailsError>,
    pub result_type: String,
}

/// What a [`DetailsResult`] stands for.
pub struct DetailsResultView {
    pub errors: Seq<DetailsErrorView>,
    pub result_type: Seq<char>,
}

impl View for DetailsResult {
    type V = DetailsResultView;

    open spec fn view(&self) -> DetailsResultView {
        DetailsResultView { errors: views(self.errors@), result_type: self.result_type@ }
    }
}

/// The member of the program that a message is about.
#[derive(Debug, Clone, PartialEq, Eq)]
pub struct Entity {
    pub name: String,
    pub position: OptionalPosition,
    pub entity_type: String,
}

/// What an [`Entity`] stands for.
pub struct EntityView {
    pub name: Seq<char>,
    pub position: Option<PositionView>,
    pub entity_type: Seq<char>,
}

impl View for Entity {
    type V = EntityView;

    open spec fn view(&self) -> EntityView {
        EntityView { name: self.name@, position: self.position@, entity_type: self.entity_type@ }
    }
}

/// What the server tells of one step: of building the syntax tree, or of
/// verifying one member.
#[derive(Debug, Clone, PartialEq, Eq)]
pub struct Details {
    pub cached: Option<bool>,
    pub result: Option<DetailsResult>,
    pub time: i64,
    pub entity: Option<Entity>,
    /// Every other member that the server sent, each key once.
    pub extra: Vec<(String, serde_json::Value)>,
}

/// What a [`Details`] stands for.
pub struct DetailsView {
    pub cached: Option<bool>,
    pub result: Option<DetailsResultView>,
    pub time: i64,
    pub entity: Option<EntityView>,
    pub extra: Map<Seq<char>, JsonTree>,
}

impl View for Details {
    type V = DetailsView;

    open spec fn view(&self) -> DetailsView {
        DetailsView {
            cached: self.cached,
            result: match self.result {
                Some(result) => Some(result@),
                None => None,
            },
            time: self.time,
            entity: match self.entity {
                Some(entity) => Some(entity@),
                None => None,
            },
            extra: members(self.extra@),
        }
    }
}

impl Details {
    /// Whether the details are well formed: no key occurs twice among the
    /// members that were kept as they are.
    pub open spec fn wf(&self) -> bool {
        distinct_keys(self.extra@)
    }
}

/// One member of the program, as the outline lists it.
#[derive(Debug, Clone, PartialEq, Eq)]
pub struct ProgramOutlineMember {
    pub name: String,
    pub position: OptionalPosition,
    pub member_type: String,
}

/// What a [`ProgramOutlineMember`] stands for.
pub struct ProgramOutlineMemberView {
    pub name: Seq<char>,
    pub position: Option<PositionView>,
    pub member_type: Seq<char>,
}

impl View for ProgramOutlineMember {
    type V = ProgramOutlineMemberView;

    open spec fn view(&self) -> ProgramOutlineMemberView {
        ProgramOutlineMemberView {
            name: self.name@,
            position: self.position@,
            member_type: self.member_type@,
        }
    }
}

/// The Viper type of a definition.
#[derive(Debug, Clone, PartialEq, Eq)]
pub struct ViperType {
    pub kind: String,
    /// A name, or an object for a type such as `Seq[Int]`.
    pub typename: serde_json::Value,
}

/// What a [`ViperType`] stands for.
pub struct ViperTypeView {
    pub kind: Seq<char>,
    pub typename: JsonTree,
}

impl View for ViperType {
    type V = ViperTypeView;

    open spec fn view(&self) -> ViperTypeView {
        ViperTypeView { kind: self.kind@, typename: value_tree(self.typename) }
    }
}

/// What kind of thing a definition defines.
#[derive(Debug, Clone, PartialEq, Eq)]
pub struct Type {
    pub name: String,
    pub viper_type: Option<ViperType>,
}

/// What a [`Type`] stands for.
pub struct TypeView {
    pub name: Seq<char>,
    pub viper_type: Option<ViperTypeView>,
}

impl View for Type {
    type V = TypeView;

    open spec fn view(&self) -> TypeView {
        TypeView {
            name: self.name@,
            viper_type: match self.viper_type {
                Some(viper_type) => Some(viper_type@),
                None => None,
            },
        }
    }
}

/// One definition of the program, with the scope in which it holds.
#[derive(Debug, Clone, PartialEq, Eq)]
pub struct ProgramDefinition {
    pub location: OptionalPosition,
    pub name: String,
    pub scope_end: String,
    pub scope_start: String,
    pub verification_status_type: Type,
}

/// What a [`ProgramDefinition`] stands for.
pub struct ProgramDefinitionView {
    pub location: Option<PositionView>,
    pub name: Seq<char>,
    pub scope_end: Seq<char>,
    pub scope_start: Seq<char>,
    pub verification_status_type: TypeView,
}

impl View for ProgramDefinition {
    type V = ProgramDefinitionView;

    open spec fn view(&self) -> ProgramDefinitionView {
        ProgramDefinitionView {
            location: self.location@,
            name: self.name@,
            scope_end: self.scope_end@,
            scope_start: self.scope_start@,
            verification_status_type: self.verification_status_type@,
        }
    }
}

/// One message of the status stream.
#[allow(inconsistent_fields)]
#[derive(Debug, Clone, PartialEq, Eq)]
pub enum VerificationStatus {
    CopyrightReport { text: String },
    WarningsDuringParsing(Vec<serde_json::Value>),
    WarningsDuringTypechecking(Vec<serde_json::Value>),
    InternalWarningMessage { text: String },
    InvalidArgsReport { tool: String, errors: Vec<DetailsError> },
    AstConstructionResult { details: Details, status: String },
    ProgramOutline { members: Vec<ProgramOutlineMember> },
    ProgramDefinitions { definitions: Vec<ProgramDefinition> },
    Statistics { domains: i64, fields: i64, functions: i64, methods: i64, predicates: i64 },
    ExceptionReport { message: String, stacktrace: Vec<String> },
    ConfigurationConfirmation { text: String },
    VerificationResult {
        details: Details,
        kind: String,
        status: String,
        verifier: Backend,
        /// Every other member that the server sent, each key once.
        extra: Vec<(String, serde_json::Value)>,
    },
    BackendSubProcessReport {
        phase: String,
        pid: Option<i64>,
        process_exe: String,
        tool: Backend,
        /// Every other member that the server sent, each key once.
        extra: Vec<(String, serde_json::Value)>,
    },
}

/// What a [`VerificationStatus`] stands for.
#[allow(inconsistent_fields)]
pub enum VerificationStatusView {
    CopyrightReport { text: Seq<char> },
    WarningsDuringParsing(Seq<JsonTree>),
    WarningsDuringTypechecking(Seq<JsonTree>),
    InternalWarningMessage { text: Seq<char> },
    InvalidArgsReport { tool: Seq<char>, errors: Seq<DetailsErrorView> },
    AstConstructionResult { details: DetailsView, status: Seq<char> },
    ProgramOutline { members: Seq<ProgramOutlineMemberView> },
    ProgramDefinitions { definitions: Seq<ProgramDefinitionView> },
    Statistics { domains: i64, fields: i64, functions: i64, methods: i64, predicates: i64 },
    ExceptionReport { message: Seq<char>, stacktrace: Seq<Seq<char>> },
    ConfigurationConfirmation { text: Seq<char> },
    VerificationResult {
        details: DetailsView,
        kind: Seq<char>,
        status: Seq<char>,
        verifier: Backend,
        extra: Map<Seq<char>, JsonTree>,
    },
    BackendSubProcessReport {
        phase: Seq<char>,
        pid: Option<i64>,
        process_exe: Seq<char>,
        tool: Backend,
        extra: Map<Seq<char>, JsonTree>,
    },
}

impl View for VerificationStatus {
    type V = VerificationStatusView;

    open spec fn view(&self) -> VerificationStatusView {
        match *self {
            VerificationStatus::CopyrightReport { text } => VerificationStatusView::CopyrightReport {
                text: text@,
            },
            VerificationStatus::WarningsDuringParsing(warnings) => {
                VerificationStatusView::WarningsDuringParsing(trees(warnings@))
            },
            VerificationStatus::WarningsDuringTypechecking(warnings) => {
                VerificationStatusView::WarningsDuringTypechecking(trees(warnings@))
            },
            VerificationStatus::InternalWarningMessage { text } => {
                VerificationStatusView::InternalWarningMessage { text: text@ }
            },
            VerificationStatus::InvalidArgsReport { tool, errors } => {
                VerificationStatusView::InvalidArgsReport { tool: tool@, errors: views(errors@) }
            },
            VerificationStatus::AstConstructionResult { details, status } => {
                VerificationStatusView::AstConstructionResult { details: details@, status: status@ }
            },
            VerificationStatus::ProgramOutline { members } => {
                VerificationStatusView::ProgramOutline { members: views(members@) }
            },
            VerificationStatus::ProgramDefinitions { definitions } => {
                VerificationStatusView::ProgramDefinitions { definitions: views(definitions@) }
            },
            VerificationStatus::Statistics { domains, fields, functions, methods, predicates } => {
                VerificationStatusView::Statistics { domains, fields, functions, methods, predicates }
            },
            VerificationStatus::ExceptionReport { message, stacktrace } => {
                VerificationStatusView::ExceptionReport {
                    message: message@,
                    stacktrace: stacktrace.deep_view(),
                }
            },
            VerificationStatus::ConfigurationConfirmation { text } => {
                VerificationStatusView::ConfigurationConfirmation { text: text@ }
            },
            VerificationStatus::VerificationResult { details, kind, status, verifier, extra } => {
                VerificationStatusView::VerificationResult {
                    details: details@,
                    kind: kind@,
                    status: status@,
                    verifier,
                    extra: members(extra@),
                }
            },
            VerificationStatus::BackendSubProcessReport { phase, pid, process_exe, tool, extra } => {
                VerificationStatusView::BackendSubProcessReport {
                    phase: phase@,
                    pid,
                    process_exe: process_exe@,
                    tool,
                    extra: members(extra@),
                }
            },
        }
    }
}

/// The errors of the result in `details`; none where it has no result.
pub open spec fn errors_of(details: Details) -> Seq<DetailsError> {
    match details.result {
        Some(result) => result.errors@,
        None => Seq::empty(),
    }
}

impl VerificationStatus {
    /// Whether the message is well formed: no key occurs twice among the
    /// members that were kept as they are, in the message or in its details.
    pub open spec fn wf(&self) -> bool {
        match *self {
            VerificationStatus::AstConstructionResult { details, .. } => details.wf(),
            VerificationStatus::VerificationResult { details, extra, .. } => details.wf()
                && distinct_keys(extra@),
            VerificationStatus::BackendSubProcessReport { extra, .. } => distinct_keys(extra@),
            _ => true,
        }
    }

    /// The details that the message carries: those of the two kinds of result,
    /// and nothing for any other message.
    pub fn details(&self) -> (r: Option<&Details>)
        ensures
            r == match *self {
                VerificationStatus::AstConstructionResult { details, .. } => Some(&details),
                VerificationStatus::VerificationResult { details, .. } => Some(&details),
                _ => None,
            },
    {
        match self {
            VerificationStatus::AstConstructionResult { details, .. } => Some(details),
            VerificationStatus::VerificationResult { details, .. } => Some(details),
            _ => None,
        }
    }

    /// The errors that the message reports.
    pub open spec fn reported(&self) -> Seq<DetailsError> {
        match *self {
            VerificationStatus::AstConstructionResult { details, .. } => errors_of(details),
            VerificationStatus::VerificationResult { details, .. } => errors_of(details),
            _ => Seq::empty(),
        }
    }

    /// The errors of the result in the message's details, in order; none where
    /// the message has no details, or its details no result.
    pub fn detail_errors(&self) -> (r: Vec<&DetailsError>)
        ensures
            r@.len() == self.reported().len(),
            forall|i: int| 0 <= i < r@.len() ==> *r@[i] == self.reported()[i],
    {
        let mut out: Vec<&DetailsError> = Vec::new();
        if let Some(details) = self.details() {
            if let Some(result) = &details.result {
                let mut i: usize = 0;
                while i < result.errors.len()
                    invariant
                        i <= result.errors.len(),
                        out@.len() == i,
                        forall|k: int| 0 <= k < i ==> *out@[k] == result.errors@[k],
                    decreases result.errors.len() - i,
                {
                    out.push(&result.errors[i]);
                    i += 1;
                }
            }
        }
        out
    }
}

} // verus!
