//! Validation and routing of structural commands and hover requests, and the
//! shaping of the tree engine's answers into protocol coordinates.
//!
//! A request passes through here twice: first to be checked and turned into
//! a job (the document's text and the offsets to work on), then, once the
//! tree engine has answered the job, to have the answer put back into rows
//! and columns.
use vstd::prelude::*;
use crate::coords::{
    offset_has_position,
    offset_in_range,
    offset_to_row_col,
    position_in_range,
    row_col,
    row_col_to_offset,
};
use crate::profile::{expand_selection_name, move_cursor_to_start_name};
use crate::store::DocumentStore;
use crate::text::text_chars;
use tower_lsp::lsp_types::TextDocumentPositionParams;

verus! {

#[verifier::external_type_specification]
#[verifier::external_body]
pub struct ExValue(serde_json::Value);

/// The structural commands that `executeCommand` runs.
#[derive(PartialEq, Eq, Structural, Clone, Copy, Debug)]
pub enum CommandKind {
    ExpandSelection,
    MoveCursorToStart,
}

/// A position in a named document, as the editor sends it.
#[derive(Clone, Debug)]
pub struct DocumentPosition {
    pub uri: String,
    pub line: u32,
    pub character: u32,
}

/// Why a request failed. Each failure is scoped to its request.
#[derive(Clone, Debug, PartialEq, Eq)]
pub enum CommandError {
    /// A selection command was given other than exactly one argument.
    ArgumentCount { count: usize },
    /// The argument is not a pair of document positions.
    MalformedArgument,
    /// The two positions name different documents.
    MixedDocuments,
    /// No command has this name.
    MethodNotFound,
    /// The document is not open.
    NotFound { uri: String },
    /// No offset of the document sits at this position.
    PositionOutOfRange { line: u32, character: u32 },
    /// The engine answered with an offset past the end of the document, or
    /// one whose column does not fit a machine word.
    OffsetOutOfRange { offset: usize },
    /// The engine answered with a node range that is not a range of the document.
    RangeOutOfRange { start: usize, end: usize },
    /// The engine could not parse the document.
    ParseFailed,
}

impl CommandError {
    /// The request's parameters were at fault.
    pub fn is_invalid_params(&self) -> (r: bool)
        ensures
            r == (self is ArgumentCount || self is MalformedArgument || self is MixedDocuments),
    {
        match self {
            CommandError::ArgumentCount { .. } => true,
            CommandError::MalformedArgument => true,
            CommandError::MixedDocuments => true,
            _ => false,
        }
    }
}

/// A selection command that passed its checks: the document's text and the
/// selected offset range `[start, end)`.
pub struct SelectionJob {
    pub kind: CommandKind,
    pub text: String,
    pub chars: Vec<char>,
    pub start: usize,
    pub end: usize,
}

/// A hover request that passed its checks: the document's text and the offset.
pub struct HoverJob {
    pub text: String,
    pub chars: Vec<char>,
    pub offset: usize,
}

/// The pair of positions that the JSON value `v` decodes to, if it has that shape.
pub uninterp spec fn position_pair_of(v: serde_json::Value) -> Option<(DocumentPosition, DocumentPosition)>;

/// Relies on `serde_json::from_value` into a pair of the protocol's
/// `TextDocumentPositionParams`, which is `Err` where the value has another
/// shape, and on `Url`'s `to_string` for the URI text.
#[verifier::external_body]
fn decode_position_pair(arg: &serde_json::Value) -> (r: Option<(DocumentPosition, DocumentPosition)>)
    ensures
        r == position_pair_of(*arg),
{
    let pair = serde_json::from_value::<(TextDocumentPositionParams, TextDocumentPositionParams)>(arg.clone());
    pair.ok().map(|(a, b)| (
        DocumentPosition { uri: a.text_document.uri.to_string(), line: a.position.line, character: a.position.character },
        DocumentPosition { uri: b.text_document.uri.to_string(), line: b.position.line, character: b.position.character },
    ))
}

/// The command that `name` names, if any.
pub open spec fn command_named(name: Seq<char>) -> Option<CommandKind> {
    if name == expand_selection_name() {
        Some(CommandKind::ExpandSelection)
    } else if name == move_cursor_to_start_name() {
        Some(CommandKind::MoveCursorToStart)
    } else {
        None
    }
}

/// Looks up a command by name; an unknown name is `MethodNotFound`.
pub fn command_kind(name: &String) -> (r: Result<CommandKind, CommandError>)
    ensures
        match command_named(name@) {
            Some(k) => r == Ok::<CommandKind, CommandError>(k),
            None => r == Err::<CommandKind, CommandError>(CommandError::MethodNotFound),
        },
{
    let expand = "expandSelection".to_owned();
    let move_to_start = "moveCursorToStart".to_owned();
    if *name == expand {
        Ok(CommandKind::ExpandSelection)
    } else if *name == move_to_start {
        Ok(CommandKind::MoveCursorToStart)
    } else {
        Err(CommandError::MethodNotFound)
    }
}

/// `pos` lies in the text `t`, at offset `o`.
pub open spec fn at_position(t: Seq<char>, pos: DocumentPosition, o: int) -> bool {
    offset_in_range(t, o) && row_col(t, o) == (pos.line as int, pos.character as int)
}

/// What a selection command of kind `kind` gives for the decoded argument
/// `arg` against the open documents `docs`.
pub open spec fn selection_outcome(
    docs: Map<Seq<char>, Seq<char>>,
    kind: CommandKind,
    arg: Option<(DocumentPosition, DocumentPosition)>,
    r: Result<SelectionJob, CommandError>,
) -> bool {
    match arg {
        None => r matches Err(CommandError::MalformedArgument),
        Some((a, b)) => if a.uri@ != b.uri@ {
            r matches Err(CommandError::MixedDocuments)
        } else if !docs.contains_key(a.uri@) {
            r matches Err(CommandError::NotFound { uri }) && uri@ == a.uri@
        } else if !position_in_range(docs[a.uri@], a.line as int, a.character as int) {
            r matches Err(CommandError::PositionOutOfRange { line, character }) && line == a.line
                && character == a.character
        } else if !position_in_range(docs[a.uri@], b.line as int, b.character as int) {
            r matches Err(CommandError::PositionOutOfRange { line, character }) && line == b.line
                && character == b.character
        } else {
            r matches Ok(job) && job.kind == kind && job.text@ == docs[a.uri@] && job.chars@
                == docs[a.uri@] && at_position(docs[a.uri@], a, job.start as int) && at_position(
                docs[a.uri@],
                b,
                job.end as int,
            )
        },
    }
}

/// Checks a decoded selection argument and turns it into a job: both
/// positions in one open document, each translated to its offset.
pub fn selection_job(
    store: &DocumentStore,
    kind: CommandKind,
    arg: Option<(DocumentPosition, DocumentPosition)>,
) -> (r: Result<SelectionJob, CommandError>)
    requires
        store.wf(),
    ensures
        selection_outcome(store@, kind, arg, r),
{
    let (a, b) = match arg {
        Some(pair) => pair,
        None => {
            return Err(CommandError::MalformedArgument);
        },
    };
    if a.uri != b.uri {
        return Err(CommandError::MixedDocuments);
    }
    let text = match store.read(&a.uri) {
        Some(t) => t,
        None => {
            return Err(CommandError::NotFound { uri: a.uri });
        },
    };
    let chars = text_chars(text.as_str());
    let start = match row_col_to_offset(&chars, a.line as usize, a.character as usize) {
        Some(o) => o,
        None => {
            return Err(CommandError::PositionOutOfRange { line: a.line, character: a.character });
        },
    };
    let end = match row_col_to_offset(&chars, b.line as usize, b.character as usize) {
        Some(o) => o,
        None => {
            return Err(CommandError::PositionOutOfRange { line: b.line, character: b.character });
        },
    };
    Ok(SelectionJob { kind, text, chars, start, end })
}

/// Runs the checks of `executeCommand`: a known command name, exactly one
/// argument, an argument that decodes as a pair of positions, and then those
/// of `selection_job`. The documents are only read.
pub fn execute_command(store: &DocumentStore, name: &String, arguments: &Vec<serde_json::Value>) -> (r:
    Result<SelectionJob, CommandError>)
    requires
        store.wf(),
    ensures
        command_named(name@) is None ==> r matches Err(CommandError::MethodNotFound),
        command_named(name@) is Some && arguments.len() != 1 ==> (r matches Err(
            CommandError::ArgumentCount { count },
        ) && count == arguments.len()),
        command_named(name@) is Some && arguments.len() == 1 ==> selection_outcome(
            store@,
            command_named(name@)->0,
            position_pair_of(arguments@[0]),
            r,
        ),
{
    let kind = match command_kind(name) {
        Ok(k) => k,
        Err(e) => {
            return Err(e);
        },
    };
    if arguments.len() != 1 {
        return Err(CommandError::ArgumentCount { count: arguments.len() });
    }
    let arg = decode_position_pair(&arguments[0]);
    selection_job(store, kind, arg)
}

/// Turns the engine's answer to `expandSelection` into rows and columns:
/// `None` (nothing wider) stays `None`; a range `[s, e)` becomes
/// `(start row, start column, end row, end column)`.
pub fn expansion_reply(chars: &Vec<char>, expanded: Option<(usize, usize)>) -> (r: Result<
    Option<(usize, usize, usize, usize)>,
    CommandError,
>)
    ensures
        match expanded {
            None => r == Ok::<Option<(usize, usize, usize, usize)>, CommandError>(None),
            Some((s, e)) => if !offset_has_position(chars@, s as int) {
                r == Err::<Option<(usize, usize, usize, usize)>, CommandError>(
                    CommandError::OffsetOutOfRange { offset: s },
                )
            } else if !offset_has_position(chars@, e as int) {
                r == Err::<Option<(usize, usize, usize, usize)>, CommandError>(
                    CommandError::OffsetOutOfRange { offset: e },
                )
            } else {
                r matches Ok(Some((r0, c0, r1, c1))) && row_col(chars@, s as int) == (
                    r0 as int,
                    c0 as int,
                ) && row_col(chars@, e as int) == (r1 as int, c1 as int)
            },
        },
{
    match expanded {
        None => Ok(None),
        Some((s, e)) => {
            let (r0, c0) = match offset_to_row_col(chars, s) {
                Some(p) => p,
                None => {
                    return Err(CommandError::OffsetOutOfRange { offset: s });
                },
            };
            let (r1, c1) = match offset_to_row_col(chars, e) {
                Some(p) => p,
                None => {
                    return Err(CommandError::OffsetOutOfRange { offset: e });
                },
            };
            Ok(Some((r0, c0, r1, c1)))
        },
    }
}

/// Turns the engine's answer to `moveCursorToStart` into a row and column.
pub fn cursor_reply(chars: &Vec<char>, offset: usize) -> (r: Result<(usize, usize), CommandError>)
    ensures
        offset_has_position(chars@, offset as int) ==> (r matches Ok((row, col)) && row_col(
            chars@,
            offset as int,
        ) == (row as int, col as int)),
        !offset_has_position(chars@, offset as int) ==> r == Err::<(usize, usize), CommandError>(
            CommandError::OffsetOutOfRange { offset },
        ),
{
    match offset_to_row_col(chars, offset) {
        Some(p) => Ok(p),
        None => Err(CommandError::OffsetOutOfRange { offset }),
    }
}

/// Checks a hover request: the document is open and the position lies in it.
pub fn hover_job(store: &DocumentStore, uri: &String, line: u32, character: u32) -> (r: Result<
    HoverJob,
    CommandError,
>)
    requires
        store.wf(),
    ensures
        !store@.contains_key(uri@) ==> (r matches Err(CommandError::NotFound { uri: u }) && u@
            == uri@),
        store@.contains_key(uri@) && !position_in_range(store@[uri@], line as int, character as int)
            ==> r == Err::<HoverJob, CommandError>(
            CommandError::PositionOutOfRange { line, character },
        ),
        store@.contains_key(uri@) && position_in_range(store@[uri@], line as int, character as int)
            ==> (r matches Ok(job) && job.text@ == store@[uri@] && job.chars@ == store@[uri@]
            && offset_in_range(job.chars@, job.offset as int) && row_col(job.chars@, job.offset as int)
            == (line as int, character as int)),
{
    let text = match store.read(uri) {
        Some(t) => t,
        None => {
            return Err(CommandError::NotFound { uri: uri.clone() });
        },
    };
    let chars = text_chars(text.as_str());
    match row_col_to_offset(&chars, line as usize, character as usize) {
        Some(offset) => Ok(HoverJob { text, chars, offset }),
        None => Err(CommandError::PositionOutOfRange { line, character }),
    }
}

/// The hover contents for the node that the engine resolved at the hovered
/// offset: the node's own source text, `[start, end)` of the document.
pub fn hover_contents(chars: &Vec<char>, start: usize, end: usize) -> (r: Result<Vec<char>, CommandError>)
    ensures
        start <= end <= chars.len() ==> (r matches Ok(v) && v@ == chars@.subrange(
            start as int,
            end as int,
        )),
        !(start <= end <= chars.len()) ==> r == Err::<Vec<char>, CommandError>(
            CommandError::RangeOutOfRange { start, end },
        ),
{
    if start > end || end > chars.len() {
        return Err(CommandError::RangeOutOfRange { start, end });
    }
    let mut v: Vec<char> = Vec::new();
    let mut i: usize = start;
    while i < end
        invariant
            start <= i <= end <= chars.len(),
            v@ == chars@.subrange(start as int, i as int),
        decreases end - i,
    {
        v.push(chars[i]);
        i = i + 1;
        assert(v@ =~= chars@.subrange(start as int, i as int));
    }
    Ok(v)
}

} // verus!
