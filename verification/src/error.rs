//! Errors of the engine's commands: a code for programs and a message for people.

use vstd::prelude::*;
use vstd::string::*;

use crate::json::{Json, JsonView};
use crate::text;
use crate::text::decimal_text;

verus! {

/// An error of a command.
#[derive(Debug, PartialEq, Eq)]
pub enum AftError {
    SymbolNotFound { name: String, file: String },
    AmbiguousSymbol { name: String, candidates: Vec<String> },
    ParseError { message: String },
    FileNotFound { path: String },
    InvalidRequest { message: String },
    CheckpointNotFound { name: String },
    NoUndoHistory { path: String },
    AmbiguousMatch { pattern: String, count: u64 },
}

/// Texts with a comma and a space between them.
pub open spec fn listed(items: Seq<Seq<char>>) -> Seq<char>
    decreases items.len(),
{
    if items.len() == 0 {
        Seq::empty()
    } else if items.len() == 1 {
        items[0]
    } else {
        listed(items.drop_last()) + ", "@ + items.last()
    }
}

/// A list of texts with a comma and a space between them.
pub fn list_text(items: &Vec<String>) -> (out: String)
    ensures
        out@ == listed(items.deep_view()),
{
    let ghost all = items.deep_view();
    let mut out = String::new();
    let mut i: usize = 0;
    assert(out@ =~= listed(all.take(0)));
    while i < items.len()
        invariant
            i <= items@.len(),
            all == items.deep_view(),
            out@ == listed(all.take(i as int)),
        decreases items.len() - i,
    {
        proof {
            assert(all.take(i + 1).drop_last() =~= all.take(i as int));
            assert(all.take(i + 1).last() == items@[i as int]@);
        }
        if i > 0 {
            out.append(", ");
        }
        let ghost before = out@;
        out.append(items[i].as_str());
        proof {
            if i == 0 {
                assert(before =~= Seq::<char>::empty());
                assert(out@ =~= items@[0]@);
                assert(all.take(1)[0] == items@[0]@);
            }
        }
        i = i + 1;
    }
    assert(all.take(all.len() as int) =~= all);
    out
}

impl AftError {
    /// The code of the error.
    pub open spec fn code_text(self) -> Seq<char> {
        match self {
            AftError::SymbolNotFound { .. } => "symbol_not_found"@,
            AftError::AmbiguousSymbol { .. } => "ambiguous_symbol"@,
            AftError::ParseError { .. } => "parse_error"@,
            AftError::FileNotFound { .. } => "file_not_found"@,
            AftError::InvalidRequest { .. } => "invalid_request"@,
            AftError::CheckpointNotFound { .. } => "checkpoint_not_found"@,
            AftError::NoUndoHistory { .. } => "no_undo_history"@,
            AftError::AmbiguousMatch { .. } => "ambiguous_match"@,
        }
    }

    /// The message of the error.
    pub open spec fn message(self) -> Seq<char> {
        match self {
            AftError::SymbolNotFound { name, file } => "symbol '"@ + name@ + "' not found in "@
                + file@,
            AftError::AmbiguousSymbol { name, candidates } => "ambiguous symbol '"@ + name@
                + "', candidates: "@ + listed(candidates.deep_view()),
            AftError::ParseError { message } => "parse error: "@ + message@,
            AftError::FileNotFound { path } => "file not found: "@ + path@,
            AftError::InvalidRequest { message } => "invalid request: "@ + message@,
            AftError::CheckpointNotFound { name } => "checkpoint not found: "@ + name@,
            AftError::NoUndoHistory { path } => "no undo history for: "@ + path@,
            AftError::AmbiguousMatch { pattern, count } => "pattern '"@ + pattern@ + "' matches "@
                + text::decimal(count as nat) + " occurrences, expected exactly 1"@,
        }
    }

    /// The code of the error.
    pub fn code(&self) -> (code: &'static str)
        ensures
            code@ == self.code_text(),
    {
        match self {
            AftError::SymbolNotFound { .. } => "symbol_not_found",
            AftError::AmbiguousSymbol { .. } => "ambiguous_symbol",
            AftError::ParseError { .. } => "parse_error",
            AftError::FileNotFound { .. } => "file_not_found",
            AftError::InvalidRequest { .. } => "invalid_request",
            AftError::CheckpointNotFound { .. } => "checkpoint_not_found",
            AftError::NoUndoHistory { .. } => "no_undo_history",
            AftError::AmbiguousMatch { .. } => "ambiguous_match",
        }
    }

    /// The message of the error.
    pub fn to_text(&self) -> (out: String)
        ensures
            out@ == self.message(),
    {
        match self {
            AftError::SymbolNotFound { name, file } => {
                let mut out = "symbol '".to_owned();
                out.append(name.as_str());
                out.append("' not found in ");
                out.append(file.as_str());
                out
            },
            AftError::AmbiguousSymbol { name, candidates } => {
                let mut out = "ambiguous symbol '".to_owned();
                out.append(name.as_str());
                out.append("', candidates: ");
                out.append(list_text(candidates).as_str());
                out
            },
            AftError::ParseError { message } => after("parse error: ", message),
            AftError::FileNotFound { path } => after("file not found: ", path),
            AftError::InvalidRequest { message } => after("invalid request: ", message),
            AftError::CheckpointNotFound { name } => after("checkpoint not found: ", name),
            AftError::NoUndoHistory { path } => after("no undo history for: ", path),
            AftError::AmbiguousMatch { pattern, count } => {
                let mut out = "pattern '".to_owned();
                out.append(pattern.as_str());
                out.append("' matches ");
                out.append(decimal_text(*count).as_str());
                out.append(" occurrences, expected exactly 1");
                out
            },
        }
    }

    /// The error as a document: its code and its message.
    pub fn to_error_json(&self) -> (out: Json)
        ensures
            out.deep_view() == error_document(self.code_text(), self.message()),
    {
        error_fields(self.code(), self.to_text())
    }
}

/// A text behind its introduction.
fn after(introduction: &str, rest: &String) -> (out: String)
    ensures
        out@ == introduction@ + rest@,
{
    let mut out = introduction.to_owned();
    out.append(rest.as_str());
    out
}

/// The document of an error.
pub open spec fn error_document(code: Seq<char>, message: Seq<char>) -> JsonView {
    JsonView::Object(
        seq![("code"@, JsonView::Text(code)), ("message"@, JsonView::Text(message))],
    )
}

/// The document of an error with a code and a message.
pub fn error_fields(code: &str, message: String) -> (out: Json)
    ensures
        out.deep_view() == error_document(code@, message@),
{
    let ghost said = message@;
    let mut fields: Vec<(String, Json)> = Vec::new();
    fields.push(("code".to_owned(), Json::Text(code.to_owned())));
    fields.push(("message".to_owned(), Json::Text(message)));
    proof {
        assert(fields@[0].1.deep_view() == JsonView::Text(code@));
        assert(fields@[1].1.deep_view() == JsonView::Text(said));
    }
    let out = Json::Object(fields);
    assert(out.deep_view()->Object_0 =~= seq![
        ("code"@, JsonView::Text(code@)),
        ("message"@, JsonView::Text(said)),
    ]);
    out
}

/// Items are listed in order, with a comma and a space between them.
pub proof fn law_items_are_listed_in_order(items: Seq<Seq<char>>, item: Seq<char>)
    ensures
        listed(Seq::empty()).len() == 0,
        listed(seq![item]) == item,
        items.len() > 0 ==> listed(items.push(item)) == listed(items) + ", "@ + item,
{
    assert(items.push(item).drop_last() =~= items);
}

/// Two errors of different kinds never have the same code, and the code tells nothing but the kind.
pub proof fn law_codes_tell_errors_apart(a: AftError, b: AftError)
    ensures
        a.code_text() == b.code_text() <==> {
            ||| a is SymbolNotFound && b is SymbolNotFound
            ||| a is AmbiguousSymbol && b is AmbiguousSymbol
            ||| a is ParseError && b is ParseError
            ||| a is FileNotFound && b is FileNotFound
            ||| a is InvalidRequest && b is InvalidRequest
            ||| a is CheckpointNotFound && b is CheckpointNotFound
            ||| a is NoUndoHistory && b is NoUndoHistory
            ||| a is AmbiguousMatch && b is AmbiguousMatch
        },
{
    reveal_strlit("symbol_not_found");
    reveal_strlit("ambiguous_symbol");
    reveal_strlit("parse_error");
    reveal_strlit("file_not_found");
    reveal_strlit("invalid_request");
    reveal_strlit("checkpoint_not_found");
    reveal_strlit("no_undo_history");
    reveal_strlit("ambiguous_match");
    assert("symbol_not_found"@[0] == 's');
    assert("ambiguous_symbol"@.len() == 16);
    assert("parse_error"@[0] == 'p');
    assert("file_not_found"@[0] == 'f');
    assert("invalid_request"@[0] == 'i');
    assert("checkpoint_not_found"@[0] == 'c');
    assert("no_undo_history"@[0] == 'n');
    assert("ambiguous_match"@.len() == 15);
    assert("ambiguous_symbol"@[0] == 'a');
    assert("ambiguous_match"@[0] == 'a');
}

/// An error document tells its code and its message, each under its name, and nothing else.
pub proof fn law_error_document_tells_code_and_message(code: Seq<char>, message: Seq<char>)
    ensures
        error_document(code, message) matches JsonView::Object(fields) && fields.len() == 2,
        crate::json::object_value(error_document(code, message), "code"@) == Some(
            JsonView::Text(code),
        ),
        crate::json::object_value(error_document(code, message), "message"@) == Some(
            JsonView::Text(message),
        ),
{
    reveal_strlit("code");
    reveal_strlit("message");
    let fields = error_document(code, message)->Object_0;
    assert(fields.len() == 2);
    assert(fields[0].0 == "code"@);
    assert("code"@.len() != "message"@.len());
    let rest = fields.drop_first();
    assert(rest.len() == 1);
    assert(rest[0] == ("message"@, JsonView::Text(message)));
    assert(crate::text_map::map_get(rest, "message"@) == Some(JsonView::Text(message)));
}

} // verus!
