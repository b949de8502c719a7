//! Requests and responses, one document each.

use vstd::prelude::*;
use vstd::string::*;

use crate::error;
use crate::error::error_fields;
use crate::json::{Json, JsonView};
use crate::text;
use crate::text_map;

verus! {

/// A request: who asks, for what, and with which parameters.
#[derive(Debug, PartialEq, Eq)]
pub struct RawRequest {
    pub id: String,
    pub command: String,
    pub lsp_hints: Option<Json>,
    pub session_id: Option<String>,
    /// The fields of the request that are not named above.
    pub params: Json,
}

/// The model of [`RawRequest`].
pub struct RawRequestView {
    pub id: Seq<char>,
    pub command: Seq<char>,
    pub lsp_hints: Option<JsonView>,
    pub session_id: Option<Seq<char>>,
    pub params: JsonView,
}

impl DeepView for RawRequest {
    type V = RawRequestView;

    open spec fn deep_view(&self) -> RawRequestView {
        RawRequestView {
            id: self.id@,
            command: self.command@,
            lsp_hints: self.lsp_hints.deep_view(),
            session_id: self.session_id.deep_view(),
            params: self.params.deep_view(),
        }
    }
}

/// The text of a field; `None` where the field is missing or no text.
pub open spec fn text_field(fields: Seq<(Seq<char>, JsonView)>, key: Seq<char>) -> Option<
    Seq<char>,
> {
    match text_map::map_get(fields, key) {
        Some(JsonView::Text(value)) => Some(value),
        _ => None,
    }
}

/// Whether a field holds nothing: it is missing or null.
pub open spec fn is_unset(fields: Seq<(Seq<char>, JsonView)>, key: Seq<char>) -> bool {
    match text_map::map_get(fields, key) {
        None => true,
        Some(value) => value is Null,
    }
}

/// The fields that no name of a request stands for.
pub open spec fn other_fields(fields: Seq<(Seq<char>, JsonView)>) -> Seq<(Seq<char>, JsonView)> {
    text_map::map_remove(
        text_map::map_remove(
            text_map::map_remove(text_map::map_remove(fields, "id"@), "command"@),
            "lsp_hints"@,
        ),
        "session_id"@,
    )
}

/// What a document says as a request: it needs an id and a command, a session is named by a
/// text, and all other fields are parameters.
pub open spec fn request_of(document: JsonView) -> Option<RawRequestView> {
    match document {
        JsonView::Object(fields) => match (text_field(fields, "id"@), text_field(
            fields,
            "command"@,
        )) {
            (Some(id), Some(command)) => if is_unset(fields, "session_id"@) || text_field(
                fields,
                "session_id"@,
            ) is Some {
                Some(
                    RawRequestView {
                        id,
                        command,
                        lsp_hints: if is_unset(fields, "lsp_hints"@) {
                            None
                        } else {
                            text_map::map_get(fields, "lsp_hints"@)
                        },
                        session_id: text_field(fields, "session_id"@),
                        params: JsonView::Object(other_fields(fields)),
                    },
                )
            } else {
                None
            },
            _ => None,
        },
        _ => None,
    }
}

/// The first value under a key, taken out, and the fields without that key.
fn take_field(fields: Vec<(String, Json)>, key: &str) -> (out: (Option<Json>, Vec<(String, Json)>))
    ensures
        out.0.deep_view() == text_map::map_get(fields.deep_view(), key@),
        out.1.deep_view() == text_map::map_remove(fields.deep_view(), key@),
{
    let ghost all = fields.deep_view();
    let mut found: Option<Json> = None;
    let mut rest: Vec<(String, Json)> = Vec::new();
    assert(rest.deep_view() =~= text_map::map_remove(all.take(0), key@));
    for entry in iter: fields
        invariant
            iter.seq() == fields@,
            all == fields.deep_view(),
            found.deep_view() == text_map::map_get(all.take(iter.index()), key@),
            rest.deep_view() == text_map::map_remove(all.take(iter.index()), key@),
    {
        let ghost place = iter.index();
        proof {
            assert(all[place] == entry.deep_view());
            assert(all.take(place + 1).drop_last() =~= all.take(place));
            assert(all.take(place + 1).last() == all[place]);
            assert(all.take(place).push(all[place]) =~= all.take(place + 1));
            text_map::lemma_get_push(all.take(place), all[place], key@);
        }
        if text::same_text(entry.0.as_str(), key) {
            if found.is_none() {
                found = Some(entry.1);
            }
        } else {
            let ghost before = rest.deep_view();
            let ghost pair = entry.deep_view();
            rest.push(entry);
            assert(rest.deep_view() =~= before.push(pair));
        }
    }
    assert(all.take(all.len() as int) =~= all);
    (found, rest)
}

impl RawRequest {
    /// The request that a document says, where it says one.
    pub fn from_document(document: Json) -> (request: Option<RawRequest>)
        ensures
            request.deep_view() == request_of(document.deep_view()),
    {
        let fields = match document {
            Json::Object(fields) => fields,
            _ => {
                return None;
            },
        };
        let ghost all = fields.deep_view();
        proof {
            assert(document.deep_view()->Object_0 =~= all);
            reveal_strlit("id");
            reveal_strlit("command");
            reveal_strlit("lsp_hints");
            reveal_strlit("session_id");
            let no_id = text_map::map_remove(all, "id"@);
            let no_command = text_map::map_remove(no_id, "command"@);
            let no_hints = text_map::map_remove(no_command, "lsp_hints"@);
            assert("id"@.len() == 2 && "command"@.len() == 7 && "lsp_hints"@.len() == 9
                && "session_id"@.len() == 10);
            text_map::law_remove_then_get(all, "id"@, "command"@);
            text_map::law_remove_then_get(all, "id"@, "lsp_hints"@);
            text_map::law_remove_then_get(all, "id"@, "session_id"@);
            text_map::law_remove_then_get(no_id, "command"@, "lsp_hints"@);
            text_map::law_remove_then_get(no_id, "command"@, "session_id"@);
            text_map::law_remove_then_get(no_command, "lsp_hints"@, "session_id"@);
        }
        let (id, fields) = take_field(fields, "id");
        let (command, fields) = take_field(fields, "command");
        let (hints, fields) = take_field(fields, "lsp_hints");
        let (session, fields) = take_field(fields, "session_id");
        let id = match id {
            Some(Json::Text(id)) => id,
            _ => {
                return None;
            },
        };
        let command = match command {
            Some(Json::Text(command)) => command,
            _ => {
                return None;
            },
        };
        let lsp_hints = match hints {
            None => None,
            Some(Json::Null) => None,
            Some(hints) => Some(hints),
        };
        let session_id = match session {
            None => None,
            Some(Json::Null) => None,
            Some(Json::Text(session)) => Some(session),
            Some(_) => {
                return None;
            },
        };
        let params = Json::Object(fields);
        assert(params.deep_view()->Object_0 =~= other_fields(all));
        Some(RawRequest { id, command, lsp_hints, session_id, params })
    }
}

/// A response: whom it answers, whether the command succeeded, and its data.
#[derive(Debug, PartialEq, Eq)]
pub struct Response {
    pub id: String,
    pub success: bool,
    pub data: Json,
}

/// The model of [`Response`].
pub struct ResponseView {
    pub id: Seq<char>,
    pub success: bool,
    pub data: JsonView,
}

impl DeepView for Response {
    type V = ResponseView;

    open spec fn deep_view(&self) -> ResponseView {
        ResponseView { id: self.id@, success: self.success, data: self.data.deep_view() }
    }
}

/// The response with an error.
pub open spec fn error_response(id: Seq<char>, code: Seq<char>, message: Seq<char>) -> ResponseView {
    ResponseView { id, success: false, data: error::error_document(code, message) }
}

impl Response {
    /// A response with data.
    pub fn success(id: &str, data: Json) -> (response: Response)
        ensures
            response.deep_view() == (ResponseView {
                id: id@,
                success: true,
                data: data.deep_view(),
            }),
    {
        Response { id: id.to_owned(), success: true, data }
    }

    /// A response with an error.
    pub fn error(id: &str, code: &str, message: String) -> (response: Response)
        ensures
            response.deep_view() == error_response(id@, code@, message@),
    {
        Response { id: id.to_owned(), success: false, data: error_fields(code, message) }
    }

    /// The response as one document: the fields of the data stand beside the id and the
    /// outcome. Data that is no object has no fields.
    pub fn to_document(&self) -> (document: Json)
        ensures
            document.deep_view() == response_document(self.deep_view()),
    {
        let mut fields: Vec<(String, Json)> = Vec::new();
        fields.push(("id".to_owned(), Json::Text(self.id.clone())));
        fields.push(("success".to_owned(), Json::Bool(self.success)));
        proof {
            assert(fields@[0].1.deep_view() == JsonView::Text(self.id@));
            assert(fields@[1].1.deep_view() == JsonView::Bool(self.success));
        }
        let ghost named = fields@;
        let ghost model = self.data.deep_view();
        if let Json::Object(entries) = self.data.copy() {
            let ghost more = entries@;
            proof {
                assert forall|k: int| 0 <= k < more.len() implies (more[k].0@, #[trigger] more[k].1.deep_view())
                    == model->Object_0[k] by {}
            }
            let mut entries = entries;
            fields.append(&mut entries);
            assert(fields@ =~= named + more);
        }
        let document = Json::Object(fields);
        assert(document.deep_view()->Object_0 =~= response_document(self.deep_view())->Object_0);
        document
    }
}

/// A response as one document.
pub open spec fn response_document(response: ResponseView) -> JsonView {
    JsonView::Object(
        seq![
            ("id"@, JsonView::Text(response.id)),
            ("success"@, JsonView::Bool(response.success)),
        ] + (match response.data {
            JsonView::Object(fields) => fields,
            _ => Seq::empty(),
        }),
    )
}

/// A request's named fields are never among its parameters.
pub proof fn law_named_fields_are_no_parameters(fields: Seq<(Seq<char>, JsonView)>)
    ensures
        text_map::map_get(other_fields(fields), "id"@) is None,
        text_map::map_get(other_fields(fields), "command"@) is None,
        text_map::map_get(other_fields(fields), "lsp_hints"@) is None,
        text_map::map_get(other_fields(fields), "session_id"@) is None,
{
    let no_id = text_map::map_remove(fields, "id"@);
    let no_command = text_map::map_remove(no_id, "command"@);
    let no_hints = text_map::map_remove(no_command, "lsp_hints"@);
    text_map::law_remove_then_get(fields, "id"@, "id"@);
    text_map::law_remove_then_get(no_id, "command"@, "id"@);
    text_map::law_remove_then_get(no_command, "lsp_hints"@, "id"@);
    text_map::law_remove_then_get(no_hints, "session_id"@, "id"@);
    text_map::law_remove_then_get(no_id, "command"@, "command"@);
    text_map::law_remove_then_get(no_command, "lsp_hints"@, "command"@);
    text_map::law_remove_then_get(no_hints, "session_id"@, "command"@);
    text_map::law_remove_then_get(no_command, "lsp_hints"@, "lsp_hints"@);
    text_map::law_remove_then_get(no_hints, "session_id"@, "lsp_hints"@);
    text_map::law_remove_then_get(no_hints, "session_id"@, "session_id"@);
}

/// A parameter that is no named field stands among the parameters with its value.
pub proof fn law_other_fields_are_parameters(fields: Seq<(Seq<char>, JsonView)>, key: Seq<char>)
    requires
        key != "id"@,
        key != "command"@,
        key != "lsp_hints"@,
        key != "session_id"@,
    ensures
        text_map::map_get(other_fields(fields), key) == text_map::map_get(fields, key),
{
    let no_id = text_map::map_remove(fields, "id"@);
    let no_command = text_map::map_remove(no_id, "command"@);
    let no_hints = text_map::map_remove(no_command, "lsp_hints"@);
    text_map::law_remove_then_get(fields, "id"@, key);
    text_map::law_remove_then_get(no_id, "command"@, key);
    text_map::law_remove_then_get(no_command, "lsp_hints"@, key);
    text_map::law_remove_then_get(no_hints, "session_id"@, key);
}

/// A document is a request exactly where it is an object whose identifier and command are texts and
/// whose session, where there is one, is a text. The request is made of those fields; a field that
/// is null counts as missing.
pub proof fn law_request_is_made_of_its_fields(fields: Seq<(Seq<char>, JsonView)>, other: JsonView)
    ensures
        ({
            let id = text_map::map_get(fields, "id"@);
            let command = text_map::map_get(fields, "command"@);
            let session = text_map::map_get(fields, "session_id"@);
            let hints = text_map::map_get(fields, "lsp_hints"@);
            let request = request_of(JsonView::Object(fields));
            &&& request is Some <==> {
                &&& id is Some && id->0 is Text
                &&& command is Some && command->0 is Text
                &&& session is Some ==> session->0 is Text || session->0 is Null
            }
            &&& request matches Some(made) ==> {
                &&& id == Some(JsonView::Text(made.id))
                &&& command == Some(JsonView::Text(made.command))
                &&& made.session_id matches Some(text) ==> session == Some(JsonView::Text(text))
                &&& made.session_id is None ==> session is None || session->0 is Null
                &&& made.lsp_hints is Some ==> made.lsp_hints == hints && !(hints->0 is Null)
                &&& made.lsp_hints is None ==> hints is None || hints->0 is Null
                &&& made.params == JsonView::Object(other_fields(fields))
            }
        }),
        !(other is Object) ==> request_of(other) is None,
{
}

/// A response carries its identifier, and then whether the request succeeded, in front of its data;
/// data that is no object leaves nothing behind them.
pub proof fn law_response_carries_its_identifier(response: ResponseView)
    ensures
        crate::json::object_value(response_document(response), "id"@) == Some(
            JsonView::Text(response.id),
        ),
        crate::json::object_value(response_document(response), "success"@) == Some(
            JsonView::Bool(response.success),
        ),
        response_document(response) matches JsonView::Object(all) && all.len() >= 2 && all.skip(2)
            == (if response.data is Object {
            response.data->Object_0
        } else {
            Seq::empty()
        }),
{
    reveal_strlit("id");
    reveal_strlit("success");
    assert("id"@.len() != "success"@.len());
    let all = response_document(response)->Object_0;
    assert(all[0] == ("id"@, JsonView::Text(response.id)));
    assert(all[1] == ("success"@, JsonView::Bool(response.success)));
    assert(all.drop_first()[0] == all[1]);
    assert(text_map::map_get(all.drop_first(), "success"@) == Some(
        JsonView::Bool(response.success),
    ));
    let data = if response.data is Object {
        response.data->Object_0
    } else {
        Seq::empty()
    };
    assert(all.skip(2) =~= data);
}

/// A refusal answers the request that it refuses, fails, and tells the code and the message.
pub proof fn law_refusal_answers_its_request(id: Seq<char>, code: Seq<char>, message: Seq<char>)
    ensures
        error_response(id, code, message).id == id,
        !error_response(id, code, message).success,
        crate::json::object_value(error_response(id, code, message).data, "code"@) == Some(
            JsonView::Text(code),
        ),
        crate::json::object_value(error_response(id, code, message).data, "message"@) == Some(
            JsonView::Text(message),
        ),
{
    error::law_error_document_tells_code_and_message(code, message);
}

} // verus!
