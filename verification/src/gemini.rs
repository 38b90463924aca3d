//! The envelope of the model's service: the request that carries a
//! transcript, and the completion inside a response.

use vstd::prelude::*;
use crate::agent::{entries, Role};
use crate::json::{json_reading, members, read_json, trees, JsonTree, JsonValue};
use crate::text::owned;

verus! {

/// Why a response of the service gave no completion.
#[derive(Debug, Clone, Copy, PartialEq, Eq, Structural)]
pub enum GatewayError {
    /// The response is not JSON.
    NotJson,
    /// The response is JSON of another shape than a completion has.
    UnexpectedFormat,
}

/// The client's side of the service: it holds the key.
#[derive(Debug, Clone, PartialEq, Eq)]
pub struct GeminiClient {
    api_key: String,
}

/// The name under which the service knows a role.
pub open spec fn role_name(role: Role) -> Seq<char> {
    match role {
        Role::User => "user"@,
        Role::Model => "model"@,
    }
}

/// The part of a request that carries one text.
pub open spec fn text_part(text: Seq<char>) -> JsonTree {
    JsonTree::Object(seq![("text"@, JsonTree::Text(text))])
}

/// The part of a request that carries one entry of the transcript.
pub open spec fn content_of(entry: (Role, Seq<char>)) -> JsonTree {
    JsonTree::Object(
        seq![
            ("role"@, JsonTree::Text(role_name(entry.0))),
            ("parts"@, JsonTree::Array(seq![text_part(entry.1)])),
        ],
    )
}

/// The request that asks for a JSON completion of a transcript under an
/// instruction.
pub open spec fn request_tree(transcript: Seq<(Role, Seq<char>)>, instruction: Seq<char>) -> JsonTree {
    JsonTree::Object(
        seq![
            (
                "generationConfig"@,
                JsonTree::Object(
                    seq![("responseMimeType"@, JsonTree::Text("application/json"@))],
                ),
            ),
            (
                "system_instruction"@,
                JsonTree::Object(seq![("parts"@, JsonTree::Array(seq![text_part(instruction)]))]),
            ),
            (
                "contents"@,
                JsonTree::Array(transcript.map_values(|e: (Role, Seq<char>)| content_of(e))),
            ),
        ],
    )
}

/// The value that a step along a path leads to, if the step can be taken.
pub open spec fn under(of: Option<JsonTree>, key: Seq<char>) -> Option<JsonTree> {
    match of {
        Some(tree) => tree.get(key),
        None => None,
    }
}

/// The first element of an array that a path has led to.
pub open spec fn first_of(of: Option<JsonTree>) -> Option<JsonTree> {
    match of {
        Some(tree) => tree.at(0),
        None => None,
    }
}

/// The completion inside a response: the text of the first part of the
/// content of the first candidate, where the response has all of that.
pub open spec fn completion_in(response: JsonTree) -> Option<Seq<char>> {
    match under(
        first_of(under(under(first_of(response.get("candidates"@)), "content"@), "parts"@)),
        "text"@,
    ) {
        Some(tree) => tree.as_text(),
        None => None,
    }
}

/// The completion that the body of a response holds.
pub open spec fn completion_of(body: Seq<char>) -> Result<Seq<char>, GatewayError> {
    match json_reading(body) {
        None => Err(GatewayError::NotJson),
        Some(response) => match completion_in(response) {
            Some(text) => Ok(text),
            None => Err(GatewayError::UnexpectedFormat),
        },
    }
}

/// What the outcome of reading a completion stands for.
pub open spec fn completion_outcome(r: Result<String, GatewayError>) -> Result<
    Seq<char>,
    GatewayError,
> {
    match r {
        Ok(text) => Ok(text@),
        Err(e) => Err(e),
    }
}

/// The part of a request that carries one text.
fn part(text: &str) -> (r: JsonValue)
    ensures
        r@ == text_part(text@),
{
    JsonValue::object_of("text", JsonValue::text(text))
}

impl GeminiClient {
    /// The key that this client holds, as a text.
    pub closed spec fn key(&self) -> Seq<char> {
        self.api_key@
    }

    /// A client that holds the key.
    pub fn new(api_key: String) -> (r: Self)
        ensures
            r.key() == api_key@,
    {
        Self { api_key }
    }

    /// The key that goes with every request.
    pub fn api_key(&self) -> (r: &str)
        ensures
            r@ == self.key(),
    {
        self.api_key.as_str()
    }

    /// The address that requests go to.
    pub fn endpoint() -> (r: &'static str)
        ensures
            r@ == "https://generativelanguage.googleapis.com/v1beta/models/gemini-2.0-flash:generateContent"@,
    {
        "https://generativelanguage.googleapis.com/v1beta/models/gemini-2.0-flash:generateContent"
    }

    /// The request that asks for the completion of a transcript.
    pub fn request_body(messages: &Vec<(Role, String)>, system_prompt: &str) -> (r: JsonValue)
        ensures
            r@ == request_tree(entries(messages@), system_prompt@),
    {
        let mut contents: Vec<JsonValue> = Vec::new();
        let mut i: usize = 0;
        while i < messages.len()
            invariant
                i <= messages.len(),
                contents.len() == i,
                forall|j: int|
                    0 <= j < i ==> (#[trigger] contents@[j])@ == content_of(entries(messages@)[j]),
            decreases messages.len() - i,
        {
            let mut fields: Vec<(String, JsonValue)> = Vec::new();
            fields.push((owned("role"), JsonValue::text(messages[i].0.as_str())));
            fields.push(
                (owned("parts"), JsonValue::array_of(part(messages[i].1.as_str()))),
            );
            assert(members(fields@) =~= seq![
                ("role"@, JsonTree::Text(role_name(messages@[i as int].0))),
                ("parts"@, JsonTree::Array(seq![text_part(messages@[i as int].1@)])),
            ]);
            contents.push(JsonValue::Object(fields));
            i += 1;
        }
        assert(trees(contents@) =~= entries(messages@).map_values(
            |e: (Role, Seq<char>)| content_of(e),
        ));
        let mut fields: Vec<(String, JsonValue)> = Vec::new();
        fields.push(
            (
                owned("generationConfig"),
                JsonValue::object_of("responseMimeType", JsonValue::text("application/json")),
            ),
        );
        fields.push(
            (
                owned("system_instruction"),
                JsonValue::object_of("parts", JsonValue::array_of(part(system_prompt))),
            ),
        );
        fields.push((owned("contents"), JsonValue::Array(contents)));
        proof {
            let want = request_tree(entries(messages@), system_prompt@);
            assert(want matches JsonTree::Object(fs) && fs =~= members(fields@));
        }
        JsonValue::Object(fields)
    }

    /// The completion inside a response.
    pub fn completion(response: &JsonValue) -> (r: Option<String>)
        ensures
            match r {
                Some(text) => completion_in(response@) == Some(text@),
                None => completion_in(response@) is None,
            },
    {
        let candidates = match response.get("candidates") {
            Some(v) => v,
            None => { return None; },
        };
        let first = match candidates.at(0) {
            Some(v) => v,
            None => { return None; },
        };
        let content = match first.get("content") {
            Some(v) => v,
            None => { return None; },
        };
        let parts = match content.get("parts") {
            Some(v) => v,
            None => { return None; },
        };
        let part = match parts.at(0) {
            Some(v) => v,
            None => { return None; },
        };
        let text = match part.get("text") {
            Some(v) => v,
            None => { return None; },
        };
        match text.as_text() {
            Some(s) => Some(owned(s)),
            None => None,
        }
    }

    /// Reads the completion from the body of a response.
    pub fn read_completion(body: &str) -> (r: Result<String, GatewayError>)
        ensures
            completion_outcome(r) == completion_of(body@),
    {
        match read_json(body) {
            None => Err(GatewayError::NotJson),
            Some(response) => match GeminiClient::completion(&response) {
                Some(text) => Ok(text),
                None => Err(GatewayError::UnexpectedFormat),
            },
        }
    }
}

} // verus!
