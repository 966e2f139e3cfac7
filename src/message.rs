use vstd::prelude::*;
use vstd::string::*;
use crate::dispatch::DispatchEvent;
use crate::ids::{is_request_id, new_request_id};
use crate::json::{json_string_of, json_text_of, quoted, value_text};

verus! {

/// The text of the outbound frame `{"id":<id>,"method":<method>,"params":<params>}`,
/// with `id` and `method` written as JSON strings and `params` as given.
pub open spec fn frame_text(id: Seq<char>, method: Seq<char>, params: Seq<char>) -> Seq<char> {
    "{\"id\":"@ + json_string_of(id) + ",\"method\":"@ + json_string_of(method) + ",\"params\":"@
        + params + "}"@
}

/// The text of the frame that asks for `method` with the JSON text
/// `params_json` as its parameters, under the correlation id `id`.
pub fn request_frame(id: &str, method: &str, params_json: &str) -> (r: Result<String, serde_json::Error>)
    ensures
        r is Ok,
        r->Ok_0@ == frame_text(id@, method@, params_json@),
{
    let id_text = quoted(id)?;
    let method_text = quoted(method)?;
    let mut out = String::from_str("{\"id\":");
    out.append(id_text.as_str());
    out.append(",\"method\":");
    out.append(method_text.as_str());
    out.append(",\"params\":");
    out.append(params_json);
    out.append("}");
    Ok(out)
}

/// An outbound call: its correlation id, the remote method and its parameters.
#[derive(Debug)]
pub struct SurrealMessage {
    pub id: String,
    pub method: String,
    pub params: serde_json::Value,
}

impl SurrealMessage {
    /// A call of `method` with `params` under a fresh correlation id.
    pub fn new(method: &str, params: serde_json::Value) -> (r: Self)
        ensures
            is_request_id(r.id@),
            r.method@ == method@,
            r.params == params,
    {
        SurrealMessage { id: new_request_id(), method: method.to_owned(), params }
    }

    /// The text of the frame that carries this call.
    pub fn to_frame(&self) -> (r: Result<String, serde_json::Error>)
        ensures
            r is Ok,
            r->Ok_0@ == frame_text(self.id@, self.method@, json_text_of(self.params)),
    {
        let params_json = value_text(&self.params);
        request_frame(self.id.as_str(), self.method.as_str(), params_json.as_str())
    }
}

/// A call ready to go out: the registration to hand to the dispatcher, and the
/// frame to write once that hand-off is done, both under the same fresh id.
#[derive(Debug)]
pub struct OutboundCall<H> {
    pub id: String,
    pub registration: DispatchEvent<H>,
    pub frame: String,
}

/// Prepares a call of `method` with `params` whose reply is awaited through
/// `handle`. Encoding comes first, so that nothing is registered for a call
/// that cannot be sent.
pub fn prepare_call<H>(method: &str, params: serde_json::Value, handle: H) -> (r: Result<OutboundCall<H>, serde_json::Error>)
    ensures
        r is Ok,
        r matches Ok(call) && is_request_id(call.id@) && call.registration == (DispatchEvent::Registration {
            id: call.id,
            handle,
        }) && call.frame@ == frame_text(call.id@, method@, json_text_of(params)),
{
    let message = SurrealMessage::new(method, params);
    let frame = message.to_frame()?;
    let id = message.id.clone();
    Ok(OutboundCall { id, registration: DispatchEvent::Registration { id: message.id, handle }, frame })
}

} // verus!
