//! The envelope that travels over a connection: a JSON object with a type, a
//! payload and a correlation id.

use crate::json::{
    json_of, json_parse, json_text, member, parse_value, value_from_str, value_get,
    value_to_text, Json,
};
use crate::session::{read_string, string_member};
use vstd::prelude::*;
use vstd::string::*;

verus! {

/// One message of the protocol. `id` is chosen by whoever sends a request and
/// is repeated in the answer to it.
#[derive(Debug, Clone)]
pub struct WsMessage {
    pub msg_type: String,
    pub payload: serde_json::Value,
    pub id: String,
}

/// Mathematical value of a [`WsMessage`].
pub struct WsMessageView {
    pub msg_type: Seq<char>,
    pub payload: Json,
    pub id: Seq<char>,
}

impl View for WsMessage {
    type V = WsMessageView;

    open spec fn view(&self) -> WsMessageView {
        WsMessageView { msg_type: self.msg_type@, payload: json_of(self.payload), id: self.id@ }
    }
}

/// What a message asks for, by its type.
#[derive(Debug, Clone, Copy, PartialEq, Eq, Structural)]
pub enum MessageKind {
    /// `hello`: the session registers.
    Hello,
    /// `stateChanged`: the session reports its status.
    StateChanged,
    /// `state`, `result`, `error` or `pong`: an answer to an earlier request.
    Response,
    /// `simulateEnter`: the session asks for the submit shortcut to be pressed.
    SimulateEnter,
    /// Any other type.
    Unknown,
}

/// The kind that a type name stands for.
pub open spec fn kind_of(msg_type: Seq<char>) -> MessageKind {
    if msg_type == "hello"@ {
        MessageKind::Hello
    } else if msg_type == "stateChanged"@ {
        MessageKind::StateChanged
    } else if msg_type == "state"@ || msg_type == "result"@ || msg_type == "error"@ || msg_type
        == "pong"@ {
        MessageKind::Response
    } else if msg_type == "simulateEnter"@ {
        MessageKind::SimulateEnter
    } else {
        MessageKind::Unknown
    }
}

/// The envelope that a JSON document carries: an object whose `type` and `id`
/// are strings and which has a member `payload`, of any shape.
pub open spec fn envelope_of(doc: Json) -> Option<WsMessageView> {
    match (string_member(doc, "type"@), member(doc, "payload"@), string_member(doc, "id"@)) {
        (Some(msg_type), Some(payload), Some(id)) => Some(WsMessageView { msg_type, payload, id }),
        _ => None,
    }
}

/// The envelope that a frame of text carries, if it carries one.
pub open spec fn envelope_of_text(text: Seq<char>) -> Option<WsMessageView> {
    match json_parse(text) {
        Some(doc) => envelope_of(doc),
        None => None,
    }
}

/// The text of an envelope on the wire: its three members in the order type,
/// payload, id, without white space. `None` where a part cannot be printed.
pub open spec fn envelope_text(msg: WsMessageView) -> Option<Seq<char>> {
    match (json_text(Json::String(msg.msg_type)), json_text(msg.payload), json_text(
        Json::String(msg.id),
    )) {
        (Some(t), Some(p), Some(i)) => Some(
            "{\"type\":"@ + t + ",\"payload\":"@ + p + ",\"id\":"@ + i + "}"@,
        ),
        _ => None,
    }
}

/// The workspace label that a `simulateEnter` payload names: its string member
/// `workspaceName`, or the empty text where there is none.
pub open spec fn label_of(payload: Json) -> Seq<char> {
    match string_member(payload, "workspaceName"@) {
        Some(label) => label,
        None => Seq::empty(),
    }
}

/// Whether a string holds exactly the given text.
pub(crate) fn text_is(s: &String, text: &str) -> (r: bool)
    ensures
        r == (s@ == text@),
{
    let other = String::from_str(text);
    *s == other
}

impl WsMessage {
    /// Reads an envelope from a parsed JSON document.
    pub fn from_json(doc: &serde_json::Value) -> (r: Option<WsMessage>)
        ensures
            match r {
                Some(msg) => envelope_of(json_of(*doc)) == Some(msg@),
                None => envelope_of(json_of(*doc)).is_none(),
            },
    {
        let msg_type = read_string(doc, "type");
        let id = read_string(doc, "id");
        let payload = value_get(doc, "payload");
        match (msg_type, payload, id) {
            (Some(msg_type), Some(payload), Some(id)) => Some(
                WsMessage { msg_type, payload: payload.clone(), id },
            ),
            _ => None,
        }
    }

    /// Reads an envelope from a frame of text. A frame that is not JSON, or
    /// lacks a member, or has one of the wrong shape, gives `None`.
    pub fn parse(text: &str) -> (r: Option<WsMessage>)
        ensures
            match r {
                Some(msg) => envelope_of_text(text@) == Some(msg@),
                None => envelope_of_text(text@).is_none(),
            },
    {
        match parse_value(text) {
            Some(doc) => WsMessage::from_json(&doc),
            None => None,
        }
    }

    /// What this message asks for.
    pub fn kind(&self) -> (r: MessageKind)
        ensures
            r == kind_of(self@.msg_type),
    {
        if text_is(&self.msg_type, "hello") {
            MessageKind::Hello
        } else if text_is(&self.msg_type, "stateChanged") {
            MessageKind::StateChanged
        } else if text_is(&self.msg_type, "state") || text_is(&self.msg_type, "result") || text_is(
            &self.msg_type,
            "error",
        ) || text_is(&self.msg_type, "pong") {
            MessageKind::Response
        } else if text_is(&self.msg_type, "simulateEnter") {
            MessageKind::SimulateEnter
        } else {
            MessageKind::Unknown
        }
    }

    /// The workspace label that the payload names, empty where it names none.
    pub fn workspace_label(&self) -> (r: String)
        ensures
            r@ == label_of(self@.payload),
    {
        match read_string(&self.payload, "workspaceName") {
            Some(label) => label,
            None => String::new(),
        }
    }

    /// Joins the printed parts of an envelope into its text on the wire.
    pub fn frame(msg_type: &str, payload: &str, id: &str) -> (r: String)
        ensures
            r@ == "{\"type\":"@ + msg_type@ + ",\"payload\":"@ + payload@ + ",\"id\":"@ + id@
                + "}"@,
    {
        let mut out = String::from_str("{\"type\":");
        out.append(msg_type);
        out.append(",\"payload\":");
        out.append(payload);
        out.append(",\"id\":");
        out.append(id);
        out.append("}");
        out
    }

    /// The text of this envelope on the wire.
    pub fn to_text(&self) -> (r: Option<String>)
        ensures
            match r {
                Some(text) => envelope_text(self@) == Some(text@),
                None => envelope_text(self@).is_none(),
            },
    {
        let msg_type = value_to_text(&value_from_str(self.msg_type.as_str()));
        let payload = value_to_text(&self.payload);
        let id = value_to_text(&value_from_str(self.id.as_str()));
        match (msg_type, payload, id) {
            (Some(t), Some(p), Some(i)) => Some(WsMessage::frame(t.as_str(), p.as_str(), i.as_str())),
            _ => None,
        }
    }
}

} // verus!
