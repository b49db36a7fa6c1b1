//! The messages of the realtime channel: the notification broadcast to every
//! connection, and the action envelope a client sends in.

use crate::document::{
    encode_document, error_text, json_string, object_json, parse_document,
    parsed_object, remove_member, set_text_member, text_at, text_member, view_of, without,
    Document, DocumentView,
};
use crate::text::same_text;
use vstd::prelude::*;
use vstd::string::StringExecFns;

verus! {

/// A change notification as contracts see it.
pub struct NotificationView {
    pub kind: Seq<char>,
    pub payload: DocumentView,
}

/// A change notification: the kind of change and the data that goes with it.
#[derive(Debug, Clone, PartialEq)]
pub struct BroadcastMessage {
    /// The tag that names entity and operation, such as `block_updated`.
    pub kind: String,
    /// The fields sent along, merged beside the tag on the wire.
    pub data: Document,
}

impl View for BroadcastMessage {
    type V = NotificationView;

    open spec fn view(&self) -> NotificationView {
        NotificationView { kind: self.kind@, payload: view_of(self.data) }
    }
}

/// Why a message could not be put on the wire.
#[derive(Debug, Clone, Copy, PartialEq, Eq, Structural)]
pub enum EncodeError {
    /// The JSON encoder refused the document.
    Rejected,
}

/// The members of the object that goes on the wire for a notification: the
/// payload's members, with `type` set to the kind. A payload member named
/// `type` gives way to the kind.
pub open spec fn wire_members(n: NotificationView) -> Map<Seq<char>, Seq<char>> {
    n.payload.members.insert("type"@, json_string(n.kind))
}

/// The bytes that go on the wire for a notification, where the encoder
/// gives any.
pub open spec fn wire_form(n: NotificationView) -> Option<Seq<u8>> {
    object_json(wire_members(n))
}

/// What the encoder's answer becomes: its bytes, or `Rejected`.
pub fn encoded(answer: Result<Vec<u8>, serde_json::Error>) -> (bytes: Result<Vec<u8>, EncodeError>)
    ensures
        match answer {
            Ok(b) => bytes == Ok::<Vec<u8>, EncodeError>(b),
            Err(_) => bytes == Err::<Vec<u8>, EncodeError>(EncodeError::Rejected),
        },
{
    match answer {
        Ok(b) => Ok(b),
        Err(_) => Err(EncodeError::Rejected),
    }
}

impl BroadcastMessage {
    /// A notification of the given kind with the given data.
    pub fn _new(message_type: &str, data: Document) -> (message: BroadcastMessage)
        ensures
            message@.kind == message_type@,
            message@.payload == view_of(data),
    {
        BroadcastMessage { kind: String::from_str(message_type), data }
    }

    /// The wire form of the notification: one JSON object that holds the
    /// payload's fields and the kind under `type`. The bytes are those of
    /// `wire_form`; where the encoder gives none, the notification is
    /// `Rejected`.
    pub fn encode(&self) -> (bytes: Result<Vec<u8>, EncodeError>)
        ensures
            match wire_form(self@) {
                Some(wire) => bytes matches Ok(b) && b@ == wire,
                None => bytes matches Err(EncodeError::Rejected),
            },
    {
        let mut envelope = self.data.clone();
        set_text_member(&mut envelope, "type", self.kind.as_str());
        encoded(encode_document(&envelope))
    }
}

/// An action envelope as contracts see it.
pub struct EnvelopeView {
    pub action: Seq<char>,
    pub data: DocumentView,
}

/// A message from a client: the action asked for, and every other field of
/// the JSON object it came in.
#[derive(Debug, Clone, PartialEq)]
pub struct WebSocketMessage {
    /// The name of the operation asked for.
    pub action: String,
    /// The fields beside `action`.
    pub data: Document,
}

impl View for WebSocketMessage {
    type V = EnvelopeView;

    open spec fn view(&self) -> EnvelopeView {
        EnvelopeView { action: self.action@, data: view_of(self.data) }
    }
}

/// Why bytes from a client are no action envelope.
#[derive(Debug, Clone, PartialEq, Eq)]
pub enum DecodeError {
    /// The bytes are not the text of one JSON object; the parser's message.
    Malformed(String),
    /// The object has no member `action` that is a string.
    MissingAction,
}

/// The envelope that a JSON object stands for: `action` names the operation,
/// the other members are its data. `None` where `action` is missing or is no
/// string.
pub open spec fn envelope_of(doc: DocumentView) -> Option<EnvelopeView> {
    match text_at(doc, "action"@) {
        Some(action) => Some(EnvelopeView { action, data: without(doc, "action"@) }),
        None => None,
    }
}

/// The envelope that bytes stand for, where they stand for one.
pub open spec fn envelope_in(bytes: Seq<u8>) -> Option<EnvelopeView> {
    match parsed_object(bytes) {
        Some((members, texts)) => envelope_of(DocumentView { members, texts }),
        None => None,
    }
}

impl WebSocketMessage {
    /// Reads an envelope out of a JSON object: succeeds exactly when the
    /// object has a string member `action`, which is then taken out of the
    /// data.
    pub fn from_document(doc: Document) -> (message: Result<WebSocketMessage, DecodeError>)
        ensures
            match envelope_of(view_of(doc)) {
                Some(e) => message matches Ok(m) && m@ == e,
                None => message == Err::<WebSocketMessage, DecodeError>(DecodeError::MissingAction),
            },
    {
        match text_member(&doc, "action") {
            Some(action) => {
                let mut data = doc;
                remove_member(&mut data, "action");
                Ok(WebSocketMessage { action, data })
            },
            None => Err(DecodeError::MissingAction),
        }
    }

    /// What the parser's answer becomes: the envelope in the document it
    /// gave, or the reason there is none.
    pub fn from_parsed(answer: Result<Document, serde_json::Error>) -> (message: Result<
        WebSocketMessage,
        DecodeError,
    >)
        ensures
            match answer {
                Ok(doc) => match envelope_of(view_of(doc)) {
                    Some(e) => message matches Ok(m) && m@ == e,
                    None => message == Err::<WebSocketMessage, DecodeError>(
                        DecodeError::MissingAction,
                    ),
                },
                Err(_) => message matches Err(DecodeError::Malformed(_)),
            },
    {
        match answer {
            Ok(doc) => WebSocketMessage::from_document(doc),
            Err(e) => Err(DecodeError::Malformed(error_text(&e))),
        }
    }

    /// Decodes the bytes of a client message. There is an envelope exactly
    /// when the bytes are the text of a JSON object with a string member
    /// `action`.
    pub fn parse(body: &[u8]) -> (message: Result<WebSocketMessage, DecodeError>)
        ensures
            match envelope_in(body@) {
                Some(e) => message matches Ok(m) && m@ == e,
                None => message is Err,
            },
            parsed_object(body@) is None <==> message matches Err(DecodeError::Malformed(_)),
    {
        WebSocketMessage::from_parsed(parse_document(body))
    }
}

/// The operations a client can name in an envelope.
#[derive(Debug, Clone, Copy, PartialEq, Eq, Structural)]
pub enum WebSocketAction {
    CreateProject,
    UpdateProject,
    DeleteProject,
    CreateBlock,
    UpdateBlock,
    DeleteBlock,
    CreateImage,
    UpdateImage,
    DeleteImage,
    CreateAnnotation,
    UpdateAnnotation,
    DeleteAnnotation,
    BatchCreateAnnotations,
    CreateClass,
    UpdateClass,
    DeleteClass,
}

/// The name of an action on the wire.
pub open spec fn action_name(action: WebSocketAction) -> Seq<char> {
    match action {
        WebSocketAction::CreateProject => "create_project"@,
        WebSocketAction::UpdateProject => "update_project"@,
        WebSocketAction::DeleteProject => "delete_project"@,
        WebSocketAction::CreateBlock => "create_block"@,
        WebSocketAction::UpdateBlock => "update_block"@,
        WebSocketAction::DeleteBlock => "delete_block"@,
        WebSocketAction::CreateImage => "create_image"@,
        WebSocketAction::UpdateImage => "update_image"@,
        WebSocketAction::DeleteImage => "delete_image"@,
        WebSocketAction::CreateAnnotation => "create_annotation"@,
        WebSocketAction::UpdateAnnotation => "update_annotation"@,
        WebSocketAction::DeleteAnnotation => "delete_annotation"@,
        WebSocketAction::BatchCreateAnnotations => "batch_create_annotations"@,
        WebSocketAction::CreateClass => "create_class"@,
        WebSocketAction::UpdateClass => "update_class"@,
        WebSocketAction::DeleteClass => "delete_class"@,
    }
}

/// The action that a name on the wire stands for.
pub open spec fn action_named(name: Seq<char>) -> Option<WebSocketAction> {
    if name == "create_project"@ {
        Some(WebSocketAction::CreateProject)
    } else if name == "update_project"@ {
        Some(WebSocketAction::UpdateProject)
    } else if name == "delete_project"@ {
        Some(WebSocketAction::DeleteProject)
    } else if name == "create_block"@ {
        Some(WebSocketAction::CreateBlock)
    } else if name == "update_block"@ {
        Some(WebSocketAction::UpdateBlock)
    } else if name == "delete_block"@ {
        Some(WebSocketAction::DeleteBlock)
    } else if name == "create_image"@ {
        Some(WebSocketAction::CreateImage)
    } else if name == "update_image"@ {
        Some(WebSocketAction::UpdateImage)
    } else if name == "delete_image"@ {
        Some(WebSocketAction::DeleteImage)
    } else if name == "create_annotation"@ {
        Some(WebSocketAction::CreateAnnotation)
    } else if name == "update_annotation"@ {
        Some(WebSocketAction::UpdateAnnotation)
    } else if name == "delete_annotation"@ {
        Some(WebSocketAction::DeleteAnnotation)
    } else if name == "batch_create_annotations"@ {
        Some(WebSocketAction::BatchCreateAnnotations)
    } else if name == "create_class"@ {
        Some(WebSocketAction::CreateClass)
    } else if name == "update_class"@ {
        Some(WebSocketAction::UpdateClass)
    } else if name == "delete_class"@ {
        Some(WebSocketAction::DeleteClass)
    } else {
        None
    }
}

impl WebSocketAction {
    /// The name of the action on the wire.
    pub fn name(&self) -> (name: String)
        ensures
            name@ == action_name(*self),
    {
        let name = match self {
            WebSocketAction::CreateProject => "create_project",
            WebSocketAction::UpdateProject => "update_project",
            WebSocketAction::DeleteProject => "delete_project",
            WebSocketAction::CreateBlock => "create_block",
            WebSocketAction::UpdateBlock => "update_block",
            WebSocketAction::DeleteBlock => "delete_block",
            WebSocketAction::CreateImage => "create_image",
            WebSocketAction::UpdateImage => "update_image",
            WebSocketAction::DeleteImage => "delete_image",
            WebSocketAction::CreateAnnotation => "create_annotation",
            WebSocketAction::UpdateAnnotation => "update_annotation",
            WebSocketAction::DeleteAnnotation => "delete_annotation",
            WebSocketAction::BatchCreateAnnotations => "batch_create_annotations",
            WebSocketAction::CreateClass => "create_class",
            WebSocketAction::UpdateClass => "update_class",
            WebSocketAction::DeleteClass => "delete_class",
        };
        String::from_str(name)
    }

    /// Reads an action out of its name on the wire.
    pub fn from_name(name: &str) -> (action: Option<WebSocketAction>)
        ensures
            action == action_named(name@),
    {
        if same_text(name, "create_project") {
            Some(WebSocketAction::CreateProject)
        } else if same_text(name, "update_project") {
            Some(WebSocketAction::UpdateProject)
        } else if same_text(name, "delete_project") {
            Some(WebSocketAction::DeleteProject)
        } else if same_text(name, "create_block") {
            Some(WebSocketAction::CreateBlock)
        } else if same_text(name, "update_block") {
            Some(WebSocketAction::UpdateBlock)
        } else if same_text(name, "delete_block") {
            Some(WebSocketAction::DeleteBlock)
        } else if same_text(name, "create_image") {
            Some(WebSocketAction::CreateImage)
        } else if same_text(name, "update_image") {
            Some(WebSocketAction::UpdateImage)
        } else if same_text(name, "delete_image") {
            Some(WebSocketAction::DeleteImage)
        } else if same_text(name, "create_annotation") {
            Some(WebSocketAction::CreateAnnotation)
        } else if same_text(name, "update_annotation") {
            Some(WebSocketAction::UpdateAnnotation)
        } else if same_text(name, "delete_annotation") {
            Some(WebSocketAction::DeleteAnnotation)
        } else if same_text(name, "batch_create_annotations") {
            Some(WebSocketAction::BatchCreateAnnotations)
        } else if same_text(name, "create_class") {
            Some(WebSocketAction::CreateClass)
        } else if same_text(name, "update_class") {
            Some(WebSocketAction::UpdateClass)
        } else if same_text(name, "delete_class") {
            Some(WebSocketAction::DeleteClass)
        } else {
            None
        }
    }
}

/// Every action is read back from its own name.
pub proof fn lemma_action_names_round_trip(action: WebSocketAction)
    ensures
        action_named(action_name(action)) == Some(action),
{
    reveal_strlit("create_project");
    reveal_strlit("update_project");
    reveal_strlit("delete_project");
    reveal_strlit("create_block");
    reveal_strlit("update_block");
    reveal_strlit("delete_block");
    reveal_strlit("create_image");
    reveal_strlit("update_image");
    reveal_strlit("delete_image");
    reveal_strlit("create_annotation");
    reveal_strlit("update_annotation");
    reveal_strlit("delete_annotation");
    reveal_strlit("batch_create_annotations");
    reveal_strlit("create_class");
    reveal_strlit("update_class");
    reveal_strlit("delete_class");
    let c = 'c';
    let u = 'u';
    let d = 'd';
    assert("create_project"@[0] == c && "update_project"@[0] == u && "delete_project"@[0] == d);
    assert("create_block"@[0] == c && "update_block"@[0] == u && "delete_block"@[0] == d);
    assert("create_image"@[0] == c && "update_image"@[0] == u && "delete_image"@[0] == d);
    assert("create_class"@[0] == c && "update_class"@[0] == u && "delete_class"@[0] == d);
    assert("create_annotation"@[0] == c && "update_annotation"@[0] == u
        && "delete_annotation"@[0] == d);
    assert("create_block"@[7] == 'b' && "create_image"@[7] == 'i' && "create_class"@[7] == c);
    assert("update_block"@[7] == 'b' && "update_image"@[7] == 'i' && "update_class"@[7] == c);
    assert("delete_block"@[7] == 'b' && "delete_image"@[7] == 'i' && "delete_class"@[7] == c);
    assert("create_project"@.len() == 14 && "update_project"@.len() == 14
        && "delete_project"@.len() == 14);
    assert("create_block"@.len() == 12 && "update_block"@.len() == 12 && "delete_block"@.len()
        == 12);
    assert("create_image"@.len() == 12 && "update_image"@.len() == 12 && "delete_image"@.len()
        == 12);
    assert("create_class"@.len() == 12 && "update_class"@.len() == 12 && "delete_class"@.len()
        == 12);
    assert("create_annotation"@.len() == 17 && "update_annotation"@.len() == 17
        && "delete_annotation"@.len() == 17);
    assert("batch_create_annotations"@.len() == 24);
    match action {
        WebSocketAction::CreateProject => {
            assert(action_named("create_project"@) == Some(action));
        },
        WebSocketAction::UpdateProject => {
            assert(action_named("update_project"@) == Some(action));
        },
        WebSocketAction::DeleteProject => {
            assert(action_named("delete_project"@) == Some(action));
        },
        WebSocketAction::CreateBlock => {
            assert(action_named("create_block"@) == Some(action));
        },
        WebSocketAction::UpdateBlock => {
            assert(action_named("update_block"@) == Some(action));
        },
        WebSocketAction::DeleteBlock => {
            assert(action_named("delete_block"@) == Some(action));
        },
        WebSocketAction::CreateImage => {
            assert(action_named("create_image"@) == Some(action));
        },
        WebSocketAction::UpdateImage => {
            assert(action_named("update_image"@) == Some(action));
        },
        WebSocketAction::DeleteImage => {
            assert(action_named("delete_image"@) == Some(action));
        },
        WebSocketAction::CreateAnnotation => {
            assert(action_named("create_annotation"@) == Some(action));
        },
        WebSocketAction::UpdateAnnotation => {
            assert(action_named("update_annotation"@) == Some(action));
        },
        WebSocketAction::DeleteAnnotation => {
            assert(action_named("delete_annotation"@) == Some(action));
        },
        WebSocketAction::BatchCreateAnnotations => {
            assert(action_named("batch_create_annotations"@) == Some(action));
        },
        WebSocketAction::CreateClass => {
            assert(action_named("create_class"@) == Some(action));
        },
        WebSocketAction::UpdateClass => {
            assert(action_named("update_class"@) == Some(action));
        },
        WebSocketAction::DeleteClass => {
            assert(action_named("delete_class"@) == Some(action));
        },
    }
}

} // verus!
