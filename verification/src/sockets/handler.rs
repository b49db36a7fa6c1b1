//! The session handler's decisions: what each event of the transport asks
//! of the registry or of the store, and what is answered to the client.
//!
//! Nothing here touches the transport or the store. An event goes in, the
//! one action to take comes out; whoever runs the action reports how a
//! registration went, and gets the reply for it.

use crate::document::{
    encode_document, object_json, parsed_object, text_at, text_member, view_of, Document,
    DocumentView,
};
use crate::sockets::connections::{
    applied, registration, registry_key, remove_connection, removal, save_connection,
    lemma_row_round_trip, ConnectionView, StoreWrite, TableView, WriteView,
};
use crate::sockets::messages::{
    action_named, encoded, envelope_in, DecodeError, EncodeError, EnvelopeView, WebSocketAction,
    WebSocketMessage,
};
use crate::text::same_text;
use vstd::prelude::*;
use vstd::string::StringExecFns;

verus! {

/// The events of the transport, by route.
#[derive(Debug, Clone, Copy, PartialEq, Eq, Structural)]
pub enum Route {
    /// A connection is being made.
    Connect,
    /// A connection went away.
    Disconnect,
    /// A message came in on a connection.
    Message,
    /// Anything else.
    Unknown,
}

/// The state of one connection.
#[derive(Debug, Clone, Copy, PartialEq, Eq, Structural)]
pub enum SessionState {
    Disconnected,
    Connected,
}

/// The fields of an envelope's data that an action can need.
#[derive(Debug, Clone, Copy, PartialEq, Eq, Structural)]
pub enum RequiredField {
    ProjectId,
    BlockId,
    ImageId,
    ClassId,
    AnnotationId,
}

/// What is wrong with a client's message.
#[derive(Debug, Clone, PartialEq, Eq)]
pub enum ClientError {
    /// The message is no action envelope; the detail says why.
    InvalidFormat(String),
    /// The action needs a field that the data lacks or holds no string in.
    MissingField(RequiredField),
    /// The action is not one that is carried out.
    UnknownAction(String),
}

/// A client error as contracts see it.
pub enum ClientErrorView {
    InvalidFormat(Seq<char>),
    MissingField(RequiredField),
    UnknownAction(Seq<char>),
}

impl View for ClientError {
    type V = ClientErrorView;

    open spec fn view(&self) -> ClientErrorView {
        match self {
            ClientError::InvalidFormat(detail) => ClientErrorView::InvalidFormat(detail@),
            ClientError::MissingField(field) => ClientErrorView::MissingField(*field),
            ClientError::UnknownAction(action) => ClientErrorView::UnknownAction(action@),
        }
    }
}

/// A mutation to carry out on the store, with what it needs.
#[derive(Debug, Clone, PartialEq, Eq)]
pub struct MutationCall {
    /// The operation.
    pub action: WebSocketAction,
    /// On whose behalf.
    pub user_id: String,
    /// The values of the fields that the action needs, in the order of
    /// `required_fields`.
    pub arguments: Vec<String>,
    /// The data of the envelope, as it came.
    pub data: Document,
    /// The data of the envelope as JSON, for the actions that read it.
    pub body: Option<Vec<u8>>,
}

/// A mutation call as contracts see it.
pub struct CallView {
    pub action: WebSocketAction,
    pub user_id: Seq<char>,
    pub arguments: Seq<Seq<char>>,
    pub data: DocumentView,
    pub body: Option<Seq<u8>>,
}

impl View for MutationCall {
    type V = CallView;

    open spec fn view(&self) -> CallView {
        CallView {
            action: self.action,
            user_id: self.user_id@,
            arguments: self.arguments.deep_view(),
            data: view_of(self.data),
            body: match self.body {
                Some(b) => Some(b@),
                None => None,
            },
        }
    }
}

/// What is answered to the transport.
#[derive(Debug, Clone, PartialEq, Eq)]
pub struct Reply {
    /// The status, as of HTTP.
    pub status: u16,
    /// The body; empty where there is nothing to say.
    pub body: String,
}

/// A reply as contracts see it.
pub struct ReplyView {
    pub status: int,
    pub body: Seq<char>,
}

impl View for Reply {
    type V = ReplyView;

    open spec fn view(&self) -> ReplyView {
        ReplyView { status: self.status as int, body: self.body@ }
    }
}

/// The one thing to do about an event.
#[derive(Debug, Clone, PartialEq, Eq)]
pub enum SessionAction {
    /// Register the connection for the subscriber.
    Register { connection_id: String, user_id: String },
    /// Deregister the connection.
    Deregister { connection_id: String },
    /// Carry out the mutation.
    Mutate(MutationCall),
    /// Answer, and touch neither registry nor store.
    Respond(Reply),
    /// Give the event up as failed: the data could not be encoded.
    Fail(EncodeError),
}

/// A session action as contracts see it.
pub enum ActionView {
    Register { connection_id: Seq<char>, user_id: Seq<char> },
    Deregister { connection_id: Seq<char> },
    Mutate(CallView),
    Respond(ReplyView),
    Fail(EncodeError),
}

impl View for SessionAction {
    type V = ActionView;

    open spec fn view(&self) -> ActionView {
        match self {
            SessionAction::Register { connection_id, user_id } => ActionView::Register {
                connection_id: connection_id@,
                user_id: user_id@,
            },
            SessionAction::Deregister { connection_id } => ActionView::Deregister {
                connection_id: connection_id@,
            },
            SessionAction::Mutate(call) => ActionView::Mutate(call@),
            SessionAction::Respond(reply) => ActionView::Respond(reply@),
            SessionAction::Fail(e) => ActionView::Fail(*e),
        }
    }
}

/// An optional text as contracts see it.
pub open spec fn text_view(text: Option<&str>) -> Option<Seq<char>> {
    match text {
        Some(t) => Some(t@),
        None => None,
    }
}

/// The route that a route key of the transport stands for.
pub open spec fn route_of(route_key: Seq<char>) -> Route {
    if route_key == "$connect"@ {
        Route::Connect
    } else if route_key == "$disconnect"@ {
        Route::Disconnect
    } else if route_key == "$default"@ {
        Route::Message
    } else {
        Route::Unknown
    }
}

/// The route key of an event: what the transport says, or the path of the
/// request where it says nothing.
pub open spec fn route_key_of(header: Option<Seq<char>>, path: Seq<char>) -> Seq<char> {
    match header {
        Some(route_key) => route_key,
        None => path,
    }
}

/// The identifier of the connection: what the transport says, or `unknown`.
pub open spec fn connection_id_of(header: Option<Seq<char>>) -> Seq<char> {
    match header {
        Some(id) => id,
        None => "unknown"@,
    }
}

/// The subscriber on a new connection: the claim of an authenticated token
/// if there is one, else the query parameter, else `anonymous`.
pub open spec fn subscriber_of(claim: Option<Seq<char>>, query: Option<Seq<char>>) -> Seq<char> {
    match claim {
        Some(subject) => subject,
        None => match query {
            Some(user_id) => user_id,
            None => "anonymous"@,
        },
    }
}

/// On whose behalf a message acts: the claim of an authenticated token if
/// there is one, else the string under `user_id` in the data, else the
/// stand-in user.
pub open spec fn actor_of(claim: Option<Seq<char>>, data: DocumentView) -> Seq<char> {
    match claim {
        Some(subject) => subject,
        None => match text_at(data, "user_id"@) {
            Some(user_id) => user_id,
            None => "test-user-123"@,
        },
    }
}

/// The name of a field in an envelope's data.
pub open spec fn field_name(field: RequiredField) -> Seq<char> {
    match field {
        RequiredField::ProjectId => "project_id"@,
        RequiredField::BlockId => "block_id"@,
        RequiredField::ImageId => "image_id"@,
        RequiredField::ClassId => "class_id"@,
        RequiredField::AnnotationId => "annotation_id"@,
    }
}

/// Whether an action is carried out. Creating annotations in a batch has a
/// name but is not.
pub open spec fn is_carried_out(action: WebSocketAction) -> bool {
    action != WebSocketAction::BatchCreateAnnotations
}

/// The fields that an action needs in the data, in the order in which they
/// are looked for.
pub open spec fn required_fields(action: WebSocketAction) -> Seq<RequiredField> {
    match action {
        WebSocketAction::CreateProject => seq![],
        WebSocketAction::UpdateProject => seq![RequiredField::ProjectId],
        WebSocketAction::DeleteProject => seq![RequiredField::ProjectId],
        WebSocketAction::CreateBlock => seq![RequiredField::ProjectId],
        WebSocketAction::UpdateBlock => seq![RequiredField::BlockId],
        WebSocketAction::DeleteBlock => seq![RequiredField::BlockId],
        WebSocketAction::CreateImage => seq![RequiredField::BlockId],
        WebSocketAction::UpdateImage => seq![RequiredField::ImageId],
        WebSocketAction::DeleteImage => seq![RequiredField::ImageId],
        WebSocketAction::CreateAnnotation => seq![
            RequiredField::ImageId,
            RequiredField::ProjectId,
        ],
        WebSocketAction::UpdateAnnotation => seq![
            RequiredField::ImageId,
            RequiredField::AnnotationId,
            RequiredField::ProjectId,
        ],
        WebSocketAction::DeleteAnnotation => seq![
            RequiredField::ImageId,
            RequiredField::AnnotationId,
            RequiredField::ProjectId,
        ],
        WebSocketAction::BatchCreateAnnotations => seq![],
        WebSocketAction::CreateClass => seq![RequiredField::ProjectId],
        WebSocketAction::UpdateClass => seq![RequiredField::ProjectId, RequiredField::ClassId],
        WebSocketAction::DeleteClass => seq![RequiredField::ProjectId, RequiredField::ClassId],
    }
}

/// Whether an action reads the data of the envelope as a whole: creating
/// and updating do, deleting does not.
pub open spec fn carries_body(action: WebSocketAction) -> bool {
    match action {
        WebSocketAction::DeleteProject => false,
        WebSocketAction::DeleteBlock => false,
        WebSocketAction::DeleteImage => false,
        WebSocketAction::DeleteAnnotation => false,
        WebSocketAction::DeleteClass => false,
        _ => true,
    }
}

/// The values of the first `upto` of the fields, or the first of them that
/// the data lacks.
pub open spec fn arguments_upto(data: DocumentView, fields: Seq<RequiredField>, upto: int) -> Result<
    Seq<Seq<char>>,
    RequiredField,
>
    decreases upto,
{
    if upto <= 0 {
        Ok(Seq::empty())
    } else {
        match arguments_upto(data, fields, upto - 1) {
            Err(missing) => Err(missing),
            Ok(values) => match text_at(data, field_name(fields[upto - 1])) {
                Some(value) => Ok(values.push(value)),
                None => Err(fields[upto - 1]),
            },
        }
    }
}

/// The values of the fields in the data, or the first field that it lacks.
pub open spec fn arguments_of(data: DocumentView, fields: Seq<RequiredField>) -> Result<
    Seq<Seq<char>>,
    RequiredField,
> {
    arguments_upto(data, fields, fields.len() as int)
}

/// What an envelope asks for: the call, without its body, or what is wrong
/// with the envelope.
pub open spec fn validated(e: EnvelopeView, claim: Option<Seq<char>>) -> Result<
    CallView,
    ClientErrorView,
> {
    match action_named(e.action) {
        Some(action) => if is_carried_out(action) {
            match arguments_of(e.data, required_fields(action)) {
                Ok(arguments) => Ok(
                    CallView {
                        action,
                        user_id: actor_of(claim, e.data),
                        arguments,
                        data: e.data,
                        body: None,
                    },
                ),
                Err(field) => Err(ClientErrorView::MissingField(field)),
            }
        } else {
            Err(ClientErrorView::UnknownAction(e.action))
        },
        None => Err(ClientErrorView::UnknownAction(e.action)),
    }
}

/// What a client error says.
pub open spec fn error_message(error: ClientErrorView) -> Seq<char> {
    match error {
        ClientErrorView::InvalidFormat(detail) => "Invalid message format: "@ + detail,
        ClientErrorView::MissingField(field) => "Missing "@ + field_name(field),
        ClientErrorView::UnknownAction(action) => "Unknown action: "@ + action,
    }
}

/// The reply that turns a client's message down.
pub open spec fn rejection(error: ClientErrorView) -> ReplyView {
    ReplyView { status: 400, body: "{\"error\": \""@ + error_message(error) + "\"}"@ }
}

/// The reply without a body.
pub open spec fn bare_reply(status: int) -> ReplyView {
    ReplyView { status, body: Seq::empty() }
}

/// What a call that is in order leads to: the mutation, with the data
/// encoded as its body where the action reads one, and failure where the
/// encoder gives no bytes for the data.
pub open spec fn action_for(call: CallView, data: DocumentView) -> ActionView {
    if carries_body(call.action) {
        match object_json(data.members) {
            Some(bytes) => ActionView::Mutate(CallView { body: Some(bytes), ..call }),
            None => ActionView::Fail(EncodeError::Rejected),
        }
    } else {
        ActionView::Mutate(call)
    }
}

/// The detail given for an envelope without an action.
pub open spec fn missing_action_detail() -> Seq<char> {
    "missing field `action`"@
}

/// Finds the route of an event by its route key.
pub fn route_for(route_key: &str) -> (route: Route)
    ensures
        route == route_of(route_key@),
{
    if same_text(route_key, "$connect") {
        Route::Connect
    } else if same_text(route_key, "$disconnect") {
        Route::Disconnect
    } else if same_text(route_key, "$default") {
        Route::Message
    } else {
        Route::Unknown
    }
}

/// The route key of an event.
pub fn resolve_route_key(header: Option<&str>, path: &str) -> (route_key: String)
    ensures
        route_key@ == route_key_of(text_view(header), path@),
{
    match header {
        Some(route_key) => String::from_str(route_key),
        None => String::from_str(path),
    }
}

/// The identifier of the connection that an event is about.
pub fn resolve_connection_id(header: Option<&str>) -> (connection_id: String)
    ensures
        connection_id@ == connection_id_of(text_view(header)),
{
    match header {
        Some(id) => String::from_str(id),
        None => String::from_str("unknown"),
    }
}

/// The subscriber to register a new connection for.
pub fn resolve_subscriber(claim: Option<&str>, query: Option<&str>) -> (user_id: String)
    ensures
        user_id@ == subscriber_of(text_view(claim), text_view(query)),
{
    match claim {
        Some(subject) => String::from_str(subject),
        None => match query {
            Some(user_id) => String::from_str(user_id),
            None => String::from_str("anonymous"),
        },
    }
}

/// The user that a message acts for.
pub fn resolve_actor(claim: Option<&str>, data: &Document) -> (user_id: String)
    ensures
        user_id@ == actor_of(text_view(claim), view_of(*data)),
{
    match claim {
        Some(subject) => String::from_str(subject),
        None => match text_member(data, "user_id") {
            Some(user_id) => user_id,
            None => String::from_str("test-user-123"),
        },
    }
}

impl RequiredField {
    /// The name of the field in an envelope's data.
    pub fn name(&self) -> (name: &'static str)
        ensures
            name@ == field_name(*self),
    {
        match self {
            RequiredField::ProjectId => "project_id",
            RequiredField::BlockId => "block_id",
            RequiredField::ImageId => "image_id",
            RequiredField::ClassId => "class_id",
            RequiredField::AnnotationId => "annotation_id",
        }
    }
}

/// The fields that an action needs, in the order in which they are looked
/// for.
pub fn fields_required(action: WebSocketAction) -> (fields: Vec<RequiredField>)
    ensures
        fields@ == required_fields(action),
{
    let fields = match action {
        WebSocketAction::CreateProject => Vec::new(),
        WebSocketAction::UpdateProject => vec![RequiredField::ProjectId],
        WebSocketAction::DeleteProject => vec![RequiredField::ProjectId],
        WebSocketAction::CreateBlock => vec![RequiredField::ProjectId],
        WebSocketAction::UpdateBlock => vec![RequiredField::BlockId],
        WebSocketAction::DeleteBlock => vec![RequiredField::BlockId],
        WebSocketAction::CreateImage => vec![RequiredField::BlockId],
        WebSocketAction::UpdateImage => vec![RequiredField::ImageId],
        WebSocketAction::DeleteImage => vec![RequiredField::ImageId],
        WebSocketAction::CreateAnnotation => vec![
            RequiredField::ImageId,
            RequiredField::ProjectId,
        ],
        WebSocketAction::UpdateAnnotation => vec![
            RequiredField::ImageId,
            RequiredField::AnnotationId,
            RequiredField::ProjectId,
        ],
        WebSocketAction::DeleteAnnotation => vec![
            RequiredField::ImageId,
            RequiredField::AnnotationId,
            RequiredField::ProjectId,
        ],
        WebSocketAction::BatchCreateAnnotations => Vec::new(),
        WebSocketAction::CreateClass => vec![RequiredField::ProjectId],
        WebSocketAction::UpdateClass => vec![RequiredField::ProjectId, RequiredField::ClassId],
        WebSocketAction::DeleteClass => vec![RequiredField::ProjectId, RequiredField::ClassId],
    };
    assert(fields@ =~= required_fields(action));
    fields
}

/// Whether an action reads the data of the envelope as a whole.
pub fn reads_body(action: WebSocketAction) -> (reads: bool)
    ensures
        reads == carries_body(action),
{
    match action {
        WebSocketAction::DeleteProject => false,
        WebSocketAction::DeleteBlock => false,
        WebSocketAction::DeleteImage => false,
        WebSocketAction::DeleteAnnotation => false,
        WebSocketAction::DeleteClass => false,
        _ => true,
    }
}

/// Collects from the data the values of the fields that an action needs,
/// and names the first that is missing.
pub fn collect_arguments(data: &Document, fields: &Vec<RequiredField>) -> (arguments: Result<
    Vec<String>,
    RequiredField,
>)
    ensures
        match arguments {
            Ok(values) => arguments_of(view_of(*data), fields@) == Ok::<
                Seq<Seq<char>>,
                RequiredField,
            >(values.deep_view()),
            Err(missing) => arguments_of(view_of(*data), fields@) == Err::<
                Seq<Seq<char>>,
                RequiredField,
            >(missing),
        },
{
    let mut values: Vec<String> = Vec::new();
    let mut i: usize = 0;
    assert(values.deep_view() =~= Seq::<Seq<char>>::empty());
    while i < fields.len()
        invariant
            i <= fields.len(),
            arguments_upto(view_of(*data), fields@, i as int) == Ok::<
                Seq<Seq<char>>,
                RequiredField,
            >(values.deep_view()),
        decreases fields.len() - i,
    {
        let ghost before = values.deep_view();
        match text_member(data, fields[i].name()) {
            Some(value) => {
                values.push(value);
                assert(values.deep_view() =~= before.push(value@));
            },
            None => {
                proof {
                    let n = fields.len() as int;
                    lemma_missing_stays_missing(view_of(*data), fields@, i + 1, n);
                }
                return Err(fields[i]);
            },
        }
        i = i + 1;
    }
    Ok(values)
}

/// Once a field is found missing, looking at more fields changes nothing.
pub proof fn lemma_missing_stays_missing(
    data: DocumentView,
    fields: Seq<RequiredField>,
    at: int,
    upto: int,
)
    requires
        0 <= at <= upto,
        arguments_upto(data, fields, at) is Err,
    ensures
        arguments_upto(data, fields, upto) == arguments_upto(data, fields, at),
    decreases upto - at,
{
    if at < upto {
        lemma_missing_stays_missing(data, fields, at, upto - 1);
    }
}

/// Checks an envelope: the action must be one that is carried out, and the
/// data must hold a string for each field that the action needs. The call
/// that comes back has no body yet.
pub fn validate(message: &WebSocketMessage, claim: Option<&str>) -> (call: Result<
    MutationCall,
    ClientError,
>)
    ensures
        match validated(message@, text_view(claim)) {
            Ok(c) => call matches Ok(found) && found@ == c,
            Err(e) => call matches Err(found) && found@ == e,
        },
{
    let action = match WebSocketAction::from_name(message.action.as_str()) {
        Some(action) => action,
        None => {
            return Err(ClientError::UnknownAction(message.action.clone()));
        },
    };
    if let WebSocketAction::BatchCreateAnnotations = action {
        return Err(ClientError::UnknownAction(message.action.clone()));
    }
    let fields = fields_required(action);
    match collect_arguments(&message.data, &fields) {
        Ok(arguments) => Ok(
            MutationCall {
                action,
                user_id: resolve_actor(claim, &message.data),
                arguments,
                data: message.data.clone(),
                body: None,
            },
        ),
        Err(field) => Err(ClientError::MissingField(field)),
    }
}

/// The reply that turns a client's message down: status 400, and a body
/// that holds the message of the error under `error`.
pub fn reject(error: &ClientError) -> (reply: Reply)
    ensures
        reply@ == rejection(error@),
{
    let mut body = String::from_str("{\"error\": \"");
    match error {
        ClientError::InvalidFormat(detail) => {
            body.append("Invalid message format: ");
            body.append(detail.as_str());
        },
        ClientError::MissingField(field) => {
            body.append("Missing ");
            body.append(field.name());
        },
        ClientError::UnknownAction(action) => {
            body.append("Unknown action: ");
            body.append(action.as_str());
        },
    }
    body.append("\"}");
    proof {
        let head = "{\"error\": \""@;
        let tail = "\"}"@;
        match error@ {
            ClientErrorView::InvalidFormat(detail) => {
                assert(head + "Invalid message format: "@ + detail + tail =~= head + (
                "Invalid message format: "@ + detail) + tail);
            },
            ClientErrorView::MissingField(field) => {
                assert(head + "Missing "@ + field_name(field) + tail =~= head + ("Missing "@
                    + field_name(field)) + tail);
            },
            ClientErrorView::UnknownAction(action) => {
                assert(head + "Unknown action: "@ + action + tail =~= head + ("Unknown action: "@
                    + action) + tail);
            },
        }
    }
    Reply { status: 400, body }
}

/// The client error that a failure to decode stands for.
pub fn decode_failure(error: DecodeError) -> (client_error: ClientError)
    ensures
        match error {
            DecodeError::Malformed(detail) => client_error@ == ClientErrorView::InvalidFormat(
                detail@,
            ),
            DecodeError::MissingAction => client_error@ == ClientErrorView::InvalidFormat(
                missing_action_detail(),
            ),
        },
{
    match error {
        DecodeError::Malformed(detail) => ClientError::InvalidFormat(detail),
        DecodeError::MissingAction => ClientError::InvalidFormat(
            String::from_str("missing field `action`"),
        ),
    }
}

/// Completes a call with the encoder's answer for its body: the mutation
/// with the bytes, or failure where the encoder gave none.
pub fn attach_body(call: MutationCall, body: Result<Vec<u8>, EncodeError>) -> (action:
    SessionAction)
    ensures
        match body {
            Ok(bytes) => action@ == ActionView::Mutate(CallView { body: Some(bytes@), ..call@ }),
            Err(e) => action@ == ActionView::Fail(e),
        },
{
    match body {
        Ok(bytes) => SessionAction::Mutate(
            MutationCall {
                action: call.action,
                user_id: call.user_id,
                arguments: call.arguments,
                data: call.data,
                body: Some(bytes),
            },
        ),
        Err(e) => SessionAction::Fail(e),
    }
}

/// Decides what to do about a decoded message: a mutation where the
/// envelope is in order, a reply that turns it down where it is not. A
/// message that is turned down touches neither registry nor store.
pub fn plan_message(message: &WebSocketMessage, claim: Option<&str>) -> (action: SessionAction)
    ensures
        match validated(message@, text_view(claim)) {
            Ok(call) => action@ == action_for(call, message@.data),
            Err(e) => action@ == ActionView::Respond(rejection(e)),
        },
{
    match validate(message, claim) {
        Ok(call) => {
            if reads_body(call.action) {
                let body = encoded(encode_document(&message.data));
                attach_body(call, body)
            } else {
                SessionAction::Mutate(call)
            }
        },
        Err(e) => SessionAction::Respond(reject(&e)),
    }
}

/// What bytes without an envelope are answered with: the rejection for an
/// invalid format. Where the bytes are a JSON object the detail says that
/// the action is missing; where they are not, the detail is the parser's.
pub open spec fn no_envelope_outcome(body: Seq<u8>, action: ActionView) -> bool {
    if parsed_object(body) is Some {
        action == ActionView::Respond(
            rejection(ClientErrorView::InvalidFormat(missing_action_detail())),
        )
    } else {
        exists|detail: Seq<char>|
            action == ActionView::Respond(
                #[trigger] rejection(ClientErrorView::InvalidFormat(detail)),
            )
    }
}

/// Decides what to do about the bytes of a message: the mutation that an
/// envelope in order asks for, or the reply that turns the message down.
pub fn handle_message(body: &[u8], claim: Option<&str>) -> (action: SessionAction)
    ensures
        match envelope_in(body@) {
            Some(e) => match validated(e, text_view(claim)) {
                Ok(call) => action@ == action_for(call, e.data),
                Err(error) => action@ == ActionView::Respond(rejection(error)),
            },
            None => no_envelope_outcome(body@, action@),
        },
{
    match WebSocketMessage::parse(body) {
        Ok(message) => plan_message(&message, claim),
        Err(e) => {
            let error = decode_failure(e);
            let action = SessionAction::Respond(reject(&error));
            proof {
                if let ClientErrorView::InvalidFormat(detail) = error@ {
                    assert(action@ == ActionView::Respond(
                        rejection(ClientErrorView::InvalidFormat(detail)),
                    ));
                }
            }
            action
        },
    }
}

/// Registers the connection for the subscriber that the event names.
pub fn handle_connect(connection_id: &str, claim: Option<&str>, query: Option<&str>) -> (action:
    SessionAction)
    ensures
        action@ == (ActionView::Register {
            connection_id: connection_id@,
            user_id: subscriber_of(text_view(claim), text_view(query)),
        }),
{
    SessionAction::Register {
        connection_id: String::from_str(connection_id),
        user_id: resolve_subscriber(claim, query),
    }
}

/// Deregisters the connection.
pub fn handle_disconnect(connection_id: &str) -> (action: SessionAction)
    ensures
        action@ == (ActionView::Deregister { connection_id: connection_id@ }),
{
    SessionAction::Deregister { connection_id: String::from_str(connection_id) }
}

/// What a transport event amounts to.
pub open spec fn event_outcome(
    route_key: Seq<char>,
    header: Option<Seq<char>>,
    claim: Option<Seq<char>>,
    query: Option<Seq<char>>,
    action: ActionView,
    body: Seq<u8>,
) -> bool {
    match route_of(route_key) {
        Route::Connect => action == (ActionView::Register {
            connection_id: connection_id_of(header),
            user_id: subscriber_of(claim, query),
        }),
        Route::Disconnect => action == (ActionView::Deregister {
            connection_id: connection_id_of(header),
        }),
        Route::Message => match envelope_in(body) {
            Some(e) => match validated(e, claim) {
                Ok(call) => action == action_for(call, e.data),
                Err(error) => action == ActionView::Respond(rejection(error)),
            },
            None => no_envelope_outcome(body, action),
        },
        Route::Unknown => action == ActionView::Respond(bare_reply(400)),
    }
}

/// Decides what to do about an event of the transport, which names its
/// route in a header or, failing that, by the path of the request: register
/// on connect, deregister on disconnect, plan the message on a message, and
/// answer 400 to anything else.
pub fn handle_websocket_event(
    route_header: Option<&str>,
    path: &str,
    connection_header: Option<&str>,
    claim: Option<&str>,
    query_user: Option<&str>,
    body: &[u8],
) -> (action: SessionAction)
    ensures
        event_outcome(
            route_key_of(text_view(route_header), path@),
            text_view(connection_header),
            text_view(claim),
            text_view(query_user),
            action@,
            body@,
        ),
{
    let route_key = resolve_route_key(route_header, path);
    let connection_id = resolve_connection_id(connection_header);
    match route_for(route_key.as_str()) {
        Route::Connect => handle_connect(connection_id.as_str(), claim, query_user),
        Route::Disconnect => handle_disconnect(connection_id.as_str()),
        Route::Message => handle_message(body, claim),
        Route::Unknown => SessionAction::Respond(Reply { status: 400, body: String::new() }),
    }
}

/// The write to the registry that an action asks for: registering puts the
/// connection's row, deregistering deletes it, and nothing else writes.
pub open spec fn registry_write_of(action: ActionView, connected_at: Seq<char>) -> Option<
    WriteView,
> {
    match action {
        ActionView::Register { connection_id, user_id } => Some(
            registration(ConnectionView { connection_id, user_id, connected_at }),
        ),
        ActionView::Deregister { connection_id } => Some(removal(connection_id)),
        _ => None,
    }
}

/// A registry write as contracts see it, where there is one.
pub open spec fn write_view(write: Option<StoreWrite>) -> Option<WriteView> {
    match write {
        Some(w) => Some(w@),
        None => None,
    }
}

/// The write to the registry that an action asks for, if it asks for one.
/// `connected_at` is the time to note on a registration.
pub fn registry_write(action: &SessionAction, connected_at: &str) -> (write: Option<StoreWrite>)
    ensures
        write_view(write) == registry_write_of(action@, connected_at@),
{
    match action {
        SessionAction::Register { connection_id, user_id } => Some(
            save_connection(connection_id.as_str(), user_id.as_str(), connected_at),
        ),
        SessionAction::Deregister { connection_id } => Some(
            remove_connection(connection_id.as_str()),
        ),
        _ => None,
    }
}

/// The answer to a connect once the registry was written to: 200 where the
/// registration was stored; none where it was not, and the connection is
/// refused.
pub open spec fn connect_reply(stored: bool) -> Option<ReplyView> {
    if stored {
        Some(bare_reply(200))
    } else {
        None
    }
}

/// A reply as contracts see it, where there is one.
pub open spec fn reply_view(reply: Option<Reply>) -> Option<ReplyView> {
    match reply {
        Some(r) => Some(r@),
        None => None,
    }
}

/// The answer to a connect, given whether the registration was stored.
/// `None` refuses the connection.
pub fn after_register(stored: bool) -> (reply: Option<Reply>)
    ensures
        reply_view(reply) == connect_reply(stored),
{
    if stored {
        Some(Reply { status: 200, body: String::new() })
    } else {
        None
    }
}

/// The answer to a disconnect: 200, whether or not the registry could be
/// written to, since the transport takes the connection down regardless.
pub fn after_deregister(_stored: bool) -> (reply: Reply)
    ensures
        reply@ == bare_reply(200),
{
    Reply { status: 200, body: String::new() }
}

/// The state of a connection after an event: a connect whose registration
/// was stored connects, a disconnect disconnects, and nothing else changes
/// the state.
pub open spec fn state_after(state: SessionState, route: Route, stored: bool) -> SessionState {
    match route {
        Route::Connect => if stored {
            SessionState::Connected
        } else {
            state
        },
        Route::Disconnect => SessionState::Disconnected,
        Route::Message => state,
        Route::Unknown => state,
    }
}

/// The state of a connection after an event.
pub fn next_state(state: SessionState, route: Route, stored: bool) -> (next: SessionState)
    ensures
        next == state_after(state, route, stored),
{
    match route {
        Route::Connect => if stored {
            SessionState::Connected
        } else {
            state
        },
        Route::Disconnect => SessionState::Disconnected,
        Route::Message => state,
        Route::Unknown => state,
    }
}

/// A message never writes to the registry, whatever it holds: only connect
/// and disconnect do. In particular a message that is turned down leaves
/// registry and store alone.
pub proof fn lemma_messages_leave_the_registry_alone(
    e: Option<EnvelopeView>,
    claim: Option<Seq<char>>,
    action: ActionView,
    connected_at: Seq<char>,
)
    requires
        match e {
            Some(envelope) => match validated(envelope, claim) {
                Ok(call) => action == action_for(call, envelope.data),
                Err(error) => action == ActionView::Respond(rejection(error)),
            },
            None => action is Respond,
        },
    ensures
        registry_write_of(action, connected_at) is None,
        (e matches Some(envelope) && validated(envelope, claim) is Err) ==> action is Respond,
{
}

/// The registry follows the session: once a connect's write is applied the
/// connection has its row, and once a disconnect's write is applied it has
/// none.
pub proof fn lemma_registry_follows_session(
    table: TableView,
    connection_id: Seq<char>,
    user_id: Seq<char>,
    connected_at: Seq<char>,
)
    ensures
        applied(
            table,
            registry_write_of(ActionView::Register { connection_id, user_id }, connected_at)->0,
        ).contains_key(registry_key(connection_id)),
        !applied(
            table,
            registry_write_of(ActionView::Deregister { connection_id }, connected_at)->0,
        ).contains_key(registry_key(connection_id)),
{
    lemma_row_round_trip(ConnectionView { connection_id, user_id, connected_at });
}

} // verus!
