//! The chat session: the conversation with the model, one request at a time.
//!
//! A [`ChatSession`] owns the history. It is either idle or waiting for the
//! reply to the one request it has sent. The methods take what happened (the
//! player said something, a reply arrived, the request failed) and say what is
//! to be done; sending and receiving is the caller's part.

use vstd::prelude::*;
use vstd::string::StringExecFns;
use crate::actions::{handle_request, handled, text_view, ProtocolError, SceneUpdate, SceneUpdateView};
use crate::json::{array_view, items_view, json_quoted, parse_json, parsed_json, quote, Json, JsonView};
use crate::prompt::{build_system_prompt, system_prompt};

verus! {

/// Where requests are sent.
pub const ENDPOINT: &'static str = "https://api.groq.com/openai/v1/chat/completions";

/// The user message that opens every conversation.
pub const OPENING_MESSAGE: &'static str = "begin";

/// Who said a message.
#[derive(Clone, Copy, Debug, PartialEq, Eq, Structural)]
pub enum Role {
    System,
    User,
    Assistant,
}

/// The name of a role on the wire.
pub open spec fn role_name(role: Role) -> Seq<char> {
    match role {
        Role::System => "system"@,
        Role::User => "user"@,
        Role::Assistant => "assistant"@,
    }
}

impl Role {
    /// The name of this role on the wire.
    pub fn name(&self) -> (r: &'static str)
        ensures
            r@ == role_name(*self),
    {
        match self {
            Role::System => "system",
            Role::User => "user",
            Role::Assistant => "assistant",
        }
    }
}

/// One message of the conversation.
#[derive(Clone, Debug, PartialEq, Eq)]
pub struct ChatMessage {
    pub role: Role,
    pub content: String,
}

/// What a [`ChatMessage`] holds.
pub ghost struct MessageView {
    pub role: Role,
    pub content: Seq<char>,
}

impl View for ChatMessage {
    type V = MessageView;

    open spec fn view(&self) -> MessageView {
        MessageView { role: self.role, content: self.content@ }
    }
}

/// What a list of messages holds.
pub open spec fn messages_view(messages: Seq<ChatMessage>) -> Seq<MessageView> {
    Seq::new(messages.len(), |i: int| messages[i]@)
}

/// The message that `role` says `content` in.
pub open spec fn message(role: Role, content: Seq<char>) -> MessageView {
    MessageView { role, content }
}

impl ChatMessage {
    /// The system message: the system prompt, said by the system.
    pub fn system_prompt() -> (r: ChatMessage)
        ensures
            r@ == message(Role::System, system_prompt()),
    {
        ChatMessage { role: Role::System, content: build_system_prompt() }
    }

    /// A message of the player.
    pub fn user(content: String) -> (r: ChatMessage)
        ensures
            r@ == message(Role::User, content@),
    {
        ChatMessage { role: Role::User, content }
    }

    /// A message of the model.
    pub fn assistant(content: String) -> (r: ChatMessage)
        ensures
            r@ == message(Role::Assistant, content@),
    {
        ChatMessage { role: Role::Assistant, content }
    }
}

/// Copies a list of messages.
pub fn copy_messages(messages: &Vec<ChatMessage>) -> (r: Vec<ChatMessage>)
    ensures
        messages_view(r@) == messages_view(messages@),
{
    let mut copy: Vec<ChatMessage> = Vec::new();
    let mut i: usize = 0;
    while i < messages.len()
        invariant
            i <= messages.len(),
            copy.len() == i,
            forall|k: int| 0 <= k < i ==> (#[trigger] copy@[k])@ == messages@[k]@,
        decreases messages.len() - i,
    {
        copy.push(ChatMessage { role: messages[i].role, content: messages[i].content.clone() });
        i += 1;
    }
    assert(messages_view(copy@) =~= messages_view(messages@));
    copy
}

/// A request to the model: the whole conversation so far, and the credential
/// that goes with it.
#[derive(Clone, Debug, PartialEq, Eq)]
pub struct ChatCompletionRequest {
    /// The value of the `Authorization` header.
    pub authorization: String,
    pub messages: Vec<ChatMessage>,
}

/// What a [`ChatCompletionRequest`] holds.
pub ghost struct RequestView {
    pub authorization: Seq<char>,
    pub messages: Seq<MessageView>,
}

impl View for ChatCompletionRequest {
    type V = RequestView;

    open spec fn view(&self) -> RequestView {
        RequestView { authorization: self.authorization@, messages: messages_view(self.messages@) }
    }
}

/// Whether a request is on its way.
#[derive(Clone, Copy, Debug, PartialEq, Eq, Structural)]
pub enum CycleState {
    Idle,
    AwaitingResponse,
}

/// What happened, as the session is told.
#[derive(Clone, Debug, PartialEq, Eq)]
pub enum SessionEvent {
    /// The player said something.
    UserInput(String),
    /// The reply to the request arrived; this is its content.
    ResponseArrived(String),
    /// The request failed; this is why.
    RequestFailed(String),
}

/// What a [`SessionEvent`] holds.
pub ghost enum EventView {
    UserInput(Seq<char>),
    ResponseArrived(Seq<char>),
    RequestFailed(Seq<char>),
}

impl View for SessionEvent {
    type V = EventView;

    open spec fn view(&self) -> EventView {
        match *self {
            SessionEvent::UserInput(text) => EventView::UserInput(text@),
            SessionEvent::ResponseArrived(content) => EventView::ResponseArrived(content@),
            SessionEvent::RequestFailed(error) => EventView::RequestFailed(error@),
        }
    }
}

/// What is to be done after an event.
#[derive(Clone, Debug, PartialEq, Eq)]
pub enum SessionAction {
    /// Send this request; the session now waits for its reply.
    Submit(ChatCompletionRequest),
    /// The reply asked for this scene update: hand it to the game.
    Emit(SceneUpdate),
    /// The reply is in the history, but it gave no scene update.
    Dropped(ProtocolError),
    /// The request failed for this reason. Nothing is sent again.
    Abandoned(String),
    /// The event does not fit the state of the session and changed nothing:
    /// input while a request is on its way, or a reply or a failure while
    /// none is.
    Rejected,
}

/// What a [`SessionAction`] holds.
pub ghost enum ActionView {
    Submit(RequestView),
    Emit(SceneUpdateView),
    Dropped(ProtocolError),
    Abandoned(Seq<char>),
    Rejected,
}

impl View for SessionAction {
    type V = ActionView;

    open spec fn view(&self) -> ActionView {
        match *self {
            SessionAction::Submit(request) => ActionView::Submit(request@),
            SessionAction::Emit(update) => ActionView::Emit(update@),
            SessionAction::Dropped(error) => ActionView::Dropped(error),
            SessionAction::Abandoned(error) => ActionView::Abandoned(error@),
            SessionAction::Rejected => ActionView::Rejected,
        }
    }
}

/// Why a session could not be started.
#[derive(Clone, Copy, Debug, PartialEq, Eq, Structural)]
pub enum SessionError {
    /// There is no credential for the model's service.
    MissingCredential,
}

/// What a [`ChatSession`] holds.
pub ghost struct SessionView {
    pub history: Seq<MessageView>,
    pub state: CycleState,
    pub api_key: Seq<char>,
}

/// The session right after its start: the system message, the opening
/// message of the user, and the first request on its way.
pub open spec fn started(api_key: Seq<char>) -> SessionView {
    SessionView {
        history: seq![message(Role::System, system_prompt()), message(Role::User, OPENING_MESSAGE@)],
        state: CycleState::AwaitingResponse,
        api_key,
    }
}

/// The request that a session sends: its whole history, in order.
pub open spec fn request_of(session: SessionView) -> RequestView {
    RequestView { authorization: "Bearer "@ + session.api_key, messages: session.history }
}

/// The session with one more message at the end of its history.
pub open spec fn appended(session: SessionView, added: MessageView, state: CycleState) -> SessionView {
    SessionView { history: session.history.push(added), state, api_key: session.api_key }
}

/// What the player's input does. An idle session appends it as a user message
/// and sends a request; a session that waits for a reply rejects it.
pub open spec fn after_input(session: SessionView, text: Seq<char>) -> (SessionView, ActionView) {
    if session.state is Idle {
        let next = appended(session, message(Role::User, text), CycleState::AwaitingResponse);
        (next, ActionView::Submit(request_of(next)))
    } else {
        (session, ActionView::Rejected)
    }
}

/// What the outcome of reading a reply asks for.
pub open spec fn reply_action(outcome: Result<SceneUpdateView, ProtocolError>) -> ActionView {
    match outcome {
        Ok(update) => ActionView::Emit(update),
        Err(error) => ActionView::Dropped(error),
    }
}

/// What a reply does. A session that waits for it appends it as an assistant
/// message, whatever it says, and is idle again; the scene update is the one
/// that the reply asks for, if it asks for one.
pub open spec fn after_response(session: SessionView, content: Seq<char>) -> (SessionView, ActionView) {
    if session.state is AwaitingResponse {
        (appended(session, message(Role::Assistant, content), CycleState::Idle), reply_action(handled(content)))
    } else {
        (session, ActionView::Rejected)
    }
}

/// What a failed request does. The session is idle again and its history
/// stays as it is.
pub open spec fn after_failure(session: SessionView, error: Seq<char>) -> (SessionView, ActionView) {
    if session.state is AwaitingResponse {
        (
            SessionView { history: session.history, state: CycleState::Idle, api_key: session.api_key },
            ActionView::Abandoned(error),
        )
    } else {
        (session, ActionView::Rejected)
    }
}

/// What an event does to a session, and what is to be done after it.
pub open spec fn after_event(session: SessionView, event: EventView) -> (SessionView, ActionView) {
    match event {
        EventView::UserInput(text) => after_input(session, text),
        EventView::ResponseArrived(content) => after_response(session, content),
        EventView::RequestFailed(error) => after_failure(session, error),
    }
}

/// The message at `i` is no system message, and where it is the assistant's,
/// the message before it is the user's.
pub open spec fn in_its_place(history: Seq<MessageView>, i: int) -> bool {
    &&& history[i].role != Role::System
    &&& history[i].role == Role::Assistant ==> history[i - 1].role == Role::User
}

/// What holds of every session.
///
/// The history opens with the system message and the opening message of the
/// user, and no later message is the system's. Each assistant message comes
/// right after a user message. While a request is on its way, the last
/// message is the user's: the one that the request was sent for.
pub open spec fn well_formed(session: SessionView) -> bool {
    let history = session.history;
    &&& history.len() >= 2
    &&& history[0] == message(Role::System, system_prompt())
    &&& history[1] == message(Role::User, OPENING_MESSAGE@)
    &&& forall|i: int| 1 <= i < history.len() ==> #[trigger] in_its_place(history, i)
    &&& session.state is AwaitingResponse ==> history.last().role == Role::User
}

/// A message may be appended to a well-formed session where it is the user's,
/// or the assistant's after a user message that was waiting for it.
proof fn append_keeps_well_formed(session: SessionView, added: MessageView, state: CycleState)
    requires
        well_formed(session),
        added.role == Role::User || (added.role == Role::Assistant && session.history.last().role == Role::User),
        state is AwaitingResponse ==> added.role == Role::User,
    ensures
        well_formed(appended(session, added, state)),
{
    let before = session.history;
    let after = appended(session, added, state).history;
    assert forall|i: int| 1 <= i < after.len() implies #[trigger] in_its_place(after, i) by {
        if i < before.len() {
            assert(in_its_place(before, i));
        }
    }
}

/// The conversation with the model and the state of its one request.
pub struct ChatSession {
    history: Vec<ChatMessage>,
    state: CycleState,
    api_key: String,
}

impl View for ChatSession {
    type V = SessionView;

    closed spec fn view(&self) -> SessionView {
        SessionView { history: messages_view(self.history@), state: self.state, api_key: self.api_key@ }
    }
}

impl ChatSession {
    #[verifier::type_invariant]
    spec fn holds_together(self) -> bool {
        well_formed(self@)
    }

    /// Starts a session: the history gets the system message and the opening
    /// message, and the first request is to be sent.
    ///
    /// Without a credential no session is started.
    pub fn start(api_key: Option<String>) -> (r: Result<(ChatSession, ChatCompletionRequest), SessionError>)
        ensures
            match r {
                Ok((session, request)) => api_key matches Some(key) && session@ == started(key@) && request@
                    == request_of(session@),
                Err(error) => api_key is None && error == SessionError::MissingCredential,
            },
    {
        match api_key {
            Some(key) => {
                let mut history: Vec<ChatMessage> = Vec::new();
                history.push(ChatMessage::system_prompt());
                history.push(ChatMessage::user(String::from_str(OPENING_MESSAGE)));
                proof {
                    let ghost view = messages_view(history@);
                    assert(view.len() == 2);
                    assert(view[0] == message(Role::System, system_prompt()));
                    assert(view[1] == message(Role::User, OPENING_MESSAGE@));
                    assert(view =~= started(key@).history);
                    assert(in_its_place(view, 1));
                }
                let session = ChatSession { history, state: CycleState::AwaitingResponse, api_key: key };
                let request = session.request();
                Ok((session, request))
            },
            None => Err(SessionError::MissingCredential),
        }
    }

    /// The request for the history as it stands.
    pub fn request(&self) -> (r: ChatCompletionRequest)
        ensures
            r@ == request_of(self@),
    {
        let mut authorization = String::from_str("Bearer ");
        authorization.append(self.api_key.as_str());
        ChatCompletionRequest { authorization, messages: copy_messages(&self.history) }
    }

    /// The messages so far, oldest first.
    pub fn history(&self) -> (r: &Vec<ChatMessage>)
        ensures
            messages_view(r@) == self@.history,
            well_formed(self@),
    {
        proof {
            use_type_invariant(self);
        }
        &self.history
    }

    /// Whether a request is on its way.
    pub fn state(&self) -> (r: CycleState)
        ensures
            r == self@.state,
    {
        self.state
    }
}

/// Pushing a message onto a list pushes what it holds onto what the list
/// holds.
proof fn push_is_push_of_views(before: Seq<ChatMessage>, added: ChatMessage)
    ensures
        messages_view(before.push(added)) == messages_view(before).push(added@),
{
    assert(messages_view(before.push(added)) =~= messages_view(before).push(added@));
}

impl ChatSession {
    /// Takes the player's input.
    ///
    /// An idle session appends it to the history as a user message and asks
    /// for the request to be sent. While a request is on its way, input is
    /// rejected: the session stays as it is.
    pub fn user_input(self, text: String) -> (r: (ChatSession, SessionAction))
        ensures
            (r.0@, r.1@) == after_input(self@, text@),
    {
        proof {
            use_type_invariant(&self);
        }
        match self.state {
            CycleState::Idle => {
                let ChatSession { mut history, state: _, api_key } = self;
                let added = ChatMessage::user(text);
                proof {
                    push_is_push_of_views(history@, added);
                    append_keeps_well_formed(self@, added@, CycleState::AwaitingResponse);
                }
                history.push(added);
                let next = ChatSession { history, state: CycleState::AwaitingResponse, api_key };
                let request = next.request();
                (next, SessionAction::Submit(request))
            },
            CycleState::AwaitingResponse => (self, SessionAction::Rejected),
        }
    }

    /// Takes the reply to the request.
    ///
    /// The session appends it to the history as an assistant message and is
    /// idle again. What the reply says decides the rest: a scene update to
    /// hand on, or the reason why there is none. A reply that nobody waits
    /// for is rejected.
    pub fn response_arrived(self, content: String) -> (r: (ChatSession, SessionAction))
        ensures
            (r.0@, r.1@) == after_response(self@, content@),
    {
        proof {
            use_type_invariant(&self);
        }
        match self.state {
            CycleState::AwaitingResponse => {
                let action = match handle_request(content.as_str()) {
                    Ok(update) => SessionAction::Emit(update),
                    Err(error) => SessionAction::Dropped(error),
                };
                let ChatSession { mut history, state: _, api_key } = self;
                let added = ChatMessage::assistant(content);
                proof {
                    push_is_push_of_views(history@, added);
                    append_keeps_well_formed(self@, added@, CycleState::Idle);
                }
                history.push(added);
                (ChatSession { history, state: CycleState::Idle, api_key }, action)
            },
            CycleState::Idle => (self, SessionAction::Rejected),
        }
    }

    /// Takes the failure of the request.
    ///
    /// The session is idle again. Nothing is appended and nothing is sent
    /// again. A failure that nobody waits for is rejected.
    pub fn request_failed(self, error: String) -> (r: (ChatSession, SessionAction))
        ensures
            (r.0@, r.1@) == after_failure(self@, error@),
    {
        proof {
            use_type_invariant(&self);
        }
        match self.state {
            CycleState::AwaitingResponse => {
                let ChatSession { history, state: _, api_key } = self;
                (ChatSession { history, state: CycleState::Idle, api_key }, SessionAction::Abandoned(error))
            },
            CycleState::Idle => (self, SessionAction::Rejected),
        }
    }

    /// Takes an event, whichever it is.
    pub fn step(self, event: SessionEvent) -> (r: (ChatSession, SessionAction))
        ensures
            (r.0@, r.1@) == after_event(self@, event@),
    {
        match event {
            SessionEvent::UserInput(text) => self.user_input(text),
            SessionEvent::ResponseArrived(content) => self.response_arrived(content),
            SessionEvent::RequestFailed(error) => self.request_failed(error),
        }
    }
}

/// The model that answers.
pub const MODEL: &'static str = "llama3-70b-8192";

/// How the model is to answer, as the end of every request body: at
/// temperature 1.0, with at most 1024 tokens and top-p 1.0, in one piece, as
/// a JSON object, with no stop sequence.
pub const SAMPLING: &'static str =
    ",\"temperature\":1.0,\"max_tokens\":1024,\"top_p\":1.0,\"stream\":false,\
    \"response_format\":{\"type\":\"json_object\"},\"stop\":null}";

/// A message as it stands in a request body.
pub open spec fn message_json(message: MessageView) -> Seq<char> {
    "{\"role\":"@ + json_quoted(role_name(message.role)) + ",\"content\":"@ + json_quoted(message.content) + "}"@
}

/// The messages as they stand in a request body: in order, with commas
/// between them.
pub open spec fn messages_json(messages: Seq<MessageView>) -> Seq<char>
    decreases messages.len(),
{
    if messages.len() == 0 {
        Seq::empty()
    } else if messages.len() == 1 {
        message_json(messages[0])
    } else {
        messages_json(messages.drop_last()) + ","@ + message_json(messages.last())
    }
}

/// The body of the request that carries `messages`: a JSON object with the
/// messages, the model and the fixed parameters.
pub open spec fn request_body(messages: Seq<MessageView>) -> Seq<char> {
    "{\"messages\":["@ + messages_json(messages) + "],\"model\":"@ + json_quoted(MODEL@) + SAMPLING@
}

impl ChatMessage {
    /// Writes the message as it stands in a request body.
    pub fn to_json(&self) -> (r: String)
        ensures
            r@ == message_json(self@),
    {
        let mut text = String::from_str("{\"role\":");
        text.append(quote(self.role.name()).as_str());
        text.append(",\"content\":");
        text.append(quote(self.content.as_str()).as_str());
        text.append("}");
        text
    }
}

impl ChatCompletionRequest {
    /// Writes the body of the request.
    pub fn to_json(&self) -> (r: String)
        ensures
            r@ == request_body(self@.messages),
    {
        let ghost views = messages_view(self.messages@);
        let mut text = String::from_str("{\"messages\":[");
        let mut i: usize = 0;
        assert(views.take(0) =~= Seq::empty());
        while i < self.messages.len()
            invariant
                i <= self.messages.len(),
                views == messages_view(self.messages@),
                text@ == "{\"messages\":["@ + messages_json(views.take(i as int)),
            decreases self.messages.len() - i,
        {
            let ghost before = views.take(i as int);
            let ghost now = views.take(i as int + 1);
            assert(now.drop_last() =~= before);
            assert(now.last() == self.messages@[i as int]@);
            if i > 0 {
                text.append(",");
            }
            text.append(self.messages[i].to_json().as_str());
            assert(text@ =~= "{\"messages\":["@ + messages_json(now));
            i += 1;
        }
        assert(views.take(i as int) =~= views);
        text.append("],\"model\":");
        text.append(quote(MODEL).as_str());
        text.append(SAMPLING);
        text
    }
}

/// The content of the first choice of a response: of the object under
/// `message` of the first item of `choices`, the string under `content`.
/// Everything else in the response is passed over.
pub open spec fn first_choice_content(tree: JsonView) -> Option<Seq<char>> {
    match tree.field("choices"@) {
        Some(JsonView::Array(choices)) => if choices.len() > 0 {
            match choices[0].field("message"@) {
                Some(reply) => match reply.field("content"@) {
                    Some(JsonView::Text(content)) => Some(content),
                    _ => None,
                },
                None => None,
            }
        } else {
            None
        },
        _ => None,
    }
}

/// The content that a response carries, where it spells a JSON document that
/// has one.
pub open spec fn response_content(raw: Seq<char>) -> Option<Seq<char>> {
    match parsed_json(raw) {
        Some(tree) => first_choice_content(tree),
        None => None,
    }
}

/// Picks the content of the first choice out of a response.
pub fn content_of_response(tree: &Json) -> (r: Option<String>)
    ensures
        text_view(r) == first_choice_content(tree@),
{
    match tree.get("choices") {
        Some(Json::Array(choices)) => {
            proof {
                array_view(*choices);
            }
            if choices.len() > 0 {
                assert(items_view(choices@)[0] == choices@[0]@);
                match choices[0].get("message") {
                    Some(reply) => match reply.get("content") {
                        Some(Json::Text(content)) => Some(content.clone()),
                        _ => None,
                    },
                    None => None,
                }
            } else {
                None
            }
        },
        _ => None,
    }
}

/// What is told of a response that cannot be read.
pub const UNREADABLE_RESPONSE: &'static str = "the response carries no content";

/// The event that a response of the service is: the arrival of its content,
/// or a failed request where it carries none.
pub open spec fn response_event(raw: Seq<char>) -> EventView {
    match response_content(raw) {
        Some(content) => EventView::ResponseArrived(content),
        None => EventView::RequestFailed(UNREADABLE_RESPONSE@),
    }
}

impl SessionEvent {
    /// Reads a response of the service.
    pub fn from_response(raw: &str) -> (r: SessionEvent)
        ensures
            r@ == response_event(raw@),
    {
        let content = match parse_json(raw) {
            Some(tree) => content_of_response(&tree),
            None => None,
        };
        match content {
            Some(content) => SessionEvent::ResponseArrived(content),
            None => SessionEvent::RequestFailed(String::from_str(UNREADABLE_RESPONSE)),
        }
    }
}

/// A move of the player.
#[derive(Clone, Copy, Debug, PartialEq, Eq, Hash, Structural)]
pub enum MovementEvent {
    Left,
    Right,
    Up,
    Down,
}

/// Something for the session to take as the player's input.
#[derive(Clone, Debug, PartialEq, Eq)]
pub struct ChatInputRequest {
    pub text: String,
}

/// The name of a move.
pub open spec fn movement_name(event: MovementEvent) -> Seq<char> {
    match event {
        MovementEvent::Left => "left"@,
        MovementEvent::Right => "right"@,
        MovementEvent::Up => "up"@,
        MovementEvent::Down => "down"@,
    }
}

/// What the model is told of a move: a JSON object with the name of the move
/// under `move_action`.
pub open spec fn movement_text(event: MovementEvent) -> Seq<char> {
    "{\"move_action\":"@ + json_quoted(movement_name(event)) + "}"@
}

impl MovementEvent {
    /// The name of this move.
    pub fn name(&self) -> (r: &'static str)
        ensures
            r@ == movement_name(*self),
    {
        match self {
            MovementEvent::Left => "left",
            MovementEvent::Right => "right",
            MovementEvent::Up => "up",
            MovementEvent::Down => "down",
        }
    }
}

/// Turns the moves of the player into input for the session, one for one and
/// in order.
pub fn chat_writer(events: &Vec<MovementEvent>) -> (r: Vec<ChatInputRequest>)
    ensures
        r.len() == events.len(),
        forall|i: int| 0 <= i < r.len() ==> (#[trigger] r[i]).text@ == movement_text(events[i]),
{
    let mut requests: Vec<ChatInputRequest> = Vec::new();
    let mut i: usize = 0;
    while i < events.len()
        invariant
            i <= events.len(),
            requests.len() == i,
            forall|k: int| 0 <= k < i ==> (#[trigger] requests[k]).text@ == movement_text(events[k]),
        decreases events.len() - i,
    {
        let mut text = String::from_str("{\"move_action\":");
        text.append(quote(events[i].name()).as_str());
        text.append("}");
        requests.push(ChatInputRequest { text });
        i += 1;
    }
    requests
}

/// The texts of a list of inputs.
pub open spec fn input_texts(requests: Seq<ChatInputRequest>) -> Seq<Seq<char>> {
    Seq::new(requests.len(), |i: int| requests[i].text@)
}

/// What a list of actions holds.
pub open spec fn actions_view(actions: Seq<SessionAction>) -> Seq<ActionView> {
    Seq::new(actions.len(), |i: int| actions[i]@)
}

/// What a run of inputs does, taken one after the other: the session after
/// the last of them, and the action for each.
pub open spec fn after_inputs(session: SessionView, texts: Seq<Seq<char>>) -> (SessionView, Seq<ActionView>)
    decreases texts.len(),
{
    if texts.len() == 0 {
        (session, Seq::empty())
    } else {
        let (before, actions) = after_inputs(session, texts.drop_last());
        let (next, action) = after_input(before, texts.last());
        (next, actions.push(action))
    }
}

impl ChatSession {
    /// Takes a run of inputs in the order in which they came.
    ///
    /// Each is taken as [`ChatSession::user_input`] takes it. So of a run that
    /// reaches an idle session the first input is sent and the others are
    /// rejected.
    pub fn chat_reader(self, requests: &Vec<ChatInputRequest>) -> (r: (ChatSession, Vec<SessionAction>))
        ensures
            (r.0@, actions_view(r.1@)) == after_inputs(self@, input_texts(requests@)),
    {
        let ghost texts = input_texts(requests@);
        let mut session = self;
        let mut actions: Vec<SessionAction> = Vec::new();
        let mut i: usize = 0;
        assert(texts.take(0) =~= Seq::empty());
        assert(actions_view(actions@) =~= Seq::empty());
        while i < requests.len()
            invariant
                i <= requests.len(),
                texts == input_texts(requests@),
                (session@, actions_view(actions@)) == after_inputs(self@, texts.take(i as int)),
            decreases requests.len() - i,
        {
            let ghost before = actions_view(actions@);
            assert(texts.take(i as int + 1).drop_last() =~= texts.take(i as int));
            assert(texts.take(i as int + 1).last() == requests@[i as int].text@);
            let (next, action) = session.user_input(requests[i].text.clone());
            session = next;
            actions.push(action);
            assert(actions_view(actions@) =~= before.push(action@));
            i += 1;
        }
        assert(texts.take(i as int) =~= texts);
        (session, actions)
    }
}

/// What the input panel shows: the text being typed and the last reply.
#[derive(Clone, Debug, PartialEq, Eq)]
pub struct Prompt {
    pub text: String,
    pub response: String,
}

impl Default for Prompt {
    /// An empty panel.
    fn default() -> (r: Prompt)
        ensures
            r.text@ == Seq::<char>::empty(),
            r.response@ == Seq::<char>::empty(),
    {
        Prompt { text: String::new(), response: String::new() }
    }
}

/// Every event leaves a well-formed session well-formed.
pub proof fn event_keeps_well_formed(session: SessionView, event: EventView)
    requires
        well_formed(session),
    ensures
        well_formed(after_event(session, event).0),
{
    match event {
        EventView::UserInput(text) => {
            if session.state is Idle {
                append_keeps_well_formed(session, message(Role::User, text), CycleState::AwaitingResponse);
            }
        },
        EventView::ResponseArrived(content) => {
            if session.state is AwaitingResponse {
                append_keeps_well_formed(session, message(Role::Assistant, content), CycleState::Idle);
            }
        },
        EventView::RequestFailed(_) => {},
    }
}

/// The history only grows, and by one message at most: whatever the event,
/// the messages that were there stay where they were, as they were, and the
/// credential stays the same.
pub proof fn history_is_append_only(session: SessionView, event: EventView)
    ensures
        session.history.is_prefix_of(after_event(session, event).0.history),
        after_event(session, event).0.history.len() <= session.history.len() + 1,
        after_event(session, event).0.api_key == session.api_key,
{
}

/// The request that an accepted input sends carries the whole history, the
/// new message last.
pub proof fn request_resends_whole_history(session: SessionView, text: Seq<char>)
    requires
        session.state is Idle,
    ensures
        after_input(session, text).1 matches ActionView::Submit(request) && request.messages
            == session.history.push(message(Role::User, text)),
{
}

/// The session after the turns `turns`: for each, the player's input, then
/// the reply to it.
pub open spec fn after_turns(session: SessionView, turns: Seq<(Seq<char>, Seq<char>)>) -> SessionView
    decreases turns.len(),
{
    if turns.len() == 0 {
        session
    } else {
        let before = after_turns(session, turns.drop_last());
        after_response(after_input(before, turns.last().0).0, turns.last().1).0
    }
}

/// Each completed turn adds two messages: from an idle session, `n` turns
/// leave an idle session whose history is longer by `2 * n`.
pub proof fn turns_add_two_messages_each(session: SessionView, turns: Seq<(Seq<char>, Seq<char>)>)
    requires
        session.state is Idle,
    ensures
        after_turns(session, turns).state is Idle,
        after_turns(session, turns).history.len() == session.history.len() + 2 * turns.len(),
        session.history.is_prefix_of(after_turns(session, turns).history),
    decreases turns.len(),
{
    if turns.len() > 0 {
        turns_add_two_messages_each(session, turns.drop_last());
    }
}

/// Counted from the two messages that a session starts with: where the
/// opening request has failed, the history after `n` completed turns holds
/// `1 + 1 + 2 * n` messages.
pub proof fn history_length_after_turns(api_key: Seq<char>, error: Seq<char>, turns: Seq<(Seq<char>, Seq<char>)>)
    ensures
        after_turns(after_failure(started(api_key), error).0, turns).history.len() == 1 + 1 + 2 * turns.len(),
{
    turns_add_two_messages_each(after_failure(started(api_key), error).0, turns);
}

/// A request that fails leaves nothing behind but the user message that it
/// was sent for: the history is the one from before the input with that
/// message at its end and no assistant message after it, and the session is
/// idle again.
pub proof fn failed_request_adds_no_reply(session: SessionView, text: Seq<char>, error: Seq<char>)
    requires
        session.state is Idle,
    ensures
        after_failure(after_input(session, text).0, error).0.history == session.history.push(
            message(Role::User, text),
        ),
        after_failure(after_input(session, text).0, error).0.state is Idle,
        after_failure(after_input(session, text).0, error).1 == ActionView::Abandoned(error),
        forall|s: SessionView, e: Seq<char>| (#[trigger] after_failure(s, e)).0.history == s.history,
{
}

/// A run of inputs gives one action for each input.
pub proof fn inputs_give_one_action_each(session: SessionView, texts: Seq<Seq<char>>)
    ensures
        after_inputs(session, texts).1.len() == texts.len(),
    decreases texts.len(),
{
    if texts.len() > 0 {
        inputs_give_one_action_each(session, texts.drop_last());
    }
}

} // verus!
