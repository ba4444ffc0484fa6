use game_master::actions::{Point, PointColor, ProtocolError, SceneUpdate};
use game_master::color::Color;
use game_master::json::parse_json;
use game_master::network::{
    chat_writer, content_of_response, copy_messages, ChatCompletionRequest, ChatInputRequest, ChatMessage,
    ChatSession, CycleState, MovementEvent, Prompt, Role, SessionAction, SessionError, SessionEvent, ENDPOINT,
    MODEL, OPENING_MESSAGE,
};
use game_master::prompt::build_system_prompt;

const SORRY_REPLY: &str = "{\"action\":\"Sorry\",\"value\":\"{\\\"error\\\":\\\"sorry\\\"}\"}";

fn started() -> ChatSession {
    ChatSession::start(Some("key".to_string())).unwrap().0
}

fn idle() -> ChatSession {
    started().request_failed("no route".to_string()).0
}

fn user(text: &str) -> ChatMessage {
    ChatMessage { role: Role::User, content: text.to_string() }
}

fn assistant(text: &str) -> ChatMessage {
    ChatMessage { role: Role::Assistant, content: text.to_string() }
}

#[test]
fn start_appends_system_and_opening_message_and_submits() {
    let (session, request) = ChatSession::start(Some("token-1".to_string())).unwrap();
    let expected = vec![ChatMessage { role: Role::System, content: build_system_prompt() }, user("begin")];
    assert_eq!(session.history(), &expected);
    assert_eq!(session.state(), CycleState::AwaitingResponse);
    assert_eq!(request.messages, expected);
    assert_eq!(request.authorization, "Bearer token-1");
    assert_eq!(OPENING_MESSAGE, "begin");
    assert_eq!(session.history()[0], ChatMessage::system_prompt());
}

#[test]
fn start_without_credential_fails() {
    assert!(matches!(ChatSession::start(None), Err(SessionError::MissingCredential)));
}

#[test]
fn input_while_idle_is_appended_and_submitted() {
    let before = idle();
    let (session, action) = before.user_input("{\"move_action\":\"up\"}".to_string());
    assert_eq!(session.state(), CycleState::AwaitingResponse);
    assert_eq!(session.history().len(), 3);
    assert_eq!(session.history()[2], user("{\"move_action\":\"up\"}"));
    match action {
        SessionAction::Submit(request) => {
            assert_eq!(&request.messages, session.history());
            assert_eq!(request.authorization, "Bearer key");
        }
        other => panic!("{:?}", other),
    }
}

#[test]
fn input_while_awaiting_is_rejected() {
    let session = started();
    let before = copy_messages(session.history());
    let (session, action) = session.user_input("left".to_string());
    assert_eq!(action, SessionAction::Rejected);
    assert_eq!(session.state(), CycleState::AwaitingResponse);
    assert_eq!(session.history(), &before);
}

#[test]
fn response_is_appended_and_its_update_emitted() {
    let (session, action) = started().response_arrived(SORRY_REPLY.to_string());
    assert_eq!(action, SessionAction::Emit(SceneUpdate::Sorry { error: "sorry".to_string() }));
    assert_eq!(session.state(), CycleState::Idle);
    assert_eq!(session.history().len(), 3);
    assert_eq!(session.history()[2], assistant(SORRY_REPLY));
}

#[test]
fn response_that_gives_no_update_is_still_appended() {
    let (session, action) = started().response_arrived("I would rather not".to_string());
    assert_eq!(action, SessionAction::Dropped(ProtocolError::MalformedEnvelope));
    assert_eq!(session.state(), CycleState::Idle);
    assert_eq!(session.history()[2], assistant("I would rather not"));

    let (_, action) = started().response_arrived("{\"action\":\"Dance\",\"value\":\"{}\"}".to_string());
    assert_eq!(action, SessionAction::Dropped(ProtocolError::UnknownAction));
    let (_, action) = started().response_arrived("{\"action\":\"UpdateGame\",\"value\":\"{}\"}".to_string());
    assert_eq!(action, SessionAction::Dropped(ProtocolError::PayloadDecodeError));
}

#[test]
fn response_or_failure_while_idle_is_rejected() {
    let (session, action) = idle().response_arrived(SORRY_REPLY.to_string());
    assert_eq!(action, SessionAction::Rejected);
    assert_eq!(session.history().len(), 2);
    assert_eq!(session.state(), CycleState::Idle);
    let (session, action) = session.request_failed("late".to_string());
    assert_eq!(action, SessionAction::Rejected);
    assert_eq!(session.history().len(), 2);
    assert_eq!(session.state(), CycleState::Idle);
}

#[test]
fn failed_request_leaves_the_user_message_and_adds_no_reply() {
    let (session, _) = idle().user_input("up".to_string());
    let before = copy_messages(session.history());
    let (session, action) = session.request_failed("timeout".to_string());
    assert_eq!(action, SessionAction::Abandoned("timeout".to_string()));
    assert_eq!(session.state(), CycleState::Idle);
    assert_eq!(session.history(), &before);
    assert_eq!(session.history().last(), Some(&user("up")));
    assert!(session.history().iter().all(|m| m.role != Role::Assistant));
}

#[test]
fn history_grows_by_two_per_completed_turn() {
    let mut session = idle();
    assert_eq!(session.history().len(), 1 + 1);
    for turn in 1..=5usize {
        let (next, action) = session.user_input(format!("move {}", turn));
        assert!(matches!(action, SessionAction::Submit(_)));
        let (next, _) = next.response_arrived(SORRY_REPLY.to_string());
        session = next;
        assert_eq!(session.history().len(), 1 + 1 + 2 * turn);
        assert_eq!(session.state(), CycleState::Idle);
    }
}

#[test]
fn reply_to_the_opening_request_is_one_more_message() {
    let (session, _) = started().response_arrived(SORRY_REPLY.to_string());
    assert_eq!(session.history().len(), 3);
    let (session, _) = session.user_input("up".to_string());
    let (session, _) = session.response_arrived(SORRY_REPLY.to_string());
    assert_eq!(session.history().len(), 5);
}

#[test]
fn step_dispatches_on_the_event() {
    let (session, action) = idle().step(SessionEvent::UserInput("a".to_string()));
    assert!(matches!(action, SessionAction::Submit(_)));
    let (session, action) = session.step(SessionEvent::RequestFailed("e".to_string()));
    assert_eq!(action, SessionAction::Abandoned("e".to_string()));
    let (session, _) = session.step(SessionEvent::UserInput("b".to_string()));
    let (session, action) = session.step(SessionEvent::ResponseArrived(SORRY_REPLY.to_string()));
    assert_eq!(action, SessionAction::Emit(SceneUpdate::Sorry { error: "sorry".to_string() }));
    let roles: Vec<Role> = session.history().iter().map(|m| m.role).collect();
    assert_eq!(roles, vec![Role::System, Role::User, Role::User, Role::User, Role::Assistant]);
}

#[test]
fn update_game_reply_is_emitted() {
    let reply = "{\"action\":\"UpdateGame\",\"value\":\"{\\\"update_points\\\":[{\\\"hex\\\":\\\"#FF0000\\\",\\\"point\\\":{\\\"x\\\":3,\\\"y\\\":4}}]}\"}";
    let (_, action) = started().response_arrived(reply.to_string());
    assert_eq!(
        action,
        SessionAction::Emit(SceneUpdate::UpdateGame {
            clear_grid: None,
            update_points: vec![PointColor {
                color: Color { red: 255, green: 0, blue: 0, alpha: 255 },
                point: Point { x: 3, y: 4 }
            }],
            game_end: None,
            message: None,
        })
    );
}

#[test]
fn chat_reader_takes_the_first_input_and_rejects_the_rest() {
    let requests = vec![
        ChatInputRequest { text: "a".to_string() },
        ChatInputRequest { text: "b".to_string() },
        ChatInputRequest { text: "c".to_string() },
    ];
    let (session, actions) = idle().chat_reader(&requests);
    assert_eq!(actions.len(), 3);
    assert!(matches!(actions[0], SessionAction::Submit(_)));
    assert_eq!(actions[1], SessionAction::Rejected);
    assert_eq!(actions[2], SessionAction::Rejected);
    assert_eq!(session.history().len(), 3);
    assert_eq!(session.history()[2], user("a"));

    let (session, actions) = session.chat_reader(&vec![]);
    assert!(actions.is_empty());
    assert_eq!(session.history().len(), 3);
}

#[test]
fn chat_writer_names_each_move() {
    let requests = chat_writer(&vec![MovementEvent::Left, MovementEvent::Right, MovementEvent::Up, MovementEvent::Down]);
    let texts: Vec<&str> = requests.iter().map(|r| r.text.as_str()).collect();
    assert_eq!(
        texts,
        vec![
            "{\"move_action\":\"left\"}",
            "{\"move_action\":\"right\"}",
            "{\"move_action\":\"up\"}",
            "{\"move_action\":\"down\"}"
        ]
    );
    assert!(chat_writer(&vec![]).is_empty());
}

#[test]
fn request_body_has_the_messages_and_the_fixed_parameters() {
    let request = ChatCompletionRequest {
        authorization: "Bearer key".to_string(),
        messages: vec![
            ChatMessage { role: Role::System, content: "be \"kind\"".to_string() },
            user("begin"),
            assistant("line\nbreak"),
        ],
    };
    assert_eq!(
        request.to_json(),
        "{\"messages\":[{\"role\":\"system\",\"content\":\"be \\\"kind\\\"\"},{\"role\":\"user\",\"content\":\"begin\"},{\"role\":\"assistant\",\"content\":\"line\\nbreak\"}],\"model\":\"llama3-70b-8192\",\"temperature\":1.0,\"max_tokens\":1024,\"top_p\":1.0,\"stream\":false,\"response_format\":{\"type\":\"json_object\"},\"stop\":null}"
    );
    let empty = ChatCompletionRequest { authorization: String::new(), messages: vec![] };
    assert!(empty.to_json().starts_with("{\"messages\":[],\"model\":"));
    assert_eq!(MODEL, "llama3-70b-8192");
    assert_eq!(ENDPOINT, "https://api.groq.com/openai/v1/chat/completions");
}

#[test]
fn request_body_is_json_that_serde_reads_back() {
    let (session, request) = ChatSession::start(Some("key".to_string())).unwrap();
    let body: serde_json::Value = serde_json::from_str(&request.to_json()).unwrap();
    assert_eq!(body["messages"].as_array().unwrap().len(), 2);
    assert_eq!(body["messages"][0]["role"], "system");
    assert_eq!(body["messages"][0]["content"].as_str().unwrap(), session.history()[0].content);
    assert_eq!(body["messages"][1]["content"], "begin");
    assert_eq!(body["max_tokens"], 1024);
    assert_eq!(body["temperature"], 1.0);
    assert_eq!(body["top_p"], 1.0);
    assert_eq!(body["stream"], false);
    assert_eq!(body["response_format"]["type"], "json_object");
    assert!(body["stop"].is_null());
}

#[test]
fn message_is_written_as_role_and_content() {
    assert_eq!(user("hi").to_json(), "{\"role\":\"user\",\"content\":\"hi\"}");
    assert_eq!(Role::System.name(), "system");
    assert_eq!(Role::User.name(), "user");
    assert_eq!(Role::Assistant.name(), "assistant");
}

#[test]
fn response_gives_the_content_of_its_first_choice() {
    let raw = "{\"id\":\"x\",\"choices\":[{\"index\":0,\"message\":{\"role\":\"assistant\",\"content\":\"first\"}},{\"index\":1,\"message\":{\"role\":\"assistant\",\"content\":\"second\"}}],\"usage\":{}}";
    assert_eq!(SessionEvent::from_response(raw), SessionEvent::ResponseArrived("first".to_string()));
    assert_eq!(content_of_response(&parse_json(raw).unwrap()), Some("first".to_string()));
}

#[test]
fn response_without_content_is_a_failed_request() {
    let failed = SessionEvent::RequestFailed("the response carries no content".to_string());
    for raw in [
        "",
        "not json",
        "{}",
        "{\"choices\":[]}",
        "{\"choices\":{}}",
        "{\"choices\":[{}]}",
        "{\"choices\":[{\"message\":{}}]}",
        "{\"choices\":[{\"message\":{\"content\":null}}]}",
        "{\"choices\":[{\"message\":\"text\"}]}",
    ] {
        assert_eq!(SessionEvent::from_response(raw), failed, "{:?}", raw);
    }
}

#[test]
fn prompt_starts_empty() {
    let prompt = Prompt::default();
    assert_eq!(prompt.text, "");
    assert_eq!(prompt.response, "");
}
