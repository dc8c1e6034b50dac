use chat_session::adapter::{ChatError, ChatResponse, Exchange, OutboundRequest, ReplyMessage};
use chat_session::history::{Role, Turn};
use chat_session::interpreter::{
    on_document, on_exchange, on_input, on_line, Action, DocumentRead, Origin,
};
use chat_session::provider::ProviderKind;
use chat_session::session::{document_prompt, Session};

fn openai() -> Session {
    Session::new(
        ProviderKind::OpenAI,
        Some("sk-test".to_string()),
        "gpt-3.5-turbo".to_string(),
    )
}

fn answered(replies: &[&str]) -> Exchange {
    let mut choices = Vec::new();
    for reply in replies {
        choices.push(ReplyMessage {
            role: "assistant".to_string(),
            content: reply.to_string(),
        });
    }
    Exchange::Responded {
        status: 200,
        body: Ok(ChatResponse { choices }),
    }
}

fn user(content: &str) -> Turn {
    Turn {
        role: Role::User,
        content: content.to_string(),
    }
}

fn assistant(content: &str) -> Turn {
    Turn {
        role: Role::Assistant,
        content: content.to_string(),
    }
}

fn sent(action: Action) -> (OutboundRequest, Origin) {
    match action {
        Action::Send(request, origin) => (request, origin),
        other => panic!("expected a request, got {:?}", other),
    }
}

fn printed(action: Action) -> String {
    match action {
        Action::Print(text) => text,
        other => panic!("expected a line to print, got {:?}", other),
    }
}

#[test]
fn hello_is_sent_and_the_reply_recorded() {
    let mut session = openai();
    let (request, origin) = sent(on_line(&mut session, "hello\n"));
    assert_eq!(origin, Origin::Line);
    assert_eq!(request.url, "https://api.openai.com/v1/chat/completions");
    assert_eq!(request.authorization, Some("Bearer sk-test".to_string()));
    assert_eq!(request.model, "gpt-3.5-turbo");
    assert_eq!(request.messages, vec![user("hello")]);
    assert_eq!(session.history().snapshot(), vec![user("hello")]);

    let line = on_exchange(&mut session, answered(&["hi"]), origin);
    assert_eq!(line, "AI: hi");
    assert_eq!(
        session.history().snapshot(),
        vec![user("hello"), assistant("hi")]
    );
}

#[test]
fn only_the_first_choice_is_used() {
    let mut session = openai();
    let (_, origin) = sent(on_line(&mut session, "pick one"));
    let line = on_exchange(&mut session, answered(&["first", "second", "third"]), origin);
    assert_eq!(line, "AI: first");
    assert_eq!(session.history().len(), 2);
    assert_eq!(session.history().get(1), Some(&assistant("first")));
    assert_eq!(session.history().get(2), None);
}

#[test]
fn the_reply_is_an_assistant_turn_whatever_role_came_back() {
    let mut session = openai();
    let _ = sent(on_line(&mut session, "hello"));
    let exchange = Exchange::Responded {
        status: 200,
        body: Ok(ChatResponse {
            choices: vec![ReplyMessage {
                role: "system".to_string(),
                content: "hi".to_string(),
            }],
        }),
    };
    assert_eq!(session.complete_turn(exchange).unwrap(), "hi");
    assert_eq!(session.history().get(1).unwrap().role, Role::Assistant);
}

#[test]
fn successful_exchanges_alternate() {
    let mut session = openai();
    let said = ["one", "two", "three"];
    let heard = ["uno", "dos", "tres"];
    for i in 0..3 {
        let (request, origin) = sent(on_line(&mut session, said[i]));
        assert_eq!(request.messages.len(), 2 * i + 1);
        assert_eq!(request.messages, session.history().snapshot());
        let _ = on_exchange(&mut session, answered(&[heard[i]]), origin);
        assert_eq!(session.history().len() % 2, 0);
    }
    let history = session.history().snapshot();
    assert_eq!(history.len(), 6);
    for (i, turn) in history.iter().enumerate() {
        let expected = if i % 2 == 0 { Role::User } else { Role::Assistant };
        assert_eq!(turn.role, expected);
    }
    assert_eq!(history[4], user("three"));
    assert_eq!(history[5], assistant("tres"));
}

#[test]
fn switch_goes_to_ollama_and_keeps_the_history() {
    let mut session = openai();
    let (_, origin) = sent(on_line(&mut session, "hello"));
    let _ = on_exchange(&mut session, answered(&["hi"]), origin);
    let before = session.history().snapshot();

    let line = printed(on_line(&mut session, "/switch\n"));
    assert_eq!(line, "Switched to Ollama");
    assert_eq!(session.active_provider(), ProviderKind::Ollama);
    assert_eq!(session.model_id(), "llama2");
    assert_eq!(session.history().snapshot(), before);
}

#[test]
fn switching_twice_restores_provider_and_model() {
    let mut session = openai();
    let _ = sent(on_line(&mut session, "hello"));
    let before = session.history().snapshot();
    session.switch_provider();
    assert_eq!(session.active_provider(), ProviderKind::Ollama);
    session.switch_provider();
    assert_eq!(session.active_provider(), ProviderKind::OpenAI);
    assert_eq!(session.model_id(), "gpt-3.5-turbo");
    assert_eq!(session.history().snapshot(), before);
    assert_eq!(printed(on_line(&mut session, "/switch")), "Switched to Ollama");
    assert_eq!(printed(on_line(&mut session, "/switch")), "Switched to OpenAI");
}

#[test]
fn switching_resets_a_model_that_was_not_the_default() {
    let mut session = Session::new(ProviderKind::OpenAI, None, "gpt-4".to_string());
    session.switch_provider();
    session.switch_provider();
    assert_eq!(session.active_provider(), ProviderKind::OpenAI);
    assert_eq!(session.model_id(), "gpt-3.5-turbo");
}

#[test]
fn ollama_requests_carry_no_authorization() {
    let mut session = Session::new(
        ProviderKind::Ollama,
        Some("unused".to_string()),
        "llama2".to_string(),
    );
    let request = session.begin_turn("hello".to_string()).unwrap();
    assert_eq!(request.url, "http://localhost:11434/api/chat");
    assert_eq!(request.authorization, None);
    assert_eq!(request.model, "llama2");

    let mut bare = Session::new(ProviderKind::Ollama, None, "llama2".to_string());
    let request = bare.begin_turn("hello".to_string()).unwrap();
    assert_eq!(request.authorization, None);
    assert_eq!(request.messages, vec![user("hello")]);
}

#[test]
fn an_empty_credential_is_still_a_credential() {
    let mut session = Session::new(
        ProviderKind::OpenAI,
        Some(String::new()),
        "gpt-3.5-turbo".to_string(),
    );
    let request = session.begin_turn("hello".to_string()).unwrap();
    assert_eq!(request.authorization, Some("Bearer ".to_string()));
}

#[test]
fn a_missing_credential_is_reported_and_the_turn_stays() {
    let mut session = Session::new(ProviderKind::OpenAI, None, "gpt-3.5-turbo".to_string());
    let line = printed(on_line(&mut session, "hello"));
    assert_eq!(line, "Error: no credential is configured for this provider");
    assert_eq!(session.history().snapshot(), vec![user("hello")]);

    let result = session.begin_turn("again".to_string());
    assert!(matches!(result, Err(ChatError::MissingCredential)));
    assert_eq!(session.history().len(), 2);

    session.switch_provider();
    assert!(session.begin_turn("now".to_string()).is_ok());
}

#[test]
fn a_document_is_submitted_under_its_prompt() {
    let text = "line one\nline two\n";
    assert_eq!(
        document_prompt(text),
        "Please analyze this document:\n\nline one\nline two\n"
    );

    let mut by_document = openai();
    let mut by_turn = openai();
    let document = by_document.begin_document(text).unwrap();
    let turn = by_turn
        .begin_turn(format!("Please analyze this document:\n\n{}", text))
        .unwrap();
    assert_eq!(document.url, turn.url);
    assert_eq!(document.authorization, turn.authorization);
    assert_eq!(document.model, turn.model);
    assert_eq!(document.messages, turn.messages);
    assert_eq!(
        by_document.history().snapshot(),
        by_turn.history().snapshot()
    );
}

#[test]
fn a_document_directive_reads_then_sends() {
    let mut session = openai();
    let path = match on_line(&mut session, "/doc  notes.txt \n") {
        Action::ReadDocument(path) => path,
        other => panic!("expected a file to read, got {:?}", other),
    };
    assert_eq!(path, "notes.txt");
    assert!(session.history().is_empty());

    let action = on_document(&mut session, &path, DocumentRead::Loaded("abc".to_string()));
    let (request, origin) = sent(action);
    assert_eq!(origin, Origin::Document);
    assert_eq!(
        request.messages,
        vec![user("Please analyze this document:\n\nabc")]
    );
    let line = on_exchange(&mut session, answered(&["short"]), origin);
    assert_eq!(line, "AI: short");
    assert_eq!(session.history().len(), 2);
}

#[test]
fn a_missing_document_is_reported_and_nothing_changes() {
    let mut session = openai();
    let (_, origin) = sent(on_line(&mut session, "hello"));
    let _ = on_exchange(&mut session, answered(&["hi"]), origin);
    let before = session.history().snapshot();

    let path = match on_line(&mut session, "/doc missing.txt") {
        Action::ReadDocument(path) => path,
        other => panic!("expected a file to read, got {:?}", other),
    };
    assert_eq!(path, "missing.txt");
    assert_eq!(session.history().snapshot(), before);

    let line = printed(on_document(&mut session, &path, DocumentRead::Missing));
    assert_eq!(line, "File not found: missing.txt");
    assert_eq!(session.history().snapshot(), before);
    assert_eq!(session.active_provider(), ProviderKind::OpenAI);
    assert_eq!(session.model_id(), "gpt-3.5-turbo");
}

#[test]
fn an_unreadable_document_is_reported_and_nothing_changes() {
    let mut session = openai();
    let action = on_document(
        &mut session,
        "secret.txt",
        DocumentRead::Unreadable("permission denied".to_string()),
    );
    assert_eq!(
        printed(action),
        "Error processing document: permission denied"
    );
    assert!(session.history().is_empty());
}

#[test]
fn a_failed_transport_leaves_the_user_turn() {
    let mut session = openai();
    let (_, origin) = sent(on_line(&mut session, "hello"));
    let line = on_exchange(
        &mut session,
        Exchange::Failed("connection refused".to_string()),
        origin,
    );
    assert_eq!(line, "Error: connection refused");
    assert_eq!(session.history().snapshot(), vec![user("hello")]);

    let (request, origin) = sent(on_line(&mut session, "anyone?"));
    assert_eq!(request.messages, vec![user("hello"), user("anyone?")]);
    let line = on_exchange(&mut session, answered(&["here"]), origin);
    assert_eq!(line, "AI: here");
    assert_eq!(
        session.history().snapshot(),
        vec![user("hello"), user("anyone?"), assistant("here")]
    );
}

#[test]
fn a_failed_document_exchange_is_introduced_as_such() {
    let mut session = openai();
    let action = on_document(&mut session, "a.txt", DocumentRead::Loaded("abc".to_string()));
    let (_, origin) = sent(action);
    let line = on_exchange(&mut session, Exchange::Failed("timed out".to_string()), origin);
    assert_eq!(line, "Error processing document: timed out");
    assert_eq!(session.history().len(), 1);
}

#[test]
fn no_choices_is_an_error_not_an_empty_reply() {
    let mut session = openai();
    let (_, origin) = sent(on_line(&mut session, "hello"));
    let line = on_exchange(&mut session, answered(&[]), origin);
    assert_eq!(line, "Error: the response holds no choices");
    assert_eq!(session.history().snapshot(), vec![user("hello")]);

    let result = session.complete_turn(answered(&[]));
    assert!(matches!(result, Err(ChatError::NoChoices)));
    assert_eq!(session.history().len(), 1);
}

#[test]
fn an_empty_reply_text_is_a_reply() {
    let mut session = openai();
    let (_, origin) = sent(on_line(&mut session, "hello"));
    let line = on_exchange(&mut session, answered(&[""]), origin);
    assert_eq!(line, "AI: ");
    assert_eq!(session.history().snapshot(), vec![user("hello"), assistant("")]);
}

#[test]
fn quit_ends_the_loop_and_changes_nothing() {
    let mut session = openai();
    match on_line(&mut session, "/quit\n") {
        Action::Exit(farewell) => assert_eq!(farewell, "Bye."),
        other => panic!("expected the end, got {:?}", other),
    }
    assert!(session.history().is_empty());
    assert_eq!(session.active_provider(), ProviderKind::OpenAI);
}

#[test]
fn an_empty_line_is_a_turn() {
    let mut session = openai();
    let (request, _) = sent(on_line(&mut session, "\n"));
    assert_eq!(request.messages, vec![user("")]);
}

#[test]
fn the_end_of_the_input_ends_the_loop() {
    let mut session = openai();
    let _ = sent(on_input(&mut session, Some("hello")));
    match on_input(&mut session, None) {
        Action::Exit(farewell) => assert_eq!(farewell, "Bye."),
        other => panic!("expected the end, got {:?}", other),
    }
    assert_eq!(session.history().snapshot(), vec![user("hello")]);
    assert!(matches!(
        on_input(&mut session, Some("/quit")),
        Action::Exit(_)
    ));
}

#[test]
fn a_failure_status_is_reported_with_its_number() {
    let mut session = openai();
    let (_, origin) = sent(on_line(&mut session, "hello"));
    let exchange = Exchange::Responded {
        status: 401,
        body: Err("missing field `choices`".to_string()),
    };
    let line = on_exchange(&mut session, exchange, origin);
    assert_eq!(line, "Error: the provider answered with status 401");
    assert_eq!(session.history().snapshot(), vec![user("hello")]);
}

#[test]
fn a_body_of_another_shape_is_reported() {
    let mut session = openai();
    let (_, origin) = sent(on_line(&mut session, "hello"));
    let exchange = Exchange::Responded {
        status: 200,
        body: Err("missing field `choices`".to_string()),
    };
    let line = on_exchange(&mut session, exchange, origin);
    assert_eq!(line, "Error: missing field `choices`");
    assert_eq!(session.history().len(), 1);
}
