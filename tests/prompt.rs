use backend::prompt::{
    compose_messages, context_message, ChatRole, GenerateRequest, Message, Relationship,
    SYSTEM_PROMPT,
};

fn msg(role: ChatRole, content: &str) -> Message {
    Message { role, content: content.to_string() }
}

fn rel(to: &str, description: &str) -> Relationship {
    Relationship { to: to.to_string(), description: description.to_string() }
}

fn request(
    histories: Vec<Message>,
    characteristics: Vec<&str>,
    relationships: Vec<Relationship>,
) -> GenerateRequest {
    GenerateRequest {
        histories,
        characteristics: characteristics.into_iter().map(|c| c.to_string()).collect(),
        relationships,
    }
}

#[test]
fn brave_characteristic_composes_three_messages() {
    let req = request(vec![msg(ChatRole::User, "Hi")], vec!["is brave"], vec![]);
    let out = compose_messages(&req);
    assert_eq!(out.len(), 3);
    assert_eq!(out[0].role, ChatRole::System);
    assert_eq!(out[0].content, SYSTEM_PROMPT);
    assert_eq!(out[1].role, ChatRole::User);
    assert_eq!(out[1].content, "- This character is brave\n");
    assert_eq!(out[2].role, ChatRole::User);
    assert_eq!(out[2].content, "Hi");
}

#[test]
fn empty_request_composes_system_prompt_only() {
    let out = compose_messages(&request(vec![], vec![], vec![]));
    assert_eq!(out.len(), 1);
    assert_eq!(out[0].role, ChatRole::System);
    assert_eq!(out[0].content, SYSTEM_PROMPT);
}

#[test]
fn no_context_adds_one_message() {
    let req = request(
        vec![msg(ChatRole::User, "Hi"), msg(ChatRole::Assistant, "Hello"), msg(ChatRole::User, "A name?")],
        vec![],
        vec![],
    );
    let out = compose_messages(&req);
    assert_eq!(out.len(), 4);
    assert_eq!(out[1].content, "Hi");
}

#[test]
fn context_lines_keep_their_order() {
    let req = request(
        vec![msg(ChatRole::User, "Hi")],
        vec!["is brave", "likes tea"],
        vec![rel("Anna", "are sisters"), rel("Bob", "are rivals")],
    );
    let out = compose_messages(&req);
    assert_eq!(out.len(), 3);
    assert_eq!(
        out[1].content,
        "- This character is brave\n- This character likes tea\n- This character and Anna are sisters\n- This character and Bob are rivals"
    );
}

#[test]
fn relationships_alone_follow_an_empty_block() {
    let req = request(vec![], vec![], vec![rel("Bob", "are rivals")]);
    let out = compose_messages(&req);
    assert_eq!(out.len(), 2);
    assert_eq!(out[1].role, ChatRole::User);
    assert_eq!(out[1].content, "\n- This character and Bob are rivals");
}

#[test]
fn context_message_joins_lines() {
    let chars = vec!["is brave".to_string(), "is tall".to_string()];
    let text = context_message(&chars, &vec![]);
    assert_eq!(text, "- This character is brave\n- This character is tall\n");
    assert_eq!(context_message(&vec![], &vec![]), "\n");
}

#[test]
fn history_roles_and_order_unchanged() {
    let req = request(
        vec![
            msg(ChatRole::System, "be brief"),
            msg(ChatRole::User, "first"),
            msg(ChatRole::Assistant, "second"),
        ],
        vec!["is old"],
        vec![],
    );
    let out = compose_messages(&req);
    assert_eq!(out.len(), 5);
    assert_eq!(out[0].role, ChatRole::System);
    assert_eq!(out[0].content, SYSTEM_PROMPT);
    assert_eq!((out[2].role, out[2].content.as_str()), (ChatRole::System, "be brief"));
    assert_eq!((out[3].role, out[3].content.as_str()), (ChatRole::User, "first"));
    assert_eq!((out[4].role, out[4].content.as_str()), (ChatRole::Assistant, "second"));
}
