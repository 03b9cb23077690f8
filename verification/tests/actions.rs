use aimo_note_agent::agent::ActionError;
use aimo_note_agent::agent::ChatAction;

#[test]
fn fenced_reply_action_is_unwrapped() {
    let r = ChatAction::try_from_reply(
        " ```{\"action\":\"reply\",\"content\":\"hi\"}``` ".to_string(),
    );
    match r {
        Ok(ChatAction::Reply(rep)) => {
            assert_eq!(rep.action, "reply");
            assert_eq!(rep.content, "hi");
        }
        other => panic!("expected a reply action, got {:?}", other),
    }
}

#[test]
fn fenced_reply_with_language_tag() {
    let r = ChatAction::try_from_reply(
        "```json\n{\"action\":\"reply\",\"content\":\"hi\"}\n```".to_string(),
    );
    match r {
        Ok(ChatAction::Reply(rep)) => assert_eq!(rep.content, "hi"),
        other => panic!("expected a reply action, got {:?}", other),
    }
}

#[test]
fn plain_prose_passes_through() {
    let r = ChatAction::try_from_reply("Hello there".to_string());
    match r {
        Ok(ChatAction::Reply(rep)) => {
            assert_eq!(rep.action, "reply");
            assert_eq!(rep.content, "Hello there");
        }
        other => panic!("expected a reply action, got {:?}", other),
    }
}

#[test]
fn insert_node_is_decoded() {
    let r = ChatAction::try_from_reply(
        "{\"action\":\"insert_node\",\"insert_after\":2,\"node_type\":\"text\",\"content\":\"x\"}"
            .to_string(),
    );
    match r {
        Ok(ChatAction::InsertNode(a)) => {
            assert_eq!(a.action, "insert_node");
            assert_eq!(a.insert_after, 2);
            assert_eq!(a.node_type, "text");
            assert_eq!(a.content, "x");
        }
        other => panic!("expected an insert action, got {:?}", other),
    }
}

#[test]
fn modify_node_is_decoded() {
    let r = ChatAction::try_from_reply(
        "{\"action\":\"modify_node\",\"id\":0,\"node_type\":\"text\",\"content\":\"y\"}"
            .to_string(),
    );
    match r {
        Ok(ChatAction::ModifyNode(a)) => {
            assert_eq!(a.action, "modify_node");
            assert_eq!(a.id, 0);
            assert_eq!(a.node_type, "text");
            assert_eq!(a.content, "y");
        }
        other => panic!("expected a modify action, got {:?}", other),
    }
}

#[test]
fn actionless_json_is_prose() {
    let r = ChatAction::try_from_reply("{\"foo\":\"bar\"}".to_string());
    match r {
        Ok(ChatAction::Reply(rep)) => assert_eq!(rep.content, "{\"foo\":\"bar\"}"),
        other => panic!("expected a reply action, got {:?}", other),
    }
}

#[test]
fn unknown_action_is_surfaced() {
    let r = ChatAction::try_from_reply("{\"action\":\"delete_node\"}".to_string());
    match r {
        Err(ActionError::UnsupportedActionType(found)) => {
            assert_eq!(found, "\"delete_node\"");
        }
        other => panic!("expected an unsupported-action error, got {:?}", other),
    }
}

#[test]
fn non_string_action_is_surfaced() {
    let r = ChatAction::try_from_reply("{\"action\":7}".to_string());
    assert!(matches!(r, Err(ActionError::UnsupportedActionType(_))));
}

#[test]
fn broken_json_is_an_error() {
    let r = ChatAction::try_from_reply("{not json".to_string());
    assert!(matches!(r, Err(ActionError::MalformedActionJson)));
}

#[test]
fn missing_required_field_is_a_shape_error() {
    let r = ChatAction::try_from_reply("{\"action\":\"insert_node\",\"content\":\"x\"}".to_string());
    assert!(matches!(r, Err(ActionError::MalformedActionShape)));
}

#[test]
fn mistyped_field_is_a_shape_error() {
    let r = ChatAction::try_from_reply(
        "{\"action\":\"insert_node\",\"insert_after\":-1,\"node_type\":\"text\",\"content\":\"x\"}"
            .to_string(),
    );
    assert!(matches!(r, Err(ActionError::MalformedActionShape)));
}

#[test]
fn reply_from_text_sets_action() {
    let r = aimo_note_agent::agent::Reply::from("hello".to_string());
    assert_eq!(r.action, "reply");
    assert_eq!(r.content, "hello");
    let r2 = aimo_note_agent::agent::Reply::from("again");
    assert_eq!(r2.action, "reply");
    assert_eq!(r2.content, "again");
}
