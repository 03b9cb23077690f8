use aimo_note_agent::agent::ChatContext;
use aimo_note_agent::agent::get_system_prompt;
use aimo_note_agent::note::BaseNodeProperties;
use aimo_note_agent::note::ChatMessageNode;
use aimo_note_agent::note::ChatSessionMessage;
use aimo_note_agent::note::ChatSessionNode;
use aimo_note_agent::note::LexicalNode;
use aimo_note_agent::note::LexicalState;
use aimo_note_agent::note::LinkNode;
use aimo_note_agent::note::ListItemNode;
use aimo_note_agent::note::ListNode;
use aimo_note_agent::note::ListType;
use aimo_note_agent::note::MessageSender;
use aimo_note_agent::note::Note;
use aimo_note_agent::note::PageBreakNode;
use aimo_note_agent::note::ParagraphNode;
use aimo_note_agent::note::TextNode;

fn base() -> BaseNodeProperties {
    BaseNodeProperties { version: 1, direction: None, format: None, indent: None }
}

fn text(t: &str) -> LexicalNode {
    LexicalNode::Text(TextNode {
        text: t.to_string(),
        format: 0,
        detail: 0,
        mode: String::new(),
        style: String::new(),
        base: base(),
    })
}

fn paragraph(t: &str) -> LexicalNode {
    LexicalNode::Paragraph(ParagraphNode {
        children: vec![text(t)],
        text_format: 0,
        text_style: String::new(),
        base: base(),
    })
}

fn note_of(children: Vec<LexicalNode>) -> Note {
    Note {
        note_id: None,
        lexical_state: LexicalState {
            root: aimo_note_agent::note::RootNode {
                node_type: "root".to_string(),
                children,
                base: base(),
            },
        },
    }
}

#[test]
fn empty_text_child_is_dropped_from_brief() {
    let note = note_of(vec![
        text(""),
        paragraph("hi"),
        LexicalNode::PageBreak(PageBreakNode { base: base() }),
    ]);
    let briefs = note.get_brief();
    assert_eq!(briefs.len(), 2);
    assert_eq!(briefs[0].id, 1);
    assert_eq!(briefs[0].node_type, "paragraph");
    assert_eq!(briefs[0].content, "hi");
    assert_eq!(briefs[1].id, 2);
    assert_eq!(briefs[1].node_type, "page-break");
    assert_eq!(briefs[1].content, "---");
}

#[test]
fn whitespace_only_child_is_dropped() {
    let note = note_of(vec![text(" \t\n"), paragraph("kept")]);
    let briefs = note.get_brief();
    assert_eq!(briefs.len(), 1);
    assert_eq!(briefs[0].id, 1);
    assert_eq!(briefs[0].content, "kept");
}

#[test]
fn brief_ids_are_strictly_increasing() {
    let note = note_of(vec![paragraph("a"), text(""), paragraph("b"), paragraph("c")]);
    let briefs = note.get_brief();
    let ids: Vec<usize> = briefs.iter().map(|b| b.id).collect();
    assert_eq!(ids, vec![0, 2, 3]);
    for w in ids.windows(2) {
        assert!(w[0] < w[1]);
    }
    for b in &briefs {
        assert!(b.id < 4);
    }
}

#[test]
fn list_items_get_bullets_when_nested() {
    let item = |t: &str| {
        LexicalNode::ListItem(ListItemNode { children: vec![text(t)], base: base() })
    };
    let list = LexicalNode::List(ListNode {
        list_type: ListType::Bullet,
        start: None,
        children: vec![item("one"), item("two")],
        base: base(),
    });
    let note = note_of(vec![list]);
    let briefs = note.get_brief();
    assert_eq!(briefs.len(), 1);
    assert_eq!(briefs[0].node_type, "list");
    assert_eq!(briefs[0].content, "\u{2022} one\u{2022} two");
}

#[test]
fn link_brief_appends_url() {
    let link = LexicalNode::Link(LinkNode {
        url: "https://example.test".to_string(),
        rel: None,
        target: None,
        children: vec![text("site")],
        base: base(),
    });
    let note = note_of(vec![link]);
    let briefs = note.get_brief();
    assert_eq!(briefs[0].content, "site (https://example.test)");
}

#[test]
fn chat_nodes_are_formatted() {
    let msg = LexicalNode::ChatMessage(ChatMessageNode {
        sender: MessageSender::User,
        content: "hi".to_string(),
        timestamp: "t0".to_string(),
        base: base(),
    });
    let session = LexicalNode::ChatSession(ChatSessionNode {
        session_id: "s1".to_string(),
        messages: vec![
            ChatSessionMessage {
                id: 1,
                sender: MessageSender::User,
                content: "q".to_string(),
                timestamp: "t1".to_string(),
            },
            ChatSessionMessage {
                id: 2,
                sender: MessageSender::Agent,
                content: "a".to_string(),
                timestamp: "t2".to_string(),
            },
        ],
        base: base(),
    });
    let note = note_of(vec![msg, session]);
    let briefs = note.get_brief();
    assert_eq!(briefs[0].node_type, "chat-message");
    assert_eq!(briefs[0].content, "[user] hi");
    assert_eq!(briefs[1].node_type, "chat-session");
    assert_eq!(briefs[1].content, "[user] q\n[agent] a");
}

#[test]
fn extract_text_concatenates_in_order() {
    let note = note_of(vec![]);
    let nodes = vec![text("a"), paragraph("b"), text("c")];
    let s = note.extract_text_from_nodes(&nodes);
    assert_eq!(s, "abc");
}

#[test]
fn collect_brief_skips_blank_and_keys_by_index() {
    let note = note_of(vec![]);
    let mut briefs = Vec::new();
    note.collect_brief_from_node(&text("  "), &mut briefs, 5);
    assert_eq!(briefs.len(), 0);
    note.collect_brief_from_node(&paragraph("x"), &mut briefs, 7);
    assert_eq!(briefs.len(), 1);
    assert_eq!(briefs[0].id, 7);
    assert_eq!(briefs[0].content, "x");
}

#[test]
fn system_prompt_embeds_brief_and_cursor() {
    let note = note_of(vec![text(""), paragraph("hi")]);
    let ctx = ChatContext { note, cursor_position: 2 };
    let prompt = get_system_prompt(&ctx);
    assert!(prompt.contains(
        "[{\"id\":1,\"nodeType\":\"paragraph\",\"content\":\"hi\"}]"
    ));
    assert!(prompt.contains("requesting to do something at node 2 in the note"));
    assert!(prompt.contains("should be 1 here"));
}

#[test]
fn system_prompt_cursor_at_origin_suggests_zero() {
    let note = note_of(vec![paragraph("hi")]);
    let ctx = ChatContext { note, cursor_position: 0 };
    let prompt = get_system_prompt(&ctx);
    assert!(prompt.contains("at node 0 in the note"));
    assert!(prompt.contains("should be 0 here"));
}
