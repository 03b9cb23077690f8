use aimo_note_agent::codec::NoteError;
use aimo_note_agent::note::AIEmbeddingNode;
use aimo_note_agent::note::BaseNodeProperties;
use aimo_note_agent::note::CodeNode;
use aimo_note_agent::note::HeadingNode;
use aimo_note_agent::note::HeadingTag;
use aimo_note_agent::note::LexicalNode;
use aimo_note_agent::note::LexicalState;
use aimo_note_agent::note::Note;
use aimo_note_agent::note::ParagraphNode;
use aimo_note_agent::note::RootNode;
use aimo_note_agent::note::TextDirection;
use aimo_note_agent::note::TextNode;

fn base() -> BaseNodeProperties {
    BaseNodeProperties { version: 1, direction: None, format: None, indent: None }
}

fn text(t: &str) -> LexicalNode {
    LexicalNode::Text(TextNode {
        text: t.to_string(),
        format: 3,
        detail: 0,
        mode: "normal".to_string(),
        style: String::new(),
        base: base(),
    })
}

fn sample_note() -> Note {
    Note {
        note_id: Some("note-1".to_string()),
        lexical_state: LexicalState {
            root: RootNode {
                node_type: "root".to_string(),
                children: vec![
                    text("plain \"quoted\"\nline"),
                    LexicalNode::Paragraph(ParagraphNode {
                        children: vec![text("inner")],
                        text_format: 0,
                        text_style: String::new(),
                        base: BaseNodeProperties {
                            version: 1,
                            direction: Some(TextDirection::LeftToRight),
                            format: Some("bold".to_string()),
                            indent: Some(2),
                        },
                    }),
                    LexicalNode::Heading(HeadingNode {
                        tag: HeadingTag::H2,
                        children: vec![text("title")],
                        base: base(),
                    }),
                    LexicalNode::Code(CodeNode {
                        text: Some("let x = 1;".to_string()),
                        language: Some("rust".to_string()),
                        children: None,
                        format: 0,
                        base: base(),
                    }),
                    LexicalNode::AIEmbedding(AIEmbeddingNode {
                        content: "HIII".to_string(),
                        is_loading: false,
                        base: base(),
                    }),
                ],
                base: base(),
            },
        },
    }
}

fn assert_notes_equal(a: &Note, b: &Note) {
    assert_eq!(a.note_id, b.note_id);
    assert_eq!(a.lexical_state.root.node_type, b.lexical_state.root.node_type);
    assert_eq!(
        a.lexical_state.root.children.len(),
        b.lexical_state.root.children.len()
    );
    let briefs_a = a.get_brief();
    let briefs_b = b.get_brief();
    assert_eq!(briefs_a.len(), briefs_b.len());
    for (x, y) in briefs_a.iter().zip(briefs_b.iter()) {
        assert_eq!(x.id, y.id);
        assert_eq!(x.node_type, y.node_type);
        assert_eq!(x.content, y.content);
    }
}

#[test]
fn tree_round_trip_restores_the_note() {
    let note = sample_note();
    let j = note.to_json();
    let back = Note::from_json(&j).expect("serialized note should deserialize");
    assert_notes_equal(&note, &back);
    match &back.lexical_state.root.children[1] {
        LexicalNode::Paragraph(p) => {
            assert_eq!(p.base.version, 1);
            assert!(matches!(p.base.direction, Some(TextDirection::LeftToRight)));
            assert_eq!(p.base.format.as_deref(), Some("bold"));
            assert_eq!(p.base.indent, Some(2));
        }
        other => panic!("expected a paragraph, got {:?}", other),
    }
}

#[test]
fn text_round_trip_through_real_json() {
    let note = sample_note();
    let serialized = note.to_json_text();
    let back = Note::from_json_text(&serialized).expect("canonical text should parse");
    assert_notes_equal(&note, &back);
    let serialized_again = back.to_json_text();
    assert_eq!(serialized, serialized_again);
}

#[test]
fn wire_format_uses_camel_case_keys() {
    let note = sample_note();
    let serialized = note.to_json_text();
    assert!(serialized.contains("\"noteId\":\"note-1\""));
    assert!(serialized.contains("\"lexicalState\":{\"root\":{\"type\":\"root\""));
    assert!(serialized.contains("\"isLoading\":false"));
    assert!(serialized.contains("\"direction\":\"ltr\""));
}

#[test]
fn handwritten_payload_with_unknown_fields_parses() {
    let payload = "{\"noteId\":\"n\",\"mystery\":[1,2],\"lexicalState\":{\"root\":{\
        \"type\":\"root\",\"children\":[{\"type\":\"text\",\"text\":\"hi\",\"format\":0,\
        \"surprise\":true,\"version\":1}],\"version\":1}}}";
    let note = Note::from_json_text(payload).expect("unknown fields are ignored");
    assert_eq!(note.note_id.as_deref(), Some("n"));
    assert_eq!(note.lexical_state.root.children.len(), 1);
    match &note.lexical_state.root.children[0] {
        LexicalNode::Text(t) => {
            assert_eq!(t.text, "hi");
            assert_eq!(t.detail, 0);
            assert_eq!(t.mode, "");
        }
        other => panic!("expected a text node, got {:?}", other),
    }
}

#[test]
fn unknown_node_type_fails_with_position() {
    let payload = "{\"lexicalState\":{\"root\":{\"type\":\"root\",\"children\":[\
        {\"type\":\"text\",\"text\":\"ok\",\"format\":0,\"version\":1},\
        {\"type\":\"hologram\",\"version\":1}],\"version\":1}}}";
    match Note::from_json_text(payload) {
        Err(NoteError::UnrecognizedNodeType { at, found }) => {
            assert_eq!(at, 1);
            assert_eq!(found, "hologram");
        }
        other => panic!("expected an unrecognized-node error, got {:?}", other),
    }
}

#[test]
fn missing_required_field_fails_as_malformed_node() {
    let payload = "{\"lexicalState\":{\"root\":{\"type\":\"root\",\"children\":[\
        {\"type\":\"text\",\"format\":0,\"version\":1}],\"version\":1}}}";
    match Note::from_json_text(payload) {
        Err(NoteError::MalformedNode { at }) => assert_eq!(at, 0),
        other => panic!("expected a malformed-node error, got {:?}", other),
    }
}

#[test]
fn broken_json_text_fails_early() {
    match Note::from_json_text("{not json") {
        Err(NoteError::MalformedDocumentJson) => {}
        other => panic!("expected a malformed-json error, got {:?}", other),
    }
}

#[test]
fn missing_lexical_state_is_a_document_error() {
    match Note::from_json_text("{\"noteId\":\"n\"}") {
        Err(NoteError::MalformedDocument) => {}
        other => panic!("expected a document error, got {:?}", other),
    }
}
