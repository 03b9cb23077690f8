//! The canonical tree-JSON form of a note.
//!
//! `Note::to_json` serializes a note into the library's JSON tree;
//! `Note::from_json` reads one back. Both directions are specified here as
//! recursive functions on the shadows, and `lemma_note_round_trip` proves
//! that deserializing a serialized document restores it field for field.
//!
//! One wire quirk, inherited from the schema: a node kind that owns a
//! `format` count (text, code, hashtag, mention) claims that key for
//! itself, so the shared base attributes of such a node cannot carry a
//! `format` string; `node_wf` states that validity condition.

use vstd::prelude::*;

use crate::json::Json;
use crate::json::JsonVal;
use crate::json::field_lookup;
use crate::json::field_lookup_from;
use crate::json::fields_view;
use crate::note::AIEmbeddingNode;
use crate::note::AutoLinkNode;
use crate::note::BaseNodeProperties;
use crate::note::ChatMessageNode;
use crate::note::ChatSessionMessage;
use crate::note::ChatSessionNode;
use crate::note::CodeNode;
use crate::note::HashtagNode;
use crate::note::HeadingNode;
use crate::note::LexicalNode;
use crate::note::LexicalState;
use crate::note::LinkNode;
use crate::note::ListItemNode;
use crate::note::ListNode;
use crate::note::MentionNode;
use crate::note::Note;
use crate::note::PageBreakNode;
use crate::note::ParagraphNode;
use crate::note::QuoteNode;
use crate::note::RootNode;
use crate::note::TableCellNode;
use crate::note::TableNode;
use crate::note::TableRowNode;
use crate::note::TextNode;
use crate::note::VoiceInputNode;
use crate::note::BaseV;
use crate::note::ChatSessionMessageV;
use crate::note::HeadingTag;
use crate::note::ListType;
use crate::note::LexicalStateV;
use crate::note::MessageSender;
use crate::note::NodeV;
use crate::note::NoteV;
use crate::note::RootV;
use crate::note::TextDirection;
use crate::note::sender_text;

verus! {

/// A field list of a JSON object.
pub type JFields = Seq<(Seq<char>, JsonVal)>;

// ----------------------------------------------------------------------
// Serialization, specified.
// ----------------------------------------------------------------------

/// The wire text of a heading tag.
pub open spec fn tag_text(t: HeadingTag) -> Seq<char> {
    match t {
        HeadingTag::H1 => "h1"@,
        HeadingTag::H2 => "h2"@,
        HeadingTag::H3 => "h3"@,
        HeadingTag::H4 => "h4"@,
        HeadingTag::H5 => "h5"@,
        HeadingTag::H6 => "h6"@,
    }
}

/// The wire text of a list kind.
pub open spec fn list_type_text(t: ListType) -> Seq<char> {
    match t {
        ListType::Bullet => "bullet"@,
        ListType::Number => "number"@,
    }
}

/// The wire entries of an optional text field: absent when `None`.
pub open spec fn opt_text_entry(key: Seq<char>, v: Option<Seq<char>>) -> JFields {
    match v {
        None => Seq::empty(),
        Some(s) => seq![(key, JsonVal::Text(s))],
    }
}

/// The wire entries of an optional count field: absent when `None`.
pub open spec fn opt_u32_entry(key: Seq<char>, v: Option<u32>) -> JFields {
    match v {
        None => Seq::empty(),
        Some(n) => seq![(key, JsonVal::UInt(n as u64))],
    }
}

/// The wire entries of an optional text direction: absent when `None`.
pub open spec fn dir_entries(d: Option<TextDirection>) -> JFields {
    match d {
        None => Seq::empty(),
        Some(TextDirection::LeftToRight) => seq![("direction"@, JsonVal::Text("ltr"@))],
        Some(TextDirection::RightToLeft) => seq![("direction"@, JsonVal::Text("rtl"@))],
    }
}

/// The wire entries of the shared base attributes. A node kind that owns a
/// `format` key keeps the base's `format` off the wire.
pub open spec fn base_entries(b: BaseV, own_format: bool) -> JFields {
    seq![("version"@, JsonVal::UInt(b.version as u64))] + dir_entries(b.direction) + (if own_format {
        Seq::empty()
    } else {
        opt_text_entry("format"@, b.format)
    }) + opt_u32_entry("indent"@, b.indent)
}

/// The wire form of one chat-session record.
pub open spec fn msg_jv(m: ChatSessionMessageV) -> JsonVal {
    JsonVal::Obj(
        seq![
            ("id"@, JsonVal::UInt(m.id as u64)),
            ("sender"@, JsonVal::Text(sender_text(m.sender))),
            ("content"@, JsonVal::Text(m.content)),
            ("timestamp"@, JsonVal::Text(m.timestamp)),
        ],
    )
}

/// The wire form of a chat session's records.
pub open spec fn msgs_jv(ms: Seq<ChatSessionMessageV>) -> Seq<JsonVal> {
    Seq::new(ms.len(), |i: int| msg_jv(ms[i]))
}

/// The wire form of one node.
pub open spec fn node_jv(n: NodeV) -> JsonVal
    decreases n, 1int, 0int,
{
    match n {
        NodeV::Text { text, format, detail, mode, style, base } => JsonVal::Obj(
            seq![
                ("type"@, JsonVal::Text("text"@)),
                ("text"@, JsonVal::Text(text)),
                ("format"@, JsonVal::UInt(format as u64)),
                ("detail"@, JsonVal::UInt(detail as u64)),
                ("mode"@, JsonVal::Text(mode)),
                ("style"@, JsonVal::Text(style)),
            ] + base_entries(base, true),
        ),
        NodeV::Paragraph { children, text_format, text_style, base } => JsonVal::Obj(
            seq![
                ("type"@, JsonVal::Text("paragraph"@)),
                ("children"@, JsonVal::Arr(nodes_jv(children))),
                ("textFormat"@, JsonVal::UInt(text_format as u64)),
                ("textStyle"@, JsonVal::Text(text_style)),
            ] + base_entries(base, false),
        ),
        NodeV::Heading { tag, children, base } => JsonVal::Obj(
            seq![
                ("type"@, JsonVal::Text("heading"@)),
                ("tag"@, JsonVal::Text(tag_text(tag))),
                ("children"@, JsonVal::Arr(nodes_jv(children))),
            ] + base_entries(base, false),
        ),
        NodeV::List { list_type, start, children, base } => JsonVal::Obj(
            seq![
                ("type"@, JsonVal::Text("list"@)),
                ("listType"@, JsonVal::Text(list_type_text(list_type))),
                (
                    "start"@,
                    match start {
                        Some(u) => JsonVal::UInt(u as u64),
                        None => JsonVal::Null,
                    },
                ),
                ("children"@, JsonVal::Arr(nodes_jv(children))),
            ] + base_entries(base, false),
        ),
        NodeV::ListItem { children, base } => JsonVal::Obj(
            seq![
                ("type"@, JsonVal::Text("listitem"@)),
                ("children"@, JsonVal::Arr(nodes_jv(children))),
            ] + base_entries(base, false),
        ),
        NodeV::Quote { children, base } => JsonVal::Obj(
            seq![
                ("type"@, JsonVal::Text("quote"@)),
                ("children"@, JsonVal::Arr(nodes_jv(children))),
            ] + base_entries(base, false),
        ),
        NodeV::Code { text, language, children, format, base } => JsonVal::Obj(
            seq![("type"@, JsonVal::Text("code"@))] + opt_text_entry("text"@, text)
                + opt_text_entry("language"@, language) + (match children {
                Some(cs) => seq![("children"@, JsonVal::Arr(nodes_jv(cs)))],
                None => Seq::empty(),
            }) + seq![("format"@, JsonVal::UInt(format as u64))] + base_entries(base, true),
        ),
        NodeV::Link { url, rel, target, children, base } => JsonVal::Obj(
            seq![("type"@, JsonVal::Text("link"@)), ("url"@, JsonVal::Text(url))]
                + opt_text_entry("rel"@, rel) + opt_text_entry("target"@, target) + seq![
                ("children"@, JsonVal::Arr(nodes_jv(children))),
            ] + base_entries(base, false),
        ),
        NodeV::AutoLink { url, children, base } => JsonVal::Obj(
            seq![
                ("type"@, JsonVal::Text("autolink"@)),
                ("url"@, JsonVal::Text(url)),
                ("children"@, JsonVal::Arr(nodes_jv(children))),
            ] + base_entries(base, false),
        ),
        NodeV::Hashtag { text, format, base } => JsonVal::Obj(
            seq![
                ("type"@, JsonVal::Text("hashtag"@)),
                ("text"@, JsonVal::Text(text)),
                ("format"@, JsonVal::UInt(format as u64)),
            ] + base_entries(base, true),
        ),
        NodeV::Table { children, base } => JsonVal::Obj(
            seq![
                ("type"@, JsonVal::Text("table"@)),
                ("children"@, JsonVal::Arr(nodes_jv(children))),
            ] + base_entries(base, false),
        ),
        NodeV::TableRow { children, base } => JsonVal::Obj(
            seq![
                ("type"@, JsonVal::Text("tablerow"@)),
                ("children"@, JsonVal::Arr(nodes_jv(children))),
            ] + base_entries(base, false),
        ),
        NodeV::TableCell { children, header_state, col_span, row_span, base } => JsonVal::Obj(
            seq![
                ("type"@, JsonVal::Text("tablecell"@)),
                ("children"@, JsonVal::Arr(nodes_jv(children))),
                ("headerState"@, JsonVal::UInt(header_state as u64)),
                ("colSpan"@, JsonVal::UInt(col_span as u64)),
                ("rowSpan"@, JsonVal::UInt(row_span as u64)),
            ] + base_entries(base, false),
        ),
        NodeV::PageBreak { base } => JsonVal::Obj(
            seq![("type"@, JsonVal::Text("page-break"@))] + base_entries(base, false),
        ),
        NodeV::AIEmbedding { content, is_loading, base } => JsonVal::Obj(
            seq![
                ("type"@, JsonVal::Text("ai-embedding"@)),
                ("content"@, JsonVal::Text(content)),
                ("isLoading"@, JsonVal::Bool(is_loading)),
            ] + base_entries(base, false),
        ),
        NodeV::VoiceInput { content, base } => JsonVal::Obj(
            seq![
                ("type"@, JsonVal::Text("voice-input"@)),
                ("content"@, JsonVal::Text(content)),
            ] + base_entries(base, false),
        ),
        NodeV::ChatMessage { sender, content, timestamp, base } => JsonVal::Obj(
            seq![
                ("type"@, JsonVal::Text("chat-message"@)),
                ("sender"@, JsonVal::Text(sender_text(sender))),
                ("content"@, JsonVal::Text(content)),
                ("timestamp"@, JsonVal::Text(timestamp)),
            ] + base_entries(base, false),
        ),
        NodeV::ChatSession { session_id, messages, base } => JsonVal::Obj(
            seq![
                ("type"@, JsonVal::Text("chat-session"@)),
                ("sessionId"@, JsonVal::Text(session_id)),
                ("messages"@, JsonVal::Arr(msgs_jv(messages))),
            ] + base_entries(base, false),
        ),
        NodeV::Mention { mention_name, text, format, base } => JsonVal::Obj(
            seq![
                ("type"@, JsonVal::Text("mention"@)),
                ("mentionName"@, JsonVal::Text(mention_name)),
                ("text"@, JsonVal::Text(text)),
                ("format"@, JsonVal::UInt(format as u64)),
            ] + base_entries(base, true),
        ),
    }
}

/// The wire forms of a node sequence.
pub open spec fn nodes_jv(ns: Seq<NodeV>) -> Seq<JsonVal>
    decreases ns, 0int, 0int,
{
    Seq::new(
        ns.len(),
        |i: int|
            if 0 <= i < ns.len() {
                node_jv(ns[i])
            } else {
                JsonVal::Null
            },
    )
}

/// The wire form of the root node.
pub open spec fn root_jv(r: RootV) -> JsonVal {
    JsonVal::Obj(
        seq![
            ("type"@, JsonVal::Text(r.node_type)),
            ("children"@, JsonVal::Arr(nodes_jv(r.children))),
        ] + base_entries(r.base, false),
    )
}

/// The wire form of the optional note identifier.
pub open spec fn note_id_jv(id: Option<Seq<char>>) -> JsonVal {
    match id {
        Some(s) => JsonVal::Text(s),
        None => JsonVal::Null,
    }
}

/// The wire form of a whole note.
pub open spec fn note_jv(n: NoteV) -> JsonVal {
    JsonVal::Obj(
        seq![
            ("noteId"@, note_id_jv(n.note_id)),
            (
                "lexicalState"@,
                JsonVal::Obj(seq![("root"@, root_jv(n.lexical_state.root))]),
            ),
        ],
    )
}

// ----------------------------------------------------------------------
// Deserialization, specified.
// ----------------------------------------------------------------------

/// Why one node fails to decode.
#[verifier::ext_equal]
pub enum DocErrV {
    /// An unrecognized `type` discriminator, carried for diagnostics.
    UnknownNodeType(Seq<char>),
    /// A missing or mistyped required field.
    BadShape,
}

/// Why a whole document fails to decode.
#[verifier::ext_equal]
pub enum NoteErrV {
    /// The surrounding document object is malformed.
    BadDocument,
    /// The top-level child at `at` (or a node below it) fails to decode.
    BadChild { at: int, err: DocErrV },
}

/// A required unsigned count.
pub open spec fn req_u32(fs: JFields, key: Seq<char>) -> Option<u32> {
    match field_lookup(fs, key) {
        Some(JsonVal::UInt(n)) => if n <= u32::MAX as u64 {
            Some(n as u32)
        } else {
            None
        },
        _ => None,
    }
}

/// A required text field.
pub open spec fn req_text(fs: JFields, key: Seq<char>) -> Option<Seq<char>> {
    match field_lookup(fs, key) {
        Some(JsonVal::Text(s)) => Some(s),
        _ => None,
    }
}

/// A required boolean field.
pub open spec fn req_bool(fs: JFields, key: Seq<char>) -> Option<bool> {
    match field_lookup(fs, key) {
        Some(JsonVal::Bool(b)) => Some(b),
        _ => None,
    }
}

/// An optional unsigned count: absent or null is `None`.
pub open spec fn opt_u32(fs: JFields, key: Seq<char>) -> Option<Option<u32>> {
    match field_lookup(fs, key) {
        None => Some(None),
        Some(JsonVal::Null) => Some(None),
        Some(JsonVal::UInt(n)) => if n <= u32::MAX as u64 {
            Some(Some(n as u32))
        } else {
            None
        },
        _ => None,
    }
}

/// An optional text field: absent or null is `None`.
pub open spec fn opt_text(fs: JFields, key: Seq<char>) -> Option<Option<Seq<char>>> {
    match field_lookup(fs, key) {
        None => Some(None),
        Some(JsonVal::Null) => Some(None),
        Some(JsonVal::Text(s)) => Some(Some(s)),
        _ => None,
    }
}

/// An unsigned count that defaults to zero when absent.
pub open spec fn dflt_u32(fs: JFields, key: Seq<char>) -> Option<u32> {
    match field_lookup(fs, key) {
        None => Some(0),
        Some(JsonVal::UInt(n)) => if n <= u32::MAX as u64 {
            Some(n as u32)
        } else {
            None
        },
        _ => None,
    }
}

/// A text field that defaults to empty when absent.
pub open spec fn dflt_text(fs: JFields, key: Seq<char>) -> Option<Seq<char>> {
    match field_lookup(fs, key) {
        None => Some(Seq::empty()),
        Some(JsonVal::Text(s)) => Some(s),
        _ => None,
    }
}

/// The optional text direction.
pub open spec fn dir_of(fs: JFields) -> Option<Option<TextDirection>> {
    match field_lookup(fs, "direction"@) {
        None => Some(None),
        Some(JsonVal::Null) => Some(None),
        Some(JsonVal::Text(s)) => if s == "ltr"@ {
            Some(Some(TextDirection::LeftToRight))
        } else if s == "rtl"@ {
            Some(Some(TextDirection::RightToLeft))
        } else {
            None
        },
        _ => None,
    }
}

/// The heading tag named `s`, if any.
pub open spec fn tag_of(s: Seq<char>) -> Option<HeadingTag> {
    if s == "h1"@ {
        Some(HeadingTag::H1)
    } else if s == "h2"@ {
        Some(HeadingTag::H2)
    } else if s == "h3"@ {
        Some(HeadingTag::H3)
    } else if s == "h4"@ {
        Some(HeadingTag::H4)
    } else if s == "h5"@ {
        Some(HeadingTag::H5)
    } else if s == "h6"@ {
        Some(HeadingTag::H6)
    } else {
        None
    }
}

/// The list kind named `s`, if any.
pub open spec fn list_type_of(s: Seq<char>) -> Option<ListType> {
    if s == "bullet"@ {
        Some(ListType::Bullet)
    } else if s == "number"@ {
        Some(ListType::Number)
    } else {
        None
    }
}

/// The sender named `s`, if any.
pub open spec fn sender_of(s: Seq<char>) -> Option<MessageSender> {
    if s == "user"@ {
        Some(MessageSender::User)
    } else if s == "agent"@ {
        Some(MessageSender::Agent)
    } else if s == "system"@ {
        Some(MessageSender::System)
    } else {
        None
    }
}

/// The shared base attributes read back from a field list.
pub open spec fn base_of(fs: JFields, own_format: bool) -> Option<BaseV> {
    if req_u32(fs, "version"@) is Some && dir_of(fs) is Some && (own_format || opt_text(
        fs,
        "format"@,
    ) is Some) && opt_u32(fs, "indent"@) is Some {
        Some(
            (BaseV {
                version: req_u32(fs, "version"@)->0,
                direction: dir_of(fs)->0,
                format: if own_format {
                    None
                } else {
                    opt_text(fs, "format"@)->0
                },
                indent: opt_u32(fs, "indent"@)->0,
            }),
        )
    } else {
        None
    }
}

/// One chat-session record read back.
pub open spec fn jv_msg(j: JsonVal) -> Option<ChatSessionMessageV> {
    match j {
        JsonVal::Obj(fs) => {
            if req_u32(fs, "id"@) is Some && req_text(fs, "sender"@) is Some && sender_of(
                req_text(fs, "sender"@)->0,
            ) is Some && req_text(fs, "content"@) is Some && req_text(fs, "timestamp"@) is Some {
                Some(
                    (ChatSessionMessageV {
                        id: req_u32(fs, "id"@)->0,
                        sender: sender_of(req_text(fs, "sender"@)->0)->0,
                        content: req_text(fs, "content"@)->0,
                        timestamp: req_text(fs, "timestamp"@)->0,
                    }),
                )
            } else {
                None
            }
        },
        _ => None,
    }
}

/// Chat-session records read back, from index `i` on.
pub open spec fn jv_msgs_from(items: Seq<JsonVal>, i: int) -> Option<Seq<ChatSessionMessageV>>
    decreases items.len() - i,
{
    if i < 0 || i > items.len() {
        None
    } else if i == items.len() {
        Some(Seq::empty())
    } else {
        match (jv_msg(items[i]), jv_msgs_from(items, i + 1)) {
            (Some(m), Some(rest)) => Some(seq![m] + rest),
            _ => None,
        }
    }
}

} // verus!

verus! {

pub proof fn lemma_lookup_smaller(fs: JFields, key: Seq<char>, i: int)
    requires
        0 <= i,
        field_lookup_from(fs, key, i) is Some,
    ensures
        decreases_to!(fs => field_lookup_from(fs, key, i)->0),
    decreases fs.len() - i,
{
    if i < fs.len() {
        if fs[i].0 == key {
            assert(decreases_to!(fs => fs[i]));
            assert(decreases_to!(fs[i] => fs[i].1));
        } else {
            lemma_lookup_smaller(fs, key, i + 1);
        }
    }
}

/// The node sequence under a `children` key.
pub open spec fn jv_children_of(fs: JFields) -> Result<Seq<NodeV>, (int, DocErrV)>
    decreases fs, 3int, 0int,
    via jv_children_of_dec
{
    match field_lookup(fs, "children"@) {
        Some(JsonVal::Arr(items)) => jv_nodes_from(items, 0),
        _ => Err((0, DocErrV::BadShape)),
    }
}

#[via_fn]
proof fn jv_children_of_dec(fs: JFields) {
    match field_lookup(fs, "children"@) {
        Some(v) => {
            lemma_lookup_smaller(fs, "children"@, 0);
            match v {
                JsonVal::Arr(items) => {
                    assert(decreases_to!(v => items));
                },
                _ => {},
            }
        },
        None => {},
    }
}

/// Nodes read back from wire forms, from index `i` on; on failure, the
/// index of the first offending element.
pub open spec fn jv_nodes_from(items: Seq<JsonVal>, i: int) -> Result<Seq<NodeV>, (int, DocErrV)>
    decreases items, 2int, items.len() - i,
{
    if i < 0 || i > items.len() {
        Err((0, DocErrV::BadShape))
    } else if i == items.len() {
        Ok(Seq::empty())
    } else {
        match jv_node(items[i]) {
            Err(e) => Err((i, e)),
            Ok(n) => match jv_nodes_from(items, i + 1) {
                Err(p) => Err(p),
                Ok(rest) => Ok(seq![n] + rest),
            },
        }
    }
}

pub open spec fn jv_text_node(fs: JFields) -> Result<NodeV, DocErrV> {
    if req_text(fs, "text"@) is Some && req_u32(fs, "format"@) is Some && dflt_u32(
        fs,
        "detail"@,
    ) is Some && dflt_text(fs, "mode"@) is Some && dflt_text(fs, "style"@) is Some && base_of(
        fs,
        true,
    ) is Some {
        Ok(
            (NodeV::Text {
                text: req_text(fs, "text"@)->0,
                format: req_u32(fs, "format"@)->0,
                detail: dflt_u32(fs, "detail"@)->0,
                mode: dflt_text(fs, "mode"@)->0,
                style: dflt_text(fs, "style"@)->0,
                base: base_of(fs, true)->0,
            }),
        )
    } else {
        Err(DocErrV::BadShape)
    }
}

pub open spec fn jv_paragraph(fs: JFields) -> Result<NodeV, DocErrV>
    decreases fs, 4int, 0int,
{
    match jv_children_of(fs) {
        Err(p) => Err(p.1),
        Ok(children) => if dflt_u32(fs, "textFormat"@) is Some && dflt_text(
            fs,
            "textStyle"@,
        ) is Some && base_of(fs, false) is Some {
            Ok(
                (NodeV::Paragraph {
                    children,
                    text_format: dflt_u32(fs, "textFormat"@)->0,
                    text_style: dflt_text(fs, "textStyle"@)->0,
                    base: base_of(fs, false)->0,
                }),
            )
        } else {
            Err(DocErrV::BadShape)
        },
    }
}

pub open spec fn jv_heading(fs: JFields) -> Result<NodeV, DocErrV>
    decreases fs, 4int, 0int,
{
    match jv_children_of(fs) {
        Err(p) => Err(p.1),
        Ok(children) => if req_text(fs, "tag"@) is Some && tag_of(req_text(fs, "tag"@)->0) is Some
            && base_of(fs, false) is Some {
            Ok(
                (NodeV::Heading {
                    tag: tag_of(req_text(fs, "tag"@)->0)->0,
                    children,
                    base: base_of(fs, false)->0,
                }),
            )
        } else {
            Err(DocErrV::BadShape)
        },
    }
}

pub open spec fn jv_list(fs: JFields) -> Result<NodeV, DocErrV>
    decreases fs, 4int, 0int,
{
    match jv_children_of(fs) {
        Err(p) => Err(p.1),
        Ok(children) => if req_text(fs, "listType"@) is Some && list_type_of(
            req_text(fs, "listType"@)->0,
        ) is Some && opt_u32(fs, "start"@) is Some && base_of(fs, false) is Some {
            Ok(
                (NodeV::List {
                    list_type: list_type_of(req_text(fs, "listType"@)->0)->0,
                    start: opt_u32(fs, "start"@)->0,
                    children,
                    base: base_of(fs, false)->0,
                }),
            )
        } else {
            Err(DocErrV::BadShape)
        },
    }
}

pub open spec fn jv_children_only(fs: JFields, kind: int) -> Result<NodeV, DocErrV>
    decreases fs, 4int, 0int,
{
    match jv_children_of(fs) {
        Err(p) => Err(p.1),
        Ok(children) => if base_of(fs, false) is Some {
            let base = base_of(fs, false)->0;
            if kind == 0 {
                Ok((NodeV::ListItem { children, base }))
            } else if kind == 1 {
                Ok((NodeV::Quote { children, base }))
            } else if kind == 2 {
                Ok((NodeV::Table { children, base }))
            } else {
                Ok((NodeV::TableRow { children, base }))
            }
        } else {
            Err(DocErrV::BadShape)
        },
    }
}

pub open spec fn jv_code(fs: JFields) -> Result<NodeV, DocErrV>
    decreases fs, 4int, 0int,
    via jv_code_dec
{
    let children_r: Result<Option<Seq<NodeV>>, (int, DocErrV)> = match field_lookup(
        fs,
        "children"@,
    ) {
        None => Ok(None),
        Some(JsonVal::Null) => Ok(None),
        Some(JsonVal::Arr(items)) => match jv_nodes_from(items, 0) {
            Ok(cs) => Ok(Some(cs)),
            Err(p) => Err(p),
        },
        _ => Err((0, DocErrV::BadShape)),
    };
    match children_r {
        Err(p) => Err(p.1),
        Ok(children) => if opt_text(fs, "text"@) is Some && opt_text(fs, "language"@) is Some
            && req_u32(fs, "format"@) is Some && base_of(fs, true) is Some {
            Ok(
                (NodeV::Code {
                    text: opt_text(fs, "text"@)->0,
                    language: opt_text(fs, "language"@)->0,
                    children,
                    format: req_u32(fs, "format"@)->0,
                    base: base_of(fs, true)->0,
                }),
            )
        } else {
            Err(DocErrV::BadShape)
        },
    }
}

#[via_fn]
proof fn jv_code_dec(fs: JFields) {
    match field_lookup(fs, "children"@) {
        Some(v) => {
            lemma_lookup_smaller(fs, "children"@, 0);
            match v {
                JsonVal::Arr(items) => {
                    assert(decreases_to!(v => items));
                },
                _ => {},
            }
        },
        None => {},
    }
}

pub open spec fn jv_link(fs: JFields) -> Result<NodeV, DocErrV>
    decreases fs, 4int, 0int,
{
    match jv_children_of(fs) {
        Err(p) => Err(p.1),
        Ok(children) => if req_text(fs, "url"@) is Some && opt_text(fs, "rel"@) is Some && opt_text(
            fs,
            "target"@,
        ) is Some && base_of(fs, false) is Some {
            Ok(
                (NodeV::Link {
                    url: req_text(fs, "url"@)->0,
                    rel: opt_text(fs, "rel"@)->0,
                    target: opt_text(fs, "target"@)->0,
                    children,
                    base: base_of(fs, false)->0,
                }),
            )
        } else {
            Err(DocErrV::BadShape)
        },
    }
}

pub open spec fn jv_autolink(fs: JFields) -> Result<NodeV, DocErrV>
    decreases fs, 4int, 0int,
{
    match jv_children_of(fs) {
        Err(p) => Err(p.1),
        Ok(children) => if req_text(fs, "url"@) is Some && base_of(fs, false) is Some {
            Ok(
                (NodeV::AutoLink {
                    url: req_text(fs, "url"@)->0,
                    children,
                    base: base_of(fs, false)->0,
                }),
            )
        } else {
            Err(DocErrV::BadShape)
        },
    }
}

pub open spec fn jv_hashtag(fs: JFields) -> Result<NodeV, DocErrV> {
    if req_text(fs, "text"@) is Some && req_u32(fs, "format"@) is Some && base_of(
        fs,
        true,
    ) is Some {
        Ok(
            (NodeV::Hashtag {
                text: req_text(fs, "text"@)->0,
                format: req_u32(fs, "format"@)->0,
                base: base_of(fs, true)->0,
            }),
        )
    } else {
        Err(DocErrV::BadShape)
    }
}

pub open spec fn jv_tablecell(fs: JFields) -> Result<NodeV, DocErrV>
    decreases fs, 4int, 0int,
{
    match jv_children_of(fs) {
        Err(p) => Err(p.1),
        Ok(children) => if req_u32(fs, "headerState"@) is Some && req_u32(fs, "colSpan"@) is Some
            && req_u32(fs, "rowSpan"@) is Some && base_of(fs, false) is Some {
            Ok(
                (NodeV::TableCell {
                    children,
                    header_state: req_u32(fs, "headerState"@)->0,
                    col_span: req_u32(fs, "colSpan"@)->0,
                    row_span: req_u32(fs, "rowSpan"@)->0,
                    base: base_of(fs, false)->0,
                }),
            )
        } else {
            Err(DocErrV::BadShape)
        },
    }
}

pub open spec fn jv_pagebreak(fs: JFields) -> Result<NodeV, DocErrV> {
    if base_of(fs, false) is Some {
        Ok((NodeV::PageBreak { base: base_of(fs, false)->0 }))
    } else {
        Err(DocErrV::BadShape)
    }
}

pub open spec fn jv_ai_embedding(fs: JFields) -> Result<NodeV, DocErrV> {
    if req_text(fs, "content"@) is Some && req_bool(fs, "isLoading"@) is Some && base_of(
        fs,
        false,
    ) is Some {
        Ok(
            (NodeV::AIEmbedding {
                content: req_text(fs, "content"@)->0,
                is_loading: req_bool(fs, "isLoading"@)->0,
                base: base_of(fs, false)->0,
            }),
        )
    } else {
        Err(DocErrV::BadShape)
    }
}

pub open spec fn jv_voice_input(fs: JFields) -> Result<NodeV, DocErrV> {
    if req_text(fs, "content"@) is Some && base_of(fs, false) is Some {
        Ok(
            (NodeV::VoiceInput {
                content: req_text(fs, "content"@)->0,
                base: base_of(fs, false)->0,
            }),
        )
    } else {
        Err(DocErrV::BadShape)
    }
}

pub open spec fn jv_chat_message(fs: JFields) -> Result<NodeV, DocErrV> {
    if req_text(fs, "sender"@) is Some && sender_of(req_text(fs, "sender"@)->0) is Some
        && req_text(fs, "content"@) is Some && req_text(fs, "timestamp"@) is Some && base_of(
        fs,
        false,
    ) is Some {
        Ok(
            (NodeV::ChatMessage {
                sender: sender_of(req_text(fs, "sender"@)->0)->0,
                content: req_text(fs, "content"@)->0,
                timestamp: req_text(fs, "timestamp"@)->0,
                base: base_of(fs, false)->0,
            }),
        )
    } else {
        Err(DocErrV::BadShape)
    }
}

pub open spec fn jv_chat_session(fs: JFields) -> Result<NodeV, DocErrV> {
    match field_lookup(fs, "messages"@) {
        Some(JsonVal::Arr(items)) => match jv_msgs_from(items, 0) {
            Some(messages) => if req_text(fs, "sessionId"@) is Some && base_of(
                fs,
                false,
            ) is Some {
                Ok(
                    (NodeV::ChatSession {
                        session_id: req_text(fs, "sessionId"@)->0,
                        messages,
                        base: base_of(fs, false)->0,
                    }),
                )
            } else {
                Err(DocErrV::BadShape)
            },
            None => Err(DocErrV::BadShape),
        },
        _ => Err(DocErrV::BadShape),
    }
}

pub open spec fn jv_mention(fs: JFields) -> Result<NodeV, DocErrV> {
    if req_text(fs, "mentionName"@) is Some && req_text(fs, "text"@) is Some && req_u32(
        fs,
        "format"@,
    ) is Some && base_of(fs, true) is Some {
        Ok(
            (NodeV::Mention {
                mention_name: req_text(fs, "mentionName"@)->0,
                text: req_text(fs, "text"@)->0,
                format: req_u32(fs, "format"@)->0,
                base: base_of(fs, true)->0,
            }),
        )
    } else {
        Err(DocErrV::BadShape)
    }
}

/// One node read back from its wire form: dispatch on the `type` field.
pub open spec fn jv_node(j: JsonVal) -> Result<NodeV, DocErrV>
    decreases j, 5int, 0int,
{
    match j {
        JsonVal::Obj(fs) => match field_lookup(fs, "type"@) {
            Some(JsonVal::Text(t)) => if t == "text"@ {
                jv_text_node(fs)
            } else if t == "paragraph"@ {
                jv_paragraph(fs)
            } else if t == "heading"@ {
                jv_heading(fs)
            } else if t == "list"@ {
                jv_list(fs)
            } else if t == "listitem"@ {
                jv_children_only(fs, 0)
            } else if t == "quote"@ {
                jv_children_only(fs, 1)
            } else if t == "code"@ {
                jv_code(fs)
            } else if t == "link"@ {
                jv_link(fs)
            } else if t == "autolink"@ {
                jv_autolink(fs)
            } else if t == "hashtag"@ {
                jv_hashtag(fs)
            } else if t == "table"@ {
                jv_children_only(fs, 2)
            } else if t == "tablerow"@ {
                jv_children_only(fs, 3)
            } else if t == "tablecell"@ {
                jv_tablecell(fs)
            } else if t == "page-break"@ {
                jv_pagebreak(fs)
            } else if t == "ai-embedding"@ {
                jv_ai_embedding(fs)
            } else if t == "voice-input"@ {
                jv_voice_input(fs)
            } else if t == "chat-message"@ {
                jv_chat_message(fs)
            } else if t == "chat-session"@ {
                jv_chat_session(fs)
            } else if t == "mention"@ {
                jv_mention(fs)
            } else {
                Err(DocErrV::UnknownNodeType(t))
            },
            _ => Err(DocErrV::BadShape),
        },
        _ => Err(DocErrV::BadShape),
    }
}

/// The root node read back from its wire form.
pub open spec fn jv_root(j: JsonVal) -> Result<RootV, NoteErrV> {
    match j {
        JsonVal::Obj(fs) => match jv_children_of(fs) {
            Err(p) => Err(NoteErrV::BadChild { at: p.0, err: p.1 }),
            Ok(children) => if req_text(fs, "type"@) is Some && base_of(fs, false) is Some {
                Ok(
                    (RootV {
                        node_type: req_text(fs, "type"@)->0,
                        children,
                        base: base_of(fs, false)->0,
                    }),
                )
            } else {
                Err(NoteErrV::BadDocument)
            },
        },
        _ => Err(NoteErrV::BadDocument),
    }
}

/// A whole note read back from its wire form.
pub open spec fn jv_note(j: JsonVal) -> Result<NoteV, NoteErrV> {
    match j {
        JsonVal::Obj(fs) => {
            if opt_text(fs, "noteId"@) is Some {
                match field_lookup(fs, "lexicalState"@) {
                    Some(JsonVal::Obj(ls_fs)) => match field_lookup(ls_fs, "root"@) {
                        Some(root_j) => match jv_root(root_j) {
                            Ok(root) => Ok(
                                (NoteV {
                                    note_id: opt_text(fs, "noteId"@)->0,
                                    lexical_state: LexicalStateV { root },
                                }),
                            ),
                            Err(e) => Err(e),
                        },
                        None => Err(NoteErrV::BadDocument),
                    },
                    _ => Err(NoteErrV::BadDocument),
                }
            } else {
                Err(NoteErrV::BadDocument)
            }
        },
        _ => Err(NoteErrV::BadDocument),
    }
}

// ----------------------------------------------------------------------
// Validity of a document on the wire.
// ----------------------------------------------------------------------

/// Does this node kind own the `format` key on the wire?
pub open spec fn owns_format(n: NodeV) -> bool {
    ||| n matches NodeV::Text { .. }
    ||| n matches NodeV::Code { .. }
    ||| n matches NodeV::Hashtag { .. }
    ||| n matches NodeV::Mention { .. }
}

/// The shared base attributes of a node.
pub open spec fn node_base(n: NodeV) -> BaseV {
    match n {
        NodeV::Text { base, .. } => base,
        NodeV::Paragraph { base, .. } => base,
        NodeV::Heading { base, .. } => base,
        NodeV::List { base, .. } => base,
        NodeV::ListItem { base, .. } => base,
        NodeV::Quote { base, .. } => base,
        NodeV::Code { base, .. } => base,
        NodeV::Link { base, .. } => base,
        NodeV::AutoLink { base, .. } => base,
        NodeV::Hashtag { base, .. } => base,
        NodeV::Table { base, .. } => base,
        NodeV::TableRow { base, .. } => base,
        NodeV::TableCell { base, .. } => base,
        NodeV::PageBreak { base } => base,
        NodeV::AIEmbedding { base, .. } => base,
        NodeV::VoiceInput { base, .. } => base,
        NodeV::ChatMessage { base, .. } => base,
        NodeV::ChatSession { base, .. } => base,
        NodeV::Mention { base, .. } => base,
    }
}

/// A node that can make the round trip: a kind that owns the `format` key
/// carries no base `format` string (the wire has only one such key), and
/// all children are valid too.
pub open spec fn node_wf(n: NodeV) -> bool
    decreases n, 1int, 0int,
{
    &&& (owns_format(n) ==> node_base(n).format is None)
    &&& match n {
        NodeV::Paragraph { children, .. } => nodes_wf_from(children, 0),
        NodeV::Heading { children, .. } => nodes_wf_from(children, 0),
        NodeV::List { children, .. } => nodes_wf_from(children, 0),
        NodeV::ListItem { children, .. } => nodes_wf_from(children, 0),
        NodeV::Quote { children, .. } => nodes_wf_from(children, 0),
        NodeV::Code { children, .. } => match children {
            Some(cs) => nodes_wf_from(cs, 0),
            None => true,
        },
        NodeV::Link { children, .. } => nodes_wf_from(children, 0),
        NodeV::AutoLink { children, .. } => nodes_wf_from(children, 0),
        NodeV::Table { children, .. } => nodes_wf_from(children, 0),
        NodeV::TableRow { children, .. } => nodes_wf_from(children, 0),
        NodeV::TableCell { children, .. } => nodes_wf_from(children, 0),
        _ => true,
    }
}

/// All nodes from index `i` on are valid.
pub open spec fn nodes_wf_from(ns: Seq<NodeV>, i: int) -> bool
    decreases ns, 0int, ns.len() - i,
{
    if i < 0 || i >= ns.len() {
        true
    } else {
        node_wf(ns[i]) && nodes_wf_from(ns, i + 1)
    }
}

/// A document that can make the round trip.
pub open spec fn note_wf(n: NoteV) -> bool {
    nodes_wf_from(n.lexical_state.root.children, 0)
}

} // verus!

verus! {

// ----------------------------------------------------------------------
// The round-trip law.
// ----------------------------------------------------------------------

proof fn lemma_lookup_shift(a: JFields, b: JFields, key: Seq<char>, j: int)
    requires
        0 <= j <= b.len(),
    ensures
        field_lookup_from(a + b, key, a.len() + j) == field_lookup_from(b, key, j),
    decreases b.len() - j,
{
    if j < b.len() {
        assert((a + b)[a.len() + j] == b[j]);
        lemma_lookup_shift(a, b, key, j + 1);
    }
}

/// No binding from index `i` on uses `key`.
pub open spec fn no_key(fs: JFields, key: Seq<char>, i: int) -> bool
    decreases fs.len() - i,
{
    if i < 0 || i >= fs.len() {
        true
    } else {
        fs[i].0 != key && no_key(fs, key, i + 1)
    }
}

proof fn lemma_no_key_concat(a: JFields, b: JFields, key: Seq<char>, i: int)
    requires
        0 <= i,
        no_key(a, key, i),
        no_key(b, key, 0),
    ensures
        no_key(a + b, key, i),
    decreases a.len() + b.len() - i,
{
    if i < a.len() {
        assert((a + b)[i] == a[i]);
        lemma_no_key_concat(a, b, key, i + 1);
    } else if i < a.len() + b.len() {
        assert((a + b)[i] == b[i - a.len()]);
        lemma_no_key_tail(b, key, 0, i - a.len());
        lemma_no_key_concat(a, b, key, i + 1);
    }
}

proof fn lemma_no_key_tail(fs: JFields, key: Seq<char>, i: int, j: int)
    requires
        0 <= i <= j,
        no_key(fs, key, i),
    ensures
        no_key(fs, key, j),
        j < fs.len() ==> fs[j].0 != key,
    decreases fs.len() - i,
{
    if i < j && i < fs.len() {
        lemma_no_key_tail(fs, key, i + 1, j);
    }
}

proof fn lemma_lookup_scan(a: JFields, b: JFields, key: Seq<char>, i: int)
    requires
        0 <= i <= a.len(),
        no_key(a, key, i),
    ensures
        field_lookup_from(a + b, key, i) == field_lookup_from(b, key, 0),
    decreases a.len() - i,
{
    if i < a.len() {
        assert((a + b)[i] == a[i]);
        lemma_lookup_scan(a, b, key, i + 1);
    } else {
        lemma_lookup_shift(a, b, key, 0);
    }
}

/// Looking a key up past a prefix that does not hold it.
proof fn lemma_lookup_concat(a: JFields, b: JFields, key: Seq<char>)
    requires
        no_key(a, key, 0),
    ensures
        field_lookup(a + b, key) == field_lookup(b, key),
{
    lemma_lookup_scan(a, b, key, 0);
}

proof fn lemma_base_entries(b: BaseV, own: bool)
    ensures
        base_of(base_entries(b, own), own) == Some(
            (BaseV {
                version: b.version,
                direction: b.direction,
                format: if own {
                    None
                } else {
                    b.format
                },
                indent: b.indent,
            }),
        ),
{
    lemma_distinct_keys();
    reveal_with_fuel(field_lookup_from, 8);
    let target = Some(
        (BaseV {
            version: b.version,
            direction: b.direction,
            format: if own {
                None
            } else {
                b.format
            },
            indent: b.indent,
        }),
    );
    match (b.direction, b.format, b.indent) {
        (None, None, None) => assert(base_of(base_entries(b, own), own) == target),
        (None, None, Some(_)) => assert(base_of(base_entries(b, own), own) == target),
        (None, Some(_), None) => assert(base_of(base_entries(b, own), own) == target),
        (None, Some(_), Some(_)) => assert(base_of(base_entries(b, own), own) == target),
        (Some(TextDirection::LeftToRight), None, None) => assert(base_of(
            base_entries(b, own),
            own,
        ) == target),
        (Some(TextDirection::LeftToRight), None, Some(_)) => assert(base_of(
            base_entries(b, own),
            own,
        ) == target),
        (Some(TextDirection::LeftToRight), Some(_), None) => assert(base_of(
            base_entries(b, own),
            own,
        ) == target),
        (Some(TextDirection::LeftToRight), Some(_), Some(_)) => assert(base_of(
            base_entries(b, own),
            own,
        ) == target),
        (Some(TextDirection::RightToLeft), None, None) => assert(base_of(
            base_entries(b, own),
            own,
        ) == target),
        (Some(TextDirection::RightToLeft), None, Some(_)) => assert(base_of(
            base_entries(b, own),
            own,
        ) == target),
        (Some(TextDirection::RightToLeft), Some(_), None) => assert(base_of(
            base_entries(b, own),
            own,
        ) == target),
        (Some(TextDirection::RightToLeft), Some(_), Some(_)) => assert(base_of(
            base_entries(b, own),
            own,
        ) == target),
    }
}

proof fn lemma_msg_rt(m: ChatSessionMessageV)
    ensures
        jv_msg(msg_jv(m)) == Some(m),
{
    lemma_distinct_keys();
    reveal_with_fuel(field_lookup_from, 8);
    match m.sender {
        MessageSender::User => assert(sender_of(sender_text(m.sender)) == Some(m.sender)),
        MessageSender::Agent => assert(sender_of(sender_text(m.sender)) == Some(m.sender)),
        MessageSender::System => assert(sender_of(sender_text(m.sender)) == Some(m.sender)),
    }
}

proof fn lemma_msgs_rt(ms: Seq<ChatSessionMessageV>, i: int)
    requires
        0 <= i <= ms.len(),
    ensures
        jv_msgs_from(msgs_jv(ms), i) == Some(ms.skip(i)),
    decreases ms.len() - i,
{
    if i == ms.len() {
        assert(Seq::<ChatSessionMessageV>::empty() =~= ms.skip(i));
    } else {
        assert(msgs_jv(ms)[i] == msg_jv(ms[i]));
        lemma_msg_rt(ms[i]);
        lemma_msgs_rt(ms, i + 1);
        assert(seq![ms[i]] + ms.skip(i + 1) =~= ms.skip(i));
    }
}

/// The shared part of every node arm: the base attributes survive the trip.
proof fn lemma_base_behind(var: JFields, b: BaseV, own: bool)
    requires
        no_key(var, "version"@, 0),
        no_key(var, "direction"@, 0),
        no_key(var, "indent"@, 0),
        !own ==> no_key(var, "format"@, 0),
    ensures
        base_of(var + base_entries(b, own), own) == Some(
            (BaseV {
                version: b.version,
                direction: b.direction,
                format: if own {
                    None
                } else {
                    b.format
                },
                indent: b.indent,
            }),
        ),
{
    let e = base_entries(b, own);
    lemma_lookup_concat(var, e, "version"@);
    lemma_lookup_concat(var, e, "direction"@);
    lemma_lookup_concat(var, e, "indent"@);
    if !own {
        lemma_lookup_concat(var, e, "format"@);
    }
    lemma_base_entries(b, own);
}

#[verifier::rlimit(50)]
proof fn lemma_text_rt(text: Seq<char>, format: u32, detail: u32, mode: Seq<char>, style: Seq<char>, base: BaseV)
    requires
        base.format is None,
    ensures
        jv_node(node_jv(NodeV::Text { text, format, detail, mode, style, base })) == Ok::<NodeV, DocErrV>(NodeV::Text { text, format, detail, mode, style, base }),
{
    lemma_distinct_keys();
    reveal_with_fuel(field_lookup_from, 16);
    reveal_with_fuel(no_key, 16);
    let var = seq![
        ("type"@, JsonVal::Text("text"@)),
        ("text"@, JsonVal::Text(text)),
        ("format"@, JsonVal::UInt(format as u64)),
        ("detail"@, JsonVal::UInt(detail as u64)),
        ("mode"@, JsonVal::Text(mode)),
        ("style"@, JsonVal::Text(style)),
    ];
    lemma_base_behind(var, base, true);
}

#[verifier::rlimit(50)]
proof fn lemma_paragraph_rt(children: Seq<NodeV>, text_format: u32, text_style: Seq<char>, base: BaseV)
    requires
        jv_nodes_from(nodes_jv(children), 0) == Ok::<Seq<NodeV>, (int, DocErrV)>(children),
    ensures
        jv_node(node_jv(NodeV::Paragraph { children, text_format, text_style, base })) == Ok::<NodeV, DocErrV>(NodeV::Paragraph { children, text_format, text_style, base }),
{
    lemma_distinct_keys();
    reveal_with_fuel(field_lookup_from, 16);
    reveal_with_fuel(no_key, 16);
    let var = seq![
        ("type"@, JsonVal::Text("paragraph"@)),
        ("children"@, JsonVal::Arr(nodes_jv(children))),
        ("textFormat"@, JsonVal::UInt(text_format as u64)),
        ("textStyle"@, JsonVal::Text(text_style)),
    ];
    lemma_base_behind(var, base, false);
}

#[verifier::rlimit(50)]
proof fn lemma_heading_rt(tag: HeadingTag, children: Seq<NodeV>, base: BaseV)
    requires
        jv_nodes_from(nodes_jv(children), 0) == Ok::<Seq<NodeV>, (int, DocErrV)>(children),
    ensures
        jv_node(node_jv(NodeV::Heading { tag, children, base })) == Ok::<NodeV, DocErrV>(NodeV::Heading { tag, children, base }),
{
    lemma_distinct_keys();
    reveal_with_fuel(field_lookup_from, 16);
    reveal_with_fuel(no_key, 16);
    let var = seq![
        ("type"@, JsonVal::Text("heading"@)),
        ("tag"@, JsonVal::Text(tag_text(tag))),
        ("children"@, JsonVal::Arr(nodes_jv(children))),
    ];
    lemma_base_behind(var, base, false);
    match tag {
        HeadingTag::H1 => assert(tag_of(tag_text(tag)) == Some(tag)),
        HeadingTag::H2 => assert(tag_of(tag_text(tag)) == Some(tag)),
        HeadingTag::H3 => assert(tag_of(tag_text(tag)) == Some(tag)),
        HeadingTag::H4 => assert(tag_of(tag_text(tag)) == Some(tag)),
        HeadingTag::H5 => assert(tag_of(tag_text(tag)) == Some(tag)),
        HeadingTag::H6 => assert(tag_of(tag_text(tag)) == Some(tag)),
    }
}

#[verifier::rlimit(50)]
proof fn lemma_list_rt(list_type: ListType, start: Option<u32>, children: Seq<NodeV>, base: BaseV)
    requires
        jv_nodes_from(nodes_jv(children), 0) == Ok::<Seq<NodeV>, (int, DocErrV)>(children),
    ensures
        jv_node(node_jv(NodeV::List { list_type, start, children, base })) == Ok::<NodeV, DocErrV>(NodeV::List { list_type, start, children, base }),
{
    lemma_distinct_keys();
    reveal_with_fuel(field_lookup_from, 16);
    reveal_with_fuel(no_key, 16);
    let var = seq![
        ("type"@, JsonVal::Text("list"@)),
        ("listType"@, JsonVal::Text(list_type_text(list_type))),
        (
            "start"@,
            match start {
                Some(u) => JsonVal::UInt(u as u64),
                None => JsonVal::Null,
            },
        ),
        ("children"@, JsonVal::Arr(nodes_jv(children))),
    ];
    lemma_base_behind(var, base, false);
    match list_type {
        ListType::Bullet => assert(list_type_of(list_type_text(list_type)) == Some(list_type)),
        ListType::Number => assert(list_type_of(list_type_text(list_type)) == Some(list_type)),
    }
}

#[verifier::rlimit(50)]
proof fn lemma_listitem_rt(children: Seq<NodeV>, base: BaseV)
    requires
        jv_nodes_from(nodes_jv(children), 0) == Ok::<Seq<NodeV>, (int, DocErrV)>(children),
    ensures
        jv_node(node_jv(NodeV::ListItem { children, base })) == Ok::<NodeV, DocErrV>(NodeV::ListItem { children, base }),
{
    lemma_distinct_keys();
    reveal_with_fuel(field_lookup_from, 16);
    reveal_with_fuel(no_key, 16);
    let var = seq![
        ("type"@, JsonVal::Text("listitem"@)),
        ("children"@, JsonVal::Arr(nodes_jv(children))),
    ];
    lemma_base_behind(var, base, false);
}

#[verifier::rlimit(50)]
proof fn lemma_quote_rt(children: Seq<NodeV>, base: BaseV)
    requires
        jv_nodes_from(nodes_jv(children), 0) == Ok::<Seq<NodeV>, (int, DocErrV)>(children),
    ensures
        jv_node(node_jv(NodeV::Quote { children, base })) == Ok::<NodeV, DocErrV>(NodeV::Quote { children, base }),
{
    lemma_distinct_keys();
    reveal_with_fuel(field_lookup_from, 16);
    reveal_with_fuel(no_key, 16);
    let var = seq![
        ("type"@, JsonVal::Text("quote"@)),
        ("children"@, JsonVal::Arr(nodes_jv(children))),
    ];
    lemma_base_behind(var, base, false);
}

#[verifier::rlimit(50)]
proof fn lemma_code_rt(text: Option<Seq<char>>, language: Option<Seq<char>>, children: Option<Seq<NodeV>>, format: u32, base: BaseV)
    requires
        base.format is None,
        children matches Some(cs) ==> jv_nodes_from(nodes_jv(cs), 0) == Ok::<Seq<NodeV>, (int, DocErrV)>(cs),
    ensures
        jv_node(node_jv(NodeV::Code { text, language, children, format, base })) == Ok::<NodeV, DocErrV>(NodeV::Code { text, language, children, format, base }),
{
    lemma_distinct_keys();
    reveal_with_fuel(field_lookup_from, 16);
    reveal_with_fuel(no_key, 16);
    let s1 = seq![("type"@, JsonVal::Text("code"@))];
    let s2 = opt_text_entry("text"@, text);
    let s3 = opt_text_entry("language"@, language);
    let s4: JFields = match children {
        Some(cs) => seq![("children"@, JsonVal::Arr(nodes_jv(cs)))],
        None => Seq::empty(),
    };
    let s5 = seq![("format"@, JsonVal::UInt(format as u64))];
    let var = s1 + s2 + s3 + s4 + s5;
    assert forall|key: Seq<char>|
        key == "version"@ || key == "direction"@ || key == "indent"@ implies no_key(
        var,
        key,
        0,
    ) by {
        lemma_no_key_concat(s1, s2, key, 0);
        lemma_no_key_concat(s1 + s2, s3, key, 0);
        lemma_no_key_concat(s1 + s2 + s3, s4, key, 0);
        lemma_no_key_concat(s1 + s2 + s3 + s4, s5, key, 0);
    }
    lemma_base_behind(var, base, true);
}

#[verifier::rlimit(50)]
proof fn lemma_link_rt(url: Seq<char>, rel: Option<Seq<char>>, target: Option<Seq<char>>, children: Seq<NodeV>, base: BaseV)
    requires
        jv_nodes_from(nodes_jv(children), 0) == Ok::<Seq<NodeV>, (int, DocErrV)>(children),
    ensures
        jv_node(node_jv(NodeV::Link { url, rel, target, children, base })) == Ok::<NodeV, DocErrV>(NodeV::Link { url, rel, target, children, base }),
{
    lemma_distinct_keys();
    reveal_with_fuel(field_lookup_from, 16);
    reveal_with_fuel(no_key, 16);
    let t1 = seq![("type"@, JsonVal::Text("link"@)), ("url"@, JsonVal::Text(url))];
    let t2 = opt_text_entry("rel"@, rel);
    let t3 = opt_text_entry("target"@, target);
    let t4 = seq![("children"@, JsonVal::Arr(nodes_jv(children)))];
    let var = t1 + t2 + t3 + t4;
    assert forall|key: Seq<char>|
        key == "version"@ || key == "direction"@ || key == "indent"@ || key
            == "format"@ implies no_key(var, key, 0) by {
        lemma_no_key_concat(t1, t2, key, 0);
        lemma_no_key_concat(t1 + t2, t3, key, 0);
        lemma_no_key_concat(t1 + t2 + t3, t4, key, 0);
    }
    lemma_base_behind(var, base, false);
}

#[verifier::rlimit(50)]
proof fn lemma_autolink_rt(url: Seq<char>, children: Seq<NodeV>, base: BaseV)
    requires
        jv_nodes_from(nodes_jv(children), 0) == Ok::<Seq<NodeV>, (int, DocErrV)>(children),
    ensures
        jv_node(node_jv(NodeV::AutoLink { url, children, base })) == Ok::<NodeV, DocErrV>(NodeV::AutoLink { url, children, base }),
{
    lemma_distinct_keys();
    reveal_with_fuel(field_lookup_from, 16);
    reveal_with_fuel(no_key, 16);
    let var = seq![
        ("type"@, JsonVal::Text("autolink"@)),
        ("url"@, JsonVal::Text(url)),
        ("children"@, JsonVal::Arr(nodes_jv(children))),
    ];
    lemma_base_behind(var, base, false);
}

#[verifier::rlimit(50)]
proof fn lemma_hashtag_rt(text: Seq<char>, format: u32, base: BaseV)
    requires
        base.format is None,
    ensures
        jv_node(node_jv(NodeV::Hashtag { text, format, base })) == Ok::<NodeV, DocErrV>(NodeV::Hashtag { text, format, base }),
{
    lemma_distinct_keys();
    reveal_with_fuel(field_lookup_from, 16);
    reveal_with_fuel(no_key, 16);
    let var = seq![
        ("type"@, JsonVal::Text("hashtag"@)),
        ("text"@, JsonVal::Text(text)),
        ("format"@, JsonVal::UInt(format as u64)),
    ];
    lemma_base_behind(var, base, true);
}

#[verifier::rlimit(50)]
proof fn lemma_table_rt(children: Seq<NodeV>, base: BaseV)
    requires
        jv_nodes_from(nodes_jv(children), 0) == Ok::<Seq<NodeV>, (int, DocErrV)>(children),
    ensures
        jv_node(node_jv(NodeV::Table { children, base })) == Ok::<NodeV, DocErrV>(NodeV::Table { children, base }),
{
    lemma_distinct_keys();
    reveal_with_fuel(field_lookup_from, 16);
    reveal_with_fuel(no_key, 16);
    let var = seq![
        ("type"@, JsonVal::Text("table"@)),
        ("children"@, JsonVal::Arr(nodes_jv(children))),
    ];
    lemma_base_behind(var, base, false);
}

#[verifier::rlimit(50)]
proof fn lemma_tablerow_rt(children: Seq<NodeV>, base: BaseV)
    requires
        jv_nodes_from(nodes_jv(children), 0) == Ok::<Seq<NodeV>, (int, DocErrV)>(children),
    ensures
        jv_node(node_jv(NodeV::TableRow { children, base })) == Ok::<NodeV, DocErrV>(NodeV::TableRow { children, base }),
{
    lemma_distinct_keys();
    reveal_with_fuel(field_lookup_from, 16);
    reveal_with_fuel(no_key, 16);
    let var = seq![
        ("type"@, JsonVal::Text("tablerow"@)),
        ("children"@, JsonVal::Arr(nodes_jv(children))),
    ];
    lemma_base_behind(var, base, false);
}

#[verifier::rlimit(50)]
proof fn lemma_tablecell_rt(children: Seq<NodeV>, header_state: u32, col_span: u32, row_span: u32, base: BaseV)
    requires
        jv_nodes_from(nodes_jv(children), 0) == Ok::<Seq<NodeV>, (int, DocErrV)>(children),
    ensures
        jv_node(node_jv(NodeV::TableCell { children, header_state, col_span, row_span, base })) == Ok::<NodeV, DocErrV>(NodeV::TableCell { children, header_state, col_span, row_span, base }),
{
    lemma_distinct_keys();
    reveal_with_fuel(field_lookup_from, 16);
    reveal_with_fuel(no_key, 16);
    let var = seq![
        ("type"@, JsonVal::Text("tablecell"@)),
        ("children"@, JsonVal::Arr(nodes_jv(children))),
        ("headerState"@, JsonVal::UInt(header_state as u64)),
        ("colSpan"@, JsonVal::UInt(col_span as u64)),
        ("rowSpan"@, JsonVal::UInt(row_span as u64)),
    ];
    lemma_base_behind(var, base, false);
}

#[verifier::rlimit(50)]
proof fn lemma_pagebreak_rt(base: BaseV)
    ensures
        jv_node(node_jv(NodeV::PageBreak { base })) == Ok::<NodeV, DocErrV>(NodeV::PageBreak { base }),
{
    lemma_distinct_keys();
    reveal_with_fuel(field_lookup_from, 16);
    reveal_with_fuel(no_key, 16);
    let var = seq![("type"@, JsonVal::Text("page-break"@))];
    lemma_base_behind(var, base, false);
}

#[verifier::rlimit(50)]
proof fn lemma_ai_embedding_rt(content: Seq<char>, is_loading: bool, base: BaseV)
    ensures
        jv_node(node_jv(NodeV::AIEmbedding { content, is_loading, base })) == Ok::<NodeV, DocErrV>(NodeV::AIEmbedding { content, is_loading, base }),
{
    lemma_distinct_keys();
    reveal_with_fuel(field_lookup_from, 16);
    reveal_with_fuel(no_key, 16);
    let var = seq![
        ("type"@, JsonVal::Text("ai-embedding"@)),
        ("content"@, JsonVal::Text(content)),
        ("isLoading"@, JsonVal::Bool(is_loading)),
    ];
    lemma_base_behind(var, base, false);
}

#[verifier::rlimit(50)]
proof fn lemma_voice_input_rt(content: Seq<char>, base: BaseV)
    ensures
        jv_node(node_jv(NodeV::VoiceInput { content, base })) == Ok::<NodeV, DocErrV>(NodeV::VoiceInput { content, base }),
{
    lemma_distinct_keys();
    reveal_with_fuel(field_lookup_from, 16);
    reveal_with_fuel(no_key, 16);
    let var = seq![
        ("type"@, JsonVal::Text("voice-input"@)),
        ("content"@, JsonVal::Text(content)),
    ];
    lemma_base_behind(var, base, false);
}

#[verifier::rlimit(50)]
proof fn lemma_chat_message_rt(sender: MessageSender, content: Seq<char>, timestamp: Seq<char>, base: BaseV)
    ensures
        jv_node(node_jv(NodeV::ChatMessage { sender, content, timestamp, base })) == Ok::<NodeV, DocErrV>(NodeV::ChatMessage { sender, content, timestamp, base }),
{
    lemma_distinct_keys();
    reveal_with_fuel(field_lookup_from, 16);
    reveal_with_fuel(no_key, 16);
    let var = seq![
        ("type"@, JsonVal::Text("chat-message"@)),
        ("sender"@, JsonVal::Text(sender_text(sender))),
        ("content"@, JsonVal::Text(content)),
        ("timestamp"@, JsonVal::Text(timestamp)),
    ];
    lemma_base_behind(var, base, false);
    match sender {
        MessageSender::User => assert(sender_of(sender_text(sender)) == Some(sender)),
        MessageSender::Agent => assert(sender_of(sender_text(sender)) == Some(sender)),
        MessageSender::System => assert(sender_of(sender_text(sender)) == Some(sender)),
    }
}

#[verifier::rlimit(50)]
proof fn lemma_chat_session_rt(session_id: Seq<char>, messages: Seq<ChatSessionMessageV>, base: BaseV)
    requires
        jv_msgs_from(msgs_jv(messages), 0) == Some(messages),
    ensures
        jv_node(node_jv(NodeV::ChatSession { session_id, messages, base })) == Ok::<NodeV, DocErrV>(NodeV::ChatSession { session_id, messages, base }),
{
    lemma_distinct_keys();
    reveal_with_fuel(field_lookup_from, 16);
    reveal_with_fuel(no_key, 16);
    let var = seq![
        ("type"@, JsonVal::Text("chat-session"@)),
        ("sessionId"@, JsonVal::Text(session_id)),
        ("messages"@, JsonVal::Arr(msgs_jv(messages))),
    ];
    lemma_base_behind(var, base, false);
}

#[verifier::rlimit(50)]
proof fn lemma_mention_rt(mention_name: Seq<char>, text: Seq<char>, format: u32, base: BaseV)
    requires
        base.format is None,
    ensures
        jv_node(node_jv(NodeV::Mention { mention_name, text, format, base })) == Ok::<NodeV, DocErrV>(NodeV::Mention { mention_name, text, format, base }),
{
    lemma_distinct_keys();
    reveal_with_fuel(field_lookup_from, 16);
    reveal_with_fuel(no_key, 16);
    let var = seq![
        ("type"@, JsonVal::Text("mention"@)),
        ("mentionName"@, JsonVal::Text(mention_name)),
        ("text"@, JsonVal::Text(text)),
        ("format"@, JsonVal::UInt(format as u64)),
    ];
    lemma_base_behind(var, base, true);
}

proof fn lemma_node_rt(n: NodeV)
    requires
        node_wf(n),
    ensures
        jv_node(node_jv(n)) == Ok::<NodeV, DocErrV>(n),
    decreases n, 1int, 0int,
{
    match n {
        NodeV::Text { text, format, detail, mode, style, base } => {
            lemma_text_rt(text, format, detail, mode, style, base);
        },
        NodeV::Paragraph { children, text_format, text_style, base } => {
            lemma_nodes_rt(children, 0);
            assert(children.skip(0) =~= children);
            lemma_paragraph_rt(children, text_format, text_style, base);
        },
        NodeV::Heading { tag, children, base } => {
            lemma_nodes_rt(children, 0);
            assert(children.skip(0) =~= children);
            lemma_heading_rt(tag, children, base);
        },
        NodeV::List { list_type, start, children, base } => {
            lemma_nodes_rt(children, 0);
            assert(children.skip(0) =~= children);
            lemma_list_rt(list_type, start, children, base);
        },
        NodeV::ListItem { children, base } => {
            lemma_nodes_rt(children, 0);
            assert(children.skip(0) =~= children);
            lemma_listitem_rt(children, base);
        },
        NodeV::Quote { children, base } => {
            lemma_nodes_rt(children, 0);
            assert(children.skip(0) =~= children);
            lemma_quote_rt(children, base);
        },
        NodeV::Code { text, language, children, format, base } => {
            match children {
                Some(cs) => {
                    lemma_nodes_rt(cs, 0);
                    assert(cs.skip(0) =~= cs);
                },
                None => {},
            }
            lemma_code_rt(text, language, children, format, base);
        },
        NodeV::Link { url, rel, target, children, base } => {
            lemma_nodes_rt(children, 0);
            assert(children.skip(0) =~= children);
            lemma_link_rt(url, rel, target, children, base);
        },
        NodeV::AutoLink { url, children, base } => {
            lemma_nodes_rt(children, 0);
            assert(children.skip(0) =~= children);
            lemma_autolink_rt(url, children, base);
        },
        NodeV::Hashtag { text, format, base } => {
            lemma_hashtag_rt(text, format, base);
        },
        NodeV::Table { children, base } => {
            lemma_nodes_rt(children, 0);
            assert(children.skip(0) =~= children);
            lemma_table_rt(children, base);
        },
        NodeV::TableRow { children, base } => {
            lemma_nodes_rt(children, 0);
            assert(children.skip(0) =~= children);
            lemma_tablerow_rt(children, base);
        },
        NodeV::TableCell { children, header_state, col_span, row_span, base } => {
            lemma_nodes_rt(children, 0);
            assert(children.skip(0) =~= children);
            lemma_tablecell_rt(children, header_state, col_span, row_span, base);
        },
        NodeV::PageBreak { base } => {
            lemma_pagebreak_rt(base);
        },
        NodeV::AIEmbedding { content, is_loading, base } => {
            lemma_ai_embedding_rt(content, is_loading, base);
        },
        NodeV::VoiceInput { content, base } => {
            lemma_voice_input_rt(content, base);
        },
        NodeV::ChatMessage { sender, content, timestamp, base } => {
            lemma_chat_message_rt(sender, content, timestamp, base);
        },
        NodeV::ChatSession { session_id, messages, base } => {
            lemma_msgs_rt(messages, 0);
            assert(messages.skip(0) =~= messages);
            lemma_chat_session_rt(session_id, messages, base);
        },
        NodeV::Mention { mention_name, text, format, base } => {
            lemma_mention_rt(mention_name, text, format, base);
        },
    }
}
proof fn lemma_nodes_rt(ns: Seq<NodeV>, i: int)
    requires
        0 <= i <= ns.len(),
        nodes_wf_from(ns, i),
    ensures
        jv_nodes_from(nodes_jv(ns), i) == Ok::<Seq<NodeV>, (int, DocErrV)>(ns.skip(i)),
    decreases ns, 0int, ns.len() - i,
{
    if i == ns.len() {
        assert(Seq::<NodeV>::empty() =~= ns.skip(i));
    } else {
        assert(nodes_jv(ns)[i] == node_jv(ns[i]));
        lemma_node_rt(ns[i]);
        lemma_nodes_rt(ns, i + 1);
        assert(seq![ns[i]] + ns.skip(i + 1) =~= ns.skip(i));
    }
}

/// Law: deserializing a serialized document restores it, field for field,
/// on every valid document.
pub proof fn lemma_note_round_trip(nv: NoteV)
    requires
        note_wf(nv),
    ensures
        jv_note(note_jv(nv)) == Ok::<NoteV, NoteErrV>(nv),
{
    lemma_distinct_keys();
    reveal_with_fuel(field_lookup_from, 16);
    reveal_with_fuel(no_key, 16);
    let root = nv.lexical_state.root;
    let var = seq![
        ("type"@, JsonVal::Text(root.node_type)),
        ("children"@, JsonVal::Arr(nodes_jv(root.children))),
    ];
    lemma_base_behind(var, root.base, false);
    lemma_nodes_rt(root.children, 0);
    assert(root.children.skip(0) =~= root.children);
    assert(jv_root(root_jv(root)) == Ok::<RootV, NoteErrV>(root));
}

} // verus!

verus! {

pub open spec fn distinct_keys_a() -> bool {
    &&& "agent"@ != "system"@
    &&& "agent"@ != "user"@
    &&& "ai-embedding"@ != "autolink"@
    &&& "ai-embedding"@ != "chat-message"@
    &&& "ai-embedding"@ != "chat-session"@
    &&& "ai-embedding"@ != "code"@
    &&& "ai-embedding"@ != "hashtag"@
    &&& "ai-embedding"@ != "heading"@
    &&& "ai-embedding"@ != "link"@
    &&& "ai-embedding"@ != "list"@
    &&& "ai-embedding"@ != "listitem"@
    &&& "ai-embedding"@ != "mention"@
    &&& "ai-embedding"@ != "page-break"@
    &&& "ai-embedding"@ != "paragraph"@
    &&& "ai-embedding"@ != "quote"@
    &&& "ai-embedding"@ != "table"@
    &&& "ai-embedding"@ != "tablecell"@
    &&& "ai-embedding"@ != "tablerow"@
    &&& "ai-embedding"@ != "text"@
    &&& "ai-embedding"@ != "voice-input"@
    &&& "autolink"@ != "chat-message"@
    &&& "autolink"@ != "chat-session"@
    &&& "autolink"@ != "code"@
    &&& "autolink"@ != "hashtag"@
    &&& "autolink"@ != "heading"@
    &&& "autolink"@ != "link"@
    &&& "autolink"@ != "list"@
    &&& "autolink"@ != "listitem"@
    &&& "autolink"@ != "mention"@
    &&& "autolink"@ != "page-break"@
    &&& "autolink"@ != "paragraph"@
    &&& "autolink"@ != "quote"@
    &&& "autolink"@ != "table"@
    &&& "autolink"@ != "tablecell"@
    &&& "autolink"@ != "tablerow"@
    &&& "autolink"@ != "text"@
    &&& "autolink"@ != "voice-input"@
    &&& "bullet"@ != "number"@
    &&& "chat-message"@ != "chat-session"@
    &&& "chat-message"@ != "code"@
    &&& "chat-message"@ != "hashtag"@
    &&& "chat-message"@ != "heading"@
    &&& "chat-message"@ != "link"@
    &&& "chat-message"@ != "list"@
    &&& "chat-message"@ != "listitem"@
    &&& "chat-message"@ != "mention"@
    &&& "chat-message"@ != "page-break"@
    &&& "chat-message"@ != "paragraph"@
    &&& "chat-message"@ != "quote"@
    &&& "chat-message"@ != "table"@
    &&& "chat-message"@ != "tablecell"@
    &&& "chat-message"@ != "tablerow"@
    &&& "chat-message"@ != "text"@
    &&& "chat-message"@ != "voice-input"@
    &&& "chat-session"@ != "code"@
    &&& "chat-session"@ != "hashtag"@
    &&& "chat-session"@ != "heading"@
    &&& "chat-session"@ != "link"@
    &&& "chat-session"@ != "list"@
    &&& "chat-session"@ != "listitem"@
    &&& "chat-session"@ != "mention"@
    &&& "chat-session"@ != "page-break"@
    &&& "chat-session"@ != "paragraph"@
    &&& "chat-session"@ != "quote"@
    &&& "chat-session"@ != "table"@
    &&& "chat-session"@ != "tablecell"@
    &&& "chat-session"@ != "tablerow"@
    &&& "chat-session"@ != "text"@
    &&& "chat-session"@ != "voice-input"@
    &&& "children"@ != "colSpan"@
    &&& "children"@ != "direction"@
    &&& "children"@ != "format"@
    &&& "children"@ != "headerState"@
    &&& "children"@ != "indent"@
    &&& "children"@ != "language"@
    &&& "children"@ != "listType"@
    &&& "children"@ != "rel"@
    &&& "children"@ != "rowSpan"@
    &&& "children"@ != "start"@
    &&& "children"@ != "tag"@
    &&& "children"@ != "target"@
    &&& "children"@ != "text"@
    &&& "children"@ != "textFormat"@
    &&& "children"@ != "textStyle"@
    &&& "children"@ != "type"@
    &&& "children"@ != "url"@
    &&& "children"@ != "version"@
    &&& "code"@ != "hashtag"@
    &&& "code"@ != "heading"@
    &&& "code"@ != "link"@
    &&& "code"@ != "list"@
    &&& "code"@ != "listitem"@
    &&& "code"@ != "mention"@
    &&& "code"@ != "page-break"@
    &&& "code"@ != "paragraph"@
    &&& "code"@ != "quote"@
    &&& "code"@ != "table"@
    &&& "code"@ != "tablecell"@
    &&& "code"@ != "tablerow"@
    &&& "code"@ != "text"@
    &&& "code"@ != "voice-input"@
    &&& "colSpan"@ != "direction"@
    &&& "colSpan"@ != "format"@
    &&& "colSpan"@ != "headerState"@
    &&& "colSpan"@ != "indent"@
    &&& "colSpan"@ != "rowSpan"@
    &&& "colSpan"@ != "type"@
    &&& "colSpan"@ != "version"@
    &&& "content"@ != "direction"@
    &&& "content"@ != "format"@
    &&& "content"@ != "id"@
    &&& "content"@ != "indent"@
    &&& "content"@ != "isLoading"@
    &&& "content"@ != "sender"@
    &&& "content"@ != "timestamp"@
    &&& "content"@ != "type"@
    &&& "content"@ != "version"@
    &&& "detail"@ != "direction"@
    &&& "detail"@ != "format"@
    &&& "detail"@ != "indent"@
}

proof fn lemma_distinct_keys_a()
    ensures
        distinct_keys_a(),
{
    reveal_strlit("agent");
    reveal_strlit("ai-embedding");
    reveal_strlit("autolink");
    reveal_strlit("bullet");
    reveal_strlit("chat-message");
    reveal_strlit("chat-session");
    reveal_strlit("children");
    reveal_strlit("code");
    reveal_strlit("colSpan");
    reveal_strlit("content");
    reveal_strlit("detail");
    reveal_strlit("direction");
    reveal_strlit("format");
    reveal_strlit("hashtag");
    reveal_strlit("headerState");
    reveal_strlit("heading");
    reveal_strlit("id");
    reveal_strlit("indent");
    reveal_strlit("isLoading");
    reveal_strlit("language");
    reveal_strlit("link");
    reveal_strlit("list");
    reveal_strlit("listType");
    reveal_strlit("listitem");
    reveal_strlit("mention");
    reveal_strlit("number");
    reveal_strlit("page-break");
    reveal_strlit("paragraph");
    reveal_strlit("quote");
    reveal_strlit("rel");
    reveal_strlit("rowSpan");
    reveal_strlit("sender");
    reveal_strlit("start");
    reveal_strlit("system");
    reveal_strlit("table");
    reveal_strlit("tablecell");
    reveal_strlit("tablerow");
    reveal_strlit("tag");
    reveal_strlit("target");
    reveal_strlit("text");
    reveal_strlit("textFormat");
    reveal_strlit("textStyle");
    reveal_strlit("timestamp");
    reveal_strlit("type");
    reveal_strlit("url");
    reveal_strlit("user");
    reveal_strlit("version");
    reveal_strlit("voice-input");
    assert("agent"@.len() == 5);
    assert("ai-embedding"@.len() == 12);
    assert("autolink"@.len() == 8);
    assert("bullet"@.len() == 6);
    assert("chat-message"@.len() == 12);
    assert("chat-session"@.len() == 12);
    assert("children"@.len() == 8);
    assert("code"@.len() == 4);
    assert("colSpan"@.len() == 7);
    assert("content"@.len() == 7);
    assert("detail"@.len() == 6);
    assert("direction"@.len() == 9);
    assert("format"@.len() == 6);
    assert("hashtag"@.len() == 7);
    assert("headerState"@.len() == 11);
    assert("heading"@.len() == 7);
    assert("id"@.len() == 2);
    assert("indent"@.len() == 6);
    assert("isLoading"@.len() == 9);
    assert("language"@.len() == 8);
    assert("link"@.len() == 4);
    assert("list"@.len() == 4);
    assert("listType"@.len() == 8);
    assert("listitem"@.len() == 8);
    assert("mention"@.len() == 7);
    assert("number"@.len() == 6);
    assert("page-break"@.len() == 10);
    assert("paragraph"@.len() == 9);
    assert("quote"@.len() == 5);
    assert("rel"@.len() == 3);
    assert("rowSpan"@.len() == 7);
    assert("sender"@.len() == 6);
    assert("start"@.len() == 5);
    assert("system"@.len() == 6);
    assert("table"@.len() == 5);
    assert("tablecell"@.len() == 9);
    assert("tablerow"@.len() == 8);
    assert("tag"@.len() == 3);
    assert("target"@.len() == 6);
    assert("text"@.len() == 4);
    assert("textFormat"@.len() == 10);
    assert("textStyle"@.len() == 9);
    assert("timestamp"@.len() == 9);
    assert("type"@.len() == 4);
    assert("url"@.len() == 3);
    assert("user"@.len() == 4);
    assert("version"@.len() == 7);
    assert("voice-input"@.len() == 11);
    assert("ai-embedding"@[0] == 'a');
    assert("chat-message"@[0] == 'c');
    assert("chat-session"@[0] == 'c');
    assert("autolink"@[0] == 'a');
    assert("listitem"@[0] == 'l');
    assert("tablerow"@[0] == 't');
    assert("bullet"@[0] == 'b');
    assert("number"@[0] == 'n');
    assert("chat-message"@[5] == 'm');
    assert("chat-session"@[5] == 's');
    assert("children"@[0] == 'c');
    assert("language"@[0] == 'l');
    assert("listType"@[0] == 'l');
    assert("code"@[0] == 'c');
    assert("link"@[0] == 'l');
    assert("list"@[0] == 'l');
    assert("text"@[0] == 't');
    assert("colSpan"@[0] == 'c');
    assert("rowSpan"@[0] == 'r');
    assert("version"@[0] == 'v');
    assert("content"@[0] == 'c');
    assert("detail"@[0] == 'd');
    assert("format"@[0] == 'f');
    assert("indent"@[0] == 'i');
}

pub open spec fn distinct_keys_b() -> bool {
    &&& "detail"@ != "mode"@
    &&& "detail"@ != "style"@
    &&& "detail"@ != "text"@
    &&& "detail"@ != "type"@
    &&& "detail"@ != "version"@
    &&& "direction"@ != "format"@
    &&& "direction"@ != "headerState"@
    &&& "direction"@ != "indent"@
    &&& "direction"@ != "isLoading"@
    &&& "direction"@ != "language"@
    &&& "direction"@ != "listType"@
    &&& "direction"@ != "mentionName"@
    &&& "direction"@ != "messages"@
    &&& "direction"@ != "mode"@
    &&& "direction"@ != "rel"@
    &&& "direction"@ != "rowSpan"@
    &&& "direction"@ != "sender"@
    &&& "direction"@ != "sessionId"@
    &&& "direction"@ != "start"@
    &&& "direction"@ != "style"@
    &&& "direction"@ != "tag"@
    &&& "direction"@ != "target"@
    &&& "direction"@ != "text"@
    &&& "direction"@ != "textFormat"@
    &&& "direction"@ != "textStyle"@
    &&& "direction"@ != "timestamp"@
    &&& "direction"@ != "type"@
    &&& "direction"@ != "url"@
    &&& "direction"@ != "version"@
    &&& "format"@ != "headerState"@
    &&& "format"@ != "indent"@
    &&& "format"@ != "isLoading"@
    &&& "format"@ != "language"@
    &&& "format"@ != "listType"@
    &&& "format"@ != "mentionName"@
    &&& "format"@ != "messages"@
    &&& "format"@ != "mode"@
    &&& "format"@ != "rel"@
    &&& "format"@ != "rowSpan"@
    &&& "format"@ != "sender"@
    &&& "format"@ != "sessionId"@
    &&& "format"@ != "start"@
    &&& "format"@ != "style"@
    &&& "format"@ != "tag"@
    &&& "format"@ != "target"@
    &&& "format"@ != "text"@
    &&& "format"@ != "textFormat"@
    &&& "format"@ != "textStyle"@
    &&& "format"@ != "timestamp"@
    &&& "format"@ != "type"@
    &&& "format"@ != "url"@
    &&& "format"@ != "version"@
    &&& "h1"@ != "h2"@
    &&& "h1"@ != "h3"@
    &&& "h1"@ != "h4"@
    &&& "h1"@ != "h5"@
    &&& "h1"@ != "h6"@
    &&& "h2"@ != "h3"@
    &&& "h2"@ != "h4"@
    &&& "h2"@ != "h5"@
    &&& "h2"@ != "h6"@
    &&& "h3"@ != "h4"@
    &&& "h3"@ != "h5"@
    &&& "h3"@ != "h6"@
    &&& "h4"@ != "h5"@
    &&& "h4"@ != "h6"@
    &&& "h5"@ != "h6"@
    &&& "hashtag"@ != "heading"@
    &&& "hashtag"@ != "link"@
    &&& "hashtag"@ != "list"@
    &&& "hashtag"@ != "listitem"@
    &&& "hashtag"@ != "mention"@
    &&& "hashtag"@ != "page-break"@
    &&& "hashtag"@ != "paragraph"@
    &&& "hashtag"@ != "quote"@
    &&& "hashtag"@ != "table"@
    &&& "hashtag"@ != "tablecell"@
    &&& "hashtag"@ != "tablerow"@
    &&& "hashtag"@ != "text"@
    &&& "hashtag"@ != "voice-input"@
    &&& "headerState"@ != "indent"@
    &&& "headerState"@ != "rowSpan"@
    &&& "headerState"@ != "type"@
    &&& "headerState"@ != "version"@
    &&& "heading"@ != "link"@
    &&& "heading"@ != "list"@
    &&& "heading"@ != "listitem"@
    &&& "heading"@ != "mention"@
    &&& "heading"@ != "page-break"@
    &&& "heading"@ != "paragraph"@
    &&& "heading"@ != "quote"@
    &&& "heading"@ != "table"@
    &&& "heading"@ != "tablecell"@
    &&& "heading"@ != "tablerow"@
    &&& "heading"@ != "text"@
    &&& "heading"@ != "voice-input"@
    &&& "id"@ != "sender"@
    &&& "id"@ != "timestamp"@
    &&& "indent"@ != "isLoading"@
    &&& "indent"@ != "language"@
    &&& "indent"@ != "listType"@
    &&& "indent"@ != "mentionName"@
    &&& "indent"@ != "messages"@
    &&& "indent"@ != "mode"@
    &&& "indent"@ != "rel"@
    &&& "indent"@ != "rowSpan"@
    &&& "indent"@ != "sender"@
    &&& "indent"@ != "sessionId"@
    &&& "indent"@ != "start"@
    &&& "indent"@ != "style"@
    &&& "indent"@ != "tag"@
    &&& "indent"@ != "target"@
    &&& "indent"@ != "text"@
    &&& "indent"@ != "textFormat"@
    &&& "indent"@ != "textStyle"@
    &&& "indent"@ != "timestamp"@
    &&& "indent"@ != "type"@
    &&& "indent"@ != "url"@
    &&& "indent"@ != "version"@
    &&& "isLoading"@ != "type"@
}

proof fn lemma_distinct_keys_b()
    ensures
        distinct_keys_b(),
{
    reveal_strlit("detail");
    reveal_strlit("direction");
    reveal_strlit("format");
    reveal_strlit("h1");
    reveal_strlit("h2");
    reveal_strlit("h3");
    reveal_strlit("h4");
    reveal_strlit("h5");
    reveal_strlit("h6");
    reveal_strlit("hashtag");
    reveal_strlit("headerState");
    reveal_strlit("heading");
    reveal_strlit("id");
    reveal_strlit("indent");
    reveal_strlit("isLoading");
    reveal_strlit("language");
    reveal_strlit("link");
    reveal_strlit("list");
    reveal_strlit("listType");
    reveal_strlit("listitem");
    reveal_strlit("mention");
    reveal_strlit("mentionName");
    reveal_strlit("messages");
    reveal_strlit("mode");
    reveal_strlit("page-break");
    reveal_strlit("paragraph");
    reveal_strlit("quote");
    reveal_strlit("rel");
    reveal_strlit("rowSpan");
    reveal_strlit("sender");
    reveal_strlit("sessionId");
    reveal_strlit("start");
    reveal_strlit("style");
    reveal_strlit("table");
    reveal_strlit("tablecell");
    reveal_strlit("tablerow");
    reveal_strlit("tag");
    reveal_strlit("target");
    reveal_strlit("text");
    reveal_strlit("textFormat");
    reveal_strlit("textStyle");
    reveal_strlit("timestamp");
    reveal_strlit("type");
    reveal_strlit("url");
    reveal_strlit("version");
    reveal_strlit("voice-input");
    assert("detail"@.len() == 6);
    assert("direction"@.len() == 9);
    assert("format"@.len() == 6);
    assert("h1"@.len() == 2);
    assert("h2"@.len() == 2);
    assert("h3"@.len() == 2);
    assert("h4"@.len() == 2);
    assert("h5"@.len() == 2);
    assert("h6"@.len() == 2);
    assert("hashtag"@.len() == 7);
    assert("headerState"@.len() == 11);
    assert("heading"@.len() == 7);
    assert("id"@.len() == 2);
    assert("indent"@.len() == 6);
    assert("isLoading"@.len() == 9);
    assert("language"@.len() == 8);
    assert("link"@.len() == 4);
    assert("list"@.len() == 4);
    assert("listType"@.len() == 8);
    assert("listitem"@.len() == 8);
    assert("mention"@.len() == 7);
    assert("mentionName"@.len() == 11);
    assert("messages"@.len() == 8);
    assert("mode"@.len() == 4);
    assert("page-break"@.len() == 10);
    assert("paragraph"@.len() == 9);
    assert("quote"@.len() == 5);
    assert("rel"@.len() == 3);
    assert("rowSpan"@.len() == 7);
    assert("sender"@.len() == 6);
    assert("sessionId"@.len() == 9);
    assert("start"@.len() == 5);
    assert("style"@.len() == 5);
    assert("table"@.len() == 5);
    assert("tablecell"@.len() == 9);
    assert("tablerow"@.len() == 8);
    assert("tag"@.len() == 3);
    assert("target"@.len() == 6);
    assert("text"@.len() == 4);
    assert("textFormat"@.len() == 10);
    assert("textStyle"@.len() == 9);
    assert("timestamp"@.len() == 9);
    assert("type"@.len() == 4);
    assert("url"@.len() == 3);
    assert("version"@.len() == 7);
    assert("voice-input"@.len() == 11);
    assert("direction"@[0] == 'd');
    assert("isLoading"@[0] == 'i');
    assert("sessionId"@[0] == 's');
    assert("textStyle"@[0] == 't');
    assert("timestamp"@[0] == 't');
    assert("format"@[0] == 'f');
    assert("indent"@[0] == 'i');
    assert("sender"@[0] == 's');
    assert("target"@[0] == 't');
    assert("h1"@[1] == '1');
    assert("h2"@[1] == '2');
    assert("h3"@[1] == '3');
    assert("h4"@[1] == '4');
    assert("h5"@[1] == '5');
    assert("h6"@[1] == '6');
    assert("hashtag"@[1] == 'a');
    assert("heading"@[1] == 'e');
    assert("hashtag"@[0] == 'h');
    assert("mention"@[0] == 'm');
    assert("heading"@[0] == 'h');
}

pub open spec fn distinct_keys_c() -> bool {
    &&& "isLoading"@ != "version"@
    &&& "language"@ != "text"@
    &&& "language"@ != "type"@
    &&& "language"@ != "version"@
    &&& "lexicalState"@ != "noteId"@
    &&& "lexicalState"@ != "root"@
    &&& "link"@ != "list"@
    &&& "link"@ != "listitem"@
    &&& "link"@ != "mention"@
    &&& "link"@ != "page-break"@
    &&& "link"@ != "paragraph"@
    &&& "link"@ != "quote"@
    &&& "link"@ != "table"@
    &&& "link"@ != "tablecell"@
    &&& "link"@ != "tablerow"@
    &&& "link"@ != "text"@
    &&& "link"@ != "voice-input"@
    &&& "list"@ != "listitem"@
    &&& "list"@ != "mention"@
    &&& "list"@ != "page-break"@
    &&& "list"@ != "paragraph"@
    &&& "list"@ != "quote"@
    &&& "list"@ != "table"@
    &&& "list"@ != "tablecell"@
    &&& "list"@ != "tablerow"@
    &&& "list"@ != "text"@
    &&& "list"@ != "voice-input"@
    &&& "listType"@ != "start"@
    &&& "listType"@ != "type"@
    &&& "listType"@ != "version"@
    &&& "listitem"@ != "mention"@
    &&& "listitem"@ != "page-break"@
    &&& "listitem"@ != "paragraph"@
    &&& "listitem"@ != "quote"@
    &&& "listitem"@ != "table"@
    &&& "listitem"@ != "tablecell"@
    &&& "listitem"@ != "tablerow"@
    &&& "listitem"@ != "text"@
    &&& "listitem"@ != "voice-input"@
    &&& "ltr"@ != "rtl"@
    &&& "mention"@ != "page-break"@
    &&& "mention"@ != "paragraph"@
    &&& "mention"@ != "quote"@
    &&& "mention"@ != "table"@
    &&& "mention"@ != "tablecell"@
    &&& "mention"@ != "tablerow"@
    &&& "mention"@ != "text"@
    &&& "mention"@ != "voice-input"@
    &&& "mentionName"@ != "text"@
    &&& "mentionName"@ != "type"@
    &&& "mentionName"@ != "version"@
    &&& "messages"@ != "sessionId"@
    &&& "messages"@ != "type"@
    &&& "messages"@ != "version"@
    &&& "mode"@ != "style"@
    &&& "mode"@ != "text"@
    &&& "mode"@ != "type"@
    &&& "mode"@ != "version"@
    &&& "noteId"@ != "root"@
    &&& "page-break"@ != "paragraph"@
    &&& "page-break"@ != "quote"@
    &&& "page-break"@ != "table"@
    &&& "page-break"@ != "tablecell"@
    &&& "page-break"@ != "tablerow"@
    &&& "page-break"@ != "text"@
    &&& "page-break"@ != "voice-input"@
    &&& "paragraph"@ != "quote"@
    &&& "paragraph"@ != "table"@
    &&& "paragraph"@ != "tablecell"@
    &&& "paragraph"@ != "tablerow"@
    &&& "paragraph"@ != "text"@
    &&& "paragraph"@ != "voice-input"@
    &&& "quote"@ != "table"@
    &&& "quote"@ != "tablecell"@
    &&& "quote"@ != "tablerow"@
    &&& "quote"@ != "text"@
    &&& "quote"@ != "voice-input"@
    &&& "rel"@ != "target"@
    &&& "rel"@ != "type"@
    &&& "rel"@ != "url"@
    &&& "rel"@ != "version"@
    &&& "rowSpan"@ != "type"@
    &&& "rowSpan"@ != "version"@
    &&& "sender"@ != "timestamp"@
    &&& "sender"@ != "type"@
    &&& "sender"@ != "version"@
    &&& "sessionId"@ != "type"@
    &&& "sessionId"@ != "version"@
    &&& "start"@ != "type"@
    &&& "start"@ != "version"@
    &&& "style"@ != "text"@
    &&& "style"@ != "type"@
    &&& "style"@ != "version"@
    &&& "system"@ != "user"@
    &&& "table"@ != "tablecell"@
    &&& "table"@ != "tablerow"@
    &&& "table"@ != "text"@
    &&& "table"@ != "voice-input"@
    &&& "tablecell"@ != "tablerow"@
    &&& "tablecell"@ != "text"@
    &&& "tablecell"@ != "voice-input"@
    &&& "tablerow"@ != "text"@
    &&& "tablerow"@ != "voice-input"@
    &&& "tag"@ != "type"@
    &&& "tag"@ != "version"@
    &&& "target"@ != "type"@
    &&& "target"@ != "url"@
    &&& "target"@ != "version"@
    &&& "text"@ != "type"@
    &&& "text"@ != "version"@
    &&& "text"@ != "voice-input"@
    &&& "textFormat"@ != "textStyle"@
    &&& "textFormat"@ != "type"@
    &&& "textFormat"@ != "version"@
    &&& "textStyle"@ != "type"@
    &&& "textStyle"@ != "version"@
    &&& "timestamp"@ != "type"@
    &&& "timestamp"@ != "version"@
    &&& "type"@ != "url"@
    &&& "type"@ != "version"@
}

proof fn lemma_distinct_keys_c()
    ensures
        distinct_keys_c(),
{
    reveal_strlit("isLoading");
    reveal_strlit("language");
    reveal_strlit("lexicalState");
    reveal_strlit("link");
    reveal_strlit("list");
    reveal_strlit("listType");
    reveal_strlit("listitem");
    reveal_strlit("ltr");
    reveal_strlit("mention");
    reveal_strlit("mentionName");
    reveal_strlit("messages");
    reveal_strlit("mode");
    reveal_strlit("noteId");
    reveal_strlit("page-break");
    reveal_strlit("paragraph");
    reveal_strlit("quote");
    reveal_strlit("rel");
    reveal_strlit("root");
    reveal_strlit("rowSpan");
    reveal_strlit("rtl");
    reveal_strlit("sender");
    reveal_strlit("sessionId");
    reveal_strlit("start");
    reveal_strlit("style");
    reveal_strlit("system");
    reveal_strlit("table");
    reveal_strlit("tablecell");
    reveal_strlit("tablerow");
    reveal_strlit("tag");
    reveal_strlit("target");
    reveal_strlit("text");
    reveal_strlit("textFormat");
    reveal_strlit("textStyle");
    reveal_strlit("timestamp");
    reveal_strlit("type");
    reveal_strlit("url");
    reveal_strlit("user");
    reveal_strlit("version");
    reveal_strlit("voice-input");
    assert("isLoading"@.len() == 9);
    assert("language"@.len() == 8);
    assert("lexicalState"@.len() == 12);
    assert("link"@.len() == 4);
    assert("list"@.len() == 4);
    assert("listType"@.len() == 8);
    assert("listitem"@.len() == 8);
    assert("ltr"@.len() == 3);
    assert("mention"@.len() == 7);
    assert("mentionName"@.len() == 11);
    assert("messages"@.len() == 8);
    assert("mode"@.len() == 4);
    assert("noteId"@.len() == 6);
    assert("page-break"@.len() == 10);
    assert("paragraph"@.len() == 9);
    assert("quote"@.len() == 5);
    assert("rel"@.len() == 3);
    assert("root"@.len() == 4);
    assert("rowSpan"@.len() == 7);
    assert("rtl"@.len() == 3);
    assert("sender"@.len() == 6);
    assert("sessionId"@.len() == 9);
    assert("start"@.len() == 5);
    assert("style"@.len() == 5);
    assert("system"@.len() == 6);
    assert("table"@.len() == 5);
    assert("tablecell"@.len() == 9);
    assert("tablerow"@.len() == 8);
    assert("tag"@.len() == 3);
    assert("target"@.len() == 6);
    assert("text"@.len() == 4);
    assert("textFormat"@.len() == 10);
    assert("textStyle"@.len() == 9);
    assert("timestamp"@.len() == 9);
    assert("type"@.len() == 4);
    assert("url"@.len() == 3);
    assert("user"@.len() == 4);
    assert("version"@.len() == 7);
    assert("voice-input"@.len() == 11);
    assert("link"@[2] == 'n');
    assert("list"@[2] == 's');
    assert("link"@[0] == 'l');
    assert("text"@[0] == 't');
    assert("list"@[0] == 'l');
    assert("listitem"@[0] == 'l');
    assert("tablerow"@[0] == 't');
    assert("ltr"@[0] == 'l');
    assert("rtl"@[0] == 'r');
    assert("mode"@[0] == 'm');
    assert("type"@[0] == 't');
    assert("paragraph"@[0] == 'p');
    assert("tablecell"@[0] == 't');
    assert("quote"@[0] == 'q');
    assert("table"@[0] == 't');
    assert("rel"@[0] == 'r');
    assert("url"@[0] == 'u');
    assert("rowSpan"@[0] == 'r');
    assert("version"@[0] == 'v');
    assert("text"@[1] == 'e');
    assert("type"@[1] == 'y');
}

pub open spec fn distinct_keys_d() -> bool {
    &&& "url"@ != "version"@
}

proof fn lemma_distinct_keys_d()
    ensures
        distinct_keys_d(),
{
    reveal_strlit("url");
    reveal_strlit("version");
    assert("url"@.len() == 3);
    assert("version"@.len() == 7);
}

/// The wire keys and tag words this codec scans past are pairwise distinct.
pub open spec fn distinct_keys() -> bool {
    &&& distinct_keys_a()
    &&& distinct_keys_b()
    &&& distinct_keys_c()
    &&& distinct_keys_d()
}

proof fn lemma_distinct_keys()
    ensures
        distinct_keys(),
{
    lemma_distinct_keys_a();
    lemma_distinct_keys_b();
    lemma_distinct_keys_c();
    lemma_distinct_keys_d();
}
} // verus!

verus! {

fn push_field(fields: &mut Vec<(String, Json)>, key: &str, v: Json)
    ensures
        fields_view(final(fields)@) =~= fields_view(old(fields)@).push((key@, v@)),
{
    let ghost before = fields@;
    fields.push((key.to_owned(), v));
    proof {
        assert(fields_view(fields@) =~= fields_view(before).push((key@, fields@.last().1@)));
    }
}

/// Appends the wire entries of the shared base attributes.
fn push_base(fields: &mut Vec<(String, Json)>, base: &BaseNodeProperties, own_format: bool)
    ensures
        fields_view(final(fields)@) =~= fields_view(old(fields)@) + base_entries(
            base@,
            own_format,
        ),
{
    let ghost start = fields_view(fields@);
    push_field(fields, "version", Json::UInt(base.version as u64));
    proof {
        assert(fields_view(fields@) =~= start + seq![
            ("version"@, JsonVal::UInt(base@.version as u64)),
        ]);
    }
    let ghost g1 = fields_view(fields@);
    match &base.direction {
        Some(TextDirection::LeftToRight) => {
            push_field(fields, "direction", Json::Text("ltr".to_owned()));
        },
        Some(TextDirection::RightToLeft) => {
            push_field(fields, "direction", Json::Text("rtl".to_owned()));
        },
        None => {},
    }
    proof {
        assert(fields_view(fields@) =~= g1 + dir_entries(base@.direction));
    }
    let ghost g2 = fields_view(fields@);
    if !own_format {
        match &base.format {
            Some(f) => {
                push_field(fields, "format", Json::Text(f.clone()));
            },
            None => {},
        }
        proof {
            assert(fields_view(fields@) =~= g2 + opt_text_entry("format"@, base@.format));
        }
    }
    let ghost g3 = fields_view(fields@);
    match base.indent {
        Some(ind) => {
            push_field(fields, "indent", Json::UInt(ind as u64));
        },
        None => {},
    }
    proof {
        assert(fields_view(fields@) =~= g3 + opt_u32_entry("indent"@, base@.indent));
        assert(fields_view(fields@) =~= start + base_entries(base@, own_format));
    }
}

/// The wire form of a heading tag.
fn tag_to_text(t: &HeadingTag) -> (r: String)
    ensures
        r@ == tag_text(*t),
{
    match t {
        HeadingTag::H1 => "h1".to_owned(),
        HeadingTag::H2 => "h2".to_owned(),
        HeadingTag::H3 => "h3".to_owned(),
        HeadingTag::H4 => "h4".to_owned(),
        HeadingTag::H5 => "h5".to_owned(),
        HeadingTag::H6 => "h6".to_owned(),
    }
}

/// The wire form of a list kind.
fn list_type_to_text(t: &ListType) -> (r: String)
    ensures
        r@ == list_type_text(*t),
{
    match t {
        ListType::Bullet => "bullet".to_owned(),
        ListType::Number => "number".to_owned(),
    }
}

/// The wire forms of a chat session's records.
fn msgs_to_json(msgs: &Vec<ChatSessionMessage>) -> (r: Vec<Json>)
    ensures
        crate::json::arr_view(r@) == msgs_jv(crate::note::msgs_view(msgs@)),
{
    let ghost mv = crate::note::msgs_view(msgs@);
    let mut items: Vec<Json> = Vec::new();
    let n = msgs.len();
    let mut i: usize = 0;
    while i < n
        invariant
            n == msgs@.len(),
            mv == crate::note::msgs_view(msgs@),
            mv.len() == n,
            0 <= i <= n,
            crate::json::arr_view(items@) =~= Seq::new(i as nat, |k: int| msg_jv(mv[k])),
        decreases n - i,
    {
        let m = &msgs[i];
        let mut fs: Vec<(String, Json)> = Vec::new();
        push_field(&mut fs, "id", Json::UInt(m.id as u64));
        push_field(&mut fs, "sender", Json::Text(m.sender.as_text()));
        push_field(&mut fs, "content", Json::Text(m.content.clone()));
        push_field(&mut fs, "timestamp", Json::Text(m.timestamp.clone()));
        let ghost prev = items@;
        let obj = Json::Obj(fs);
        proof {
            assert(mv[i as int] == msgs@[i as int]@);
            assert(fields_view(obj->Obj_0@) =~= seq![
                ("id"@, JsonVal::UInt(m.id as u64)),
                ("sender"@, JsonVal::Text(sender_text(m.sender))),
                ("content"@, JsonVal::Text(m.content@)),
                ("timestamp"@, JsonVal::Text(m.timestamp@)),
            ]);
            assert(obj@ == msg_jv(mv[i as int]));
        }
        items.push(obj);
        proof {
            assert(crate::json::arr_view(items@) =~= crate::json::arr_view(prev).push(
                msg_jv(mv[i as int]),
            ));
            assert(crate::json::arr_view(items@) =~= Seq::new(
                (i + 1) as nat,
                |k: int| msg_jv(mv[k]),
            ));
        }
        i = i + 1;
    }
    proof {
        assert(crate::json::arr_view(items@) =~= msgs_jv(mv));
    }
    items
}

/// The wire forms of a node sequence.
#[verifier::loop_isolation(false)]
fn nodes_to_json(children: &Vec<LexicalNode>) -> (r: Vec<Json>)
    ensures
        crate::json::arr_view(r@) == nodes_jv(crate::note::nodes_view(children@)),
    decreases *children, 0int,
{
    let ghost cv = crate::note::nodes_view(children@);
    let mut items: Vec<Json> = Vec::new();
    let n = children.len();
    let mut i: usize = 0;
    while i < n
        invariant
            n == children@.len(),
            0 <= i <= n,
            crate::json::arr_view(items@) =~= Seq::new(i as nat, |k: int| node_jv(cv[k])),
        decreases n - i,
    {
        proof {
            assert(cv[i as int] == crate::note::node_view(children@[i as int]));
            assert(decreases_to!(*children => children@));
            assert(decreases_to!(children@ => children@[i as int]));
        }
        let ghost prev = items@;
        let j = node_to_json(&children[i]);
        items.push(j);
        proof {
            assert(crate::json::arr_view(items@) =~= crate::json::arr_view(prev).push(
                node_jv(cv[i as int]),
            ));
            assert(crate::json::arr_view(items@) =~= Seq::new(
                (i + 1) as nat,
                |k: int| node_jv(cv[k]),
            ));
        }
        i = i + 1;
    }
    proof {
        assert(crate::json::arr_view(items@) =~= nodes_jv(cv));
    }
    items
}

/// The wire form of one node.
#[verifier::rlimit(100)]
pub fn node_to_json(n: &LexicalNode) -> (r: Json)
    ensures
        r@ == node_jv(n@),
    decreases *n, 1int,
{
    let mut fs: Vec<(String, Json)> = Vec::new();
    match n {
        LexicalNode::Text(t) => {
            push_field(&mut fs, "type", Json::Text("text".to_owned()));
            push_field(&mut fs, "text", Json::Text(t.text.clone()));
            push_field(&mut fs, "format", Json::UInt(t.format as u64));
            push_field(&mut fs, "detail", Json::UInt(t.detail as u64));
            push_field(&mut fs, "mode", Json::Text(t.mode.clone()));
            push_field(&mut fs, "style", Json::Text(t.style.clone()));
            push_base(&mut fs, &t.base, true);
            proof {
                assert(n@ == (NodeV::Text {
                    text: t.text@,
                    format: t.format,
                    detail: t.detail,
                    mode: t.mode@,
                    style: t.style@,
                    base: t.base@,
                }));
                assert(fields_view(fs@) =~~= seq![
                    ("type"@, JsonVal::Text("text"@)),
                    ("text"@, JsonVal::Text(t.text@)),
                    ("format"@, JsonVal::UInt(t.format as u64)),
                    ("detail"@, JsonVal::UInt(t.detail as u64)),
                    ("mode"@, JsonVal::Text(t.mode@)),
                    ("style"@, JsonVal::Text(t.style@)),
                ] + base_entries(t.base@, true));
                assert(JsonVal::Obj(fields_view(fs@)) =~~= node_jv(n@));
            }
        },
        LexicalNode::Paragraph(p) => {
            proof {
                assert(decreases_to!(*n => (*n)->Paragraph_0));
                assert(decreases_to!(*p => p.children));
            }
            push_field(&mut fs, "type", Json::Text("paragraph".to_owned()));
            push_field(&mut fs, "children", Json::Arr(nodes_to_json(&p.children)));
            push_field(&mut fs, "textFormat", Json::UInt(p.text_format as u64));
            push_field(&mut fs, "textStyle", Json::Text(p.text_style.clone()));
            push_base(&mut fs, &p.base, false);
            proof {
                assert(fields_view(fs@) =~~= seq![
                    ("type"@, JsonVal::Text("paragraph"@)),
                    ("children"@, JsonVal::Arr(nodes_jv(crate::note::nodes_view(p.children@)))),
                    ("textFormat"@, JsonVal::UInt(p.text_format as u64)),
                    ("textStyle"@, JsonVal::Text(p.text_style@)),
                ] + base_entries(p.base@, false));
                assert(JsonVal::Obj(fields_view(fs@)) =~~= node_jv(n@));
            }
        },
        LexicalNode::Heading(h) => {
            proof {
                assert(decreases_to!(*n => (*n)->Heading_0));
                assert(decreases_to!(*h => h.children));
            }
            push_field(&mut fs, "type", Json::Text("heading".to_owned()));
            push_field(&mut fs, "tag", Json::Text(tag_to_text(&h.tag)));
            push_field(&mut fs, "children", Json::Arr(nodes_to_json(&h.children)));
            push_base(&mut fs, &h.base, false);
            proof {
                assert(fields_view(fs@) =~~= seq![
                    ("type"@, JsonVal::Text("heading"@)),
                    ("tag"@, JsonVal::Text(tag_text(h.tag))),
                    ("children"@, JsonVal::Arr(nodes_jv(crate::note::nodes_view(h.children@)))),
                ] + base_entries(h.base@, false));
                assert(JsonVal::Obj(fields_view(fs@)) =~~= node_jv(n@));
            }
        },
        LexicalNode::List(l) => {
            proof {
                assert(decreases_to!(*n => (*n)->List_0));
                assert(decreases_to!(*l => l.children));
            }
            push_field(&mut fs, "type", Json::Text("list".to_owned()));
            push_field(&mut fs, "listType", Json::Text(list_type_to_text(&l.list_type)));
            match l.start {
                Some(u) => push_field(&mut fs, "start", Json::UInt(u as u64)),
                None => push_field(&mut fs, "start", Json::Null),
            }
            push_field(&mut fs, "children", Json::Arr(nodes_to_json(&l.children)));
            push_base(&mut fs, &l.base, false);
            proof {
                assert(fields_view(fs@) =~~= seq![
                    ("type"@, JsonVal::Text("list"@)),
                    ("listType"@, JsonVal::Text(list_type_text(l.list_type))),
                    (
                        "start"@,
                        match l.start {
                            Some(u) => JsonVal::UInt(u as u64),
                            None => JsonVal::Null,
                        },
                    ),
                    ("children"@, JsonVal::Arr(nodes_jv(crate::note::nodes_view(l.children@)))),
                ] + base_entries(l.base@, false));
                assert(JsonVal::Obj(fields_view(fs@)) =~~= node_jv(n@));
            }
        },
        LexicalNode::ListItem(l) => {
            proof {
                assert(decreases_to!(*n => (*n)->ListItem_0));
                assert(decreases_to!(*l => l.children));
            }
            push_field(&mut fs, "type", Json::Text("listitem".to_owned()));
            push_field(&mut fs, "children", Json::Arr(nodes_to_json(&l.children)));
            push_base(&mut fs, &l.base, false);
            proof {
                assert(fields_view(fs@) =~~= seq![
                    ("type"@, JsonVal::Text("listitem"@)),
                    ("children"@, JsonVal::Arr(nodes_jv(crate::note::nodes_view(l.children@)))),
                ] + base_entries(l.base@, false));
                assert(JsonVal::Obj(fields_view(fs@)) =~~= node_jv(n@));
            }
        },
        LexicalNode::Quote(q) => {
            proof {
                assert(decreases_to!(*n => (*n)->Quote_0));
                assert(decreases_to!(*q => q.children));
            }
            push_field(&mut fs, "type", Json::Text("quote".to_owned()));
            push_field(&mut fs, "children", Json::Arr(nodes_to_json(&q.children)));
            push_base(&mut fs, &q.base, false);
            proof {
                assert(fields_view(fs@) =~~= seq![
                    ("type"@, JsonVal::Text("quote"@)),
                    ("children"@, JsonVal::Arr(nodes_jv(crate::note::nodes_view(q.children@)))),
                ] + base_entries(q.base@, false));
                assert(JsonVal::Obj(fields_view(fs@)) =~~= node_jv(n@));
            }
        },
        LexicalNode::Code(c) => {
            push_field(&mut fs, "type", Json::Text("code".to_owned()));
            match &c.text {
                Some(t) => push_field(&mut fs, "text", Json::Text(t.clone())),
                None => {},
            }
            match &c.language {
                Some(l) => push_field(&mut fs, "language", Json::Text(l.clone())),
                None => {},
            }
            match &c.children {
                Some(cs) => {
                    proof {
                        assert(decreases_to!(*n => (*n)->Code_0));
                        assert(decreases_to!(*c => c.children));
                        assert(decreases_to!(c.children => *cs));
                    }
                    push_field(&mut fs, "children", Json::Arr(nodes_to_json(cs)));
                },
                None => {},
            }
            push_field(&mut fs, "format", Json::UInt(c.format as u64));
            push_base(&mut fs, &c.base, true);
            proof {
                assert(fields_view(fs@) =~~= seq![("type"@, JsonVal::Text("code"@))] + opt_text_entry("text"@, crate::note::opt_str_view(c.text))
                    + opt_text_entry("language"@, crate::note::opt_str_view(c.language)) + (match c.children {
                    Some(cs) => seq![("children"@, JsonVal::Arr(nodes_jv(crate::note::nodes_view(cs@))))],
                    None => Seq::empty(),
                }) + seq![("format"@, JsonVal::UInt(c.format as u64))] + base_entries(
                    c.base@,
                    true,
                ));
                assert(JsonVal::Obj(fields_view(fs@)) =~~= node_jv(n@));
            }
        },
        LexicalNode::Link(l) => {
            proof {
                assert(decreases_to!(*n => (*n)->Link_0));
                assert(decreases_to!(*l => l.children));
            }
            push_field(&mut fs, "type", Json::Text("link".to_owned()));
            push_field(&mut fs, "url", Json::Text(l.url.clone()));
            match &l.rel {
                Some(r0) => push_field(&mut fs, "rel", Json::Text(r0.clone())),
                None => {},
            }
            match &l.target {
                Some(t0) => push_field(&mut fs, "target", Json::Text(t0.clone())),
                None => {},
            }
            push_field(&mut fs, "children", Json::Arr(nodes_to_json(&l.children)));
            push_base(&mut fs, &l.base, false);
            proof {
                assert(fields_view(fs@) =~~= seq![("type"@, JsonVal::Text("link"@)), ("url"@, JsonVal::Text(l.url@))]
                    + opt_text_entry("rel"@, crate::note::opt_str_view(l.rel)) + opt_text_entry(
                    "target"@,
                    crate::note::opt_str_view(l.target),
                ) + seq![("children"@, JsonVal::Arr(nodes_jv(crate::note::nodes_view(l.children@))))] + base_entries(
                    l.base@,
                    false,
                ));
                assert(JsonVal::Obj(fields_view(fs@)) =~~= node_jv(n@));
            }
        },
        LexicalNode::AutoLink(a) => {
            proof {
                assert(decreases_to!(*n => (*n)->AutoLink_0));
                assert(decreases_to!(*a => a.children));
            }
            push_field(&mut fs, "type", Json::Text("autolink".to_owned()));
            push_field(&mut fs, "url", Json::Text(a.url.clone()));
            push_field(&mut fs, "children", Json::Arr(nodes_to_json(&a.children)));
            push_base(&mut fs, &a.base, false);
            proof {
                assert(fields_view(fs@) =~~= seq![
                    ("type"@, JsonVal::Text("autolink"@)),
                    ("url"@, JsonVal::Text(a.url@)),
                    ("children"@, JsonVal::Arr(nodes_jv(crate::note::nodes_view(a.children@)))),
                ] + base_entries(a.base@, false));
                assert(JsonVal::Obj(fields_view(fs@)) =~~= node_jv(n@));
            }
        },
        LexicalNode::Hashtag(h) => {
            push_field(&mut fs, "type", Json::Text("hashtag".to_owned()));
            push_field(&mut fs, "text", Json::Text(h.text.clone()));
            push_field(&mut fs, "format", Json::UInt(h.format as u64));
            push_base(&mut fs, &h.base, true);
            proof {
                assert(fields_view(fs@) =~~= seq![
                    ("type"@, JsonVal::Text("hashtag"@)),
                    ("text"@, JsonVal::Text(h.text@)),
                    ("format"@, JsonVal::UInt(h.format as u64)),
                ] + base_entries(h.base@, true));
                assert(JsonVal::Obj(fields_view(fs@)) =~~= node_jv(n@));
            }
        },
        LexicalNode::Table(t) => {
            proof {
                assert(decreases_to!(*n => (*n)->Table_0));
                assert(decreases_to!(*t => t.children));
            }
            push_field(&mut fs, "type", Json::Text("table".to_owned()));
            push_field(&mut fs, "children", Json::Arr(nodes_to_json(&t.children)));
            push_base(&mut fs, &t.base, false);
            proof {
                assert(fields_view(fs@) =~~= seq![
                    ("type"@, JsonVal::Text("table"@)),
                    ("children"@, JsonVal::Arr(nodes_jv(crate::note::nodes_view(t.children@)))),
                ] + base_entries(t.base@, false));
                assert(JsonVal::Obj(fields_view(fs@)) =~~= node_jv(n@));
            }
        },
        LexicalNode::TableRow(t) => {
            proof {
                assert(decreases_to!(*n => (*n)->TableRow_0));
                assert(decreases_to!(*t => t.children));
            }
            push_field(&mut fs, "type", Json::Text("tablerow".to_owned()));
            push_field(&mut fs, "children", Json::Arr(nodes_to_json(&t.children)));
            push_base(&mut fs, &t.base, false);
            proof {
                assert(fields_view(fs@) =~~= seq![
                    ("type"@, JsonVal::Text("tablerow"@)),
                    ("children"@, JsonVal::Arr(nodes_jv(crate::note::nodes_view(t.children@)))),
                ] + base_entries(t.base@, false));
                assert(JsonVal::Obj(fields_view(fs@)) =~~= node_jv(n@));
            }
        },
        LexicalNode::TableCell(t) => {
            proof {
                assert(decreases_to!(*n => (*n)->TableCell_0));
                assert(decreases_to!(*t => t.children));
            }
            push_field(&mut fs, "type", Json::Text("tablecell".to_owned()));
            push_field(&mut fs, "children", Json::Arr(nodes_to_json(&t.children)));
            push_field(&mut fs, "headerState", Json::UInt(t.header_state as u64));
            push_field(&mut fs, "colSpan", Json::UInt(t.col_span as u64));
            push_field(&mut fs, "rowSpan", Json::UInt(t.row_span as u64));
            push_base(&mut fs, &t.base, false);
            proof {
                assert(fields_view(fs@) =~~= seq![
                    ("type"@, JsonVal::Text("tablecell"@)),
                    ("children"@, JsonVal::Arr(nodes_jv(crate::note::nodes_view(t.children@)))),
                    ("headerState"@, JsonVal::UInt(t.header_state as u64)),
                    ("colSpan"@, JsonVal::UInt(t.col_span as u64)),
                    ("rowSpan"@, JsonVal::UInt(t.row_span as u64)),
                ] + base_entries(t.base@, false));
                assert(JsonVal::Obj(fields_view(fs@)) =~~= node_jv(n@));
            }
        },
        LexicalNode::PageBreak(p) => {
            push_field(&mut fs, "type", Json::Text("page-break".to_owned()));
            push_base(&mut fs, &p.base, false);
            proof {
                assert(fields_view(fs@) =~~= seq![("type"@, JsonVal::Text("page-break"@))] + base_entries(p.base@, false));
                assert(JsonVal::Obj(fields_view(fs@)) =~~= node_jv(n@));
            }
        },
        LexicalNode::AIEmbedding(a) => {
            push_field(&mut fs, "type", Json::Text("ai-embedding".to_owned()));
            push_field(&mut fs, "content", Json::Text(a.content.clone()));
            push_field(&mut fs, "isLoading", Json::Bool(a.is_loading));
            push_base(&mut fs, &a.base, false);
            proof {
                assert(fields_view(fs@) =~~= seq![
                    ("type"@, JsonVal::Text("ai-embedding"@)),
                    ("content"@, JsonVal::Text(a.content@)),
                    ("isLoading"@, JsonVal::Bool(a.is_loading)),
                ] + base_entries(a.base@, false));
                assert(JsonVal::Obj(fields_view(fs@)) =~~= node_jv(n@));
            }
        },
        LexicalNode::VoiceInput(v) => {
            push_field(&mut fs, "type", Json::Text("voice-input".to_owned()));
            push_field(&mut fs, "content", Json::Text(v.content.clone()));
            push_base(&mut fs, &v.base, false);
            proof {
                assert(fields_view(fs@) =~~= seq![
                    ("type"@, JsonVal::Text("voice-input"@)),
                    ("content"@, JsonVal::Text(v.content@)),
                ] + base_entries(v.base@, false));
                assert(JsonVal::Obj(fields_view(fs@)) =~~= node_jv(n@));
            }
        },
        LexicalNode::ChatMessage(m) => {
            push_field(&mut fs, "type", Json::Text("chat-message".to_owned()));
            push_field(&mut fs, "sender", Json::Text(m.sender.as_text()));
            push_field(&mut fs, "content", Json::Text(m.content.clone()));
            push_field(&mut fs, "timestamp", Json::Text(m.timestamp.clone()));
            push_base(&mut fs, &m.base, false);
            proof {
                assert(fields_view(fs@) =~~= seq![
                    ("type"@, JsonVal::Text("chat-message"@)),
                    ("sender"@, JsonVal::Text(sender_text(m.sender))),
                    ("content"@, JsonVal::Text(m.content@)),
                    ("timestamp"@, JsonVal::Text(m.timestamp@)),
                ] + base_entries(m.base@, false));
                assert(JsonVal::Obj(fields_view(fs@)) =~~= node_jv(n@));
            }
        },
        LexicalNode::ChatSession(s) => {
            push_field(&mut fs, "type", Json::Text("chat-session".to_owned()));
            push_field(&mut fs, "sessionId", Json::Text(s.session_id.clone()));
            push_field(&mut fs, "messages", Json::Arr(msgs_to_json(&s.messages)));
            push_base(&mut fs, &s.base, false);
            proof {
                assert(fields_view(fs@) =~~= seq![
                    ("type"@, JsonVal::Text("chat-session"@)),
                    ("sessionId"@, JsonVal::Text(s.session_id@)),
                    ("messages"@, JsonVal::Arr(msgs_jv(crate::note::msgs_view(s.messages@)))),
                ] + base_entries(s.base@, false));
                assert(JsonVal::Obj(fields_view(fs@)) =~~= node_jv(n@));
            }
        },
        LexicalNode::Mention(m) => {
            push_field(&mut fs, "type", Json::Text("mention".to_owned()));
            push_field(&mut fs, "mentionName", Json::Text(m.mention_name.clone()));
            push_field(&mut fs, "text", Json::Text(m.text.clone()));
            push_field(&mut fs, "format", Json::UInt(m.format as u64));
            push_base(&mut fs, &m.base, true);
            proof {
                assert(fields_view(fs@) =~~= seq![
                    ("type"@, JsonVal::Text("mention"@)),
                    ("mentionName"@, JsonVal::Text(m.mention_name@)),
                    ("text"@, JsonVal::Text(m.text@)),
                    ("format"@, JsonVal::UInt(m.format as u64)),
                ] + base_entries(m.base@, true));
                assert(JsonVal::Obj(fields_view(fs@)) =~~= node_jv(n@));
            }
        },
    }
    let r = Json::Obj(fs);
    proof {
        assert(r@ =~~= node_jv(n@));
    }
    r
}

impl Note {
    /// Serializes the note into its canonical tree-JSON form.
    #[verifier::rlimit(60)]
    pub fn to_json(&self) -> (r: Json)
        ensures
            r@ == note_jv(self@),
    {
        let root = &self.lexical_state.root;
        let mut rfs: Vec<(String, Json)> = Vec::new();
        push_field(&mut rfs, "type", Json::Text(root.node_type.clone()));
        push_field(&mut rfs, "children", Json::Arr(nodes_to_json(&root.children)));
        push_base(&mut rfs, &root.base, false);
        let root_json = Json::Obj(rfs);
        proof {
            assert(fields_view(root_json->Obj_0@) =~= seq![
                ("type"@, JsonVal::Text(root.node_type@)),
                (
                    "children"@,
                    JsonVal::Arr(nodes_jv(crate::note::nodes_view(root.children@))),
                ),
            ] + base_entries(root.base@, false));
            assert(root_json@ =~~= root_jv(self@.lexical_state.root));
        }
        let mut lfs: Vec<(String, Json)> = Vec::new();
        push_field(&mut lfs, "root", root_json);
        let ls_obj = Json::Obj(lfs);
        proof {
            assert(fields_view(ls_obj->Obj_0@) =~= seq![("root"@, root_json@)]);
            assert(root_json@ == root_jv(self@.lexical_state.root));
            assert(ls_obj@ =~~= JsonVal::Obj(
                seq![("root"@, root_jv(self@.lexical_state.root))],
            ));
        }
        let mut nfs: Vec<(String, Json)> = Vec::new();
        match &self.note_id {
            Some(s) => {
                push_field(&mut nfs, "noteId", Json::Text(s.clone()));
                proof {
                    assert(self@.note_id == Some(s@));
                    assert(fields_view(nfs@) =~= seq![("noteId"@, JsonVal::Text(s@))]);
                }
            },
            None => {
                push_field(&mut nfs, "noteId", Json::Null);
                proof {
                    assert(self@.note_id is None);
                    assert(fields_view(nfs@) =~= seq![("noteId"@, JsonVal::Null)]);
                }
            },
        }
        proof {
            assert(fields_view(nfs@) =~= seq![("noteId"@, note_id_jv(self@.note_id))]);
        }
        push_field(&mut nfs, "lexicalState", ls_obj);
        let r = Json::Obj(nfs);
        proof {
            assert(fields_view(r->Obj_0@) =~~= seq![
                ("noteId"@, note_id_jv(self@.note_id)),
                (
                    "lexicalState"@,
                    JsonVal::Obj(seq![("root"@, root_jv(self@.lexical_state.root))]),
                ),
            ]);
            assert(r@ == note_jv(self@));
        }
        r
    }

    /// Serializes the note to canonical JSON text.
    pub fn to_json_text(&self) -> (r: String)
        ensures
            r@ == crate::wire::jv_text_of(note_jv(self@)),
    {
        let j = self.to_json();
        crate::wire::json_to_text(&j)
    }
}

} // verus!

verus! {

/// Why one node failed to decode.
#[derive(Debug, Clone)]
pub enum DocErr {
    /// An unrecognized `type` discriminator, carried for diagnostics.
    UnknownNodeType(String),
    /// A missing or mistyped required field.
    BadShape,
}

impl View for DocErr {
    type V = DocErrV;

    open spec fn view(&self) -> DocErrV {
        match self {
            DocErr::UnknownNodeType(t) => DocErrV::UnknownNodeType(t@),
            DocErr::BadShape => DocErrV::BadShape,
        }
    }
}

/// Why a whole document failed to decode.
#[derive(Debug, Clone)]
pub enum NoteError {
    /// The payload is not well-formed JSON text at all.
    MalformedDocumentJson,
    /// The surrounding document object is malformed.
    MalformedDocument,
    /// The top-level child at `at` holds an unknown `type`, carried along.
    UnrecognizedNodeType { at: usize, found: String },
    /// The top-level child at `at` (or a node below it) has a bad shape.
    MalformedNode { at: usize },
}

/// The shadow of a document error.
pub open spec fn note_err_view(e: NoteError) -> NoteErrV {
    match e {
        NoteError::MalformedDocumentJson => NoteErrV::BadDocument,
        NoteError::MalformedDocument => NoteErrV::BadDocument,
        NoteError::UnrecognizedNodeType { at, found } => NoteErrV::BadChild {
            at: at as int,
            err: DocErrV::UnknownNodeType(found@),
        },
        NoteError::MalformedNode { at } => NoteErrV::BadChild {
            at: at as int,
            err: DocErrV::BadShape,
        },
    }
}

/// The shadow of a node decode outcome.
pub open spec fn node_result_view(r: Result<LexicalNode, DocErr>) -> Result<NodeV, DocErrV> {
    match r {
        Ok(n) => Ok(n@),
        Err(e) => Err(e@),
    }
}

/// The shadow of a node-sequence decode outcome.
pub open spec fn nodes_result_view(r: Result<Vec<LexicalNode>, (usize, DocErr)>) -> Result<
    Seq<NodeV>,
    (int, DocErrV),
> {
    match r {
        Ok(v) => Ok(crate::note::nodes_view(v@)),
        Err(p) => Err((p.0 as int, p.1@)),
    }
}

/// The shadow of a whole-note decode outcome.
pub open spec fn note_result_view(r: Result<Note, NoteError>) -> Result<NoteV, NoteErrV> {
    match r {
        Ok(n) => Ok(n@),
        Err(e) => Err(note_err_view(e)),
    }
}

fn get_field<'a>(fields: &'a Vec<(String, Json)>, key: &str) -> (r: Option<&'a Json>)
    ensures
        match r {
            Some(v) => field_lookup(fields_view(fields@), key@) == Some(v@),
            None => field_lookup(fields_view(fields@), key@) is None,
        },
        r matches Some(v) ==> (exists|k: int|
            0 <= k < fields@.len() && #[trigger] fields@[k].1 == *v),
{
    let k = key.to_owned();
    crate::json::obj_get(fields, &k)
}

fn get_req_u32(fields: &Vec<(String, Json)>, key: &str) -> (r: Option<u32>)
    ensures
        r == req_u32(fields_view(fields@), key@),
{
    match get_field(fields, key) {
        Some(Json::UInt(n)) => if *n <= 0xffff_ffffu64 {
            Some(*n as u32)
        } else {
            None
        },
        _ => None,
    }
}

fn get_req_text(fields: &Vec<(String, Json)>, key: &str) -> (r: Option<String>)
    ensures
        crate::note::opt_str_view(r) == req_text(fields_view(fields@), key@),
{
    match get_field(fields, key) {
        Some(Json::Text(s)) => Some(s.clone()),
        _ => None,
    }
}

fn get_req_bool(fields: &Vec<(String, Json)>, key: &str) -> (r: Option<bool>)
    ensures
        r == req_bool(fields_view(fields@), key@),
{
    match get_field(fields, key) {
        Some(Json::Bool(b)) => Some(*b),
        _ => None,
    }
}

fn get_dflt_u32(fields: &Vec<(String, Json)>, key: &str) -> (r: Option<u32>)
    ensures
        r == dflt_u32(fields_view(fields@), key@),
{
    match get_field(fields, key) {
        None => Some(0),
        Some(Json::UInt(n)) => if *n <= 0xffff_ffffu64 {
            Some(*n as u32)
        } else {
            None
        },
        _ => None,
    }
}

fn get_dflt_text(fields: &Vec<(String, Json)>, key: &str) -> (r: Option<String>)
    ensures
        crate::note::opt_str_view(r) == dflt_text(fields_view(fields@), key@),
{
    match get_field(fields, key) {
        None => Some(String::new()),
        Some(Json::Text(s)) => Some(s.clone()),
        _ => None,
    }
}

fn get_opt_u32(fields: &Vec<(String, Json)>, key: &str) -> (r: Option<Option<u32>>)
    ensures
        r == opt_u32(fields_view(fields@), key@),
{
    match get_field(fields, key) {
        None => Some(None),
        Some(Json::Null) => Some(None),
        Some(Json::UInt(n)) => if *n <= 0xffff_ffffu64 {
            Some(Some(*n as u32))
        } else {
            None
        },
        _ => None,
    }
}

/// The shadow of an optional-text read.
pub open spec fn opt_opt_str_view(v: Option<Option<String>>) -> Option<Option<Seq<char>>> {
    match v {
        None => None,
        Some(None) => Some(None),
        Some(Some(s)) => Some(Some(s@)),
    }
}

fn get_opt_text(fields: &Vec<(String, Json)>, key: &str) -> (r: Option<Option<String>>)
    ensures
        opt_opt_str_view(r) == opt_text(fields_view(fields@), key@),
{
    match get_field(fields, key) {
        None => Some(None),
        Some(Json::Null) => Some(None),
        Some(Json::Text(s)) => Some(Some(s.clone())),
        _ => None,
    }
}

fn get_dir(fields: &Vec<(String, Json)>) -> (r: Option<Option<TextDirection>>)
    ensures
        r == dir_of(fields_view(fields@)),
{
    match get_field(fields, "direction") {
        None => Some(None),
        Some(Json::Null) => Some(None),
        Some(Json::Text(s)) => {
            if *s == "ltr".to_owned() {
                Some(Some(TextDirection::LeftToRight))
            } else if *s == "rtl".to_owned() {
                Some(Some(TextDirection::RightToLeft))
            } else {
                None
            }
        },
        _ => None,
    }
}

fn get_base(fields: &Vec<(String, Json)>, own_format: bool) -> (r: Option<BaseNodeProperties>)
    ensures
        match r {
            Some(b) => base_of(fields_view(fields@), own_format) == Some(b@),
            None => base_of(fields_view(fields@), own_format) is None,
        },
{
    let version = get_req_u32(fields, "version");
    let direction = get_dir(fields);
    let format = if own_format {
        Some(None)
    } else {
        get_opt_text(fields, "format")
    };
    let indent = get_opt_u32(fields, "indent");
    match (version, direction, format, indent) {
        (Some(version), Some(direction), Some(format), Some(indent)) => {
            let b = BaseNodeProperties { version, direction, format, indent };
            proof {
                assert(b@ =~= base_of(fields_view(fields@), own_format)->0);
            }
            Some(b)
        },
        _ => None,
    }
}

fn parse_msg(j: &Json) -> (r: Option<ChatSessionMessage>)
    ensures
        match r {
            Some(m) => jv_msg(j@) == Some(m@),
            None => jv_msg(j@) is None,
        },
{
    match j {
        Json::Obj(fields) => {
            let id = get_req_u32(fields, "id");
            let sender_s = get_req_text(fields, "sender");
            let content = get_req_text(fields, "content");
            let timestamp = get_req_text(fields, "timestamp");
            match (id, sender_s, content, timestamp) {
                (Some(id), Some(sender_s), Some(content), Some(timestamp)) => {
                    let sender = if sender_s == "user".to_owned() {
                        Some(MessageSender::User)
                    } else if sender_s == "agent".to_owned() {
                        Some(MessageSender::Agent)
                    } else if sender_s == "system".to_owned() {
                        Some(MessageSender::System)
                    } else {
                        None
                    };
                    match sender {
                        Some(sender) => Some(
                            ChatSessionMessage { id, sender, content, timestamp },
                        ),
                        None => None,
                    }
                },
                _ => None,
            }
        },
        _ => None,
    }
}

/// The continuation form of a record-sequence read.
pub open spec fn msgs_cont(
    items: Seq<JsonVal>,
    i: int,
    acc: Seq<ChatSessionMessageV>,
) -> Option<Seq<ChatSessionMessageV>> {
    match jv_msgs_from(items, i) {
        Some(rest) => Some(acc + rest),
        None => None,
    }
}

#[verifier::loop_isolation(false)]
fn parse_msgs(items: &Vec<Json>) -> (r: Option<Vec<ChatSessionMessage>>)
    ensures
        match r {
            Some(ms) => jv_msgs_from(crate::json::arr_view(items@), 0) == Some(
                crate::note::msgs_view(ms@),
            ),
            None => jv_msgs_from(crate::json::arr_view(items@), 0) is None,
        },
{
    let ghost iv = crate::json::arr_view(items@);
    let mut out: Vec<ChatSessionMessage> = Vec::new();
    let n = items.len();
    let mut i: usize = 0;
    while i < n
        invariant
            0 <= i <= n,
            jv_msgs_from(iv, 0) == msgs_cont(iv, i as int, crate::note::msgs_view(out@)),
        decreases n - i,
    {
        proof {
            assert(iv[i as int] == items@[i as int]@);
        }
        let ghost before = crate::note::msgs_view(out@);
        match parse_msg(&items[i]) {
            Some(m) => {
                out.push(m);
                proof {
                    assert(crate::note::msgs_view(out@) =~= before.push(m@));
                    assert forall|rest: Seq<ChatSessionMessageV>| true implies before + (seq![m@]
                        + rest) =~= before.push(m@) + rest by {}
                }
            },
            None => {
                return None;
            },
        }
        i = i + 1;
    }
    proof {
        assert(crate::note::msgs_view(out@) + Seq::<ChatSessionMessageV>::empty()
            =~= crate::note::msgs_view(out@));
    }
    Some(out)
}

/// The continuation form of a node-sequence read.
pub open spec fn nodes_cont(items: Seq<JsonVal>, i: int, acc: Seq<NodeV>) -> Result<
    Seq<NodeV>,
    (int, DocErrV),
> {
    match jv_nodes_from(items, i) {
        Ok(rest) => Ok(acc + rest),
        Err(p) => Err(p),
    }
}

#[verifier::loop_isolation(false)]
fn nodes_from_json(items: &Vec<Json>) -> (r: Result<Vec<LexicalNode>, (usize, DocErr)>)
    ensures
        nodes_result_view(r) == jv_nodes_from(crate::json::arr_view(items@), 0),
    decreases *items, 3int,
{
    let ghost iv = crate::json::arr_view(items@);
    let mut out: Vec<LexicalNode> = Vec::new();
    let n = items.len();
    let mut i: usize = 0;
    while i < n
        invariant
            0 <= i <= n,
            jv_nodes_from(iv, 0) == nodes_cont(iv, i as int, crate::note::nodes_view(out@)),
        decreases n - i,
    {
        proof {
            assert(iv[i as int] == items@[i as int]@);
            assert(decreases_to!(*items => items@));
            assert(decreases_to!(items@ => items@[i as int]));
        }
        let ghost before = crate::note::nodes_view(out@);
        match node_from_json(&items[i]) {
            Ok(node) => {
                out.push(node);
                proof {
                    assert(crate::note::nodes_view(out@) =~= before.push(node@));
                    assert forall|rest: Seq<NodeV>| true implies before + (seq![node@] + rest)
                        =~= before.push(node@) + rest by {}
                }
            },
            Err(e) => {
                return Err((i, e));
            },
        }
        i = i + 1;
    }
    proof {
        assert(crate::note::nodes_view(out@) + Seq::<NodeV>::empty() =~= crate::note::nodes_view(
            out@,
        ));
    }
    Ok(out)
}

fn children_of_fields(fields: &Vec<(String, Json)>) -> (r: Result<
    Vec<LexicalNode>,
    (usize, DocErr),
>)
    ensures
        nodes_result_view(r) == jv_children_of(fields_view(fields@)),
    decreases *fields, 1int,
{
    match get_field(fields, "children") {
        Some(v) => {
            proof {
                let k = choose|k: int|
                    0 <= k < fields@.len() && #[trigger] fields@[k].1 == *v;
                assert(decreases_to!(*fields => fields@));
                assert(decreases_to!(fields@ => fields@[k]));
                assert(decreases_to!(fields@[k] => fields@[k].1));
            }
            match v {
                Json::Arr(items) => {
                    proof {
                        assert(decreases_to!(*v => (*v)->Arr_0));
                        assert(*items == (*v)->Arr_0);
                    }
                    nodes_from_json(items)
                },
                _ => Err((0, DocErr::BadShape)),
            }
        },
        None => Err((0, DocErr::BadShape)),
    }
}

} // verus!

verus! {

fn parse_text_node(fields: &Vec<(String, Json)>) -> (r: Result<LexicalNode, DocErr>)
    ensures
        node_result_view(r) == jv_text_node(fields_view(fields@)),
{
    let text = get_req_text(fields, "text");
    let format = get_req_u32(fields, "format");
    let detail = get_dflt_u32(fields, "detail");
    let mode = get_dflt_text(fields, "mode");
    let style = get_dflt_text(fields, "style");
    let base = get_base(fields, true);
    match (text, format, detail, mode, style, base) {
        (Some(text), Some(format), Some(detail), Some(mode), Some(style), Some(base)) => Ok(
            LexicalNode::Text(TextNode { text, format, detail, mode, style, base }),
        ),
        _ => Err(DocErr::BadShape),
    }
}

fn parse_paragraph(fields: &Vec<(String, Json)>) -> (r: Result<LexicalNode, DocErr>)
    ensures
        node_result_view(r) == jv_paragraph(fields_view(fields@)),
    decreases *fields, 2int,
{
    match children_of_fields(fields) {
        Err(p) => Err(p.1),
        Ok(children) => {
            let text_format = get_dflt_u32(fields, "textFormat");
            let text_style = get_dflt_text(fields, "textStyle");
            let base = get_base(fields, false);
            match (text_format, text_style, base) {
                (Some(text_format), Some(text_style), Some(base)) => Ok(
                    LexicalNode::Paragraph(
                        ParagraphNode { children, text_format, text_style, base },
                    ),
                ),
                _ => Err(DocErr::BadShape),
            }
        },
    }
}

fn parse_heading(fields: &Vec<(String, Json)>) -> (r: Result<LexicalNode, DocErr>)
    ensures
        node_result_view(r) == jv_heading(fields_view(fields@)),
    decreases *fields, 2int,
{
    match children_of_fields(fields) {
        Err(p) => Err(p.1),
        Ok(children) => {
            let tag_s = get_req_text(fields, "tag");
            let base = get_base(fields, false);
            match (tag_s, base) {
                (Some(tag_s), Some(base)) => {
                    let tag = if tag_s == "h1".to_owned() {
                        Some(HeadingTag::H1)
                    } else if tag_s == "h2".to_owned() {
                        Some(HeadingTag::H2)
                    } else if tag_s == "h3".to_owned() {
                        Some(HeadingTag::H3)
                    } else if tag_s == "h4".to_owned() {
                        Some(HeadingTag::H4)
                    } else if tag_s == "h5".to_owned() {
                        Some(HeadingTag::H5)
                    } else if tag_s == "h6".to_owned() {
                        Some(HeadingTag::H6)
                    } else {
                        None
                    };
                    match tag {
                        Some(tag) => Ok(
                            LexicalNode::Heading(HeadingNode { tag, children, base }),
                        ),
                        None => Err(DocErr::BadShape),
                    }
                },
                _ => Err(DocErr::BadShape),
            }
        },
    }
}

fn parse_list(fields: &Vec<(String, Json)>) -> (r: Result<LexicalNode, DocErr>)
    ensures
        node_result_view(r) == jv_list(fields_view(fields@)),
    decreases *fields, 2int,
{
    match children_of_fields(fields) {
        Err(p) => Err(p.1),
        Ok(children) => {
            let lt_s = get_req_text(fields, "listType");
            let start = get_opt_u32(fields, "start");
            let base = get_base(fields, false);
            match (lt_s, start, base) {
                (Some(lt_s), Some(start), Some(base)) => {
                    let list_type = if lt_s == "bullet".to_owned() {
                        Some(ListType::Bullet)
                    } else if lt_s == "number".to_owned() {
                        Some(ListType::Number)
                    } else {
                        None
                    };
                    match list_type {
                        Some(list_type) => Ok(
                            LexicalNode::List(ListNode { list_type, start, children, base }),
                        ),
                        None => Err(DocErr::BadShape),
                    }
                },
                _ => Err(DocErr::BadShape),
            }
        },
    }
}

fn parse_children_only(fields: &Vec<(String, Json)>, kind: u8) -> (r: Result<
    LexicalNode,
    DocErr,
>)
    requires
        kind < 4,
    ensures
        node_result_view(r) == jv_children_only(fields_view(fields@), kind as int),
    decreases *fields, 2int,
{
    match children_of_fields(fields) {
        Err(p) => Err(p.1),
        Ok(children) => match get_base(fields, false) {
            Some(base) => {
                if kind == 0 {
                    Ok(LexicalNode::ListItem(ListItemNode { children, base }))
                } else if kind == 1 {
                    Ok(LexicalNode::Quote(QuoteNode { children, base }))
                } else if kind == 2 {
                    Ok(LexicalNode::Table(TableNode { children, base }))
                } else {
                    Ok(LexicalNode::TableRow(TableRowNode { children, base }))
                }
            },
            None => Err(DocErr::BadShape),
        },
    }
}

fn parse_code(fields: &Vec<(String, Json)>) -> (r: Result<LexicalNode, DocErr>)
    ensures
        node_result_view(r) == jv_code(fields_view(fields@)),
    decreases *fields, 2int,
{
    let children_r: Result<Option<Vec<LexicalNode>>, (usize, DocErr)> = match get_field(
        fields,
        "children",
    ) {
        None => Ok(None),
        Some(v) => {
            proof {
                let k = choose|k: int|
                    0 <= k < fields@.len() && #[trigger] fields@[k].1 == *v;
                assert(decreases_to!(*fields => fields@));
                assert(decreases_to!(fields@ => fields@[k]));
                assert(decreases_to!(fields@[k] => fields@[k].1));
            }
            match v {
                Json::Null => Ok(None),
                Json::Arr(items) => {
                    proof {
                        assert(decreases_to!(*v => (*v)->Arr_0));
                        assert(*items == (*v)->Arr_0);
                    }
                    match nodes_from_json(items) {
                        Ok(cs) => Ok(Some(cs)),
                        Err(p) => Err(p),
                    }
                },
                _ => Err((0, DocErr::BadShape)),
            }
        },
    };
    match children_r {
        Err(p) => Err(p.1),
        Ok(children) => {
            let text = get_opt_text(fields, "text");
            let language = get_opt_text(fields, "language");
            let format = get_req_u32(fields, "format");
            let base = get_base(fields, true);
            match (text, language, format, base) {
                (Some(text), Some(language), Some(format), Some(base)) => Ok(
                    LexicalNode::Code(CodeNode { text, language, children, format, base }),
                ),
                _ => Err(DocErr::BadShape),
            }
        },
    }
}

fn parse_link(fields: &Vec<(String, Json)>) -> (r: Result<LexicalNode, DocErr>)
    ensures
        node_result_view(r) == jv_link(fields_view(fields@)),
    decreases *fields, 2int,
{
    match children_of_fields(fields) {
        Err(p) => Err(p.1),
        Ok(children) => {
            let url = get_req_text(fields, "url");
            let rel = get_opt_text(fields, "rel");
            let target = get_opt_text(fields, "target");
            let base = get_base(fields, false);
            match (url, rel, target, base) {
                (Some(url), Some(rel), Some(target), Some(base)) => Ok(
                    LexicalNode::Link(LinkNode { url, rel, target, children, base }),
                ),
                _ => Err(DocErr::BadShape),
            }
        },
    }
}

fn parse_autolink(fields: &Vec<(String, Json)>) -> (r: Result<LexicalNode, DocErr>)
    ensures
        node_result_view(r) == jv_autolink(fields_view(fields@)),
    decreases *fields, 2int,
{
    match children_of_fields(fields) {
        Err(p) => Err(p.1),
        Ok(children) => {
            let url = get_req_text(fields, "url");
            let base = get_base(fields, false);
            match (url, base) {
                (Some(url), Some(base)) => Ok(
                    LexicalNode::AutoLink(AutoLinkNode { url, children, base }),
                ),
                _ => Err(DocErr::BadShape),
            }
        },
    }
}

fn parse_hashtag(fields: &Vec<(String, Json)>) -> (r: Result<LexicalNode, DocErr>)
    ensures
        node_result_view(r) == jv_hashtag(fields_view(fields@)),
{
    let text = get_req_text(fields, "text");
    let format = get_req_u32(fields, "format");
    let base = get_base(fields, true);
    match (text, format, base) {
        (Some(text), Some(format), Some(base)) => Ok(
            LexicalNode::Hashtag(HashtagNode { text, format, base }),
        ),
        _ => Err(DocErr::BadShape),
    }
}

fn parse_tablecell(fields: &Vec<(String, Json)>) -> (r: Result<LexicalNode, DocErr>)
    ensures
        node_result_view(r) == jv_tablecell(fields_view(fields@)),
    decreases *fields, 2int,
{
    match children_of_fields(fields) {
        Err(p) => Err(p.1),
        Ok(children) => {
            let header_state = get_req_u32(fields, "headerState");
            let col_span = get_req_u32(fields, "colSpan");
            let row_span = get_req_u32(fields, "rowSpan");
            let base = get_base(fields, false);
            match (header_state, col_span, row_span, base) {
                (Some(header_state), Some(col_span), Some(row_span), Some(base)) => Ok(
                    LexicalNode::TableCell(
                        TableCellNode { children, header_state, col_span, row_span, base },
                    ),
                ),
                _ => Err(DocErr::BadShape),
            }
        },
    }
}

fn parse_pagebreak(fields: &Vec<(String, Json)>) -> (r: Result<LexicalNode, DocErr>)
    ensures
        node_result_view(r) == jv_pagebreak(fields_view(fields@)),
{
    match get_base(fields, false) {
        Some(base) => Ok(LexicalNode::PageBreak(PageBreakNode { base })),
        None => Err(DocErr::BadShape),
    }
}

fn parse_ai_embedding(fields: &Vec<(String, Json)>) -> (r: Result<LexicalNode, DocErr>)
    ensures
        node_result_view(r) == jv_ai_embedding(fields_view(fields@)),
{
    let content = get_req_text(fields, "content");
    let is_loading = get_req_bool(fields, "isLoading");
    let base = get_base(fields, false);
    match (content, is_loading, base) {
        (Some(content), Some(is_loading), Some(base)) => Ok(
            LexicalNode::AIEmbedding(AIEmbeddingNode { content, is_loading, base }),
        ),
        _ => Err(DocErr::BadShape),
    }
}

fn parse_voice_input(fields: &Vec<(String, Json)>) -> (r: Result<LexicalNode, DocErr>)
    ensures
        node_result_view(r) == jv_voice_input(fields_view(fields@)),
{
    let content = get_req_text(fields, "content");
    let base = get_base(fields, false);
    match (content, base) {
        (Some(content), Some(base)) => Ok(
            LexicalNode::VoiceInput(VoiceInputNode { content, base }),
        ),
        _ => Err(DocErr::BadShape),
    }
}

fn parse_chat_message(fields: &Vec<(String, Json)>) -> (r: Result<LexicalNode, DocErr>)
    ensures
        node_result_view(r) == jv_chat_message(fields_view(fields@)),
{
    let sender_s = get_req_text(fields, "sender");
    let content = get_req_text(fields, "content");
    let timestamp = get_req_text(fields, "timestamp");
    let base = get_base(fields, false);
    match (sender_s, content, timestamp, base) {
        (Some(sender_s), Some(content), Some(timestamp), Some(base)) => {
            let sender = if sender_s == "user".to_owned() {
                Some(MessageSender::User)
            } else if sender_s == "agent".to_owned() {
                Some(MessageSender::Agent)
            } else if sender_s == "system".to_owned() {
                Some(MessageSender::System)
            } else {
                None
            };
            match sender {
                Some(sender) => Ok(
                    LexicalNode::ChatMessage(
                        ChatMessageNode { sender, content, timestamp, base },
                    ),
                ),
                None => Err(DocErr::BadShape),
            }
        },
        _ => Err(DocErr::BadShape),
    }
}

fn parse_chat_session(fields: &Vec<(String, Json)>) -> (r: Result<LexicalNode, DocErr>)
    ensures
        node_result_view(r) == jv_chat_session(fields_view(fields@)),
{
    match get_field(fields, "messages") {
        Some(Json::Arr(items)) => match parse_msgs(items) {
            Some(messages) => {
                let session_id = get_req_text(fields, "sessionId");
                let base = get_base(fields, false);
                match (session_id, base) {
                    (Some(session_id), Some(base)) => Ok(
                        LexicalNode::ChatSession(
                            ChatSessionNode { session_id, messages, base },
                        ),
                    ),
                    _ => Err(DocErr::BadShape),
                }
            },
            None => Err(DocErr::BadShape),
        },
        _ => Err(DocErr::BadShape),
    }
}

fn parse_mention(fields: &Vec<(String, Json)>) -> (r: Result<LexicalNode, DocErr>)
    ensures
        node_result_view(r) == jv_mention(fields_view(fields@)),
{
    let mention_name = get_req_text(fields, "mentionName");
    let text = get_req_text(fields, "text");
    let format = get_req_u32(fields, "format");
    let base = get_base(fields, true);
    match (mention_name, text, format, base) {
        (Some(mention_name), Some(text), Some(format), Some(base)) => Ok(
            LexicalNode::Mention(MentionNode { mention_name, text, format, base }),
        ),
        _ => Err(DocErr::BadShape),
    }
}

/// Reads one node back from its wire form, dispatching on `type`.
#[verifier::rlimit(60)]
pub fn node_from_json(j: &Json) -> (r: Result<LexicalNode, DocErr>)
    ensures
        node_result_view(r) == jv_node(j@),
    decreases *j, 4int,
{
    match j {
        Json::Obj(fields) => {
            proof {
                assert(decreases_to!(*j => (*j)->Obj_0));
                assert(*fields == (*j)->Obj_0);
            }
            match get_field(fields, "type") {
                Some(tv) => match tv {
                    Json::Text(t) => {
                        if *t == "text".to_owned() {
                            parse_text_node(fields)
                        } else if *t == "paragraph".to_owned() {
                            parse_paragraph(fields)
                        } else if *t == "heading".to_owned() {
                            parse_heading(fields)
                        } else if *t == "list".to_owned() {
                            parse_list(fields)
                        } else if *t == "listitem".to_owned() {
                            parse_children_only(fields, 0)
                        } else if *t == "quote".to_owned() {
                            parse_children_only(fields, 1)
                        } else if *t == "code".to_owned() {
                            parse_code(fields)
                        } else if *t == "link".to_owned() {
                            parse_link(fields)
                        } else if *t == "autolink".to_owned() {
                            parse_autolink(fields)
                        } else if *t == "hashtag".to_owned() {
                            parse_hashtag(fields)
                        } else if *t == "table".to_owned() {
                            parse_children_only(fields, 2)
                        } else if *t == "tablerow".to_owned() {
                            parse_children_only(fields, 3)
                        } else if *t == "tablecell".to_owned() {
                            parse_tablecell(fields)
                        } else if *t == "page-break".to_owned() {
                            parse_pagebreak(fields)
                        } else if *t == "ai-embedding".to_owned() {
                            parse_ai_embedding(fields)
                        } else if *t == "voice-input".to_owned() {
                            parse_voice_input(fields)
                        } else if *t == "chat-message".to_owned() {
                            parse_chat_message(fields)
                        } else if *t == "chat-session".to_owned() {
                            parse_chat_session(fields)
                        } else if *t == "mention".to_owned() {
                            parse_mention(fields)
                        } else {
                            Err(DocErr::UnknownNodeType(t.clone()))
                        }
                    },
                    _ => Err(DocErr::BadShape),
                },
                None => Err(DocErr::BadShape),
            }
        },
        _ => Err(DocErr::BadShape),
    }
}

fn root_from_json(j: &Json) -> (r: Result<RootNode, NoteError>)
    ensures
        match r {
            Ok(root) => jv_root(j@) == Ok::<RootV, NoteErrV>(root@),
            Err(e) => jv_root(j@) == Err::<RootV, NoteErrV>(note_err_view(e)) && !(
            e is MalformedDocumentJson),
        },
{
    match j {
        Json::Obj(fields) => match children_of_fields(fields) {
            Err((at, e)) => match e {
                DocErr::UnknownNodeType(found) => Err(
                    NoteError::UnrecognizedNodeType { at, found },
                ),
                DocErr::BadShape => Err(NoteError::MalformedNode { at }),
            },
            Ok(children) => {
                let node_type = get_req_text(fields, "type");
                let base = get_base(fields, false);
                match (node_type, base) {
                    (Some(node_type), Some(base)) => Ok(
                        RootNode { node_type, children, base },
                    ),
                    _ => Err(NoteError::MalformedDocument),
                }
            },
        },
        _ => Err(NoteError::MalformedDocument),
    }
}

impl Note {
    /// Reads a note back from its tree-JSON form. Succeeds exactly on
    /// well-shaped documents; an unknown node `type` fails the whole
    /// document, carrying the offending top-level position.
    pub fn from_json(j: &Json) -> (r: Result<Note, NoteError>)
        ensures
            note_result_view(r) == jv_note(j@),
            r matches Err(e) ==> !(e is MalformedDocumentJson),
    {
        match j {
            Json::Obj(fields) => {
                match get_opt_text(fields, "noteId") {
                    None => Err(NoteError::MalformedDocument),
                    Some(note_id) => match get_field(fields, "lexicalState") {
                        Some(ls) => match ls {
                            Json::Obj(ls_fields) => match get_field(ls_fields, "root") {
                                Some(root_j) => match root_from_json(root_j) {
                                    Ok(root) => Ok(
                                        Note {
                                            note_id,
                                            lexical_state: LexicalState { root },
                                        },
                                    ),
                                    Err(e) => Err(e),
                                },
                                None => Err(NoteError::MalformedDocument),
                            },
                            _ => Err(NoteError::MalformedDocument),
                        },
                        None => Err(NoteError::MalformedDocument),
                    },
                }
            },
            _ => Err(NoteError::MalformedDocument),
        }
    }

    /// Parses JSON text into a note.
    pub fn from_json_text(s: &str) -> (r: Result<Note, NoteError>)
        ensures
            crate::wire::parsed_json_of(s@) is None ==> r == Err::<Note, NoteError>(
                NoteError::MalformedDocumentJson,
            ),
            crate::wire::parsed_json_of(s@) matches Some(jv) ==> note_result_view(r) == jv_note(
                jv,
            ) && (r matches Err(e) ==> !(e is MalformedDocumentJson)),
    {
        match crate::wire::parse_json_text(s) {
            None => Err(NoteError::MalformedDocumentJson),
            Some(j) => Self::from_json(&j),
        }
    }
}

} // verus!
