//! The note document model and the brief projector.
//!
//! A note is a tree of typed nodes. `get_brief` flattens the tree's
//! top-level children into `BriefNode` entries: one per child with
//! non-whitespace extractable text, keyed by the child's position.

use vstd::prelude::*;
use vstd::string::StrSliceExecFns;
use vstd::string::StringExecFns;

verus! {

/// A complete note: optional identifier plus editor state.
#[derive(Debug)]
pub struct Note {
    pub note_id: Option<String>,
    pub lexical_state: LexicalState,
}

/// The editor state: a single root node.
#[derive(Debug)]
pub struct LexicalState {
    pub root: RootNode,
}

/// Attributes shared by every node.
#[derive(Debug, Clone)]
pub struct BaseNodeProperties {
    pub version: u32,
    pub direction: Option<TextDirection>,
    pub format: Option<String>,
    pub indent: Option<u32>,
}

/// Text direction of a node.
#[derive(Debug, Clone)]
pub enum TextDirection {
    LeftToRight,
    RightToLeft,
}

/// The top-level container of a note's tree.
#[derive(Debug)]
pub struct RootNode {
    pub node_type: String,
    pub children: Vec<LexicalNode>,
    pub base: BaseNodeProperties,
}

/// One node of the document tree, tagged by its kind.
#[derive(Debug)]
pub enum LexicalNode {
    Text(TextNode),
    Paragraph(ParagraphNode),
    Heading(HeadingNode),
    List(ListNode),
    ListItem(ListItemNode),
    Quote(QuoteNode),
    Code(CodeNode),
    Link(LinkNode),
    AutoLink(AutoLinkNode),
    Hashtag(HashtagNode),
    Table(TableNode),
    TableRow(TableRowNode),
    TableCell(TableCellNode),
    PageBreak(PageBreakNode),
    AIEmbedding(AIEmbeddingNode),
    VoiceInput(VoiceInputNode),
    ChatMessage(ChatMessageNode),
    ChatSession(ChatSessionNode),
    Mention(MentionNode),
}

/// Plain text content.
#[derive(Debug)]
pub struct TextNode {
    pub text: String,
    pub format: u32,
    pub detail: u32,
    pub mode: String,
    pub style: String,
    pub base: BaseNodeProperties,
}

/// A paragraph of inline children.
#[derive(Debug)]
pub struct ParagraphNode {
    pub children: Vec<LexicalNode>,
    pub text_format: u32,
    pub text_style: String,
    pub base: BaseNodeProperties,
}

/// A heading with its level tag.
#[derive(Debug)]
pub struct HeadingNode {
    pub tag: HeadingTag,
    pub children: Vec<LexicalNode>,
    pub base: BaseNodeProperties,
}

/// Heading level.
#[derive(Debug, Clone)]
pub enum HeadingTag {
    H1,
    H2,
    H3,
    H4,
    H5,
    H6,
}

/// An ordered or unordered list.
#[derive(Debug)]
pub struct ListNode {
    pub list_type: ListType,
    pub start: Option<u32>,
    pub children: Vec<LexicalNode>,
    pub base: BaseNodeProperties,
}

/// Kind of a list.
#[derive(Debug, Clone)]
pub enum ListType {
    Bullet,
    Number,
}

/// One item of a list.
#[derive(Debug)]
pub struct ListItemNode {
    pub children: Vec<LexicalNode>,
    pub base: BaseNodeProperties,
}

/// A block quote.
#[derive(Debug)]
pub struct QuoteNode {
    pub children: Vec<LexicalNode>,
    pub base: BaseNodeProperties,
}

/// Inline code or a code block; inline text and children are exclusive.
#[derive(Debug)]
pub struct CodeNode {
    pub text: Option<String>,
    pub language: Option<String>,
    pub children: Option<Vec<LexicalNode>>,
    pub format: u32,
    pub base: BaseNodeProperties,
}

/// A hyperlink.
#[derive(Debug)]
pub struct LinkNode {
    pub url: String,
    pub rel: Option<String>,
    pub target: Option<String>,
    pub children: Vec<LexicalNode>,
    pub base: BaseNodeProperties,
}

/// An automatically detected link.
#[derive(Debug)]
pub struct AutoLinkNode {
    pub url: String,
    pub children: Vec<LexicalNode>,
    pub base: BaseNodeProperties,
}

/// A hashtag.
#[derive(Debug)]
pub struct HashtagNode {
    pub text: String,
    pub format: u32,
    pub base: BaseNodeProperties,
}

/// A table of rows.
#[derive(Debug)]
pub struct TableNode {
    pub children: Vec<LexicalNode>,
    pub base: BaseNodeProperties,
}

/// One row of a table.
#[derive(Debug)]
pub struct TableRowNode {
    pub children: Vec<LexicalNode>,
    pub base: BaseNodeProperties,
}

/// One cell of a table row.
#[derive(Debug)]
pub struct TableCellNode {
    pub children: Vec<LexicalNode>,
    pub header_state: u32,
    pub col_span: u32,
    pub row_span: u32,
    pub base: BaseNodeProperties,
}

/// A page break.
#[derive(Debug)]
pub struct PageBreakNode {
    pub base: BaseNodeProperties,
}

/// AI-generated embedded content.
#[derive(Debug)]
pub struct AIEmbeddingNode {
    pub content: String,
    pub is_loading: bool,
    pub base: BaseNodeProperties,
}

/// A voice-to-text transcription.
#[derive(Debug)]
pub struct VoiceInputNode {
    pub content: String,
    pub base: BaseNodeProperties,
}

/// A single chat message embedded in the note.
#[derive(Debug)]
pub struct ChatMessageNode {
    pub sender: MessageSender,
    pub content: String,
    pub timestamp: String,
    pub base: BaseNodeProperties,
}

/// Who sent a chat message.
#[derive(Debug, Clone)]
pub enum MessageSender {
    User,
    Agent,
    System,
}

/// A chat session of lightweight message records.
#[derive(Debug)]
pub struct ChatSessionNode {
    pub session_id: String,
    pub messages: Vec<ChatSessionMessage>,
    pub base: BaseNodeProperties,
}

/// One record of a chat session.
#[derive(Debug, Clone)]
pub struct ChatSessionMessage {
    pub id: u32,
    pub sender: MessageSender,
    pub content: String,
    pub timestamp: String,
}

/// An @-mention.
#[derive(Debug)]
pub struct MentionNode {
    pub mention_name: String,
    pub text: String,
    pub format: u32,
    pub base: BaseNodeProperties,
}

/// One entry of the flat brief handed to the model.
#[derive(Debug, Clone)]
pub struct BriefNode {
    pub id: usize,
    pub node_type: String,
    pub content: String,
}

// ----------------------------------------------------------------------
// Mathematical shadows of the document types.
// ----------------------------------------------------------------------

/// Shadow of `BaseNodeProperties`.
#[verifier::ext_equal]
pub struct BaseV {
    pub version: u32,
    pub direction: Option<TextDirection>,
    pub format: Option<Seq<char>>,
    pub indent: Option<u32>,
}

/// Shadow of `ChatSessionMessage`.
#[verifier::ext_equal]
pub struct ChatSessionMessageV {
    pub id: u32,
    pub sender: MessageSender,
    pub content: Seq<char>,
    pub timestamp: Seq<char>,
}

/// Shadow of `LexicalNode`.
#[verifier::ext_equal]
pub enum NodeV {
    Text { text: Seq<char>, format: u32, detail: u32, mode: Seq<char>, style: Seq<char>, base: BaseV },
    Paragraph { children: Seq<NodeV>, text_format: u32, text_style: Seq<char>, base: BaseV },
    Heading { tag: HeadingTag, children: Seq<NodeV>, base: BaseV },
    List { list_type: ListType, start: Option<u32>, children: Seq<NodeV>, base: BaseV },
    ListItem { children: Seq<NodeV>, base: BaseV },
    Quote { children: Seq<NodeV>, base: BaseV },
    Code {
        text: Option<Seq<char>>,
        language: Option<Seq<char>>,
        children: Option<Seq<NodeV>>,
        format: u32,
        base: BaseV,
    },
    Link {
        url: Seq<char>,
        rel: Option<Seq<char>>,
        target: Option<Seq<char>>,
        children: Seq<NodeV>,
        base: BaseV,
    },
    AutoLink { url: Seq<char>, children: Seq<NodeV>, base: BaseV },
    Hashtag { text: Seq<char>, format: u32, base: BaseV },
    Table { children: Seq<NodeV>, base: BaseV },
    TableRow { children: Seq<NodeV>, base: BaseV },
    TableCell {
        children: Seq<NodeV>,
        header_state: u32,
        col_span: u32,
        row_span: u32,
        base: BaseV,
    },
    PageBreak { base: BaseV },
    AIEmbedding { content: Seq<char>, is_loading: bool, base: BaseV },
    VoiceInput { content: Seq<char>, base: BaseV },
    ChatMessage { sender: MessageSender, content: Seq<char>, timestamp: Seq<char>, base: BaseV },
    ChatSession { session_id: Seq<char>, messages: Seq<ChatSessionMessageV>, base: BaseV },
    Mention { mention_name: Seq<char>, text: Seq<char>, format: u32, base: BaseV },
}

/// Shadow of `RootNode`.
#[verifier::ext_equal]
pub struct RootV {
    pub node_type: Seq<char>,
    pub children: Seq<NodeV>,
    pub base: BaseV,
}

/// Shadow of `LexicalState`.
#[verifier::ext_equal]
pub struct LexicalStateV {
    pub root: RootV,
}

/// Shadow of `Note`.
#[verifier::ext_equal]
pub struct NoteV {
    pub note_id: Option<Seq<char>>,
    pub lexical_state: LexicalStateV,
}

/// Shadow of `BriefNode`.
#[verifier::ext_equal]
pub struct BriefV {
    pub id: int,
    pub node_type: Seq<char>,
    pub content: Seq<char>,
}

pub open spec fn opt_str_view(s: Option<String>) -> Option<Seq<char>> {
    match s {
        Some(t) => Some(t@),
        None => None,
    }
}

impl View for BaseNodeProperties {
    type V = BaseV;

    open spec fn view(&self) -> BaseV {
        BaseV {
            version: self.version,
            direction: self.direction,
            format: opt_str_view(self.format),
            indent: self.indent,
        }
    }
}

impl View for ChatSessionMessage {
    type V = ChatSessionMessageV;

    open spec fn view(&self) -> ChatSessionMessageV {
        ChatSessionMessageV {
            id: self.id,
            sender: self.sender,
            content: self.content@,
            timestamp: self.timestamp@,
        }
    }
}

pub open spec fn msgs_view(msgs: Seq<ChatSessionMessage>) -> Seq<ChatSessionMessageV> {
    Seq::new(msgs.len(), |i: int| msgs[i]@)
}

pub open spec fn node_view(n: LexicalNode) -> NodeV
    decreases n, 1int,
{
    match n {
        LexicalNode::Text(t) => NodeV::Text {
            text: t.text@,
            format: t.format,
            detail: t.detail,
            mode: t.mode@,
            style: t.style@,
            base: t.base@,
        },
        LexicalNode::Paragraph(p) => NodeV::Paragraph {
            children: nodes_view(p.children@),
            text_format: p.text_format,
            text_style: p.text_style@,
            base: p.base@,
        },
        LexicalNode::Heading(h) => NodeV::Heading {
            tag: h.tag,
            children: nodes_view(h.children@),
            base: h.base@,
        },
        LexicalNode::List(l) => NodeV::List {
            list_type: l.list_type,
            start: l.start,
            children: nodes_view(l.children@),
            base: l.base@,
        },
        LexicalNode::ListItem(l) => NodeV::ListItem {
            children: nodes_view(l.children@),
            base: l.base@,
        },
        LexicalNode::Quote(q) => NodeV::Quote {
            children: nodes_view(q.children@),
            base: q.base@,
        },
        LexicalNode::Code(c) => NodeV::Code {
            text: opt_str_view(c.text),
            language: opt_str_view(c.language),
            children: match c.children {
                Some(cs) => Some(nodes_view(cs@)),
                None => None,
            },
            format: c.format,
            base: c.base@,
        },
        LexicalNode::Link(l) => NodeV::Link {
            url: l.url@,
            rel: opt_str_view(l.rel),
            target: opt_str_view(l.target),
            children: nodes_view(l.children@),
            base: l.base@,
        },
        LexicalNode::AutoLink(a) => NodeV::AutoLink {
            url: a.url@,
            children: nodes_view(a.children@),
            base: a.base@,
        },
        LexicalNode::Hashtag(h) => NodeV::Hashtag {
            text: h.text@,
            format: h.format,
            base: h.base@,
        },
        LexicalNode::Table(t) => NodeV::Table {
            children: nodes_view(t.children@),
            base: t.base@,
        },
        LexicalNode::TableRow(r) => NodeV::TableRow {
            children: nodes_view(r.children@),
            base: r.base@,
        },
        LexicalNode::TableCell(c) => NodeV::TableCell {
            children: nodes_view(c.children@),
            header_state: c.header_state,
            col_span: c.col_span,
            row_span: c.row_span,
            base: c.base@,
        },
        LexicalNode::PageBreak(p) => NodeV::PageBreak { base: p.base@ },
        LexicalNode::AIEmbedding(a) => NodeV::AIEmbedding {
            content: a.content@,
            is_loading: a.is_loading,
            base: a.base@,
        },
        LexicalNode::VoiceInput(v) => NodeV::VoiceInput {
            content: v.content@,
            base: v.base@,
        },
        LexicalNode::ChatMessage(m) => NodeV::ChatMessage {
            sender: m.sender,
            content: m.content@,
            timestamp: m.timestamp@,
            base: m.base@,
        },
        LexicalNode::ChatSession(s) => NodeV::ChatSession {
            session_id: s.session_id@,
            messages: msgs_view(s.messages@),
            base: s.base@,
        },
        LexicalNode::Mention(m) => NodeV::Mention {
            mention_name: m.mention_name@,
            text: m.text@,
            format: m.format,
            base: m.base@,
        },
    }
}

pub open spec fn nodes_view(ns: Seq<LexicalNode>) -> Seq<NodeV>
    decreases ns, 0int,
{
    Seq::new(
        ns.len(),
        |i: int|
            if 0 <= i < ns.len() {
                node_view(ns[i])
            } else {
                NodeV::PageBreak {
                    base: BaseV { version: 0, direction: None, format: None, indent: None },
                }
            },
    )
}

impl View for LexicalNode {
    type V = NodeV;

    open spec fn view(&self) -> NodeV {
        node_view(*self)
    }
}

impl View for RootNode {
    type V = RootV;

    open spec fn view(&self) -> RootV {
        RootV {
            node_type: self.node_type@,
            children: nodes_view(self.children@),
            base: self.base@,
        }
    }
}

impl View for LexicalState {
    type V = LexicalStateV;

    open spec fn view(&self) -> LexicalStateV {
        LexicalStateV { root: self.root@ }
    }
}

impl View for Note {
    type V = NoteV;

    open spec fn view(&self) -> NoteV {
        NoteV { note_id: opt_str_view(self.note_id), lexical_state: self.lexical_state@ }
    }
}

impl View for BriefNode {
    type V = BriefV;

    open spec fn view(&self) -> BriefV {
        BriefV { id: self.id as int, node_type: self.node_type@, content: self.content@ }
    }
}

pub open spec fn briefs_view(bs: Seq<BriefNode>) -> Seq<BriefV> {
    Seq::new(bs.len(), |i: int| bs[i]@)
}

// ----------------------------------------------------------------------
// The brief projection, specified.
// ----------------------------------------------------------------------

/// The whitespace characters recognized when deciding emptiness.
pub open spec fn is_ws_char(c: char) -> bool {
    c == ' ' || c == '\t' || c == '\n' || c == '\r'
}

/// A string is blank when every character is whitespace.
pub open spec fn blank(s: Seq<char>) -> bool {
    forall|i: int| 0 <= i < s.len() ==> is_ws_char(s[i])
}

/// The textual label of a message sender.
pub open spec fn sender_text(s: MessageSender) -> Seq<char> {
    match s {
        MessageSender::User => "user"@,
        MessageSender::Agent => "agent"@,
        MessageSender::System => "system"@,
    }
}

/// One formatted chat line: `[sender] content`.
pub open spec fn chat_line(sender: MessageSender, content: Seq<char>) -> Seq<char> {
    "["@ + sender_text(sender) + "] "@ + content
}

/// The newline-joined tail of a session transcript, from index `i` on.
pub open spec fn session_lines_from(msgs: Seq<ChatSessionMessageV>, i: int) -> Seq<char>
    decreases msgs.len() - i,
{
    if i < 0 || i >= msgs.len() {
        Seq::empty()
    } else {
        "\n"@ + chat_line(msgs[i].sender, msgs[i].content) + session_lines_from(msgs, i + 1)
    }
}

/// A whole session transcript: chat lines joined by newlines.
pub open spec fn session_transcript(msgs: Seq<ChatSessionMessageV>) -> Seq<char> {
    if msgs.len() == 0 {
        Seq::empty()
    } else {
        chat_line(msgs[0].sender, msgs[0].content) + session_lines_from(msgs, 1)
    }
}

/// Concatenated message contents of a session, from index `i` on.
pub open spec fn session_contents_from(msgs: Seq<ChatSessionMessageV>, i: int) -> Seq<char>
    decreases msgs.len() - i,
{
    if i < 0 || i >= msgs.len() {
        Seq::empty()
    } else {
        msgs[i].content + session_contents_from(msgs, i + 1)
    }
}

/// Text recursively extracted from one node, when it stands inside another.
pub open spec fn text_of_node(n: NodeV) -> Seq<char>
    decreases n, 0int,
{
    match n {
        NodeV::Text { text, .. } => text,
        NodeV::Paragraph { children, .. } => text_of_nodes_from(children, 0),
        NodeV::Heading { children, .. } => text_of_nodes_from(children, 0),
        NodeV::List { children, .. } => text_of_nodes_from(children, 0),
        NodeV::ListItem { children, .. } => "\u{2022} "@ + text_of_nodes_from(children, 0),
        NodeV::Quote { children, .. } => text_of_nodes_from(children, 0),
        NodeV::Code { text, children, .. } => (match text {
            Some(t) => t,
            None => Seq::empty(),
        }) + (match children {
            Some(cs) => text_of_nodes_from(cs, 0),
            None => Seq::empty(),
        }),
        NodeV::Link { children, .. } => text_of_nodes_from(children, 0),
        NodeV::AutoLink { children, .. } => text_of_nodes_from(children, 0),
        NodeV::Hashtag { text, .. } => text,
        NodeV::Table { children, .. } => text_of_nodes_from(children, 0),
        NodeV::TableRow { children, .. } => text_of_nodes_from(children, 0),
        NodeV::TableCell { children, .. } => text_of_nodes_from(children, 0),
        NodeV::PageBreak { .. } => Seq::empty(),
        NodeV::AIEmbedding { content, .. } => content,
        NodeV::VoiceInput { content, .. } => content,
        NodeV::ChatMessage { content, .. } => content,
        NodeV::ChatSession { messages, .. } => session_contents_from(messages, 0),
        NodeV::Mention { text, .. } => text,
    }
}

/// Text recursively extracted from a node sequence, from index `i` on.
pub open spec fn text_of_nodes_from(ns: Seq<NodeV>, i: int) -> Seq<char>
    decreases ns, 1int, ns.len() - i,
{
    if i < 0 || i >= ns.len() {
        Seq::empty()
    } else {
        text_of_node(ns[i]) + text_of_nodes_from(ns, i + 1)
    }
}

/// Text recursively extracted from a node sequence.
pub open spec fn text_of_nodes(ns: Seq<NodeV>) -> Seq<char> {
    text_of_nodes_from(ns, 0)
}

/// The type tag of a top-level node, as it appears in the brief.
pub open spec fn brief_tag(n: NodeV) -> Seq<char> {
    match n {
        NodeV::Text { .. } => "text"@,
        NodeV::Paragraph { .. } => "paragraph"@,
        NodeV::Heading { .. } => "heading"@,
        NodeV::List { .. } => "list"@,
        NodeV::ListItem { .. } => "listitem"@,
        NodeV::Quote { .. } => "quote"@,
        NodeV::Code { .. } => "code"@,
        NodeV::Link { .. } => "link"@,
        NodeV::AutoLink { .. } => "autolink"@,
        NodeV::Hashtag { .. } => "hashtag"@,
        NodeV::Table { .. } => "table"@,
        NodeV::TableRow { .. } => "tablerow"@,
        NodeV::TableCell { .. } => "tablecell"@,
        NodeV::PageBreak { .. } => "page-break"@,
        NodeV::AIEmbedding { .. } => "ai-embedding"@,
        NodeV::VoiceInput { .. } => "voice-input"@,
        NodeV::ChatMessage { .. } => "chat-message"@,
        NodeV::ChatSession { .. } => "chat-session"@,
        NodeV::Mention { .. } => "mention"@,
    }
}

/// The brief content of a top-level node.
pub open spec fn brief_content(n: NodeV) -> Seq<char> {
    match n {
        NodeV::Text { text, .. } => text,
        NodeV::ListItem { children, .. } => text_of_nodes(children),
        NodeV::Code { text, children, .. } => match text {
            Some(t) => t,
            None => match children {
                Some(cs) => text_of_nodes(cs),
                None => Seq::empty(),
            },
        },
        NodeV::Link { url, children, .. } => text_of_nodes(children) + " ("@ + url + ")"@,
        NodeV::AutoLink { url, children, .. } => text_of_nodes(children) + " ("@ + url + ")"@,
        NodeV::Hashtag { text, .. } => text,
        NodeV::PageBreak { .. } => "---"@,
        NodeV::AIEmbedding { content, .. } => content,
        NodeV::VoiceInput { content, .. } => content,
        NodeV::ChatMessage { sender, content, .. } => chat_line(sender, content),
        NodeV::ChatSession { messages, .. } => session_transcript(messages),
        NodeV::Mention { text, .. } => text,
        _ => text_of_node(n),
    }
}

/// The brief entries contributed by children `i..`, keyed by child position.
pub open spec fn brief_of_from(children: Seq<NodeV>, i: int) -> Seq<BriefV>
    decreases children.len() - i,
{
    if i < 0 || i >= children.len() {
        Seq::empty()
    } else {
        let rest = brief_of_from(children, i + 1);
        if blank(brief_content(children[i])) {
            rest
        } else {
            seq![
                BriefV {
                    id: i,
                    node_type: brief_tag(children[i]),
                    content: brief_content(children[i]),
                },
            ] + rest
        }
    }
}

/// The brief of a document's top-level children.
pub open spec fn brief_of(children: Seq<NodeV>) -> Seq<BriefV> {
    brief_of_from(children, 0)
}

} // verus!

verus! {

impl MessageSender {
    /// The sender's textual label.
    pub fn as_text(&self) -> (r: String)
        ensures
            r@ == sender_text(*self),
    {
        match self {
            MessageSender::User => "user".to_owned(),
            MessageSender::Agent => "agent".to_owned(),
            MessageSender::System => "system".to_owned(),
        }
    }
}

/// Decides whether a string consists of whitespace alone.
pub fn str_blank(s: &String) -> (r: bool)
    ensures
        r == blank(s@),
{
    let n = s.as_str().unicode_len();
    let mut i: usize = 0;
    while i < n
        invariant
            n == s@.len(),
            0 <= i <= n,
            forall|j: int| 0 <= j < i ==> is_ws_char(s@[j]),
        decreases n - i,
    {
        let c = s.as_str().get_char(i);
        if !(c == ' ' || c == '\t' || c == '\n' || c == '\r') {
            return false;
        }
        i = i + 1;
    }
    true
}

/// Renders a chat session as newline-joined `[sender] content` lines.
fn session_transcript_exec(msgs: &Vec<ChatSessionMessage>) -> (r: String)
    ensures
        r@ == session_transcript(msgs_view(msgs@)),
{
    let ghost mv = msgs_view(msgs@);
    let mut r = String::new();
    let n = msgs.len();
    let mut i: usize = 0;
    while i < n
        invariant
            n == msgs@.len(),
            mv == msgs_view(msgs@),
            0 <= i <= n,
            i == 0 ==> r@ == Seq::<char>::empty(),
            i > 0 ==> session_transcript(mv) == r@ + session_lines_from(mv, i as int),
        decreases n - i,
    {
        proof {
            assert(mv[i as int] == msgs@[i as int]@);
        }
        if i > 0 {
            r.append("\n");
        }
        r.append("[");
        let label = msgs[i].sender.as_text();
        r.append(label.as_str());
        r.append("] ");
        r.append(msgs[i].content.as_str());
        proof {
            if i == 0 {
                assert(r@ =~= chat_line(mv[0].sender, mv[0].content));
            } else {
                assert(session_transcript(mv) =~= r@ + session_lines_from(mv, i + 1));
            }
        }
        i = i + 1;
    }
    r
}

/// Concatenates the raw message contents of a chat session.
fn session_contents_exec(msgs: &Vec<ChatSessionMessage>) -> (r: String)
    ensures
        r@ == session_contents_from(msgs_view(msgs@), 0),
{
    let ghost mv = msgs_view(msgs@);
    let mut r = String::new();
    let n = msgs.len();
    let mut i: usize = 0;
    while i < n
        invariant
            n == msgs@.len(),
            mv == msgs_view(msgs@),
            0 <= i <= n,
            session_contents_from(mv, 0) == r@ + session_contents_from(mv, i as int),
        decreases n - i,
    {
        proof {
            assert(mv[i as int] == msgs@[i as int]@);
        }
        r.append(msgs[i].content.as_str());
        proof {
            assert(session_contents_from(mv, 0) =~= r@ + session_contents_from(mv, i + 1));
        }
        i = i + 1;
    }
    r
}

impl Note {
    /// Recursively extracts the plain text of `nodes`, in document order.
    pub fn extract_text_from_nodes(&self, nodes: &[LexicalNode]) -> (r: String)
        ensures
            r@ == text_of_nodes(nodes_view(nodes@)),
        decreases nodes@,
    {
        let ghost nv = nodes_view(nodes@);
        let mut text = String::new();
        let n = nodes.len();
        let mut i: usize = 0;
        while i < n
            invariant
                n == nodes@.len(),
                nv == nodes_view(nodes@),
                0 <= i <= n,
                text_of_nodes(nv) == text@ + text_of_nodes_from(nv, i as int),
            decreases n - i,
        {
            let ghost t0 = text@;
            proof {
                assert(nv[i as int] == node_view(nodes@[i as int]));
                assert(decreases_to!(nodes@ => nodes@[i as int]));
            }
            let node = &nodes[i];
            match node {
                LexicalNode::Text(t) => {
                    text.append(t.text.as_str());
                },
                LexicalNode::Paragraph(p) => {
                    let sub = self.extract_text_from_nodes(p.children.as_slice());
                    text.append(sub.as_str());
                },
                LexicalNode::Heading(h) => {
                    let sub = self.extract_text_from_nodes(h.children.as_slice());
                    text.append(sub.as_str());
                },
                LexicalNode::List(l) => {
                    let sub = self.extract_text_from_nodes(l.children.as_slice());
                    text.append(sub.as_str());
                },
                LexicalNode::ListItem(l) => {
                    text.append("\u{2022} ");
                    let sub = self.extract_text_from_nodes(l.children.as_slice());
                    text.append(sub.as_str());
                },
                LexicalNode::Quote(q) => {
                    let sub = self.extract_text_from_nodes(q.children.as_slice());
                    text.append(sub.as_str());
                },
                LexicalNode::Code(c) => {
                    if let Some(t) = &c.text {
                        text.append(t.as_str());
                    }
                    if let Some(cs) = &c.children {
                        let sub = self.extract_text_from_nodes(cs.as_slice());
                        text.append(sub.as_str());
                    }
                },
                LexicalNode::Link(l) => {
                    let sub = self.extract_text_from_nodes(l.children.as_slice());
                    text.append(sub.as_str());
                },
                LexicalNode::AutoLink(a) => {
                    let sub = self.extract_text_from_nodes(a.children.as_slice());
                    text.append(sub.as_str());
                },
                LexicalNode::Hashtag(h) => {
                    text.append(h.text.as_str());
                },
                LexicalNode::Table(t) => {
                    let sub = self.extract_text_from_nodes(t.children.as_slice());
                    text.append(sub.as_str());
                },
                LexicalNode::TableRow(tr) => {
                    let sub = self.extract_text_from_nodes(tr.children.as_slice());
                    text.append(sub.as_str());
                },
                LexicalNode::TableCell(tc) => {
                    let sub = self.extract_text_from_nodes(tc.children.as_slice());
                    text.append(sub.as_str());
                },
                LexicalNode::PageBreak(_) => {
                },
                LexicalNode::AIEmbedding(a) => {
                    text.append(a.content.as_str());
                },
                LexicalNode::VoiceInput(v) => {
                    text.append(v.content.as_str());
                },
                LexicalNode::ChatMessage(m) => {
                    text.append(m.content.as_str());
                },
                LexicalNode::ChatSession(s) => {
                    let sub = session_contents_exec(&s.messages);
                    text.append(sub.as_str());
                },
                LexicalNode::Mention(m) => {
                    text.append(m.text.as_str());
                },
            }
            proof {
                assert(text@ =~= t0 + text_of_node(nv[i as int]));
                assert(text_of_nodes(nv) =~= text@ + text_of_nodes_from(nv, i + 1));
            }
            i = i + 1;
        }
        text
    }

    /// Appends the brief entry of one top-level node, keyed by its position,
    /// unless its extracted text is blank.
    pub fn collect_brief_from_node(
        &self,
        node: &LexicalNode,
        briefs: &mut Vec<BriefNode>,
        root_index: usize,
    )
        ensures
            if blank(brief_content(node@)) {
                final(briefs)@ == old(briefs)@
            } else {
                briefs_view(final(briefs)@) =~= briefs_view(old(briefs)@).push(
                    (BriefV {
                        id: root_index as int,
                        node_type: brief_tag(node@),
                        content: brief_content(node@),
                    }),
                )
            },
    {
        let (node_type, content): (&str, String) = match node {
            LexicalNode::Text(t) => ("text", t.text.clone()),
            LexicalNode::Paragraph(p) => (
                "paragraph",
                self.extract_text_from_nodes(p.children.as_slice()),
            ),
            LexicalNode::Heading(h) => (
                "heading",
                self.extract_text_from_nodes(h.children.as_slice()),
            ),
            LexicalNode::List(l) => ("list", self.extract_text_from_nodes(l.children.as_slice())),
            LexicalNode::ListItem(l) => (
                "listitem",
                self.extract_text_from_nodes(l.children.as_slice()),
            ),
            LexicalNode::Quote(q) => (
                "quote",
                self.extract_text_from_nodes(q.children.as_slice()),
            ),
            LexicalNode::Code(c) => (
                "code",
                match &c.text {
                    Some(t) => t.clone(),
                    None => match &c.children {
                        Some(cs) => self.extract_text_from_nodes(cs.as_slice()),
                        None => String::new(),
                    },
                },
            ),
            LexicalNode::Link(l) => {
                let mut s = self.extract_text_from_nodes(l.children.as_slice());
                s.append(" (");
                s.append(l.url.as_str());
                s.append(")");
                ("link", s)
            },
            LexicalNode::AutoLink(a) => {
                let mut s = self.extract_text_from_nodes(a.children.as_slice());
                s.append(" (");
                s.append(a.url.as_str());
                s.append(")");
                ("autolink", s)
            },
            LexicalNode::Hashtag(h) => ("hashtag", h.text.clone()),
            LexicalNode::Table(t) => (
                "table",
                self.extract_text_from_nodes(t.children.as_slice()),
            ),
            LexicalNode::TableRow(tr) => (
                "tablerow",
                self.extract_text_from_nodes(tr.children.as_slice()),
            ),
            LexicalNode::TableCell(tc) => (
                "tablecell",
                self.extract_text_from_nodes(tc.children.as_slice()),
            ),
            LexicalNode::PageBreak(_) => ("page-break", "---".to_owned()),
            LexicalNode::AIEmbedding(a) => ("ai-embedding", a.content.clone()),
            LexicalNode::VoiceInput(v) => ("voice-input", v.content.clone()),
            LexicalNode::ChatMessage(m) => {
                let mut s = "[".to_owned();
                let label = m.sender.as_text();
                s.append(label.as_str());
                s.append("] ");
                s.append(m.content.as_str());
                ("chat-message", s)
            },
            LexicalNode::ChatSession(s) => ("chat-session", session_transcript_exec(&s.messages)),
            LexicalNode::Mention(m) => ("mention", m.text.clone()),
        };
        proof {
            assert(content@ =~= brief_content(node@));
            assert(node_type@ == brief_tag(node@));
        }
        if !str_blank(&content) {
            let entry = BriefNode { id: root_index, node_type: node_type.to_owned(), content };
            briefs.push(entry);
            proof {
                assert(briefs_view(briefs@) =~= briefs_view(old(briefs)@).push(
                    (BriefV {
                        id: root_index as int,
                        node_type: brief_tag(node@),
                        content: brief_content(node@),
                    }),
                ));
            }
        }
    }

    /// Projects the note's top-level children into the flat brief.
    pub fn get_brief(&self) -> (r: Vec<BriefNode>)
        ensures
            briefs_view(r@) == brief_of(self@.lexical_state.root.children),
    {
        let ghost cv = nodes_view(self.lexical_state.root.children@);
        let mut briefs: Vec<BriefNode> = Vec::new();
        let n = self.lexical_state.root.children.len();
        let mut i: usize = 0;
        while i < n
            invariant
                n == self.lexical_state.root.children@.len(),
                cv == nodes_view(self.lexical_state.root.children@),
                cv.len() == n,
                0 <= i <= n,
                brief_of(cv) =~= briefs_view(briefs@) + brief_of_from(cv, i as int),
            decreases n - i,
        {
            let node = &self.lexical_state.root.children[i];
            proof {
                assert(cv[i as int] == node_view(self.lexical_state.root.children@[i as int]));
            }
            self.collect_brief_from_node(node, &mut briefs, i);
            proof {
                assert(brief_of(cv) =~= briefs_view(briefs@) + brief_of_from(cv, i + 1));
            }
            i = i + 1;
        }
        proof {
            assert(brief_of(cv) =~= briefs_view(briefs@));
        }
        briefs
    }
}

/// What holds of every entry that children `lo..` contribute to the brief.
pub open spec fn brief_entry_ok(children: Seq<NodeV>, lo: int, b: BriefV) -> bool {
    &&& lo <= b.id < children.len()
    &&& !blank(brief_content(children[b.id]))
    &&& b.node_type == brief_tag(children[b.id])
    &&& b.content == brief_content(children[b.id])
}

proof fn lemma_brief_entries_sound(children: Seq<NodeV>, i: int)
    ensures
        forall|j: int| 0 <= j < brief_of_from(children, i).len() ==> brief_entry_ok(
            children,
            i,
            #[trigger] brief_of_from(children, i)[j],
        ),
        forall|j1: int, j2: int|
            0 <= j1 < j2 < brief_of_from(children, i).len() ==> #[trigger] brief_of_from(
                children,
                i,
            )[j1].id < #[trigger] brief_of_from(children, i)[j2].id,
    decreases children.len() - i,
{
    if i < 0 || i >= children.len() {
    } else {
        lemma_brief_entries_sound(children, i + 1);
        let rest = brief_of_from(children, i + 1);
        let cur = brief_of_from(children, i);
        if blank(brief_content(children[i])) {
            assert(cur == rest);
        } else {
            let e = BriefV {
                id: i,
                node_type: brief_tag(children[i]),
                content: brief_content(children[i]),
            };
            assert(cur =~= seq![e] + rest);
            assert forall|j: int| 0 <= j < cur.len() implies brief_entry_ok(
                children,
                i,
                #[trigger] cur[j],
            ) by {
                if j == 0 {
                    assert(cur[j] == e);
                } else {
                    assert(cur[j] == rest[j - 1]);
                    assert(brief_entry_ok(children, i + 1, rest[j - 1]));
                }
            }
            assert forall|j1: int, j2: int| 0 <= j1 < j2 < cur.len() implies #[trigger] cur[j1].id
                < #[trigger] cur[j2].id by {
                assert(cur[j2] == rest[j2 - 1]);
                assert(brief_entry_ok(children, i + 1, rest[j2 - 1]));
                if j1 == 0 {
                    assert(cur[j1] == e);
                } else {
                    assert(cur[j1] == rest[j1 - 1]);
                }
            }
        }
    }
}

/// Law: every brief entry's id is a valid index into the top-level children,
/// and ids are strictly increasing across the brief.
pub proof fn lemma_brief_ids_valid_and_increasing(children: Seq<NodeV>)
    ensures
        forall|j: int| 0 <= j < brief_of(children).len() ==> 0 <= #[trigger] brief_of(
            children,
        )[j].id < children.len(),
        forall|j1: int, j2: int|
            0 <= j1 < j2 < brief_of(children).len() ==> #[trigger] brief_of(children)[j1].id
                < #[trigger] brief_of(children)[j2].id,
{
    lemma_brief_entries_sound(children, 0);
}

/// Law: a top-level child whose extracted text is blank contributes no brief
/// entry.
pub proof fn lemma_brief_drops_blank(children: Seq<NodeV>, k: int)
    requires
        0 <= k < children.len(),
        blank(brief_content(children[k])),
    ensures
        forall|j: int| 0 <= j < brief_of(children).len() ==> #[trigger] brief_of(children)[j].id
            != k,
{
    lemma_brief_entries_sound(children, 0);
}

} // verus!
