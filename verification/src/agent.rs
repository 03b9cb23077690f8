//! The agent-facing surface: prompt assembly and reply parsing.
//!
//! `get_system_prompt` renders the note's brief and the cursor position into
//! the fixed instruction template. `ChatAction::try_from_reply` turns the
//! model's raw reply into exactly one typed action, tolerating surrounding
//! whitespace and code fences, and failing loudly on explicit but unknown
//! action types.

use vstd::prelude::*;
use vstd::string::StringExecFns;

use crate::json::Json;
use crate::json::JsonVal;
use crate::json::field_lookup;
use crate::json::fields_view;
use crate::json::obj_get;
use crate::note::BriefV;
use crate::note::Note;
use crate::note::NodeV;
use crate::note::brief_of;
use crate::note::is_ws_char;
use crate::wire::dec_rep;
use crate::wire::json_to_text;
use crate::wire::jv_text_of;
use crate::wire::parse_json_text;
use crate::wire::parsed_json_of;
use crate::wire::push_dec;
use crate::wire::str_chars;
use crate::wire::string_from_chars;
use crate::wire::window_string;

verus! {

/// What the agent works on: the note and the cursor position among its
/// top-level children (the cursor may sit just past the last child).
#[derive(Debug)]
pub struct ChatContext {
    pub note: Note,
    pub cursor_position: usize,
}

/// The action to reply with a message.
#[derive(Debug, Clone)]
pub struct Reply {
    pub action: String,
    pub content: String,
}

/// The action to insert a new node after an existing one.
#[derive(Debug, Clone)]
pub struct InsertNode {
    pub action: String,
    pub insert_after: usize,
    pub node_type: String,
    pub content: String,
}

/// The action to modify an existing node.
#[derive(Debug, Clone)]
pub struct ModifyNode {
    pub action: String,
    pub id: usize,
    pub node_type: String,
    pub content: String,
}

/// One typed action decoded from a model reply.
#[derive(Debug, Clone)]
pub enum ChatAction {
    Reply(Reply),
    InsertNode(InsertNode),
    ModifyNode(ModifyNode),
}

/// Why a model reply could not be decoded into an action.
#[derive(Debug, Clone)]
pub enum ActionError {
    /// The reply looked like JSON but does not parse.
    MalformedActionJson,
    /// The named action lacks a required field or a field has the wrong type.
    MalformedActionShape,
    /// An explicit `action` value outside the known set; carries its JSON text.
    UnsupportedActionType(String),
}

/// Shadow of `Reply`.
#[verifier::ext_equal]
pub struct ReplyV {
    pub action: Seq<char>,
    pub content: Seq<char>,
}

/// Shadow of `InsertNode`.
#[verifier::ext_equal]
pub struct InsertNodeV {
    pub action: Seq<char>,
    pub insert_after: usize,
    pub node_type: Seq<char>,
    pub content: Seq<char>,
}

/// Shadow of `ModifyNode`.
#[verifier::ext_equal]
pub struct ModifyNodeV {
    pub action: Seq<char>,
    pub id: usize,
    pub node_type: Seq<char>,
    pub content: Seq<char>,
}

/// Shadow of `ChatAction`.
#[verifier::ext_equal]
pub enum ActionV {
    Reply(ReplyV),
    InsertNode(InsertNodeV),
    ModifyNode(ModifyNodeV),
}

/// Shadow of `ActionError`.
#[verifier::ext_equal]
pub enum ActionErrV {
    MalformedActionJson,
    MalformedActionShape,
    UnsupportedActionType(Seq<char>),
}

impl View for Reply {
    type V = ReplyV;

    open spec fn view(&self) -> ReplyV {
        ReplyV { action: self.action@, content: self.content@ }
    }
}

impl View for InsertNode {
    type V = InsertNodeV;

    open spec fn view(&self) -> InsertNodeV {
        InsertNodeV {
            action: self.action@,
            insert_after: self.insert_after,
            node_type: self.node_type@,
            content: self.content@,
        }
    }
}

impl View for ModifyNode {
    type V = ModifyNodeV;

    open spec fn view(&self) -> ModifyNodeV {
        ModifyNodeV {
            action: self.action@,
            id: self.id,
            node_type: self.node_type@,
            content: self.content@,
        }
    }
}

impl View for ChatAction {
    type V = ActionV;

    open spec fn view(&self) -> ActionV {
        match self {
            ChatAction::Reply(r) => ActionV::Reply(r@),
            ChatAction::InsertNode(a) => ActionV::InsertNode(a@),
            ChatAction::ModifyNode(a) => ActionV::ModifyNode(a@),
        }
    }
}

impl View for ActionError {
    type V = ActionErrV;

    open spec fn view(&self) -> ActionErrV {
        match self {
            ActionError::MalformedActionJson => ActionErrV::MalformedActionJson,
            ActionError::MalformedActionShape => ActionErrV::MalformedActionShape,
            ActionError::UnsupportedActionType(s) => ActionErrV::UnsupportedActionType(s@),
        }
    }
}

/// The shadow of a parse outcome.
pub open spec fn action_result_view(r: Result<ChatAction, ActionError>) -> Result<
    ActionV,
    ActionErrV,
> {
    match r {
        Ok(a) => Ok(a@),
        Err(e) => Err(e@),
    }
}

// ----------------------------------------------------------------------
// Trimming and code-fence stripping, specified.
// ----------------------------------------------------------------------

/// `s` without leading whitespace.
pub open spec fn trim_start_sp(s: Seq<char>) -> Seq<char>
    decreases s.len(),
{
    if s.len() > 0 && is_ws_char(s[0]) {
        trim_start_sp(s.drop_first())
    } else {
        s
    }
}

/// `s` without trailing whitespace.
pub open spec fn trim_end_sp(s: Seq<char>) -> Seq<char>
    decreases s.len(),
{
    if s.len() > 0 && is_ws_char(s[s.len() - 1]) {
        trim_end_sp(s.drop_last())
    } else {
        s
    }
}

/// `s` without leading or trailing whitespace.
pub open spec fn trim_sp(s: Seq<char>) -> Seq<char> {
    trim_end_sp(trim_start_sp(s))
}

/// Does `s` open with a code fence?
pub open spec fn starts_fence(s: Seq<char>) -> bool {
    s.len() >= 3 && s[0] == '`' && s[1] == '`' && s[2] == '`'
}

/// Does `s` close with a code fence?
pub open spec fn ends_fence(s: Seq<char>) -> bool {
    s.len() >= 3 && s[s.len() - 3] == '`' && s[s.len() - 2] == '`' && s[s.len() - 1] == '`'
}

/// A character that may belong to a fence's language tag.
pub open spec fn is_tag_char(c: char) -> bool {
    ||| 'a' as u32 <= c as u32 <= 'z' as u32
    ||| 'A' as u32 <= c as u32 <= 'Z' as u32
    ||| '0' as u32 <= c as u32 <= '9' as u32
}

/// The index just past the language tag that starts at `i`.
pub open spec fn tag_end(s: Seq<char>, i: int) -> int
    decreases s.len() - i,
{
    if 0 <= i < s.len() && is_tag_char(s[i]) {
        tag_end(s, i + 1)
    } else {
        i
    }
}

/// `s` with a closing fence, an opening fence and the opening fence's
/// language tag removed, where present.
pub open spec fn strip_fences(s: Seq<char>) -> Seq<char> {
    let s1 = if ends_fence(s) {
        s.take(s.len() - 3)
    } else {
        s
    };
    if starts_fence(s1) {
        let s2 = s1.skip(3);
        s2.skip(tag_end(s2, 0))
    } else {
        s1
    }
}

/// The reply text that classification works on: trimmed, unfenced, trimmed.
pub open spec fn reply_window(s: Seq<char>) -> Seq<char> {
    trim_sp(strip_fences(trim_sp(s)))
}

// ----------------------------------------------------------------------
// Decoding an action from JSON, specified.
// ----------------------------------------------------------------------

pub open spec fn insert_of_fields(fields: Seq<(Seq<char>, JsonVal)>) -> Result<
    ActionV,
    ActionErrV,
> {
    match (
        field_lookup(fields, "insert_after"@),
        field_lookup(fields, "node_type"@),
        field_lookup(fields, "content"@),
    ) {
        (Some(JsonVal::UInt(n)), Some(JsonVal::Text(t)), Some(JsonVal::Text(c))) => if n
            <= usize::MAX as u64 {
            Ok(
                ActionV::InsertNode(
                    (InsertNodeV {
                        action: "insert_node"@,
                        insert_after: n as usize,
                        node_type: t,
                        content: c,
                    }),
                ),
            )
        } else {
            Err(ActionErrV::MalformedActionShape)
        },
        _ => Err(ActionErrV::MalformedActionShape),
    }
}

pub open spec fn modify_of_fields(fields: Seq<(Seq<char>, JsonVal)>) -> Result<
    ActionV,
    ActionErrV,
> {
    match (
        field_lookup(fields, "id"@),
        field_lookup(fields, "node_type"@),
        field_lookup(fields, "content"@),
    ) {
        (Some(JsonVal::UInt(n)), Some(JsonVal::Text(t)), Some(JsonVal::Text(c))) => if n
            <= usize::MAX as u64 {
            Ok(
                ActionV::ModifyNode(
                    (ModifyNodeV {
                        action: "modify_node"@,
                        id: n as usize,
                        node_type: t,
                        content: c,
                    }),
                ),
            )
        } else {
            Err(ActionErrV::MalformedActionShape)
        },
        _ => Err(ActionErrV::MalformedActionShape),
    }
}

pub open spec fn reply_of_fields(fields: Seq<(Seq<char>, JsonVal)>) -> Result<
    ActionV,
    ActionErrV,
> {
    match field_lookup(fields, "content"@) {
        Some(JsonVal::Text(c)) => Ok(ActionV::Reply((ReplyV { action: "reply"@, content: c }))),
        _ => Err(ActionErrV::MalformedActionShape),
    }
}

/// How a parsed JSON reply is decoded, given the reply window `w`.
pub open spec fn action_of_json(jv: JsonVal, w: Seq<char>) -> Result<ActionV, ActionErrV> {
    match jv {
        JsonVal::Obj(fields) => match field_lookup(fields, "action"@) {
            None => Ok(ActionV::Reply((ReplyV { action: "reply"@, content: w }))),
            Some(av) => match av {
                JsonVal::Text(t) => if t == "insert_node"@ {
                    insert_of_fields(fields)
                } else if t == "modify_node"@ {
                    modify_of_fields(fields)
                } else if t == "reply"@ {
                    reply_of_fields(fields)
                } else {
                    Err(ActionErrV::UnsupportedActionType(jv_text_of(av)))
                },
                _ => Err(ActionErrV::UnsupportedActionType(jv_text_of(av))),
            },
        },
        _ => Ok(ActionV::Reply((ReplyV { action: "reply"@, content: w }))),
    }
}

/// How a whole raw reply is decoded into an action or an error.
pub open spec fn parse_reply_spec(s: Seq<char>) -> Result<ActionV, ActionErrV> {
    let w = reply_window(s);
    if w.len() == 0 || w[0] != '{' {
        Ok(ActionV::Reply((ReplyV { action: "reply"@, content: w })))
    } else {
        match parsed_json_of(w) {
            None => Err(ActionErrV::MalformedActionJson),
            Some(jv) => action_of_json(jv, w),
        }
    }
}

} // verus!

verus! {

fn is_tag_exec(c: char) -> (r: bool)
    ensures
        r == is_tag_char(c),
{
    ('a' <= c && c <= 'z') || ('A' <= c && c <= 'Z') || ('0' <= c && c <= '9')
}

fn is_ws_exec(c: char) -> (r: bool)
    ensures
        r == is_ws_char(c),
{
    c == ' ' || c == '\t' || c == '\n' || c == '\r'
}

/// Narrows the window `lo..hi` of `cs` to its whitespace-trimmed core.
fn trim_window(cs: &Vec<char>, lo: usize, hi: usize) -> (r: (usize, usize))
    requires
        lo <= hi <= cs@.len(),
    ensures
        lo <= r.0 <= r.1 <= hi,
        cs@.subrange(r.0 as int, r.1 as int) == trim_sp(
            cs@.subrange(lo as int, hi as int),
        ),
{
    let mut a = lo;
    while a < hi && is_ws_exec(cs[a])
        invariant
            lo <= a <= hi <= cs@.len(),
            trim_start_sp(cs@.subrange(lo as int, hi as int)) == trim_start_sp(
                cs@.subrange(a as int, hi as int),
            ),
        decreases hi - a,
    {
        proof {
            assert(cs@.subrange(a as int, hi as int).drop_first() =~= cs@.subrange(
                a + 1,
                hi as int,
            ));
        }
        a = a + 1;
    }
    proof {
        assert(trim_start_sp(cs@.subrange(a as int, hi as int)) == cs@.subrange(
            a as int,
            hi as int,
        ));
    }
    let mut b = hi;
    while b > a && is_ws_exec(cs[b - 1])
        invariant
            a <= b <= hi <= cs@.len(),
            trim_end_sp(cs@.subrange(a as int, hi as int)) == trim_end_sp(
                cs@.subrange(a as int, b as int),
            ),
        decreases b,
    {
        proof {
            assert(cs@.subrange(a as int, b as int).drop_last() =~= cs@.subrange(
                a as int,
                b - 1,
            ));
        }
        b = b - 1;
    }
    proof {
        assert(trim_end_sp(cs@.subrange(a as int, b as int)) == cs@.subrange(a as int, b as int));
    }
    (a, b)
}

impl ChatAction {
    /// Decodes a raw model reply into exactly one typed action, or an error.
    ///
    /// Whitespace and a surrounding code fence (with an optional language
    /// tag) are stripped; text not opening with `{` is a plain reply; JSON
    /// without an `action` field is a plain reply; an explicit but unknown
    /// `action` is an error, never silently downgraded.
    #[verifier::loop_isolation(false)]
    #[verifier::rlimit(60)]
    pub fn try_from_reply(reply: String) -> (r: Result<ChatAction, ActionError>)
        ensures
            action_result_view(r) == parse_reply_spec(reply@),
    {
        let cs = str_chars(reply.as_str());
        let n = cs.len();
        let (lo0, hi0) = trim_window(&cs, 0, n);
        let ghost t = trim_sp(reply@);
        proof {
            assert(cs@.subrange(0, n as int) =~= reply@);
            assert(cs@.subrange(lo0 as int, hi0 as int) == t);
        }
        let mut lo = lo0;
        let mut hi = hi0;
        // Closing fence.
        if hi - lo >= 3 && cs[hi - 3] == '`' && cs[hi - 2] == '`' && cs[hi - 1] == '`' {
            hi = hi - 3;
        }
        let ghost s1 = if ends_fence(t) {
            t.take(t.len() - 3)
        } else {
            t
        };
        proof {
            assert(cs@.subrange(lo as int, hi as int) =~= s1);
        }
        // Opening fence, with its language tag.
        let ghost s3;
        if hi - lo >= 3 && cs[lo] == '`' && cs[lo + 1] == '`' && cs[lo + 2] == '`' {
            lo = lo + 3;
            let ghost s2 = s1.skip(3);
            let ghost base = lo;
            proof {
                assert(cs@.subrange(lo as int, hi as int) =~= s2);
            }
            while lo < hi && is_tag_exec(cs[lo])
                invariant
                    base <= lo <= hi,
                    tag_end(s2, 0) == tag_end(s2, lo - base),
                decreases hi - lo,
            {
                proof {
                    assert(s2[lo - base] == cs@[lo as int]);
                    assert(is_tag_char(s2[lo - base]));
                }
                lo = lo + 1;
            }
            proof {
                if lo < hi {
                    assert(s2[lo - base] == cs@[lo as int]);
                    assert(!is_tag_char(s2[lo - base]));
                }
                assert(tag_end(s2, lo - base) == lo - base);
                s3 = s2.skip(tag_end(s2, 0));
                assert(cs@.subrange(lo as int, hi as int) =~= s3);
            }
        } else {
            proof {
                s3 = s1;
            }
        }
        proof {
            assert(s3 == strip_fences(t));
        }
        // Re-trim.
        let (lo2, hi2) = trim_window(&cs, lo, hi);
        let ghost w = reply_window(reply@);
        proof {
            assert(cs@.subrange(lo2 as int, hi2 as int) == w);
        }
        // Classify.
        if lo2 == hi2 || cs[lo2] != '{' {
            let content = window_string(&cs, lo2, hi2);
            return Ok(ChatAction::Reply(Reply { action: "reply".to_owned(), content }));
        }
        let wtext = window_string(&cs, lo2, hi2);
        let parsed = parse_json_text(wtext.as_str());
        match parsed {
            None => Err(ActionError::MalformedActionJson),
            Some(j) => Self::action_from_json(&j, wtext),
        }
    }

    /// Decodes one parsed JSON value, with the reply window as fallback text.
    fn action_from_json(j: &Json, w: String) -> (r: Result<ChatAction, ActionError>)
        ensures
            action_result_view(r) == action_of_json(j@, w@),
    {
        match j {
            Json::Obj(fields) => {
                let action_key = "action".to_owned();
                match obj_get(fields, &action_key) {
                    None => Ok(
                        ChatAction::Reply(Reply { action: "reply".to_owned(), content: w }),
                    ),
                    Some(av) => match av {
                        Json::Text(t) => {
                            if *t == "insert_node".to_owned() {
                                Self::insert_from_fields(fields)
                            } else if *t == "modify_node".to_owned() {
                                Self::modify_from_fields(fields)
                            } else if *t == "reply".to_owned() {
                                Self::reply_from_fields(fields)
                            } else {
                                Err(ActionError::UnsupportedActionType(json_to_text(av)))
                            }
                        },
                        _ => Err(ActionError::UnsupportedActionType(json_to_text(av))),
                    },
                }
            },
            _ => Ok(ChatAction::Reply(Reply { action: "reply".to_owned(), content: w })),
        }
    }

    fn insert_from_fields(fields: &Vec<(String, Json)>) -> (r: Result<ChatAction, ActionError>)
        ensures
            action_result_view(r) == insert_of_fields(fields_view(fields@)),
    {
        let k1 = "insert_after".to_owned();
        let k2 = "node_type".to_owned();
        let k3 = "content".to_owned();
        match (obj_get(fields, &k1), obj_get(fields, &k2), obj_get(fields, &k3)) {
            (Some(Json::UInt(n)), Some(Json::Text(t)), Some(Json::Text(c))) => {
                if *n <= usize::MAX as u64 {
                    Ok(
                        ChatAction::InsertNode(
                            InsertNode {
                                action: "insert_node".to_owned(),
                                insert_after: *n as usize,
                                node_type: t.clone(),
                                content: c.clone(),
                            },
                        ),
                    )
                } else {
                    Err(ActionError::MalformedActionShape)
                }
            },
            _ => Err(ActionError::MalformedActionShape),
        }
    }

    fn modify_from_fields(fields: &Vec<(String, Json)>) -> (r: Result<ChatAction, ActionError>)
        ensures
            action_result_view(r) == modify_of_fields(fields_view(fields@)),
    {
        let k1 = "id".to_owned();
        let k2 = "node_type".to_owned();
        let k3 = "content".to_owned();
        match (obj_get(fields, &k1), obj_get(fields, &k2), obj_get(fields, &k3)) {
            (Some(Json::UInt(n)), Some(Json::Text(t)), Some(Json::Text(c))) => {
                if *n <= usize::MAX as u64 {
                    Ok(
                        ChatAction::ModifyNode(
                            ModifyNode {
                                action: "modify_node".to_owned(),
                                id: *n as usize,
                                node_type: t.clone(),
                                content: c.clone(),
                            },
                        ),
                    )
                } else {
                    Err(ActionError::MalformedActionShape)
                }
            },
            _ => Err(ActionError::MalformedActionShape),
        }
    }

    fn reply_from_fields(fields: &Vec<(String, Json)>) -> (r: Result<ChatAction, ActionError>)
        ensures
            action_result_view(r) == reply_of_fields(fields_view(fields@)),
    {
        let k = "content".to_owned();
        match obj_get(fields, &k) {
            Some(Json::Text(c)) => Ok(
                ChatAction::Reply(Reply { action: "reply".to_owned(), content: c.clone() }),
            ),
            _ => Err(ActionError::MalformedActionShape),
        }
    }
}

} // verus!

verus! {

// ----------------------------------------------------------------------
// The system prompt.
// ----------------------------------------------------------------------

/// The brief wire form of one entry: `{id, nodeType, content}`.
pub open spec fn brief_entry_jv(b: BriefV) -> JsonVal {
    JsonVal::Obj(
        seq![
            ("id"@, JsonVal::UInt(b.id as u64)),
            ("nodeType"@, JsonVal::Text(b.node_type)),
            ("content"@, JsonVal::Text(b.content)),
        ],
    )
}

/// The brief wire form: a JSON array of entries.
pub open spec fn brief_jv(bs: Seq<BriefV>) -> JsonVal {
    JsonVal::Arr(Seq::new(bs.len(), |i: int| brief_entry_jv(bs[i])))
}

/// The serialized brief of a document's children.
pub open spec fn brief_json_text(children: Seq<NodeV>) -> Seq<char> {
    jv_text_of(brief_jv(brief_of(children)))
}

/// The `insert_after` value suggested for the cursor position.
pub open spec fn suggested_insert_after(cursor: usize) -> usize {
    if cursor == 0 {
        0
    } else {
        (cursor - 1) as usize
    }
}

/// The instruction template, rendered around the serialized brief and the
/// cursor position.
pub open spec fn system_prompt_text(children: Seq<NodeV>, cursor: usize) -> Seq<char> {
    "You are a helpful assistant, AiMo, that can help with note-taking.

## Environment Inspection

Here's the structured note the user is working on:

```json
"@ + brief_json_text(children) + "
```

The user is currently requesting to do something at node "@ + dec_rep(cursor as nat) + " in the note.

## Your Task

You are given the content of the note that the user is working on, and the messages you have had with the user.
You need to chat with the user to determine what they want to do with the note.
When you have determined what the user wants to do, you need to take actions to help the user.
You can only take one action at a time.

Notice the user's cursor position is at node "@ + dec_rep(
        cursor as nat,
    ) + " in the note. Modify around the cursor position.
If the cursor position doesn't contain any node, you can insert a new node at the cursor position. 
(the insert_after field in the `insert_node` action should be "@ + dec_rep(suggested_insert_after(cursor) as nat) + " here)

## Rules

- You must always reply to the user in the same language as the user's messages.
- For the `insert_node` and `modify_node` actions, you must always reply with a JSON string, and **DO NOT** include any other text or the code frame.
- You can find previous actions in the messages. If the action is not valid, the user will tell you.
- If you find you have already take an action in the messages but the user wants you to modify your action, just re-generate the action based on the original note content.

## Available Actions

### Insert a new node

You can insert a new node after a specific node.

Reply to the user with the following JSON format, but remember: Just reply
with a raw JSON string, do not include any other text or the code frame.

For example:

{
    \"action\": \"insert_node\",
    \"insert_after\": 0,
    \"node_type\": \"text\",
    \"content\": \"Hello, world!\"
}

### Modify a node

You can modify a specific node.

Reply to the user with the following JSON format, but remember: Just reply with a raw JSON string, do not include any other text or the code frame.

For example:

{
    \"action\": \"modify_node\",
    \"id\": 0,
    \"node_type\": \"text\",
    \"content\": \"Hello, world!\"
}

### Reply to the user

If you can't determine what the user wants to do, you can reply to the user with a message to request more information.

For example:

Hello, I'm AiMo, your note-taking assistant. What would you like to do with the note?

Or:

{
    \"action\": \"reply\",
    \"content\": \"Hello, I'm AiMo, your note-taking assistant. What would you like to do with the note?\"
}
"@
}

/// Renders the system prompt for a chat turn: the note's brief as JSON,
/// the cursor position, and the suggested `insert_after` index, embedded
/// in the fixed instruction template.
pub fn get_system_prompt(ctx: &ChatContext) -> (r: String)
    ensures
        r@ == system_prompt_text(
            ctx.note@.lexical_state.root.children,
            ctx.cursor_position,
        ),
{
    let briefs = ctx.note.get_brief();
    let ghost bv = crate::note::briefs_view(briefs@);
    let mut items: Vec<Json> = Vec::new();
    let n = briefs.len();
    let mut i: usize = 0;
    while i < n
        invariant
            n == briefs@.len(),
            bv == crate::note::briefs_view(briefs@),
            bv.len() == n,
            0 <= i <= n,
            crate::json::arr_view(items@) =~= Seq::new(i as nat, |k: int| brief_entry_jv(bv[k])),
        decreases n - i,
    {
        let b = &briefs[i];
        let mut fs: Vec<(String, Json)> = Vec::new();
        fs.push(("id".to_owned(), Json::UInt(b.id as u64)));
        fs.push(("nodeType".to_owned(), Json::Text(b.node_type.clone())));
        fs.push(("content".to_owned(), Json::Text(b.content.clone())));
        let ghost prev = items@;
        let obj = Json::Obj(fs);
        proof {
            assert(bv[i as int] == briefs@[i as int]@);
            assert(crate::json::fields_view(obj->Obj_0@) =~= seq![
                ("id"@, JsonVal::UInt(b.id as u64)),
                ("nodeType"@, JsonVal::Text(b.node_type@)),
                ("content"@, JsonVal::Text(b.content@)),
            ]);
            assert(obj@ == brief_entry_jv(bv[i as int]));
        }
        items.push(obj);
        proof {
            assert(crate::json::arr_view(items@) =~= crate::json::arr_view(prev).push(
                brief_entry_jv(bv[i as int]),
            ));
            assert(crate::json::arr_view(items@) =~= Seq::new(
                (i + 1) as nat,
                |k: int| brief_entry_jv(bv[k]),
            ));
        }
        i = i + 1;
    }
    let arr = Json::Arr(items);
    proof {
        assert(bv == brief_of(ctx.note@.lexical_state.root.children));
        assert(arr@ == brief_jv(bv));
    }
    let brief_str = json_to_text(&arr);
    let mut cur_chars: Vec<char> = Vec::new();
    push_dec(&mut cur_chars, ctx.cursor_position as u64);
    let cur_str = string_from_chars(&cur_chars);
    let insert_after: usize = if ctx.cursor_position == 0 {
        0
    } else {
        ctx.cursor_position - 1
    };
    let mut ia_chars: Vec<char> = Vec::new();
    push_dec(&mut ia_chars, insert_after as u64);
    let ia_str = string_from_chars(&ia_chars);
    let mut p = String::new();
    p.append("You are a helpful assistant, AiMo, that can help with note-taking.

## Environment Inspection

Here's the structured note the user is working on:

```json
");
    p.append(brief_str.as_str());
    p.append("
```

The user is currently requesting to do something at node ");
    p.append(cur_str.as_str());
    p.append(" in the note.

## Your Task

You are given the content of the note that the user is working on, and the messages you have had with the user.
You need to chat with the user to determine what they want to do with the note.
When you have determined what the user wants to do, you need to take actions to help the user.
You can only take one action at a time.

Notice the user's cursor position is at node ");
    p.append(cur_str.as_str());
    p.append(" in the note. Modify around the cursor position.
If the cursor position doesn't contain any node, you can insert a new node at the cursor position. 
(the insert_after field in the `insert_node` action should be ");
    p.append(ia_str.as_str());
    p.append(" here)

## Rules

- You must always reply to the user in the same language as the user's messages.
- For the `insert_node` and `modify_node` actions, you must always reply with a JSON string, and **DO NOT** include any other text or the code frame.
- You can find previous actions in the messages. If the action is not valid, the user will tell you.
- If you find you have already take an action in the messages but the user wants you to modify your action, just re-generate the action based on the original note content.

## Available Actions

### Insert a new node

You can insert a new node after a specific node.

Reply to the user with the following JSON format, but remember: Just reply
with a raw JSON string, do not include any other text or the code frame.

For example:

{
    \"action\": \"insert_node\",
    \"insert_after\": 0,
    \"node_type\": \"text\",
    \"content\": \"Hello, world!\"
}

### Modify a node

You can modify a specific node.

Reply to the user with the following JSON format, but remember: Just reply with a raw JSON string, do not include any other text or the code frame.

For example:

{
    \"action\": \"modify_node\",
    \"id\": 0,
    \"node_type\": \"text\",
    \"content\": \"Hello, world!\"
}

### Reply to the user

If you can't determine what the user wants to do, you can reply to the user with a message to request more information.

For example:

Hello, I'm AiMo, your note-taking assistant. What would you like to do with the note?

Or:

{
    \"action\": \"reply\",
    \"content\": \"Hello, I'm AiMo, your note-taking assistant. What would you like to do with the note?\"
}
");
    proof {
        assert(p@ =~= system_prompt_text(
            ctx.note@.lexical_state.root.children,
            ctx.cursor_position,
        ));
    }
    p
}

} // verus!

verus! {

impl From<String> for Reply {
    /// Wraps plain text as a reply action.
    fn from(content: String) -> (r: Reply)
        ensures
            r.action@ == "reply"@,
            r.content == content,
    {
        Reply { action: "reply".to_owned(), content }
    }
}

impl vstd::std_specs::convert::FromSpecImpl<String> for Reply {
    open spec fn obeys_from_spec() -> bool {
        false
    }

    open spec fn from_spec(v: String) -> Reply {
        choose|r: Reply| r.content == v
    }
}

impl<'a> From<&'a str> for Reply {
    /// Wraps borrowed plain text as a reply action.
    fn from(content: &'a str) -> (r: Reply)
        ensures
            r.action@ == "reply"@,
            r.content@ == content@,
    {
        Reply { action: "reply".to_owned(), content: content.to_owned() }
    }
}

impl<'a> vstd::std_specs::convert::FromSpecImpl<&'a str> for Reply {
    open spec fn obeys_from_spec() -> bool {
        false
    }

    open spec fn from_spec(v: &'a str) -> Reply {
        choose|r: Reply| r.content@ == v@
    }
}

} // verus!
