//! How the messages of a stored conversation become the messages of the agent.

use vstd::prelude::*;

use crate::agent::{image_parts, parts_view, user_content, user_content_is, AgentMessage, Attachment, PartView};
use crate::json::{entry, fields_model, items_model, Json, JsonView};
use crate::llm::{calls_view, copy_opt_calls, copy_opt_text, copy_text, Message, ToolCall, UserContent};

verus! {

/// What a stored text is taken as: the text, or empty when there is none.
pub open spec fn text_or_empty(s: Option<String>) -> Seq<char> {
    match s {
        Some(t) => t@,
        None => Seq::empty(),
    }
}

/// Whether `m` is the message that a stored record with the given role and content stands
/// for. `attachments` and `tool_calls` are what the record's payload lists under those keys,
/// and `payload` the payload itself.
pub open spec fn is_record_message(
    m: Message,
    role: Seq<char>,
    content: Option<String>,
    payload: Option<crate::json::JsonView>,
    attachments: Option<Seq<Attachment>>,
    tool_calls: Option<Seq<ToolCall>>,
) -> bool {
    if role == "system"@ {
        m matches Message::System { content: c, name } && c@ == text_or_empty(content) && name is None
    } else if role == "user"@ {
        m matches Message::User { content: c, name } && name is None && user_content_is(
            c,
            text_or_empty(content),
            match attachments {
                Some(a) => if a.len() > 0 {
                    Some(a)
                } else {
                    None
                },
                None => None,
            },
        )
    } else if role == "assistant"@ {
        m matches Message::Assistant { content: c, name, tool_calls: t } && c == content
            && name is None && calls_view(t) == tool_calls
    } else {
        m matches Message::Tool { content: c, tool_call_id } && c@ == text_or_empty(content)
            && tool_call_id@ == match payload {
            Some(p) => match p.field_text("tool_call_id"@) {
                Some(id) => id,
                None => Seq::empty(),
            },
            None => Seq::empty(),
        }
    }
}

/// Whether stored records of the role are understood.
pub open spec fn is_known_role(role: Seq<char>) -> bool {
    role == "system"@ || role == "user"@ || role == "assistant"@ || role == "tool"@
}

fn text_or_empty_exec(s: Option<String>) -> (r: String)
    ensures
        r@ == text_or_empty(s),
{
    match s {
        Some(t) => t,
        None => String::new(),
    }
}

/// Whether stored records of the role are understood: see [`is_known_role`].
pub fn known_role(role: &str) -> (r: bool)
    ensures
        r == is_known_role(role@),
{
    crate::text::chars_equal(role, "system") || crate::text::chars_equal(role, "user")
        || crate::text::chars_equal(role, "assistant") || crate::text::chars_equal(role, "tool")
}

/// The message that a stored record of a known role stands for.
pub fn message_from_record(
    role: &str,
    content: Option<String>,
    payload: Option<&Json>,
    attachments: Option<Vec<Attachment>>,
    tool_calls: Option<Vec<ToolCall>>,
) -> (r: Message)
    requires
        is_known_role(role@),
    ensures
        is_record_message(
            r,
            role@,
            content,
            match payload {
                Some(p) => Some(p@),
                None => None,
            },
            match attachments {
                Some(a) => Some(a@),
                None => None,
            },
            calls_view(tool_calls),
        ),
{
    proof {
        lemma_roles_differ();
    }
    if crate::text::chars_equal(role, "system") {
        Message::System { content: text_or_empty_exec(content), name: None }
    } else if crate::text::chars_equal(role, "user") {
        let text = text_or_empty_exec(content);
        let c = match &attachments {
            Some(a) => if a.len() > 0 {
                user_content(text.as_str(), Some(a))
            } else {
                user_content(text.as_str(), None)
            },
            None => user_content(text.as_str(), None),
        };
        Message::User { content: c, name: None }
    } else if crate::text::chars_equal(role, "assistant") {
        Message::Assistant { content, name: None, tool_calls }
    } else {
        let id = match payload {
            Some(p) => match p.get_str("tool_call_id") {
                Some(id) => id,
                None => String::new(),
            },
            None => String::new(),
        };
        Message::Tool { content: text_or_empty_exec(content), tool_call_id: id }
    }
}

proof fn lemma_roles_differ()
    ensures
        "system"@ != "user"@,
        "system"@ != "assistant"@,
        "system"@ != "tool"@,
        "user"@ != "assistant"@,
        "user"@ != "tool"@,
        "assistant"@ != "tool"@,
{
    reveal_strlit("system");
    reveal_strlit("user");
    reveal_strlit("assistant");
    reveal_strlit("tool");
    assert("system"@[0] != "user"@[0]);
    assert("system"@[0] != "assistant"@[0]);
    assert("system"@[0] != "tool"@[0]);
    assert("user"@[0] != "assistant"@[0]);
    assert("user"@[0] != "tool"@[0]);
    assert("assistant"@[0] != "tool"@[0]);
}

} // verus!

verus! {

/// The payload stored with a tool's answer: the id of the call it answers.
pub open spec fn tool_payload_spec(tool_call_id: Seq<char>) -> crate::json::JsonView {
    crate::json::JsonView::Object(seq![("tool_call_id"@, crate::json::JsonView::Str(tool_call_id))])
}

/// The payload stored with a tool's answer.
pub fn tool_payload(tool_call_id: &str) -> (r: Json)
    ensures
        r@ == tool_payload_spec(tool_call_id@),
{
    let mut fields: Vec<(String, Json)> = Vec::new();
    fields.push(crate::json::entry("tool_call_id", Json::from_str(tool_call_id)));
    assert(crate::json::fields_model(fields@) =~= seq![
        ("tool_call_id"@, crate::json::JsonView::Str(tool_call_id@)),
    ]);
    Json::object(fields)
}

/// A tool's answer stored with its payload reads back as the answer to the same call, with the
/// same content.
pub proof fn law_tool_record_reads_back(m: Message, content: Option<String>, tool_call_id: Seq<char>)
    requires
        is_record_message(m, "tool"@, content, Some(tool_payload_spec(tool_call_id)), None, None),
    ensures
        m matches Message::Tool { content: c, tool_call_id: id } && c@ == text_or_empty(content)
            && id@ == tool_call_id,
{
    lemma_roles_differ();
    let fields = seq![("tool_call_id"@, crate::json::JsonView::Str(tool_call_id))];
    assert(crate::json::lookup(fields, "tool_call_id"@) == Some(crate::json::JsonView::Str(tool_call_id)));
}

} // verus!

verus! {

/// A user's message stored with a non-empty list of attachments reads back as the text
/// followed by the images of the attachments, as the agent was given it.
pub proof fn law_user_record_reads_back(
    m: Message,
    content: String,
    payload: Option<crate::json::JsonView>,
    attachments: Seq<Attachment>,
)
    requires
        attachments.len() > 0,
        is_record_message(m, "user"@, Some(content), payload, Some(attachments), None),
    ensures
        m matches Message::User { content: c, name } && name is None && user_content_is(
            c,
            content@,
            Some(attachments),
        ),
{
    lemma_roles_differ();
}

/// An assistant's message stored with its calls reads back with the same content and calls.
pub proof fn law_assistant_record_reads_back(
    m: Message,
    content: Option<String>,
    payload: Option<crate::json::JsonView>,
    calls: Option<Seq<ToolCall>>,
)
    requires
        is_record_message(m, "assistant"@, content, payload, None, calls),
    ensures
        crate::agent::is_assistant_message(m, content, calls),
{
    lemma_roles_differ();
}

} // verus!

verus! {

/// A row to store for one message of a conversation: its role, its content and its payload.
pub struct StoredRecord {
    pub role: String,
    pub content: Option<String>,
    pub payload: Option<Json>,
}

/// A tool call as it is stored: its id, its type and the function it names with its
/// arguments.
pub open spec fn tool_call_json_spec(c: ToolCall) -> JsonView {
    JsonView::Object(
        seq![
            ("id"@, JsonView::Str(c.id@)),
            ("type"@, JsonView::Str("function"@)),
            (
                "function"@,
                JsonView::Object(
                    seq![
                        ("name"@, JsonView::Str(c.function.name@)),
                        ("arguments"@, JsonView::Str(c.function.arguments@)),
                    ],
                ),
            ),
        ],
    )
}

/// The payload stored with an assistant's reply: the calls it makes, or `null`.
pub open spec fn calls_payload_spec(calls: Option<Seq<ToolCall>>) -> JsonView {
    JsonView::Object(
        seq![
            (
                "tool_calls"@,
                match calls {
                    Some(c) => JsonView::Array(c.map_values(|t: ToolCall| tool_call_json_spec(t))),
                    None => JsonView::Null,
                },
            ),
        ],
    )
}

/// An attachment as it is stored: its media type and its base64 data.
pub open spec fn attachment_json_spec(a: Attachment) -> JsonView {
    JsonView::Object(
        seq![("content_type"@, JsonView::Str(a.content_type@)), ("data"@, JsonView::Str(a.data@))],
    )
}

/// The payload stored with a user's message that came with a list of attachments.
pub open spec fn attachments_payload_spec(attachments: Seq<Attachment>) -> JsonView {
    JsonView::Object(
        seq![
            (
                "attachments"@,
                JsonView::Array(attachments.map_values(|a: Attachment| attachment_json_spec(a))),
            ),
        ],
    )
}

fn tool_call_json(c: &ToolCall) -> (r: Json)
    ensures
        r@ == tool_call_json_spec(*c),
{
    let mut function: Vec<(String, Json)> = Vec::new();
    function.push(entry("name", Json::from_str(c.function.name.as_str())));
    function.push(entry("arguments", Json::from_str(c.function.arguments.as_str())));
    let f = Json::object(function);
    assert(fields_model(function@) =~= seq![
        ("name"@, JsonView::Str(c.function.name@)),
        ("arguments"@, JsonView::Str(c.function.arguments@)),
    ]);
    let ghost fm = f@;
    let mut fields: Vec<(String, Json)> = Vec::new();
    fields.push(entry("id", Json::from_str(c.id.as_str())));
    fields.push(entry("type", Json::from_str("function")));
    fields.push(entry("function", f));
    assert(fields_model(fields@) =~= seq![
        ("id"@, JsonView::Str(c.id@)),
        ("type"@, JsonView::Str("function"@)),
        ("function"@, fm),
    ]);
    Json::object(fields)
}

fn calls_json(calls: &Vec<ToolCall>) -> (r: Json)
    ensures
        r@ == JsonView::Array(calls@.map_values(|t: ToolCall| tool_call_json_spec(t))),
{
    let mut items: Vec<Json> = Vec::new();
    let mut i: usize = 0;
    while i < calls.len()
        invariant
            i <= calls@.len(),
            items@.len() == i,
            items_model(items@) =~= calls@.take(i as int).map_values(
                |t: ToolCall| tool_call_json_spec(t),
            ),
        decreases calls@.len() - i,
    {
        let ghost before = items@;
        let j = tool_call_json(&calls[i]);
        items.push(j);
        assert forall|k: int| 0 <= k < i + 1 implies #[trigger] items_model(items@)[k]
            == tool_call_json_spec(calls@[k]) by {
            if k < i {
                assert(items@[k] == before[k]);
                assert(items_model(before)[k] == calls@.take(i as int).map_values(
                    |t: ToolCall| tool_call_json_spec(t),
                )[k]);
            } else {
                assert(items@[k] == j);
            }
        }
        i = i + 1;
    }
    assert(calls@.take(calls@.len() as int) =~= calls@);
    Json::array(items)
}

fn attachment_json(a: &Attachment) -> (r: Json)
    ensures
        r@ == attachment_json_spec(*a),
{
    let mut fields: Vec<(String, Json)> = Vec::new();
    fields.push(entry("content_type", Json::from_str(a.content_type.as_str())));
    fields.push(entry("data", Json::from_str(a.data.as_str())));
    assert(fields_model(fields@) =~= seq![
        ("content_type"@, JsonView::Str(a.content_type@)),
        ("data"@, JsonView::Str(a.data@)),
    ]);
    Json::object(fields)
}

/// Whether `item` is how the attachment `a` is stored: its media type and its data.
pub open spec fn stores_attachment(item: JsonView, a: Attachment) -> bool {
    &&& item.field_text("content_type"@) == Some(a.content_type@)
    &&& item.field_text("data"@) == Some(a.data@)
}

/// The payload stored with a user's message lists every attachment it came with, one item per
/// attachment in their order, each holding its media type and its data.
pub proof fn law_attachments_payload_lists_every_attachment(attachments: Seq<Attachment>)
    ensures
        attachments_payload_spec(attachments).field("attachments"@) matches Some(
            JsonView::Array(items),
        ) && items.len() == attachments.len() && forall|i: int|
            0 <= i < attachments.len() ==> stores_attachment(#[trigger] items[i], attachments[i]),
{
    reveal_strlit("content_type");
    reveal_strlit("data");
    assert("content_type"@[0] != "data"@[0]);
    let items = attachments.map_values(|a: Attachment| attachment_json_spec(a));
    assert forall|i: int| 0 <= i < attachments.len() implies stores_attachment(
        #[trigger] items[i],
        attachments[i],
    ) by {
        let a = attachments[i];
        let fields = seq![
            ("content_type"@, JsonView::Str(a.content_type@)),
            ("data"@, JsonView::Str(a.data@)),
        ];
        assert(crate::json::lookup(fields.skip(1), "data"@) == Some(JsonView::Str(a.data@)));
    }
}

/// The payload stored with a user's message that came with a list of attachments.
pub fn attachments_payload(attachments: &Vec<Attachment>) -> (r: Json)
    ensures
        r@ == attachments_payload_spec(attachments@),
{
    let mut items: Vec<Json> = Vec::new();
    let mut i: usize = 0;
    while i < attachments.len()
        invariant
            i <= attachments@.len(),
            items@.len() == i,
            items_model(items@) =~= attachments@.take(i as int).map_values(
                |a: Attachment| attachment_json_spec(a),
            ),
        decreases attachments@.len() - i,
    {
        let ghost before = items@;
        let j = attachment_json(&attachments[i]);
        items.push(j);
        assert forall|k: int| 0 <= k < i + 1 implies #[trigger] items_model(items@)[k]
            == attachment_json_spec(attachments@[k]) by {
            if k < i {
                assert(items@[k] == before[k]);
                assert(items_model(before)[k] == attachments@.take(i as int).map_values(
                    |a: Attachment| attachment_json_spec(a),
                )[k]);
            } else {
                assert(items@[k] == j);
            }
        }
        i = i + 1;
    }
    assert(attachments@.take(attachments@.len() as int) =~= attachments@);
    let list = Json::array(items);
    let ghost lm = list@;
    let mut fields: Vec<(String, Json)> = Vec::new();
    fields.push(entry("attachments", list));
    assert(fields_model(fields@) =~= seq![("attachments"@, lm)]);
    Json::object(fields)
}

/// Whether `item` is how the call `c` is stored: its id, the type `function`, and its
/// function's name and arguments.
pub open spec fn stores_call(item: JsonView, c: ToolCall) -> bool {
    &&& item.field_text("id"@) == Some(c.id@)
    &&& item.field_text("type"@) == Some("function"@)
    &&& item.field("function"@) matches Some(f) && f.field_text("name"@) == Some(c.function.name@)
        && f.field_text("arguments"@) == Some(c.function.arguments@)
}

proof fn lemma_tool_call_json_fields(c: ToolCall)
    ensures
        stores_call(tool_call_json_spec(c), c),
{
    reveal_strlit("id");
    reveal_strlit("type");
    reveal_strlit("function");
    reveal_strlit("name");
    reveal_strlit("arguments");
    assert("id"@[0] != "type"@[0]);
    assert("id"@[0] != "function"@[0]);
    assert("type"@[0] != "function"@[0]);
    assert("name"@[0] != "arguments"@[0]);
    let f = seq![
        ("name"@, JsonView::Str(c.function.name@)),
        ("arguments"@, JsonView::Str(c.function.arguments@)),
    ];
    assert(crate::json::lookup(f.skip(1), "arguments"@) == Some(JsonView::Str(c.function.arguments@)));
    let fields = seq![
        ("id"@, JsonView::Str(c.id@)),
        ("type"@, JsonView::Str("function"@)),
        ("function"@, JsonView::Object(f)),
    ];
    assert(crate::json::lookup(fields.skip(1), "type"@) == Some(JsonView::Str("function"@)));
    assert(fields.skip(1).skip(1)[0] == ("function"@, JsonView::Object(f)));
    assert(crate::json::lookup(fields.skip(1).skip(1), "function"@) == Some(JsonView::Object(f)));
    assert(crate::json::lookup(fields.skip(1), "function"@) == Some(JsonView::Object(f)));
}

/// The payload stored with an assistant's reply lists every call the reply makes, one item per
/// call in the order of the calls, each holding the call's id, the type `function`, and its
/// function's name and arguments; a reply without calls stores `null` in their place.
pub proof fn law_calls_payload_lists_every_call(calls: Option<Seq<ToolCall>>)
    ensures
        calls is None ==> calls_payload_spec(calls).field("tool_calls"@) == Some(JsonView::Null),
        calls matches Some(c) ==> (calls_payload_spec(calls).field("tool_calls"@) matches Some(
            JsonView::Array(items),
        ) && items.len() == c.len() && forall|i: int|
            0 <= i < c.len() ==> stores_call(#[trigger] items[i], c[i])),
{
    match calls {
        Some(c) => {
            let items = c.map_values(|t: ToolCall| tool_call_json_spec(t));
            assert forall|i: int| 0 <= i < c.len() implies stores_call(#[trigger] items[i], c[i]) by {
                lemma_tool_call_json_fields(c[i]);
            }
        },
        None => {},
    }
}

/// The payload stored with an assistant's reply: the calls it makes, or `null`.
pub fn calls_payload(calls: &Option<Vec<ToolCall>>) -> (r: Json)
    ensures
        r@ == calls_payload_spec(calls_view(*calls)),
        *calls is None ==> r@.field("tool_calls"@) == Some(JsonView::Null),
        *calls matches Some(c) ==> (r@.field("tool_calls"@) matches Some(JsonView::Array(items))
            && items.len() == c@.len() && forall|i: int|
            0 <= i < c@.len() ==> stores_call(#[trigger] items[i], c@[i])),
{
    proof {
        law_calls_payload_lists_every_call(calls_view(*calls));
    }
    let value = match calls {
        Some(c) => calls_json(c),
        None => Json::Null,
    };
    let ghost vm = value@;
    let mut fields: Vec<(String, Json)> = Vec::new();
    fields.push(entry("tool_calls", value));
    assert(fields_model(fields@) =~= seq![("tool_calls"@, vm)]);
    Json::object(fields)
}

/// The row stored for a user's message: its text, with the attachments it came with, if any,
/// in the payload.
pub fn user_record(content: &str, attachments: Option<&Vec<Attachment>>) -> (r: StoredRecord)
    ensures
        r.role@ == "user"@,
        r.content matches Some(c) && c@ == content@,
        match attachments {
            Some(a) => r.payload matches Some(p) && p@ == attachments_payload_spec(a@),
            None => r.payload is None,
        },
{
    StoredRecord {
        role: "user".to_owned(),
        content: Some(content.to_owned()),
        payload: match attachments {
            Some(a) => Some(attachments_payload(a)),
            None => None,
        },
    }
}

/// The row stored for a message that the agent gave back: an assistant's reply with its calls,
/// or a tool's answer with the id of the call it answers.
pub fn record_of(m: &AgentMessage) -> (r: StoredRecord)
    ensures
        match *m {
            AgentMessage::Assistant { content, tool_calls, .. } => {
                &&& r.role@ == "assistant"@
                &&& r.content == content
                &&& r.payload matches Some(p) && p@ == calls_payload_spec(calls_view(tool_calls))
            },
            AgentMessage::Tool { content, tool_call_id } => {
                &&& r.role@ == "tool"@
                &&& r.content == Some(content)
                &&& r.payload matches Some(p) && p@ == tool_payload_spec(tool_call_id@)
            },
        },
{
    match m {
        AgentMessage::Assistant { content, tool_calls, .. } => StoredRecord {
            role: "assistant".to_owned(),
            content: copy_opt_text(content),
            payload: Some(calls_payload(tool_calls)),
        },
        AgentMessage::Tool { content, tool_call_id } => StoredRecord {
            role: "tool".to_owned(),
            content: Some(copy_text(content)),
            payload: Some(tool_payload(tool_call_id.as_str())),
        },
    }
}

} // verus!

verus! {

/// The value of what a user message carries.
pub enum UserContentView {
    Text(Seq<char>),
    Parts(Seq<PartView>),
}

/// The value of a message: its role and what it says, with every text as its characters.
pub enum MessageView {
    System { content: Seq<char>, name: Option<Seq<char>> },
    User { content: UserContentView, name: Option<Seq<char>> },
    Assistant {
        content: Option<Seq<char>>,
        name: Option<Seq<char>>,
        tool_calls: Option<Seq<ToolCall>>,
    },
    Tool { content: Seq<char>, tool_call_id: Seq<char> },
}

/// The characters of an optional text.
pub open spec fn opt_text_view(s: Option<String>) -> Option<Seq<char>> {
    match s {
        Some(t) => Some(t@),
        None => None,
    }
}

/// The value of a message.
pub open spec fn message_view(m: Message) -> MessageView {
    match m {
        Message::System { content, name } => MessageView::System {
            content: content@,
            name: opt_text_view(name),
        },
        Message::User { content, name } => MessageView::User {
            content: match content {
                UserContent::Text(t) => UserContentView::Text(t@),
                UserContent::Parts(p) => UserContentView::Parts(parts_view(p@)),
            },
            name: opt_text_view(name),
        },
        Message::Assistant { content, name, tool_calls } => MessageView::Assistant {
            content: opt_text_view(content),
            name: opt_text_view(name),
            tool_calls: calls_view(tool_calls),
        },
        Message::Tool { content, tool_call_id } => MessageView::Tool {
            content: content@,
            tool_call_id: tool_call_id@,
        },
    }
}

/// The value of the message that a stored record of a known role reads back as: see
/// [`is_record_message`].
pub open spec fn record_view(
    role: Seq<char>,
    content: Option<String>,
    payload: Option<JsonView>,
    attachments: Option<Seq<Attachment>>,
    tool_calls: Option<Seq<ToolCall>>,
) -> MessageView {
    if role == "system"@ {
        MessageView::System { content: text_or_empty(content), name: None }
    } else if role == "user"@ {
        MessageView::User {
            content: match attachments {
                Some(a) => if a.len() > 0 {
                    UserContentView::Parts(
                        seq![PartView::Text(text_or_empty(content))] + image_parts(a),
                    )
                } else {
                    UserContentView::Text(text_or_empty(content))
                },
                None => UserContentView::Text(text_or_empty(content)),
            },
            name: None,
        }
    } else if role == "assistant"@ {
        MessageView::Assistant { content: opt_text_view(content), name: None, tool_calls }
    } else {
        MessageView::Tool {
            content: text_or_empty(content),
            tool_call_id: match payload {
                Some(p) => match p.field_text("tool_call_id"@) {
                    Some(id) => id,
                    None => Seq::empty(),
                },
                None => Seq::empty(),
            },
        }
    }
}

/// The message that a stored record stands for has the value [`record_view`] gives.
proof fn lemma_record_message_view(
    m: Message,
    role: Seq<char>,
    content: Option<String>,
    payload: Option<JsonView>,
    attachments: Option<Seq<Attachment>>,
    tool_calls: Option<Seq<ToolCall>>,
)
    requires
        is_known_role(role),
        is_record_message(m, role, content, payload, attachments, tool_calls),
    ensures
        message_view(m) == record_view(role, content, payload, attachments, tool_calls),
{
    lemma_roles_differ();
}

/// A row of a stored conversation, as read from the database, with the attachments and the
/// calls that its payload lists.
pub struct StoredRow {
    pub role: String,
    pub content: Option<String>,
    pub payload: Option<Json>,
    pub attachments: Option<Vec<Attachment>>,
    pub tool_calls: Option<Vec<ToolCall>>,
}

/// The value of the message that a stored row reads back as.
pub open spec fn row_view(row: StoredRow) -> MessageView {
    record_view(
        row.role@,
        row.content,
        match row.payload {
            Some(p) => Some(p@),
            None => None,
        },
        match row.attachments {
            Some(a) => Some(a@),
            None => None,
        },
        calls_view(row.tool_calls),
    )
}

/// The values of a list of messages.
pub open spec fn history_view(messages: Seq<Message>) -> Seq<MessageView> {
    messages.map_values(|m: Message| message_view(m))
}

/// The values of the messages that a list of stored rows reads back as, in order.
pub open spec fn rows_view(rows: Seq<StoredRow>) -> Seq<MessageView> {
    rows.map_values(|r: StoredRow| row_view(r))
}

fn copy_attachments(attachments: &Option<Vec<Attachment>>) -> (r: Option<Vec<Attachment>>)
    ensures
        match (r, *attachments) {
            (Some(a), Some(b)) => a@ == b@,
            (None, None) => true,
            _ => false,
        },
{
    match attachments {
        Some(v) => {
            let mut out: Vec<Attachment> = Vec::new();
            let mut i: usize = 0;
            while i < v.len()
                invariant
                    i <= v@.len(),
                    out@ == v@.take(i as int),
                decreases v@.len() - i,
            {
                let a = Attachment { content_type: v[i].content_type.clone(), data: v[i].data.clone() };
                out.push(a);
                assert(v@.take(i as int).push(v@[i as int]) =~= v@.take(i + 1));
                i += 1;
            }
            assert(v@.take(v@.len() as int) =~= v@);
            Some(out)
        },
        None => None,
    }
}

/// The messages that the rows of a stored conversation read back as, one per row, in the
/// order of the rows. Every row must be of a known role.
pub fn messages_from_rows(rows: &Vec<StoredRow>) -> (r: Vec<Message>)
    requires
        forall|i: int| 0 <= i < rows@.len() ==> is_known_role(#[trigger] rows@[i].role@),
    ensures
        history_view(r@) == rows_view(rows@),
{
    let mut out: Vec<Message> = Vec::new();
    let mut i: usize = 0;
    while i < rows.len()
        invariant
            i <= rows@.len(),
            forall|k: int| 0 <= k < rows@.len() ==> is_known_role(#[trigger] rows@[k].role@),
            history_view(out@) == rows_view(rows@.take(i as int)),
        decreases rows@.len() - i,
    {
        let row = &rows[i];
        let ghost gr: StoredRow = rows@[i as int];
        assert(is_known_role(gr.role@));
        let m = message_from_record(
            row.role.as_str(),
            copy_opt_text(&row.content),
            row.payload.as_ref(),
            copy_attachments(&row.attachments),
            copy_opt_calls(&row.tool_calls),
        );
        proof {
            lemma_record_message_view(
                m,
                gr.role@,
                gr.content,
                match gr.payload {
                    Some(p) => Some(p@),
                    None => None,
                },
                match gr.attachments {
                    Some(a) => Some(a@),
                    None => None,
                },
                calls_view(gr.tool_calls),
            );
        }
        let ghost before = out@;
        out.push(m);
        assert(history_view(out@) =~= history_view(before).push(message_view(m)));
        assert(rows_view(rows@.take(i + 1)) =~= rows_view(rows@.take(i as int)).push(
            row_view(rows@[i as int]),
        ));
        i += 1;
    }
    assert(rows@.take(rows@.len() as int) =~= rows@);
    out
}

/// Whether stored rows of the role are all understood, in a list of rows.
pub fn rows_known(rows: &Vec<StoredRow>) -> (r: bool)
    ensures
        r == forall|i: int| 0 <= i < rows@.len() ==> is_known_role(#[trigger] rows@[i].role@),
{
    let mut i: usize = 0;
    while i < rows.len()
        invariant
            i <= rows@.len(),
            forall|k: int| 0 <= k < i ==> is_known_role(#[trigger] rows@[k].role@),
        decreases rows@.len() - i,
    {
        if !known_role(rows[i].role.as_str()) {
            return false;
        }
        i += 1;
    }
    true
}

/// A conversation read back after one more row was stored reads back as before, followed by
/// the message of the new row.
pub proof fn law_history_reads_back_after_append(
    rows: Seq<StoredRow>,
    before: Seq<Message>,
    row: StoredRow,
    after: Seq<Message>,
)
    requires
        history_view(before) == rows_view(rows),
        history_view(after) == rows_view(rows.push(row)),
    ensures
        history_view(after) == history_view(before).push(row_view(row)),
{
    assert(rows_view(rows.push(row)) =~= rows_view(rows).push(row_view(row)));
}

/// A tool's answer stored as [`record_of`] stores it, once read back after the rows stored
/// before it, gives the messages read before followed by that answer, with its content and the
/// id of the call it answers.
pub proof fn law_stored_tool_answer_reads_back(
    rows: Seq<StoredRow>,
    before: Seq<Message>,
    row: StoredRow,
    after: Seq<Message>,
    content: String,
    tool_call_id: String,
)
    requires
        history_view(before) == rows_view(rows),
        history_view(after) == rows_view(rows.push(row)),
        row.role@ == "tool"@,
        row.content == Some(content),
        row.payload matches Some(p) && p@ == tool_payload_spec(tool_call_id@),
    ensures
        history_view(after) == history_view(before).push(
            MessageView::Tool { content: content@, tool_call_id: tool_call_id@ },
        ),
{
    law_history_reads_back_after_append(rows, before, row, after);
    lemma_roles_differ();
    let fields = seq![("tool_call_id"@, JsonView::Str(tool_call_id@))];
    assert(crate::json::lookup(fields, "tool_call_id"@) == Some(JsonView::Str(tool_call_id@)));
}

} // verus!
