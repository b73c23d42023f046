//! The agent: the conversation it keeps with the model and the tools it offers.

use std::time::Duration;

use vstd::prelude::*;

use crate::json::JsonView;
use crate::llm::{
    calls_view, copy_calls, copy_opt_calls, copy_opt_text, copy_text, ContentPart, FinishReason,
    Function, ImageUrl, Message, Response, Tool, ToolCall, Usage, UserContent,
};
use crate::text::joined;
use crate::tools::bash::bash_parameters_spec;
use crate::tools::edit::edit_parameters_spec;
use crate::tools::glob::glob_parameters_spec;
use crate::tools::load_skill::load_skill_parameters_spec;
use crate::tools::read::read_parameters_spec;
use crate::tools::write::write_parameters_spec;
use crate::tools::{Bash, Edit, Glob, LoadSkill, Read, Write};

verus! {

/// A file sent along with a user message: its media type and its content in base64.
pub struct Attachment {
    pub content_type: String,
    pub data: String,
}

/// The `data:` URL of base64 content of the given media type.
pub open spec fn data_url(content_type: Seq<char>, data: Seq<char>) -> Seq<char> {
    "data:"@ + content_type + ";base64,"@ + data
}

impl Attachment {
    /// The `data:` URL that carries this attachment.
    pub fn get_url(&self) -> (r: String)
        ensures
            r@ == data_url(self.content_type@, self.data@),
    {
        let head = joined("data:", self.content_type.as_str());
        let mid = joined(head.as_str(), ";base64,");
        joined(mid.as_str(), self.data.as_str())
    }
}

/// The value of one part of a user message.
pub enum PartView {
    Text(Seq<char>),
    Image { url: Seq<char>, detail: Seq<char> },
}

/// The value of a part of a user message.
pub open spec fn part_view(p: ContentPart) -> PartView {
    match p {
        ContentPart::Text { text } => PartView::Text(text@),
        ContentPart::ImageUrl { image_url } => PartView::Image {
            url: image_url.url@,
            detail: image_url.detail@,
        },
    }
}

/// The values of the parts of a user message.
pub open spec fn parts_view(parts: Seq<ContentPart>) -> Seq<PartView> {
    Seq::new(parts.len(), |i: int| part_view(parts[i]))
}

/// The image parts that show the given attachments, each by its URL, at detail `auto`.
pub open spec fn image_parts(attachments: Seq<Attachment>) -> Seq<PartView> {
    Seq::new(
        attachments.len(),
        |i: int|
            PartView::Image {
                url: data_url(attachments[i].content_type@, attachments[i].data@),
                detail: "auto"@,
            },
    )
}

/// Whether `content` is the text `text` followed by the images of `attachments`, or the bare
/// text when there are no attachments to show.
pub open spec fn user_content_is(
    content: UserContent,
    text: Seq<char>,
    attachments: Option<Seq<Attachment>>,
) -> bool {
    match attachments {
        Some(a) => match content {
            UserContent::Parts(p) => parts_view(p@) == seq![PartView::Text(text)] + image_parts(a),
            _ => false,
        },
        None => match content {
            UserContent::Text(t) => t@ == text,
            _ => false,
        },
    }
}

/// The text `text` followed by one image part per attachment, or the bare text when no list
/// of attachments is given.
pub fn user_content(text: &str, attachments: Option<&Vec<Attachment>>) -> (r: UserContent)
    ensures
        user_content_is(
            r,
            text@,
            match attachments {
                Some(a) => Some(a@),
                None => None,
            },
        ),
{
    match attachments {
        None => UserContent::Text(text.to_owned()),
        Some(atts) => {
            let mut parts: Vec<ContentPart> = Vec::new();
            parts.push(ContentPart::Text { text: text.to_owned() });
            let mut i: usize = 0;
            while i < atts.len()
                invariant
                    i <= atts@.len(),
                    parts_view(parts@) == seq![PartView::Text(text@)] + image_parts(
                        atts@.take(i as int),
                    ),
                decreases atts@.len() - i,
            {
                let url = atts[i].get_url();
                let ghost before = parts@;
                let part = ContentPart::ImageUrl {
                    image_url: ImageUrl { url, detail: "auto".to_owned() },
                };
                let ghost pv = part_view(part);
                assert(pv == PartView::Image {
                    url: data_url(atts@[i as int].content_type@, atts@[i as int].data@),
                    detail: "auto"@,
                });
                parts.push(part);
                assert(parts_view(parts@) =~= parts_view(before).push(pv));
                assert(image_parts(atts@.take(i + 1)) =~= image_parts(atts@.take(i as int)).push(
                    pv,
                ));
                assert(parts_view(parts@) =~= seq![PartView::Text(text@)] + image_parts(
                    atts@.take(i + 1),
                ));
                i += 1;
            }
            assert(atts@.take(atts@.len() as int) =~= atts@);
            UserContent::Parts(parts)
        },
    }
}

/// What one step of the agent produced, for the caller to show and to keep.
#[allow(inconsistent_fields)]
pub enum AgentMessage {
    Assistant {
        content: Option<String>,
        tool_calls: Option<Vec<ToolCall>>,
        usage: Option<Usage>,
        elapsed: Duration,
    },
    Tool { content: String, tool_call_id: String },
}

/// What the caller does after the agent has taken in a reply.
pub enum Next {
    /// The model is done; the turn is over.
    Done,
    /// Run these calls, in order, and hand their answers to [`Agent::record_tool_outputs`];
    /// then ask the model again.
    CallTools(Vec<ToolCall>),
    /// The reply held no choice: ask the model again with the same conversation.
    Retry,
}

/// Whether `t` offers the function `name`, described by `description`, whose arguments
/// follow `parameters`.
pub open spec fn tool_is(t: Tool, name: Seq<char>, description: Seq<char>, parameters: JsonView) -> bool {
    &&& t.tool_type@ == "function"@
    &&& t.function.name@ == name
    &&& t.function.description@ == description
    &&& t.function.parameters@ == parameters
}

/// The tools the agent offers: bash, read, write, edit, glob and load_skill, in that order.
pub open spec fn default_tools_are(tools: Seq<Tool>) -> bool {
    &&& tools.len() == 6
    &&& tool_is(tools[0], "bash"@, "Run a shell command."@, bash_parameters_spec())
    &&& tool_is(tools[1], "read"@, "Read file contents."@, read_parameters_spec())
    &&& tool_is(tools[2], "write"@, "Write content to file."@, write_parameters_spec())
    &&& tool_is(tools[3], "edit"@, "Replace text in file."@, edit_parameters_spec())
    &&& tool_is(tools[4], "glob"@, "Find files by pattern."@, glob_parameters_spec())
    &&& tool_is(tools[5], "load_skill"@, "Load a skill from a file"@, load_skill_parameters_spec())
}

/// Whether `m` is the assistant message with the given content and calls, and no name.
pub open spec fn is_assistant_message(
    m: Message,
    content: Option<String>,
    calls: Option<Seq<ToolCall>>,
) -> bool {
    match m {
        Message::Assistant { content: c, name, tool_calls } => c == content && name is None
            && calls_view(tool_calls) == calls,
        _ => false,
    }
}

/// Whether `m` is the record of the assistant's reply with the given content, calls and usage.
pub open spec fn is_assistant_record(
    m: AgentMessage,
    content: Option<String>,
    calls: Option<Seq<ToolCall>>,
    usage: Usage,
    elapsed: Duration,
) -> bool {
    match m {
        AgentMessage::Assistant { content: c, tool_calls, usage: u, elapsed: e } => c == content
            && calls_view(tool_calls) == calls && u == Some(usage) && e == elapsed,
        _ => false,
    }
}

/// The tool messages that answer `calls` with `outputs`, one per call, in order.
pub open spec fn tool_answers(calls: Seq<ToolCall>, outputs: Seq<String>) -> Seq<Message> {
    Seq::new(
        calls.len(),
        |i: int| Message::Tool { content: outputs[i], tool_call_id: calls[i].id },
    )
}

/// The records of the tool answers to `calls` with `outputs`, one per call, in order.
pub open spec fn tool_records(calls: Seq<ToolCall>, outputs: Seq<String>) -> Seq<AgentMessage> {
    Seq::new(
        calls.len(),
        |i: int| AgentMessage::Tool { content: outputs[i], tool_call_id: calls[i].id },
    )
}

fn tool_of(name: &str, description: &str, parameters: crate::json::Json) -> (r: Tool)
    ensures
        tool_is(r, name@, description@, parameters@),
{
    Tool {
        tool_type: "function".to_owned(),
        function: Function {
            name: name.to_owned(),
            description: description.to_owned(),
            parameters,
        },
    }
}

/// The tools the agent offers.
pub fn default_tools() -> (r: Vec<Tool>)
    ensures
        default_tools_are(r@),
{
    let mut tools: Vec<Tool> = Vec::new();
    tools.push(tool_of(Bash.name(), Bash.description(), Bash.parameters()));
    tools.push(tool_of(Read.name(), Read.description(), Read.parameters()));
    tools.push(tool_of(Write.name(), Write.description(), Write.parameters()));
    tools.push(tool_of(Edit.name(), Edit.description(), Edit.parameters()));
    tools.push(tool_of(Glob.name(), Glob.description(), Glob.parameters()));
    tools.push(tool_of(LoadSkill.name(), LoadSkill.description(), LoadSkill.parameters()));
    tools
}

/// An agent: where it reaches the model, which model, the conversation so far, and the
/// tools it offers.
pub struct Agent {
    api_url: String,
    api_key: String,
    pub model: String,
    messages: Vec<Message>,
    tools: Option<Vec<Tool>>,
}

impl Agent {
    pub closed spec fn spec_api_url(&self) -> Seq<char> {
        self.api_url@
    }

    pub closed spec fn spec_api_key(&self) -> Seq<char> {
        self.api_key@
    }

    pub closed spec fn spec_model(&self) -> Seq<char> {
        self.model@
    }

    /// The conversation so far.
    pub closed spec fn history(&self) -> Seq<Message> {
        self.messages@
    }

    /// The tools offered to the model.
    pub closed spec fn offered_tools(&self) -> Option<Seq<Tool>> {
        match self.tools {
            Some(t) => Some(t@),
            None => None,
        }
    }

    /// An agent that talks to `model` at `api_url` with `api_key`, going on from `messages`
    /// and offering bash, read, write, edit, glob and load_skill.
    pub fn new(api_url: String, api_key: String, model: String, messages: Vec<Message>) -> (r: Agent)
        ensures
            r.spec_api_url() == api_url@,
            r.spec_api_key() == api_key@,
            r.spec_model() == model@,
            r.history() == messages@,
            r.offered_tools() matches Some(t) && default_tools_are(t),
    {
        Agent { api_url, api_key, model, messages, tools: Some(default_tools()) }
    }

    /// Starts over from `messages`.
    pub fn reset(&mut self, messages: Vec<Message>)
        ensures
            final(self).history() == messages@,
            final(self).spec_api_url() == old(self).spec_api_url(),
            final(self).spec_api_key() == old(self).spec_api_key(),
            final(self).spec_model() == old(self).spec_model(),
            final(self).offered_tools() == old(self).offered_tools(),
    {
        self.messages = messages;
    }

    pub fn api_url(&self) -> (r: &str)
        ensures
            r@ == self.spec_api_url(),
    {
        self.api_url.as_str()
    }

    pub fn api_key(&self) -> (r: &str)
        ensures
            r@ == self.spec_api_key(),
    {
        self.api_key.as_str()
    }

    /// The conversation so far.
    pub fn messages(&self) -> (r: &Vec<Message>)
        ensures
            r@ == self.history(),
    {
        &self.messages
    }

    /// The tools offered to the model.
    pub fn tools(&self) -> (r: &Option<Vec<Tool>>)
        ensures
            match *r {
                Some(t) => self.offered_tools() == Some(t@),
                None => self.offered_tools() is None,
            },
    {
        &self.tools
    }

    /// Adds what the user said to the conversation: the text, followed by the images of the
    /// attachments when a list of them is given.
    pub fn push_user_message(&mut self, content: &str, attachments: Option<&Vec<Attachment>>)
        ensures
            final(self).history().len() == old(self).history().len() + 1,
            final(self).history().take(old(self).history().len() as int) == old(self).history(),
            final(self).history().last() matches Message::User { content: c, name }
                && name is None && user_content_is(
                c,
                content@,
                match attachments {
                    Some(a) => Some(a@),
                    None => None,
                },
            ),
            final(self).spec_api_url() == old(self).spec_api_url(),
            final(self).spec_api_key() == old(self).spec_api_key(),
            final(self).spec_model() == old(self).spec_model(),
            final(self).offered_tools() == old(self).offered_tools(),
    {
        let c = user_content(content, attachments);
        self.messages.push(Message::User { content: c, name: None });
        assert(self.messages@.take(old(self).messages@.len() as int) =~= old(self).messages@);
    }

    /// Takes in a reply of the model. With no choice in it, nothing changes and the model is
    /// asked again. Otherwise the first choice's message joins the conversation and its record
    /// joins `out`; the turn ends unless the model stopped to call tools.
    pub fn on_response(&mut self, response: Response, elapsed: Duration, out: &mut Vec<AgentMessage>) -> (r:
        Next)
        ensures
            final(self).spec_api_url() == old(self).spec_api_url(),
            final(self).spec_api_key() == old(self).spec_api_key(),
            final(self).spec_model() == old(self).spec_model(),
            final(self).offered_tools() == old(self).offered_tools(),
            response.choices@.len() == 0 ==> {
                &&& r is Retry
                &&& final(self).history() == old(self).history()
                &&& final(out)@ == old(out)@
            },
            response.choices@.len() > 0 ==> {
                let c = response.choices@[0];
                &&& final(self).history().len() == old(self).history().len() + 1
                &&& final(self).history().take(old(self).history().len() as int) == old(
                    self,
                ).history()
                &&& is_assistant_message(
                    final(self).history().last(),
                    c.message.content,
                    calls_view(c.message.tool_calls),
                )
                &&& final(out)@.len() == old(out)@.len() + 1
                &&& final(out)@.take(old(out)@.len() as int) == old(out)@
                &&& is_assistant_record(
                    final(out)@.last(),
                    c.message.content,
                    calls_view(c.message.tool_calls),
                    response.usage,
                    elapsed,
                )
                &&& c.finish_reason != FinishReason::ToolCalls ==> r is Done
                &&& c.finish_reason == FinishReason::ToolCalls ==> (r matches Next::CallTools(v)
                    && v@ == match c.message.tool_calls {
                    Some(calls) => calls@,
                    None => Seq::empty(),
                })
            },
    {
        if response.choices.len() == 0 {
            return Next::Retry;
        }
        let choice = &response.choices[0];
        self.messages.push(
            Message::Assistant {
                content: copy_opt_text(&choice.message.content),
                name: None,
                tool_calls: copy_opt_calls(&choice.message.tool_calls),
            },
        );
        assert(self.messages@.take(old(self).messages@.len() as int) =~= old(self).messages@);
        let finish = choice.finish_reason;
        let content = copy_opt_text(&choice.message.content);
        let tool_calls = copy_opt_calls(&choice.message.tool_calls);
        let calls = match &choice.message.tool_calls {
            Some(v) => copy_calls(v),
            None => Vec::new(),
        };
        let Response { usage, .. } = response;
        out.push(AgentMessage::Assistant { content, tool_calls, usage: Some(usage), elapsed });
        assert(out@.take(old(out)@.len() as int) =~= old(out)@);
        if finish != FinishReason::ToolCalls {
            Next::Done
        } else {
            Next::CallTools(calls)
        }
    }

    /// Answers the calls the model made, in order: call `i` is answered by a tool message
    /// that carries its id and `outputs[i]`, both in the conversation and in `out`.
    pub fn record_tool_outputs(
        &mut self,
        calls: &Vec<ToolCall>,
        outputs: Vec<String>,
        out: &mut Vec<AgentMessage>,
    )
        requires
            outputs@.len() == calls@.len(),
        ensures
            final(self).history() == old(self).history() + tool_answers(calls@, outputs@),
            final(out)@ == old(out)@ + tool_records(calls@, outputs@),
            final(self).spec_api_url() == old(self).spec_api_url(),
            final(self).spec_api_key() == old(self).spec_api_key(),
            final(self).spec_model() == old(self).spec_model(),
            final(self).offered_tools() == old(self).offered_tools(),
    {
        let mut i: usize = 0;
        while i < calls.len()
            invariant
                i <= calls@.len(),
                outputs@.len() == calls@.len(),
                self.api_url == old(self).api_url,
                self.api_key == old(self).api_key,
                self.model == old(self).model,
                self.tools == old(self).tools,
                self.messages@ == old(self).messages@ + tool_answers(
                    calls@.take(i as int),
                    outputs@.take(i as int),
                ),
                out@ == old(out)@ + tool_records(calls@.take(i as int), outputs@.take(i as int)),
            decreases calls@.len() - i,
        {
            let content = copy_text(&outputs[i]);
            self.messages.push(
                Message::Tool { content: copy_text(&outputs[i]), tool_call_id: copy_text(&calls[i].id) },
            );
            out.push(AgentMessage::Tool { content, tool_call_id: copy_text(&calls[i].id) });
            assert(self.messages@ =~= old(self).messages@ + tool_answers(
                calls@.take(i + 1),
                outputs@.take(i + 1),
            ));
            assert(out@ =~= old(out)@ + tool_records(calls@.take(i + 1), outputs@.take(i + 1)));
            i += 1;
        }
        assert(calls@.take(calls@.len() as int) =~= calls@);
        assert(outputs@.take(outputs@.len() as int) =~= outputs@);
    }
}

} // verus!

verus! {

/// Whether a character may stand in a function name the API accepts (`[a-zA-Z0-9_-]`).
pub open spec fn is_name_char(c: char) -> bool {
    ('a' <= c && c <= 'z') || ('A' <= c && c <= 'Z') || ('0' <= c && c <= '9') || c == '_' || c
        == '-'
}

/// Whether a function name is one the API accepts: not empty, and only of name characters.
pub open spec fn valid_tool_name(name: Seq<char>) -> bool {
    name.len() > 0 && forall|i: int| 0 <= i < name.len() ==> is_name_char(#[trigger] name[i])
}

/// The tools the agent offers have names the API accepts, no two alike, and each takes its
/// arguments as a JSON object.
pub proof fn law_default_tools_well_named(tools: Seq<Tool>)
    requires
        default_tools_are(tools),
    ensures
        forall|i: int| 0 <= i < tools.len() ==> valid_tool_name(#[trigger] tools[i].function.name@),
        forall|i: int, j: int|
            0 <= i < j < tools.len() ==> (#[trigger] tools[i]).function.name@ != (
            #[trigger] tools[j]).function.name@,
        forall|i: int|
            0 <= i < tools.len() ==> (#[trigger] tools[i]).function.parameters@ is Object,
{
    reveal_strlit("bash");
    reveal_strlit("read");
    reveal_strlit("write");
    reveal_strlit("edit");
    reveal_strlit("glob");
    reveal_strlit("load_skill");
    assert forall|i: int, j: int| 0 <= i < j < tools.len() implies (#[trigger] tools[i]).function.name@[0]
        != (#[trigger] tools[j]).function.name@[0] by {
        assert(tools[0].function.name@[0] == 'b');
        assert(tools[1].function.name@[0] == 'r');
        assert(tools[2].function.name@[0] == 'w');
        assert(tools[3].function.name@[0] == 'e');
        assert(tools[4].function.name@[0] == 'g');
        assert(tools[5].function.name@[0] == 'l');
    }
    assert forall|i: int| 0 <= i < tools.len() implies valid_tool_name(
        #[trigger] tools[i].function.name@,
    ) by {
        let n = tools[i].function.name@;
        assert(forall|k: int| 0 <= k < n.len() ==> is_name_char(#[trigger] n[k]));
    }
}

} // verus!

verus! {

/// After a reply that calls tools and the recording of their answers, the conversation holds
/// the reply with its calls and, right after it, one tool message per call, in the order of the
/// calls, each carrying the id of its call: what the API needs to pair answers with calls.
pub proof fn law_tool_calls_answered_in_order(
    before: Seq<Message>,
    reply: Message,
    content: Option<String>,
    calls: Seq<ToolCall>,
    outputs: Seq<String>,
    after: Seq<Message>,
)
    requires
        is_assistant_message(reply, content, Some(calls)),
        outputs.len() == calls.len(),
        after == before.push(reply) + tool_answers(calls, outputs),
    ensures
        after.len() == before.len() + 1 + calls.len(),
        after[before.len() as int] == reply,
        forall|i: int|
            0 <= i < calls.len() ==> #[trigger] after[before.len() + 1 + i] == (Message::Tool {
                content: outputs[i],
                tool_call_id: calls[i].id,
            }),
{
    assert forall|i: int| 0 <= i < calls.len() implies #[trigger] after[before.len() + 1 + i]
        == (Message::Tool { content: outputs[i], tool_call_id: calls[i].id }) by {
        assert(after[before.len() + 1 + i] == tool_answers(calls, outputs)[i]);
    }
}

} // verus!
