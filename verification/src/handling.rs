//! What the bot does with a message around the agent's turn: which attachments it takes in,
//! how it carries images, how it adds up the tokens the turn used, and what it answers.

use base64::Engine;
use vstd::prelude::*;

use crate::agent::{AgentMessage, Attachment};
use crate::store::text_or_empty;
use crate::bot::IncomingAttachment;
use crate::llm::{copy_opt_text, Usage};

verus! {

/// Whether an attachment of this media type is an image the agent takes in: JPEG, PNG or GIF.
pub open spec fn is_supported_image_spec(content_type: Seq<char>) -> bool {
    content_type == "image/jpeg"@ || content_type == "image/png"@ || content_type == "image/gif"@
}

/// Whether an attachment of this media type is an image the agent takes in.
pub fn is_supported_image(content_type: &str) -> (r: bool)
    ensures
        r == is_supported_image_spec(content_type@),
{
    crate::text::chars_equal(content_type, "image/jpeg") || crate::text::chars_equal(
        content_type,
        "image/png",
    ) || crate::text::chars_equal(content_type, "image/gif")
}

/// The attachments that the agent takes in, by media type and URL, in the order they came.
pub open spec fn supported_only(list: Seq<(Seq<char>, Seq<char>)>) -> Seq<(Seq<char>, Seq<char>)>
    decreases list.len(),
{
    if list.len() == 0 {
        Seq::empty()
    } else {
        let rest = supported_only(list.drop_last());
        if is_supported_image_spec(list.last().0) {
            rest.push(list.last())
        } else {
            rest
        }
    }
}

/// The media types and URLs of a list of attachments.
pub open spec fn attachment_refs(list: Seq<IncomingAttachment>) -> Seq<(Seq<char>, Seq<char>)> {
    list.map_values(|a: IncomingAttachment| (a.content_type@, a.url@))
}

/// The attachments of a message that are images the agent takes in, in the order they came.
pub fn supported_attachments(list: &Vec<IncomingAttachment>) -> (r: Vec<IncomingAttachment>)
    ensures
        attachment_refs(r@) == supported_only(attachment_refs(list@)),
{
    let mut out: Vec<IncomingAttachment> = Vec::new();
    let mut i: usize = 0;
    while i < list.len()
        invariant
            i <= list@.len(),
            attachment_refs(out@) == supported_only(attachment_refs(list@.take(i as int))),
        decreases list@.len() - i,
    {
        let a = &list[i];
        let ghost before = out@;
        assert(attachment_refs(list@.take(i + 1)).drop_last() =~= attachment_refs(
            list@.take(i as int),
        ));
        if is_supported_image(a.content_type.as_str()) {
            out.push(
                IncomingAttachment { content_type: a.content_type.clone(), url: a.url.clone() },
            );
            assert(attachment_refs(out@) =~= attachment_refs(before).push(
                (a.content_type@, a.url@),
            ));
        }
        i = i + 1;
    }
    assert(list@.take(list@.len() as int) =~= list@);
    out
}

/// The character of the standard base64 alphabet (RFC 4648) for the six bits `v`.
pub open spec fn base64_digit(v: int) -> char {
    if v < 26 {
        ('A' as int + v) as char
    } else if v < 52 {
        ('a' as int + (v - 26)) as char
    } else if v < 62 {
        ('0' as int + (v - 52)) as char
    } else if v == 62 {
        '+'
    } else {
        '/'
    }
}

/// Standard base64 with padding (RFC 4648): each group of three bytes becomes four
/// characters of six bits each; a last group of one or two bytes is filled out with zero
/// bits and padded with `=` to four characters.
pub open spec fn base64_spec(bytes: Seq<u8>) -> Seq<char>
    decreases bytes.len(),
{
    if bytes.len() == 0 {
        Seq::empty()
    } else if bytes.len() == 1 {
        let b0 = bytes[0] as int;
        seq![base64_digit(b0 / 4), base64_digit((b0 % 4) * 16), '=', '=']
    } else if bytes.len() == 2 {
        let b0 = bytes[0] as int;
        let b1 = bytes[1] as int;
        seq![
            base64_digit(b0 / 4),
            base64_digit((b0 % 4) * 16 + b1 / 16),
            base64_digit((b1 % 16) * 4),
            '=',
        ]
    } else {
        let b0 = bytes[0] as int;
        let b1 = bytes[1] as int;
        let b2 = bytes[2] as int;
        seq![
            base64_digit(b0 / 4),
            base64_digit((b0 % 4) * 16 + b1 / 16),
            base64_digit((b1 % 16) * 4 + b2 / 64),
            base64_digit(b2 % 64),
        ] + base64_spec(bytes.subrange(3, bytes.len() as int))
    }
}

/// Encodes bytes with `Engine::encode` of `base64::engine::general_purpose::STANDARD`, the
/// standard alphabet with padding. Claimed: the text is `base64_spec` of the bytes.
#[verifier::external_body]
fn encode_base64(bytes: &[u8]) -> (r: String)
    ensures
        r@ == base64_spec(bytes@),
{
    base64::engine::general_purpose::STANDARD.encode(bytes)
}

/// An attachment carrying the downloaded bytes of an image of the given media type, in
/// standard base64.
pub fn attachment_from_bytes(content_type: &str, bytes: &[u8]) -> (r: Attachment)
    ensures
        r.content_type@ == content_type@,
        r.data@ == base64_spec(bytes@),
{
    Attachment { content_type: content_type.to_owned(), data: encode_base64(bytes) }
}

/// The tokens found in the prompt cache: as DeepSeek counts them when it does, otherwise as the
/// prompt details count them, otherwise none.
pub open spec fn cached_of(u: Usage) -> int {
    match u.prompt_cache_hit_tokens {
        Some(h) => h as int,
        None => match u.prompt_tokens_details {
            Some(d) => d.cached_tokens as int,
            None => 0,
        },
    }
}

/// Whether a number fits in an `isize`.
pub open spec fn fits_isize(n: int) -> bool {
    isize::MIN <= n <= isize::MAX
}

/// The tokens a turn used, added up over its replies.
pub struct UsageTally {
    pub prompt_tokens: isize,
    pub completion_tokens: isize,
    pub cached_tokens: isize,
}

impl UsageTally {
    /// Whether the counts of `u` can be added without leaving the range of `isize`.
    pub open spec fn can_add(&self, u: Usage) -> bool {
        &&& fits_isize(self.prompt_tokens + u.prompt_tokens)
        &&& fits_isize(self.completion_tokens + u.completion_tokens)
        &&& fits_isize(self.cached_tokens + cached_of(u))
    }

    /// Nothing counted yet.
    pub fn new() -> (r: UsageTally)
        ensures
            r.prompt_tokens == 0,
            r.completion_tokens == 0,
            r.cached_tokens == 0,
    {
        UsageTally { prompt_tokens: 0, completion_tokens: 0, cached_tokens: 0 }
    }

    /// Whether the counts of `u` can be added.
    pub fn fits(&self, u: &Usage) -> (r: bool)
        ensures
            r == self.can_add(*u),
    {
        let cached = cached_tokens_of(u);
        self.prompt_tokens.checked_add(u.prompt_tokens).is_some()
            && self.completion_tokens.checked_add(u.completion_tokens).is_some()
            && self.cached_tokens.checked_add(cached).is_some()
    }

    /// Adds the counts of one reply.
    pub fn add(&mut self, u: &Usage)
        requires
            old(self).can_add(*u),
        ensures
            final(self).prompt_tokens == old(self).prompt_tokens + u.prompt_tokens,
            final(self).completion_tokens == old(self).completion_tokens + u.completion_tokens,
            final(self).cached_tokens == old(self).cached_tokens + cached_of(*u),
    {
        let cached = cached_tokens_of(u);
        self.prompt_tokens = self.prompt_tokens + u.prompt_tokens;
        self.completion_tokens = self.completion_tokens + u.completion_tokens;
        self.cached_tokens = self.cached_tokens + cached;
    }
}

fn cached_tokens_of(u: &Usage) -> (r: isize)
    ensures
        r == cached_of(*u),
{
    match u.prompt_cache_hit_tokens {
        Some(h) => h,
        None => match &u.prompt_tokens_details {
            Some(d) => d.cached_tokens,
            None => 0,
        },
    }
}

} // verus!

verus! {

/// What the events of a turn have given so far: the content of the last assistant message, if
/// one came, and the tokens used.
pub struct TurnSummary {
    pub last_content: Option<Option<String>>,
    pub tally: UsageTally,
}

/// Whether two tallies hold the same counts.
pub open spec fn same_tally(a: UsageTally, b: UsageTally) -> bool {
    &&& a.prompt_tokens == b.prompt_tokens
    &&& a.completion_tokens == b.completion_tokens
    &&& a.cached_tokens == b.cached_tokens
}

/// What the bot sends the user at the end of a turn.
pub enum TurnAnswer {
    /// The agent failed: its error, as it is.
    Error(String),
    /// The text of the last assistant message, empty when it had none, under which the tokens
    /// the turn used are reported.
    Reply { text: String, tally: UsageTally },
    /// No assistant message came back: nothing is sent.
    Silent,
}

impl TurnSummary {
    /// Nothing taken in yet.
    pub fn new() -> (r: TurnSummary)
        ensures
            r.last_content is None,
            r.tally.prompt_tokens == 0,
            r.tally.completion_tokens == 0,
            r.tally.cached_tokens == 0,
    {
        TurnSummary { last_content: None, tally: UsageTally::new() }
    }

    /// Whether the tokens that `m` reports can be added to the tally.
    pub open spec fn can_take(&self, m: AgentMessage) -> bool {
        match m {
            AgentMessage::Assistant { usage: Some(u), .. } => self.tally.can_add(u),
            _ => true,
        }
    }

    /// Whether the tokens that `m` reports can be added to the tally.
    pub fn fits(&self, m: &AgentMessage) -> (r: bool)
        ensures
            r == self.can_take(*m),
    {
        match m {
            AgentMessage::Assistant { usage: Some(u), .. } => self.tally.fits(u),
            _ => true,
        }
    }

    /// Takes in the next event of the turn: an assistant message becomes the last content and
    /// adds the tokens it reports; a tool's answer changes nothing.
    pub fn take(&mut self, m: &AgentMessage)
        requires
            old(self).can_take(*m),
        ensures
            match *m {
                AgentMessage::Assistant { content, usage, .. } => {
                    &&& final(self).last_content == Some(content)
                    &&& match usage {
                        Some(u) => {
                            &&& final(self).tally.prompt_tokens == old(self).tally.prompt_tokens
                                + u.prompt_tokens
                            &&& final(self).tally.completion_tokens
                                == old(self).tally.completion_tokens + u.completion_tokens
                            &&& final(self).tally.cached_tokens == old(self).tally.cached_tokens
                                + cached_of(u)
                        },
                        None => same_tally(final(self).tally, old(self).tally),
                    }
                },
                AgentMessage::Tool { .. } => {
                    &&& final(self).last_content == old(self).last_content
                    &&& same_tally(final(self).tally, old(self).tally)
                },
            },
    {
        match m {
            AgentMessage::Assistant { content, usage, .. } => {
                self.last_content = Some(copy_opt_text(content));
                match usage {
                    Some(u) => self.tally.add(u),
                    None => {},
                }
            },
            AgentMessage::Tool { .. } => {},
        }
    }
}

/// What the bot answers for a turn: the agent's error when it failed; otherwise the text of
/// the last assistant message with the tally, or nothing when no assistant message came.
pub fn conclude(outcome: Result<TurnSummary, String>) -> (r: TurnAnswer)
    ensures
        match outcome {
            Err(e) => r == TurnAnswer::Error(e),
            Ok(s) => match s.last_content {
                Some(c) => r matches TurnAnswer::Reply { text, tally } && text@ == text_or_empty(c)
                    && same_tally(tally, s.tally),
                None => r is Silent,
            },
        },
{
    match outcome {
        Err(e) => TurnAnswer::Error(e),
        Ok(s) => match s.last_content {
            Some(Some(text)) => TurnAnswer::Reply { text, tally: s.tally },
            Some(None) => TurnAnswer::Reply { text: String::new(), tally: s.tally },
            None => TurnAnswer::Silent,
        },
    }
}

} // verus!
