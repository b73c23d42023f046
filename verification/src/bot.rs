//! The bot's side of the QQ bot gateway: the access token, the session it keeps over the
//! websocket, how it reads each frame, and when it reconnects.

use vstd::prelude::*;

use crate::json::{entry, fields_model, items_model, Json, JsonView};
use crate::text::{chars_equal, joined, decimal_text_spec, parse_u64, parse_u64_spec};

verus! {

/// Where the bot API lives.
pub const API_BASE: &'static str = "https://api.bot.qq.com";

pub const OP_DISPATCH: u8 = 0;
pub const OP_HEARTBEAT: u8 = 1;
pub const OP_IDENTIFY: u8 = 2;
pub const OP_RESUME: u8 = 6;
pub const OP_RECONNECT: u8 = 7;
pub const OP_INVALID_SESSION: u8 = 9;
pub const OP_HELLO: u8 = 10;
pub const OP_HEARTBEAT_ACK: u8 = 11;

/// The events the bot subscribes to: messages sent to it in private chat (bit 25).
pub const INTENTS: u64 = 33554432;

/// How long before it expires an access token is renewed.
pub const REFRESH_MARGIN_MS: u64 = 60000;

/// The header value that authorizes a request with an access token.
pub fn auth_header(token: &str) -> (r: String)
    ensures
        r@ == "QQBot "@ + token@,
{
    joined("QQBot ", token)
}

/// The endpoint that tells where the gateway is.
pub fn gateway_endpoint() -> (r: String)
    ensures
        r@ == API_BASE@ + "/gateway"@,
{
    joined(API_BASE, "/gateway")
}

/// The endpoint that sends a private message to a user.
pub fn user_messages_endpoint(user_openid: &str) -> (r: String)
    ensures
        r@ == API_BASE@ + "/v2/users/"@ + user_openid@ + "/messages"@,
{
    let a = joined(API_BASE, "/v2/users/");
    let b = joined(a.as_str(), user_openid);
    joined(b.as_str(), "/messages")
}

/// The endpoint that hands out access tokens.
pub fn access_token_endpoint() -> (r: String)
    ensures
        r@ == API_BASE@ + "/app/getAppAccessToken"@,
{
    joined(API_BASE, "/app/getAppAccessToken")
}

/// An access token and when it expires, in milliseconds on the caller's monotonic clock.
pub struct TokenState {
    pub token: String,
    pub expires_at_ms: u128,
}

/// Keeps the bot's access token and tells when a new one is needed.
pub struct TokenManager {
    state: Option<TokenState>,
    app_id: String,
    client_secret: String,
}

impl TokenManager {
    /// The token held and its expiry, if any.
    pub closed spec fn held(&self) -> Option<(Seq<char>, int)> {
        match self.state {
            Some(s) => Some((s.token@, s.expires_at_ms as int)),
            None => None,
        }
    }

    pub closed spec fn spec_app_id(&self) -> Seq<char> {
        self.app_id@
    }

    pub closed spec fn spec_client_secret(&self) -> Seq<char> {
        self.client_secret@
    }

    /// Whether at `now_ms` a new token is needed: none is held, or the one held expires within
    /// the margin.
    pub open spec fn expired_at(&self, now_ms: u64) -> bool {
        match self.held() {
            None => true,
            Some((_, expires_at)) => now_ms + REFRESH_MARGIN_MS >= expires_at,
        }
    }

    /// A manager for the bot `app_id`, holding no token yet.
    pub fn new(app_id: &str, client_secret: &str) -> (r: TokenManager)
        ensures
            r.held() is None,
            r.spec_app_id() == app_id@,
            r.spec_client_secret() == client_secret@,
    {
        TokenManager { state: None, app_id: app_id.to_owned(), client_secret: client_secret.to_owned() }
    }

    pub fn app_id(&self) -> (r: &str)
        ensures
            r@ == self.spec_app_id(),
    {
        self.app_id.as_str()
    }

    pub fn client_secret(&self) -> (r: &str)
        ensures
            r@ == self.spec_client_secret(),
    {
        self.client_secret.as_str()
    }

    /// Whether at `now_ms` a new token is needed.
    pub fn is_expired(&self, now_ms: u64) -> (r: bool)
        ensures
            r == self.expired_at(now_ms),
    {
        match &self.state {
            None => true,
            Some(s) => now_ms as u128 + REFRESH_MARGIN_MS as u128 >= s.expires_at_ms,
        }
    }

    /// The token held, while it is good at `now_ms`.
    pub fn current_token(&self, now_ms: u64) -> (r: Option<String>)
        ensures
            self.expired_at(now_ms) ==> r is None,
            !self.expired_at(now_ms) ==> (r matches Some(t) && self.held() matches Some((held, _))
                && t@ == held),
    {
        if self.is_expired(now_ms) {
            None
        } else {
            match &self.state {
                Some(s) => Some(s.token.clone()),
                None => None,
            }
        }
    }

    /// Keeps `token`, obtained at `now_ms` and good for `expires_in_secs` seconds, and gives it
    /// back.
    pub fn install(&mut self, token: String, expires_in_secs: u64, now_ms: u64) -> (r: String)
        ensures
            r@ == token@,
            final(self).held() == Some((token@, now_ms + expires_in_secs * 1000)),
            final(self).spec_app_id() == old(self).spec_app_id(),
            final(self).spec_client_secret() == old(self).spec_client_secret(),
    {
        let expires_at_ms = now_ms as u128 + expires_in_secs as u128 * 1000;
        let r = token.clone();
        self.state = Some(TokenState { token, expires_at_ms });
        r
    }

    /// Keeps the token of a reply whose lifetime, in seconds, is written as decimal text, which
    /// must be a number of seconds that fits in a `u64`, and gives the token back.
    pub fn install_reply(&mut self, token: String, expires_in: &str, now_ms: u64) -> (r: String)
        requires
            parse_u64_spec(expires_in@) is Some,
        ensures
            r@ == token@,
            final(self).held() == Some((token@, now_ms + parse_u64_spec(expires_in@).unwrap() * 1000)),
            final(self).spec_app_id() == old(self).spec_app_id(),
            final(self).spec_client_secret() == old(self).spec_client_secret(),
    {
        let secs = match parse_u64(expires_in) {
            Some(secs) => secs,
            None => 0,
        };
        self.install(token, secs, now_ms)
    }
}

/// A token kept at `now` with a lifetime longer than the margin is the one handed out at
/// `now`.
pub proof fn law_token_read_after_install(m: TokenManager, token: Seq<char>, secs: u64, now_ms: u64)
    requires
        m.held() == Some((token, now_ms + secs * 1000)),
        secs as int * 1000 > REFRESH_MARGIN_MS,
    ensures
        !m.expired_at(now_ms),
{
}

/// Once a token needs renewing it stays so as time goes on.
pub proof fn law_expiry_is_monotone(m: TokenManager, t1: u64, t2: u64)
    requires
        t1 <= t2,
        m.expired_at(t1),
    ensures
        m.expired_at(t2),
{
}

/// Two to the power `n`.
pub open spec fn two_pow(n: nat) -> nat
    decreases n,
{
    if n == 0 {
        1
    } else {
        2 * two_pow((n - 1) as nat)
    }
}

/// Half of the longest wait before reconnect attempt `attempt`: 2^attempt seconds, at most 30.
pub open spec fn backoff_half_ms_spec(attempt: nat) -> nat {
    (if two_pow(attempt) < 30 {
        two_pow(attempt)
    } else {
        30
    }) * 1000 / 2
}

proof fn lemma_two_pow_monotone(a: nat, b: nat)
    requires
        a <= b,
    ensures
        two_pow(a) <= two_pow(b),
    decreases b,
{
    if a < b {
        lemma_two_pow_monotone(a, (b - 1) as nat);
    }
}

/// Half of the longest wait before reconnect attempt `attempt`, in milliseconds.
pub fn backoff_half_ms(attempt: u32) -> (r: u64)
    ensures
        r == backoff_half_ms_spec(attempt as nat),
{
    let mut p: u64 = 1;
    let mut k: u32 = 0;
    while k < attempt && k < 5
        invariant
            k <= attempt,
            k <= 5,
            p == two_pow(k as nat),
        decreases attempt - k,
    {
        proof {
            lemma_two_pow_monotone(k as nat, 4);
            assert(two_pow(4) == 16) by {
                reveal_with_fuel(two_pow, 5);
            }
        }
        p = p * 2;
        k += 1;
    }
    proof {
        if attempt >= 5 {
            lemma_two_pow_monotone(5, attempt as nat);
            assert(two_pow(5) == 32) by {
                reveal_with_fuel(two_pow, 6);
            }
        }
    }
    let base = if p < 30 {
        p
    } else {
        30
    };
    base * 1000 / 2
}

/// The wait before the next reconnect never exceeds 30 seconds, and it grows with the number of
/// failed attempts.
pub proof fn law_backoff_bounded_and_monotone(a: nat, b: nat)
    requires
        a <= b,
    ensures
        backoff_half_ms_spec(a) <= backoff_half_ms_spec(b),
        2 * backoff_half_ms_spec(b) <= 30000,
{
    lemma_two_pow_monotone(a, b);
}

/// A number drawn from `low..=high` by `rand::random_range` with the thread's generator. Of the
/// draw only that it lies in the range is claimed.
#[verifier::external_body]
fn random_between(low: u64, high: u64) -> (r: u64)
    requires
        low <= high,
    ensures
        low <= r <= high,
{
    rand::random_range(low..=high)
}

/// A frame read from the gateway.
pub struct WsEvent {
    pub op: u8,
    pub s: Option<u32>,
    pub t: Option<String>,
    pub d: Json,
}

/// A file attached to a message sent to the bot.
pub struct IncomingAttachment {
    pub content_type: String,
    pub url: String,
}

/// A message a user sent the bot in private chat.
pub struct IncomingMessage {
    pub content: String,
    pub user_openid: String,
    pub msg_id: String,
    pub attachments: Option<Vec<IncomingAttachment>>,
}

/// What to do after a frame.
pub enum Step {
    /// Keep reading.
    Continue,
    /// Hand this message on, then keep reading.
    Deliver(IncomingMessage),
    /// Drop the connection and connect again.
    Reconnect,
}

/// The attachments of a message: `Some` when the message has an array `attachments` whose
/// every element names a `content_type` and a `url`.
pub open spec fn attachments_of(d: JsonView) -> Option<Seq<(Seq<char>, Seq<char>)>> {
    match d.field("attachments"@) {
        Some(JsonView::Array(items)) => if forall|i: int|
            0 <= i < items.len() ==> (#[trigger] items[i]).field_text("content_type"@) is Some
                && items[i].field_text("url"@) is Some {
            Some(
                Seq::new(
                    items.len(),
                    |i: int|
                        (
                            items[i].field_text("content_type"@).unwrap(),
                            items[i].field_text("url"@).unwrap(),
                        ),
                ),
            )
        } else {
            None
        },
        _ => None,
    }
}

/// The message a `C2C_MESSAGE_CREATE` event carries, when it has its author's id, its id and
/// its content.
pub open spec fn incoming_message_fields(d: JsonView) -> Option<(Seq<char>, Seq<char>, Seq<char>)> {
    let author = match d.field("author"@) {
        Some(a) => a.field_text("user_openid"@),
        None => None,
    };
    match (author, d.field_text("id"@), d.field_text("content"@)) {
        (Some(u), Some(i), Some(c)) => Some((u, i, c)),
        _ => None,
    }
}

/// Whether `m` is the message that an event's data `d` carries.
pub open spec fn is_message_of(m: IncomingMessage, d: JsonView) -> bool {
    &&& incoming_message_fields(d) == Some((m.user_openid@, m.msg_id@, m.content@))
    &&& match (m.attachments, attachments_of(d)) {
        (Some(v), Some(a)) => v@.len() == a.len() && forall|i: int|
            0 <= i < a.len() ==> (#[trigger] v@[i]).content_type@ == a[i].0 && v@[i].url@ == a[i].1,
        (None, None) => true,
        _ => false,
    }
}

/// Whether a frame holds what the bot cannot go on without: a dispatch names its event, a
/// `READY` carries the session's id, and a `C2C_MESSAGE_CREATE` carries its author's openid,
/// its id and its content.
pub open spec fn event_is_complete(event: WsEvent) -> bool {
    event.op == OP_DISPATCH ==> match event.t {
        None => false,
        Some(t) => {
            &&& t@ == "READY"@ ==> event.d@.field_text("session_id"@) is Some
            &&& t@ == "C2C_MESSAGE_CREATE"@ ==> incoming_message_fields(event.d@) is Some
        },
    }
}

/// The identify command: log in with the token, asking for the bot's events on the only
/// shard.
pub open spec fn identify_command_spec(token: Seq<char>) -> JsonView {
    JsonView::Object(
        seq![
            ("op"@, JsonView::Number(decimal_text_spec(OP_IDENTIFY as nat))),
            (
                "d"@,
                JsonView::Object(
                    seq![
                        ("token"@, JsonView::Str(token)),
                        ("intents"@, JsonView::Number(decimal_text_spec(INTENTS as nat))),
                        (
                            "shard"@,
                            JsonView::Array(
                                seq![
                                    JsonView::Number(decimal_text_spec(0)),
                                    JsonView::Number(decimal_text_spec(1)),
                                ],
                            ),
                        ),
                        (
                            "properties"@,
                            JsonView::Object(
                                seq![
                                    ("$os"@, JsonView::Str(""@)),
                                    ("$browser"@, JsonView::Str(""@)),
                                    ("$device"@, JsonView::Str(""@)),
                                ],
                            ),
                        ),
                    ],
                ),
            ),
        ],
    )
}

/// An optional text: the text, or `null`.
pub open spec fn opt_text_spec(s: Option<Seq<char>>) -> JsonView {
    match s {
        Some(t) => JsonView::Str(t),
        None => JsonView::Null,
    }
}

/// An optional sequence number: the number, or `null`.
pub open spec fn opt_seq_spec(s: Option<u32>) -> JsonView {
    match s {
        Some(n) => JsonView::Number(decimal_text_spec(n as nat)),
        None => JsonView::Null,
    }
}

/// The resume command: take up the session again from the last sequence number seen.
pub open spec fn resume_command_spec(
    token: Seq<char>,
    session_id: Option<Seq<char>>,
    seq: Option<u32>,
) -> JsonView {
    JsonView::Object(
        seq![
            ("op"@, JsonView::Number(decimal_text_spec(OP_RESUME as nat))),
            (
                "d"@,
                JsonView::Object(
                    seq![
                        ("token"@, JsonView::Str(token)),
                        ("session_id"@, opt_text_spec(session_id)),
                        ("seq"@, opt_seq_spec(seq)),
                    ],
                ),
            ),
        ],
    )
}

/// The heartbeat command, carrying the last sequence number seen.
pub open spec fn heartbeat_command_spec(seq: Option<u32>) -> JsonView {
    JsonView::Object(
        seq![
            ("op"@, JsonView::Number(decimal_text_spec(OP_HEARTBEAT as nat))),
            ("d"@, opt_seq_spec(seq)),
        ],
    )
}

/// Every first command on a connection carries, in its data, the token it is given: the
/// identify that logs in, and the resume that takes a session up again, which also names that
/// session and the last sequence number seen.
pub proof fn law_handshake_carries_token(
    token: Seq<char>,
    session_id: Option<Seq<char>>,
    seq: Option<u32>,
)
    ensures
        identify_command_spec(token).field("op"@) == Some(
            JsonView::Number(decimal_text_spec(OP_IDENTIFY as nat)),
        ),
        identify_command_spec(token).field("d"@) matches Some(d) && d.field_text("token"@) == Some(
            token,
        ),
        resume_command_spec(token, session_id, seq).field("op"@) == Some(
            JsonView::Number(decimal_text_spec(OP_RESUME as nat)),
        ),
        resume_command_spec(token, session_id, seq).field("d"@) matches Some(d) && d.field_text(
            "token"@,
        ) == Some(token) && d.field("session_id"@) == Some(opt_text_spec(session_id)) && d.field(
            "seq"@,
        ) == Some(opt_seq_spec(seq)),
{
    reveal_strlit("op");
    reveal_strlit("d");
    reveal_strlit("token");
    reveal_strlit("session_id");
    reveal_strlit("seq");
    assert("op"@[0] != "d"@[0]);
    assert("token"@[0] != "session_id"@[0]);
    assert("token"@[0] != "seq"@[0]);
    assert("session_id"@.len() != "seq"@.len());
    let identify = identify_command_spec(token);
    match identify {
        JsonView::Object(fields) => {
            assert(crate::json::lookup(fields.skip(1), "d"@) == Some(fields[1].1));
        },
        _ => {},
    }
    let resume = resume_command_spec(token, session_id, seq);
    match resume {
        JsonView::Object(fields) => {
            assert(crate::json::lookup(fields.skip(1), "d"@) == Some(fields[1].1));
            match fields[1].1 {
                JsonView::Object(d) => {
                    assert(crate::json::lookup(d.skip(1), "session_id"@) == Some(
                        opt_text_spec(session_id),
                    ));
                    assert(d.skip(1).skip(1)[0] == ("seq"@, opt_seq_spec(seq)));
                    assert(crate::json::lookup(d.skip(1).skip(1), "seq"@) == Some(opt_seq_spec(seq)));
                    assert(crate::json::lookup(d.skip(1), "seq"@) == Some(opt_seq_spec(seq)));
                },
                _ => {},
            }
        },
        _ => {},
    }
}

fn opt_text_json(s: &Option<String>) -> (r: Json)
    ensures
        r@ == opt_text_spec(
            match s {
                Some(t) => Some(t@),
                None => None,
            },
        ),
{
    match s {
        Some(t) => Json::from_str(t.as_str()),
        None => Json::Null,
    }
}

fn opt_seq_json(s: Option<u32>) -> (r: Json)
    ensures
        r@ == opt_seq_spec(s),
{
    match s {
        Some(n) => Json::from_u64(n as u64),
        None => Json::Null,
    }
}

/// The state of the bot's connection to the gateway: the session to resume, the last
/// sequence number seen, and how many attempts to connect have failed in a row.
pub struct Bot {
    session_id: Option<String>,
    last_seq: Option<u32>,
    attempt: u32,
}

impl Bot {
    pub closed spec fn session(&self) -> Option<Seq<char>> {
        match self.session_id {
            Some(s) => Some(s@),
            None => None,
        }
    }

    pub closed spec fn seq(&self) -> Option<u32> {
        self.last_seq
    }

    pub closed spec fn attempts(&self) -> u32 {
        self.attempt
    }

    /// A bot with no session yet.
    pub fn new() -> (r: Bot)
        ensures
            r.session() is None,
            r.seq() is None,
            r.attempts() == 0,
    {
        Bot { session_id: None, last_seq: None, attempt: 0 }
    }

    /// How many attempts to connect have failed in a row.
    pub fn attempt(&self) -> (r: u32)
        ensures
            r == self.attempts(),
    {
        self.attempt
    }

    /// How long to wait before connecting: nothing at the first attempt, otherwise a random
    /// wait between the backoff and twice it.
    pub fn reconnect_delay_ms(&self) -> (r: Option<u64>)
        ensures
            self.attempts() == 0 ==> r is None,
            self.attempts() > 0 ==> (r matches Some(d) && backoff_half_ms_spec(
                self.attempts() as nat,
            ) <= d <= 2 * backoff_half_ms_spec(self.attempts() as nat)),
    {
        if self.attempt == 0 {
            return None;
        }
        let half = backoff_half_ms(self.attempt);
        proof {
            law_backoff_bounded_and_monotone(self.attempt as nat, self.attempt as nat);
        }
        Some(half + random_between(0, half))
    }

    /// Counts a failed attempt: the gateway could not be reached, or did not greet.
    pub fn note_failure(&mut self)
        requires
            old(self).attempts() < u32::MAX,
        ensures
            final(self).attempts() == old(self).attempts() + 1,
            final(self).session() == old(self).session(),
            final(self).seq() == old(self).seq(),
    {
        self.attempt = self.attempt + 1;
    }

    /// The heartbeat interval a greeting gives: the frame must be a hello whose data holds a
    /// whole number `heartbeat_interval`.
    pub fn hello_interval(event: &WsEvent) -> (r: Option<u64>)
        ensures
            r == (if event.op == OP_HELLO {
                match event.d@.field("heartbeat_interval"@) {
                    Some(v) => v.as_u64(),
                    None => None,
                }
            } else {
                None
            }),
    {
        if event.op != OP_HELLO {
            return None;
        }
        match event.d.get("heartbeat_interval") {
            Some(v) => v.as_u64(),
            None => None,
        }
    }

    /// The first command on a new connection: identify when there is no session, resume it
    /// otherwise.
    pub fn handshake(&self, token: &str) -> (r: Json)
        ensures
            self.session() is None ==> r@ == identify_command_spec(token@),
            self.session() is Some ==> r@ == resume_command_spec(token@, self.session(), self.seq()),
            r@.field("d"@) matches Some(d) && d.field_text("token"@) == Some(token@),
            self.session() is Some ==> (r@.field("d"@) matches Some(d) && d.field("session_id"@)
                == Some(opt_text_spec(self.session())) && d.field("seq"@) == Some(
                opt_seq_spec(self.seq()),
            )),
    {
        proof {
            law_handshake_carries_token(token@, self.session(), self.seq());
        }
        if self.session_id.is_none() {
            let mut props: Vec<(String, Json)> = Vec::new();
            props.push(entry("$os", Json::from_str("")));
            props.push(entry("$browser", Json::from_str("")));
            props.push(entry("$device", Json::from_str("")));
            let ghost pm = fields_model(props@);
            assert(pm =~= seq![
                ("$os"@, JsonView::Str(""@)),
                ("$browser"@, JsonView::Str(""@)),
                ("$device"@, JsonView::Str(""@)),
            ]);
            let mut shard: Vec<Json> = Vec::new();
            shard.push(Json::from_u64(0));
            shard.push(Json::from_u64(1));
            let ghost sm = items_model(shard@);
            assert(sm =~= seq![
                JsonView::Number(decimal_text_spec(0)),
                JsonView::Number(decimal_text_spec(1)),
            ]);
            let mut d: Vec<(String, Json)> = Vec::new();
            d.push(entry("token", Json::from_str(token)));
            d.push(entry("intents", Json::from_u64(INTENTS)));
            d.push(entry("shard", Json::array(shard)));
            d.push(entry("properties", Json::object(props)));
            let ghost dm = fields_model(d@);
            assert(dm =~= seq![
                ("token"@, JsonView::Str(token@)),
                ("intents"@, JsonView::Number(decimal_text_spec(INTENTS as nat))),
                ("shard"@, JsonView::Array(sm)),
                ("properties"@, JsonView::Object(pm)),
            ]);
            command(OP_IDENTIFY, Json::object(d))
        } else {
            let mut d: Vec<(String, Json)> = Vec::new();
            d.push(entry("token", Json::from_str(token)));
            d.push(entry("session_id", opt_text_json(&self.session_id)));
            d.push(entry("seq", opt_seq_json(self.last_seq)));
            let ghost dm = fields_model(d@);
            assert(dm =~= seq![
                ("token"@, JsonView::Str(token@)),
                ("session_id"@, opt_text_spec(self.session())),
                ("seq"@, opt_seq_spec(self.seq())),
            ]);
            command(OP_RESUME, Json::object(d))
        }
    }

    /// The heartbeat command.
    pub fn heartbeat(&self) -> (r: Json)
        ensures
            r@ == heartbeat_command_spec(self.seq()),
    {
        command(OP_HEARTBEAT, opt_seq_json(self.last_seq))
    }

    /// The connection broke: it failed to read, was closed, or ended.
    pub fn on_disconnect(&mut self) -> (r: Step)
        requires
            old(self).attempts() < u32::MAX,
        ensures
            r is Reconnect,
            final(self).attempts() == old(self).attempts() + 1,
            final(self).session() == old(self).session(),
            final(self).seq() == old(self).seq(),
    {
        self.attempt = self.attempt + 1;
        Step::Reconnect
    }

    /// Takes in a frame of the gateway, which must hold what the bot needs of it.
    pub fn on_event(&mut self, event: WsEvent) -> (r: Step)
        requires
            event_is_complete(event),
            event.op == OP_RECONNECT || event.op == OP_INVALID_SESSION ==> old(self).attempts()
                < u32::MAX,
        ensures
            event.op == OP_DISPATCH ==> {
                let t = event.t.unwrap();
                &&& final(self).seq() == event.s
                &&& if t@ == "READY"@ {
                    &&& r is Continue
                    &&& final(self).session() == event.d@.field_text("session_id"@)
                    &&& final(self).attempts() == 0
                } else if t@ == "RESUMED"@ {
                    r is Continue && final(self).session() == old(self).session()
                        && final(self).attempts() == 0
                } else if t@ == "C2C_MESSAGE_CREATE"@ {
                    &&& r matches Step::Deliver(m) && is_message_of(m, event.d@)
                    &&& final(self).session() == old(self).session()
                    &&& final(self).attempts() == old(self).attempts()
                } else {
                    r is Continue && final(self).session() == old(self).session()
                        && final(self).attempts() == old(self).attempts()
                }
            },
            event.op == OP_RECONNECT ==> {
                &&& r is Reconnect
                &&& final(self).attempts() == old(self).attempts() + 1
                &&& final(self).session() == old(self).session()
                &&& final(self).seq() == old(self).seq()
            },
            event.op == OP_INVALID_SESSION ==> {
                &&& r is Reconnect
                &&& final(self).attempts() == old(self).attempts() + 1
                &&& final(self).session() == (if event.d@ == JsonView::Bool(false) {
                    None
                } else {
                    old(self).session()
                })
                &&& final(self).seq() == old(self).seq()
            },
            event.op != OP_DISPATCH && event.op != OP_RECONNECT && event.op != OP_INVALID_SESSION
                ==> {
                &&& r is Continue
                &&& final(self).attempts() == old(self).attempts()
                &&& final(self).session() == old(self).session()
                &&& final(self).seq() == old(self).seq()
            },
    {
        proof {
            lemma_event_names_differ();
        }
        if event.op == OP_DISPATCH {
            self.last_seq = event.s;
            let t = match &event.t {
                Some(t) => t,
                None => return Step::Continue,
            };
            if chars_equal(t.as_str(), "READY") {
                self.session_id = Some(event.d.str_member("session_id"));
                self.attempt = 0;
                Step::Continue
            } else if chars_equal(t.as_str(), "RESUMED") {
                self.attempt = 0;
                Step::Continue
            } else if chars_equal(t.as_str(), "C2C_MESSAGE_CREATE") {
                match incoming_message(&event.d) {
                    Some(m) => Step::Deliver(m),
                    None => Step::Continue,
                }
            } else {
                Step::Continue
            }
        } else if event.op == OP_RECONNECT {
            self.attempt = self.attempt + 1;
            Step::Reconnect
        } else if event.op == OP_INVALID_SESSION {
            let refused = match &event.d {
                Json::Bool(b) => !*b,
                _ => false,
            };
            if refused {
                self.session_id = None;
            }
            self.attempt = self.attempt + 1;
            Step::Reconnect
        } else {
            Step::Continue
        }
    }
}

/// Whether the data of a private message carries what the bot hands on: its author's openid,
/// its id and its content, all as strings.
pub open spec fn carries_message(d: JsonView) -> bool {
    &&& d.field("author"@) matches Some(a) && a.field_text("user_openid"@) is Some
    &&& d.field_text("id"@) is Some
    &&& d.field_text("content"@) is Some
}

/// Which frames the bot can go on from. A frame that is no dispatch always is. A dispatch
/// must name its event; a `READY` must carry the session's id as a string; a private message
/// must carry its author's openid, its id and its content, whatever else it holds or lacks
/// (attachments among them); any other event needs nothing more.
pub proof fn law_complete_frames(event: WsEvent)
    ensures
        event.op != OP_DISPATCH ==> event_is_complete(event),
        event.op == OP_DISPATCH && event.t is None ==> !event_is_complete(event),
        event.op == OP_DISPATCH && event.t is Some && event.t.unwrap()@ == "READY"@ ==> (
        event_is_complete(event) <==> event.d@.field_text("session_id"@) is Some),
        event.op == OP_DISPATCH && event.t is Some && event.t.unwrap()@ == "C2C_MESSAGE_CREATE"@ ==> (
        event_is_complete(event) <==> carries_message(event.d@)),
        event.op == OP_DISPATCH && event.t is Some && event.t.unwrap()@ != "READY"@
            && event.t.unwrap()@ != "C2C_MESSAGE_CREATE"@ ==> event_is_complete(event),
{
    lemma_event_names_differ();
}

/// Whether a frame holds what the bot needs of it: see [`event_is_complete`].
pub fn event_complete(event: &WsEvent) -> (r: bool)
    ensures
        r == event_is_complete(*event),
        event.op == OP_DISPATCH && event.t is Some && event.t.unwrap()@ == "C2C_MESSAGE_CREATE"@ ==> (r
            <==> carries_message(event.d@)),
{
    proof {
        law_complete_frames(*event);
    }
    proof {
        lemma_event_names_differ();
    }
    if event.op != OP_DISPATCH {
        return true;
    }
    let t = match &event.t {
        Some(t) => t,
        None => return false,
    };
    if chars_equal(t.as_str(), "READY") {
        event.d.has_str("session_id")
    } else if chars_equal(t.as_str(), "C2C_MESSAGE_CREATE") {
        let has_author = match event.d.get("author") {
            Some(a) => a.has_str("user_openid"),
            None => false,
        };
        has_author && event.d.has_str("id") && event.d.has_str("content")
    } else {
        true
    }
}

proof fn lemma_event_names_differ()
    ensures
        "READY"@ != "RESUMED"@,
        "READY"@ != "C2C_MESSAGE_CREATE"@,
        "RESUMED"@ != "C2C_MESSAGE_CREATE"@,
{
    reveal_strlit("READY");
    reveal_strlit("RESUMED");
    reveal_strlit("C2C_MESSAGE_CREATE");
    assert("READY"@.len() != "RESUMED"@.len());
    assert("READY"@[0] != "C2C_MESSAGE_CREATE"@[0]);
    assert("RESUMED"@[0] != "C2C_MESSAGE_CREATE"@[0]);
}

/// A command to the gateway: its op code and its data.
fn command(op: u8, d: Json) -> (r: Json)
    ensures
        r@ == JsonView::Object(
            seq![("op"@, JsonView::Number(decimal_text_spec(op as nat))), ("d"@, d@)],
        ),
{
    let ghost dv = d@;
    let mut fields: Vec<(String, Json)> = Vec::new();
    fields.push(entry("op", Json::from_u64(op as u64)));
    fields.push(entry("d", d));
    assert(fields_model(fields@) =~= seq![
        ("op"@, JsonView::Number(decimal_text_spec(op as nat))),
        ("d"@, dv),
    ]);
    Json::object(fields)
}

/// The attachments listed in a message's data.
fn incoming_attachments(d: &Json) -> (r: Option<Vec<IncomingAttachment>>)
    ensures
        match (r, attachments_of(d@)) {
            (Some(v), Some(a)) => v@.len() == a.len() && forall|i: int|
                0 <= i < a.len() ==> (#[trigger] v@[i]).content_type@ == a[i].0 && v@[i].url@
                    == a[i].1,
            (None, None) => true,
            _ => false,
        },
{
    let items = match d.get("attachments") {
        Some(Json::Array(items)) => items,
        _ => return None,
    };
    let ghost iv = items_model(items@);
    assert(d@.field("attachments"@) == Some(JsonView::Array(iv))) by {
        let j = Json::Array(*items);
        match j@ {
            JsonView::Array(s) => {
                assert(s =~= iv);
            },
            _ => {},
        }
    }
    let mut out: Vec<IncomingAttachment> = Vec::new();
    let mut i: usize = 0;
    while i < items.len()
        invariant
            i <= items@.len(),
            iv == items_model(items@),
            d@.field("attachments"@) == Some(JsonView::Array(iv)),
            out@.len() == i,
            forall|k: int|
                0 <= k < i ==> (#[trigger] iv[k]).field_text("content_type"@) is Some && iv[k].field_text(
                    "url"@,
                ) is Some,
            forall|k: int|
                0 <= k < i ==> (#[trigger] out@[k]).content_type@ == iv[k].field_text(
                    "content_type"@,
                ).unwrap() && out@[k].url@ == iv[k].field_text("url"@).unwrap(),
        decreases items@.len() - i,
    {
        let ct = items[i].get_str("content_type");
        let url = items[i].get_str("url");
        match (ct, url) {
            (Some(content_type), Some(url)) => {
                out.push(IncomingAttachment { content_type, url });
            },
            _ => {
                assert(iv[i as int] == items@[i as int]@);
                assert(!(iv[i as int].field_text("content_type"@) is Some && iv[i as int].field_text(
                    "url"@,
                ) is Some));
                assert(!(forall|k: int|
                    0 <= k < iv.len() ==> (#[trigger] iv[k]).field_text("content_type"@) is Some
                        && iv[k].field_text("url"@) is Some));
                return None;
            },
        }
        i += 1;
    }
    Some(out)
}

/// The message a `C2C_MESSAGE_CREATE` event's data carries.
fn incoming_message(d: &Json) -> (r: Option<IncomingMessage>)
    ensures
        match incoming_message_fields(d@) {
            Some(_) => r matches Some(m) && is_message_of(m, d@),
            None => r is None,
        },
{
    let user_openid = match d.get("author") {
        Some(a) => match a.get_str("user_openid") {
            Some(u) => u,
            None => return None,
        },
        None => return None,
    };
    let msg_id = match d.get_str("id") {
        Some(i) => i,
        None => return None,
    };
    let content = match d.get_str("content") {
        Some(c) => c,
        None => return None,
    };
    let attachments = incoming_attachments(d);
    Some(IncomingMessage { content, user_openid, msg_id, attachments })
}

} // verus!

verus! {

/// The body that sends `content` to a user in reply to the message `msg_id`, as text.
pub open spec fn user_message_body_spec(content: Seq<char>, msg_id: Seq<char>) -> JsonView {
    JsonView::Object(
        seq![
            ("content"@, JsonView::Str(content)),
            ("msg_type"@, JsonView::Number(decimal_text_spec(0))),
            ("msg_id"@, JsonView::Str(msg_id)),
        ],
    )
}

/// The body that sends `content` to a user in reply to the message `msg_id`.
pub fn user_message_body(content: &str, msg_id: &str) -> (r: Json)
    ensures
        r@ == user_message_body_spec(content@, msg_id@),
{
    let mut fields: Vec<(String, Json)> = Vec::new();
    fields.push(entry("content", Json::from_str(content)));
    fields.push(entry("msg_type", Json::from_u64(0)));
    fields.push(entry("msg_id", Json::from_str(msg_id)));
    assert(fields_model(fields@) =~= seq![
        ("content"@, JsonView::Str(content@)),
        ("msg_type"@, JsonView::Number(decimal_text_spec(0))),
        ("msg_id"@, JsonView::Str(msg_id@)),
    ]);
    Json::object(fields)
}

/// The body that asks for an access token.
pub open spec fn access_token_request_spec(app_id: Seq<char>, client_secret: Seq<char>) -> JsonView {
    JsonView::Object(
        seq![("appId"@, JsonView::Str(app_id)), ("clientSecret"@, JsonView::Str(client_secret))],
    )
}

impl TokenManager {
    /// The body that asks for an access token for this bot.
    pub fn token_request(&self) -> (r: Json)
        ensures
            r@ == access_token_request_spec(self.spec_app_id(), self.spec_client_secret()),
    {
        let mut fields: Vec<(String, Json)> = Vec::new();
        fields.push(entry("appId", Json::from_str(self.app_id.as_str())));
        fields.push(entry("clientSecret", Json::from_str(self.client_secret.as_str())));
        assert(fields_model(fields@) =~= seq![
            ("appId"@, JsonView::Str(self.spec_app_id())),
            ("clientSecret"@, JsonView::Str(self.spec_client_secret())),
        ]);
        Json::object(fields)
    }
}

} // verus!
