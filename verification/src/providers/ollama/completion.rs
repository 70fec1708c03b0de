//! The streaming chat-completion protocol of the local provider: the
//! request and response wire schema, request serialization, stream-event
//! decoding, the line-oriented stream state machine, and the provider
//! binding a model to a base URL.

use vstd::prelude::*;

use crate::completion::{CompletionRequest, ProviderCredential};
use crate::json::{
    Json, JsonNum, JsonV, dv_members, lemma_dv_members_index, lemma_dv_members_len, parse_json,
    spec_parse_json,
};
use crate::models::LanguageModel;
use crate::providers::ollama::model::{OLLAMA_VOCAB_KEY, OllamaLanguageModel};
use crate::text::{dec_digits, digit_char, digit_char_exec, push_char, u64_to_string};

verus! {

/// The author of one chat message, as carried on the wire.
#[derive(Clone, Copy, Debug, Eq, PartialEq, Structural)]
pub enum Role {
    User,
    Assistant,
    System,
}

impl Role {
    /// The lowercase name this role is serialized as.
    pub open spec fn wire_name(self) -> Seq<char> {
        match self {
            Role::User => "user"@,
            Role::Assistant => "assistant"@,
            Role::System => "system"@,
        }
    }

    /// The label shown for this role.
    pub open spec fn display_spec(self) -> Seq<char> {
        match self {
            Role::User => "User"@,
            Role::Assistant => "Assistant"@,
            Role::System => "System"@,
        }
    }

    /// The label shown for this role.
    pub fn display_name(&self) -> (r: String)
        ensures
            r@ == self.display_spec(),
    {
        match *self {
            Role::User => String::from_str("User"),
            Role::Assistant => String::from_str("Assistant"),
            Role::System => String::from_str("System"),
        }
    }

    /// The deterministic successor in the cyclic order
    /// User -> Assistant -> System -> User.
    pub open spec fn cycle_spec(self) -> Role {
        match self {
            Role::User => Role::Assistant,
            Role::Assistant => Role::System,
            Role::System => Role::User,
        }
    }

    /// Replaces this role with its cyclic successor.
    pub fn cycle(&mut self)
        ensures
            *final(self) == old(self).cycle_spec(),
    {
        *self = match *self {
            Role::User => Role::Assistant,
            Role::Assistant => Role::System,
            Role::System => Role::User,
        }
    }
}

/// Cycling the roles is a fixed-point-free permutation that returns to the
/// starting role after exactly three steps, the size of the role set.
pub proof fn lemma_role_cycle_permutes(r: Role)
    ensures
        r.cycle_spec() != r,
        r.cycle_spec().cycle_spec() != r,
        r.cycle_spec().cycle_spec().cycle_spec() == r,
{
}

/// One outbound chat message.
#[derive(Debug, PartialEq, Eq)]
pub struct RequestMessage {
    pub role: Role,
    pub content: String,
}

/// The sampling temperature, held in thousandths so that the request can
/// carry and serialize it without floating point.
#[derive(Clone, Copy, Debug, PartialEq, Eq, Structural)]
pub struct Temperature {
    pub millis: u32,
}

/// One chat-completion request: the on-wire model name, the conversation
/// in order, the streaming flag, stop sequences and sampling temperature.
#[derive(Debug)]
pub struct OllamaRequest {
    pub model: String,
    pub messages: Vec<RequestMessage>,
    pub stream: bool,
    pub stop: Vec<String>,
    pub temperature: Temperature,
}

impl Default for OllamaRequest {
    /// An empty, non-streaming request with temperature zero.
    fn default() -> (r: Self)
        ensures
            r.model@ == Seq::<char>::empty(),
            r.messages@ == Seq::<RequestMessage>::empty(),
            r.stream == false,
            r.stop@ == Seq::<String>::empty(),
            r.temperature.millis == 0,
    {
        let r = OllamaRequest {
            model: String::new(),
            messages: Vec::new(),
            stream: false,
            stop: Vec::new(),
            temperature: Temperature { millis: 0 },
        };
        assert(r.messages@ =~= Seq::<RequestMessage>::empty());
        assert(r.stop@ =~= Seq::<String>::empty());
        r
    }
}

/// The lowercase character for one hexadecimal digit.
pub open spec fn hex_digit_char(d: int) -> char {
    if d < 10 {
        digit_char(d)
    } else if d == 10 {
        'a'
    } else if d == 11 {
        'b'
    } else if d == 12 {
        'c'
    } else if d == 13 {
        'd'
    } else if d == 14 {
        'e'
    } else {
        'f'
    }
}

/// How one character appears inside a JSON string literal: quote and
/// backslash escaped, the five short control escapes, all other control
/// characters as `\u00XX` with lowercase hex, everything else verbatim.
pub open spec fn escape_char(c: char) -> Seq<char> {
    if c == '"' {
        seq!['\\', '"']
    } else if c == '\\' {
        seq!['\\', '\\']
    } else if c == '\u{0008}' {
        seq!['\\', 'b']
    } else if c == '\t' {
        seq!['\\', 't']
    } else if c == '\n' {
        seq!['\\', 'n']
    } else if c == '\u{000C}' {
        seq!['\\', 'f']
    } else if c == '\r' {
        seq!['\\', 'r']
    } else if (c as u32) < 0x20 {
        seq![
            '\\',
            'u',
            '0',
            '0',
            hex_digit_char((c as u32 / 16) as int),
            hex_digit_char((c as u32 % 16) as int),
        ]
    } else {
        seq![c]
    }
}

/// The body of a JSON string literal for the given text.
pub open spec fn json_escaped(s: Seq<char>) -> Seq<char>
    decreases s.len(),
{
    if s.len() == 0 {
        Seq::empty()
    } else {
        escape_char(s[0]) + json_escaped(s.drop_first())
    }
}

/// Escaping distributes over concatenation.
pub proof fn lemma_json_escaped_concat(a: Seq<char>, b: Seq<char>)
    ensures
        json_escaped(a + b) == json_escaped(a) + json_escaped(b),
    decreases a.len(),
{
    if a.len() == 0 {
        assert(a + b =~= b);
        assert(json_escaped(a) + json_escaped(b) =~= json_escaped(b));
    } else {
        assert((a + b).drop_first() =~= a.drop_first() + b);
        lemma_json_escaped_concat(a.drop_first(), b);
        assert(json_escaped(a + b) =~= json_escaped(a) + json_escaped(b));
    }
}

/// A complete JSON string literal for the given text.
pub open spec fn quoted(s: Seq<char>) -> Seq<char> {
    seq!['"'] + json_escaped(s) + seq!['"']
}

/// The wire form of one outbound message.
pub open spec fn render_message(m: RequestMessage) -> Seq<char> {
    "{\"role\":"@ + quoted(m.role.wire_name()) + ",\"content\":"@ + quoted(m.content@) + "}"@
}

/// The comma-separated wire forms of the first `k` messages.
pub open spec fn render_messages_upto(ms: Seq<RequestMessage>, k: int) -> Seq<char>
    decreases k,
{
    if k <= 0 {
        Seq::empty()
    } else if k == 1 {
        render_message(ms[0])
    } else {
        render_messages_upto(ms, k - 1) + seq![','] + render_message(ms[k - 1])
    }
}

/// The comma-separated wire forms of the first `k` stop sequences.
pub open spec fn render_stop_upto(stop: Seq<String>, k: int) -> Seq<char>
    decreases k,
{
    if k <= 0 {
        Seq::empty()
    } else if k == 1 {
        quoted(stop[0]@)
    } else {
        render_stop_upto(stop, k - 1) + seq![','] + quoted(stop[k - 1]@)
    }
}

/// The trimmed fractional digits for a value of thousandths in 0..1000:
/// trailing zeros dropped, at least one digit kept.
pub open spec fn frac3(r: int) -> Seq<char> {
    if r % 10 != 0 {
        seq![digit_char(r / 100), digit_char((r / 10) % 10), digit_char(r % 10)]
    } else if r % 100 != 0 {
        seq![digit_char(r / 100), digit_char((r / 10) % 10)]
    } else {
        seq![digit_char(r / 100)]
    }
}

/// The wire form of the temperature: whole part, a dot, and the trimmed
/// fractional digits.
pub open spec fn render_temperature(millis: u32) -> Seq<char> {
    dec_digits(millis as int / 1000) + seq!['.'] + frac3(millis as int % 1000)
}

/// The exact wire text of a request: one JSON object with the fields
/// `model`, `messages`, `stream`, `stop` and `temperature`, in that order,
/// the conversation order preserved exactly.
pub open spec fn render_request(req: OllamaRequest) -> Seq<char> {
    "{\"model\":"@ + quoted(req.model@) + ",\"messages\":["@ + render_messages_upto(
        req.messages@,
        req.messages@.len() as int,
    ) + "],\"stream\":"@ + (if req.stream {
        "true"@
    } else {
        "false"@
    }) + ",\"stop\":["@ + render_stop_upto(req.stop@, req.stop@.len() as int) + "],\"temperature\":"@
        + render_temperature(req.temperature.millis) + "}"@
}

/// Appends the escaped body of a JSON string literal for `s`.
#[verifier::rlimit(100)]
fn append_escaped(out: &mut String, s: &str)
    ensures
        final(out)@ == old(out)@ + json_escaped(s@),
{
    let cs = crate::text::chars_of(s);
    let ghost base = out@;
    let mut k: usize = 0;
    while k < cs.len()
        invariant
            k <= cs@.len(),
            cs@ == s@,
            out@ == base + json_escaped(s@.take(k as int)),
        decreases cs@.len() - k,
    {
        let c = cs[k];
        if c == '"' {
            push_char(out, '\\');
            push_char(out, '"');
        } else if c == '\\' {
            push_char(out, '\\');
            push_char(out, '\\');
        } else if c == '\u{0008}' {
            push_char(out, '\\');
            push_char(out, 'b');
        } else if c == '\t' {
            push_char(out, '\\');
            push_char(out, 't');
        } else if c == '\n' {
            push_char(out, '\\');
            push_char(out, 'n');
        } else if c == '\u{000C}' {
            push_char(out, '\\');
            push_char(out, 'f');
        } else if c == '\r' {
            push_char(out, '\\');
            push_char(out, 'r');
        } else if (c as u32) < 0x20 {
            push_char(out, '\\');
            push_char(out, 'u');
            push_char(out, '0');
            push_char(out, '0');
            push_char(out, hex_digit_char_exec(c as u32 / 16));
            push_char(out, hex_digit_char_exec(c as u32 % 16));
        } else {
            push_char(out, c);
        }
        proof {
            assert(s@.take(k as int + 1) =~= s@.take(k as int) + seq![s@[k as int]]);
            lemma_json_escaped_concat(s@.take(k as int), seq![s@[k as int]]);
            assert(seq![s@[k as int]].drop_first() =~= Seq::<char>::empty());
            assert(json_escaped(Seq::<char>::empty()) == Seq::<char>::empty());
            assert(json_escaped(seq![s@[k as int]]) =~= escape_char(s@[k as int]));
            assert(out@ =~= base + json_escaped(s@.take(k as int + 1)));
        }
        k += 1;
    }
    assert(s@.take(cs@.len() as int) =~= s@);
}

/// The lowercase character for one hexadecimal digit.
fn hex_digit_char_exec(d: u32) -> (r: char)
    ensures
        r == hex_digit_char(d as int),
{
    if d < 10 {
        digit_char_exec(d as u64)
    } else if d == 10 {
        'a'
    } else if d == 11 {
        'b'
    } else if d == 12 {
        'c'
    } else if d == 13 {
        'd'
    } else if d == 14 {
        'e'
    } else {
        'f'
    }
}

/// Appends a complete JSON string literal for `s`.
fn append_quoted(out: &mut String, s: &str)
    ensures
        final(out)@ == old(out)@ + quoted(s@),
{
    let ghost base = out@;
    push_char(out, '"');
    append_escaped(out, s);
    push_char(out, '"');
    assert(out@ =~= base + quoted(s@));
}

impl CompletionRequest for OllamaRequest {
    open spec fn spec_data(&self) -> Seq<char> {
        render_request(*self)
    }

    /// Serializes this request to its exact wire text.
    fn data(&self) -> (r: String)
        ensures
            r@ == self.spec_data(),
    {
        let mut out = String::from_str("{\"model\":");
        append_quoted(&mut out, self.model.as_str());
        out.append(",\"messages\":[");
        let ghost head = out@;
        let mut k: usize = 0;
        while k < self.messages.len()
            invariant
                k <= self.messages@.len(),
                out@ == head + render_messages_upto(self.messages@, k as int),
            decreases self.messages@.len() - k,
        {
            if k > 0 {
                push_char(&mut out, ',');
            }
            let ghost before = out@;
            out.append("{\"role\":");
            append_quoted(
                &mut out,
                match self.messages[k].role {
                    Role::User => "user",
                    Role::Assistant => "assistant",
                    Role::System => "system",
                },
            );
            out.append(",\"content\":");
            append_quoted(&mut out, self.messages[k].content.as_str());
            out.append("}");
            proof {
                assert(before =~= head + render_messages_upto(self.messages@, k as int) + (
                if k == 0 {
                    Seq::<char>::empty()
                } else {
                    seq![',']
                }));
                assert(out@ =~= before + render_message(self.messages@[k as int]));
                assert(out@ =~= head + render_messages_upto(self.messages@, k as int + 1));
            }
            k += 1;
        }
        out.append("],\"stream\":");
        if self.stream {
            out.append("true");
        } else {
            out.append("false");
        }
        out.append(",\"stop\":[");
        let ghost head2 = out@;
        let mut k2: usize = 0;
        while k2 < self.stop.len()
            invariant
                k2 <= self.stop@.len(),
                out@ == head2 + render_stop_upto(self.stop@, k2 as int),
            decreases self.stop@.len() - k2,
        {
            if k2 > 0 {
                push_char(&mut out, ',');
            }
            let ghost before = out@;
            append_quoted(&mut out, self.stop[k2].as_str());
            proof {
                assert(before =~= head2 + render_stop_upto(self.stop@, k2 as int) + (
                if k2 == 0 {
                    Seq::<char>::empty()
                } else {
                    seq![',']
                }));
                assert(out@ =~= head2 + render_stop_upto(self.stop@, k2 as int + 1));
            }
            k2 += 1;
        }
        out.append("],\"temperature\":");
        let whole = u64_to_string((self.temperature.millis / 1000) as u64);
        out.append(whole.as_str());
        push_char(&mut out, '.');
        let r = self.temperature.millis % 1000;
        let d0 = digit_char_exec((r / 100) as u64);
        let d1 = digit_char_exec(((r / 10) % 10) as u64);
        let d2 = digit_char_exec((r % 10) as u64);
        if r % 10 != 0 {
            push_char(&mut out, d0);
            push_char(&mut out, d1);
            push_char(&mut out, d2);
        } else if r % 100 != 0 {
            push_char(&mut out, d0);
            push_char(&mut out, d1);
        } else {
            push_char(&mut out, d0);
        }
        out.append("}");
        proof {
            assert(out@ =~= render_request(*self));
        }
        out
    }
}

/// One inbound delta message; a delta may carry only a role, only content,
/// or neither.
#[derive(Debug, PartialEq, Eq)]
pub struct ResponseMessage {
    pub role: Option<Role>,
    pub content: Option<String>,
}

/// The mathematical model of one inbound delta message.
pub ghost struct ResponseMessageV {
    pub role: Option<Role>,
    pub content: Option<Seq<char>>,
}

impl ResponseMessage {
    /// The mathematical model of this message.
    pub open spec fn dv(self) -> ResponseMessageV {
        ResponseMessageV {
            role: self.role,
            content: match self.content {
                Some(s) => Some(s@),
                None => None,
            },
        }
    }
}

/// Advisory token counters echoed by the server.
#[derive(Clone, Copy, Debug, PartialEq, Eq, Structural)]
pub struct OllamaUsage {
    pub prompt_tokens: u32,
    pub completion_tokens: u32,
    pub total_tokens: u32,
}

/// One choice of a stream event: its index, the partial message, and the
/// finish marker.
#[derive(Debug, PartialEq, Eq)]
pub struct ChatChoiceDelta {
    pub index: u32,
    pub delta: ResponseMessage,
    pub finish_reason: Option<String>,
}

/// The mathematical model of one choice.
pub ghost struct ChatChoiceDeltaV {
    pub index: u32,
    pub delta: ResponseMessageV,
    pub finish_reason: Option<Seq<char>>,
}

impl ChatChoiceDelta {
    /// The mathematical model of this choice.
    pub open spec fn dv(self) -> ChatChoiceDeltaV {
        ChatChoiceDeltaV {
            index: self.index,
            delta: self.delta.dv(),
            finish_reason: match self.finish_reason {
                Some(s) => Some(s@),
                None => None,
            },
        }
    }
}

/// The models of a sequence of choices, in order.
pub open spec fn cdv_seq(cs: Seq<ChatChoiceDelta>) -> Seq<ChatChoiceDeltaV>
    decreases cs.len(),
{
    if cs.len() == 0 {
        Seq::empty()
    } else {
        seq![cs[0].dv()] + cdv_seq(cs.drop_first())
    }
}

/// Unfolding [`cdv_seq`] over a prepended choice.
pub proof fn lemma_cdv_seq_cons(c: ChatChoiceDelta, rest: Seq<ChatChoiceDelta>)
    ensures
        cdv_seq(seq![c] + rest) == seq![c.dv()] + cdv_seq(rest),
{
    let s = seq![c] + rest;
    assert(s.len() > 0);
    assert(s[0] == c);
    assert(s.drop_first() =~= rest);
}

/// [`cdv_seq`] maps index-wise and keeps the length.
pub proof fn lemma_cdv_seq_index(cs: Seq<ChatChoiceDelta>, i: int)
    requires
        0 <= i < cs.len(),
    ensures
        cdv_seq(cs).len() == cs.len(),
        cdv_seq(cs)[i] == cs[i].dv(),
    decreases cs.len(),
{
    lemma_cdv_seq_len(cs);
    if i > 0 {
        lemma_cdv_seq_index(cs.drop_first(), i - 1);
    }
}

/// [`cdv_seq`] keeps the length.
pub proof fn lemma_cdv_seq_len(cs: Seq<ChatChoiceDelta>)
    ensures
        cdv_seq(cs).len() == cs.len(),
    decreases cs.len(),
{
    if cs.len() > 0 {
        lemma_cdv_seq_len(cs.drop_first());
    }
}

/// One decoded server-sent-event frame.
#[derive(Debug, PartialEq, Eq)]
pub struct OllamaResponseStreamEvent {
    pub id: Option<String>,
    pub object: String,
    pub created: u32,
    pub model: String,
    pub choices: Vec<ChatChoiceDelta>,
    pub usage: Option<OllamaUsage>,
}

/// The mathematical model of one decoded frame.
pub ghost struct OllamaResponseStreamEventV {
    pub id: Option<Seq<char>>,
    pub object: Seq<char>,
    pub created: u32,
    pub model: Seq<char>,
    pub choices: Seq<ChatChoiceDeltaV>,
    pub usage: Option<OllamaUsage>,
}

impl OllamaResponseStreamEvent {
    /// The mathematical model of this frame.
    pub open spec fn dv(self) -> OllamaResponseStreamEventV {
        OllamaResponseStreamEventV {
            id: match self.id {
                Some(s) => Some(s@),
                None => None,
            },
            object: self.object@,
            created: self.created,
            model: self.model@,
            choices: cdv_seq(self.choices@),
            usage: self.usage,
        }
    }
}

/// The value of the first member with the given key, searching from `i`.
pub open spec fn obj_get_from(m: Seq<(Seq<char>, JsonV)>, key: Seq<char>, i: int) -> Option<JsonV>
    decreases m.len() - i when 0 <= i <= m.len()
{
    if i >= m.len() {
        None
    } else if m[i].0 == key {
        Some(m[i].1)
    } else {
        obj_get_from(m, key, i + 1)
    }
}

/// The value of the first member with the given key, if any.
pub open spec fn obj_get(m: Seq<(Seq<char>, JsonV)>, key: Seq<char>) -> Option<JsonV> {
    obj_get_from(m, key, 0)
}

/// A required unsigned field that must fit in a `u32`.
pub open spec fn json_as_u32(v: JsonV) -> Option<u32> {
    match v {
        JsonV::Num(n) => match n {
            JsonNum::Int(x) => if x <= u32::MAX {
                Some(x as u32)
            } else {
                None
            },
            JsonNum::Other => None,
        },
        _ => None,
    }
}

/// An optional string field: absent or null reads as `None`; a string
/// reads as itself; any other value is a schema violation.
pub open spec fn opt_string_field(m: Seq<(Seq<char>, JsonV)>, key: Seq<char>) -> Option<
    Option<Seq<char>>,
> {
    match obj_get(m, key) {
        None => Some(None),
        Some(v) => match v {
            JsonV::Null => Some(None),
            JsonV::Str(s) => Some(Some(s)),
            _ => None,
        },
    }
}

/// The role a wire name denotes.
pub open spec fn role_of_wire(s: Seq<char>) -> Option<Role> {
    if s == "user"@ {
        Some(Role::User)
    } else if s == "assistant"@ {
        Some(Role::Assistant)
    } else if s == "system"@ {
        Some(Role::System)
    } else {
        None
    }
}

/// Decodes one delta message object.
pub open spec fn message_of(v: JsonV) -> Option<ResponseMessageV> {
    match v {
        JsonV::Obj(m) => {
            let role = match obj_get(m, "role"@) {
                None => Some(None),
                Some(rv) => match rv {
                    JsonV::Null => Some(None),
                    JsonV::Str(s) => match role_of_wire(s) {
                        Some(r) => Some(Some(r)),
                        None => None,
                    },
                    _ => None,
                },
            };
            match role {
                None => None,
                Some(role) => match opt_string_field(m, "content"@) {
                    None => None,
                    Some(content) => Some(ResponseMessageV { role, content }),
                },
            }
        },
        _ => None,
    }
}

/// Decodes one choice object: `index` and `delta` are required,
/// `finish_reason` is optional.
pub open spec fn choice_of(v: JsonV) -> Option<ChatChoiceDeltaV> {
    match v {
        JsonV::Obj(m) => match obj_get(m, "index"@) {
            None => None,
            Some(iv) => match json_as_u32(iv) {
                None => None,
                Some(index) => match obj_get(m, "delta"@) {
                    None => None,
                    Some(dv) => match message_of(dv) {
                        None => None,
                        Some(delta) => match opt_string_field(m, "finish_reason"@) {
                            None => None,
                            Some(finish_reason) => Some(
                                ChatChoiceDeltaV { index, delta, finish_reason },
                            ),
                        },
                    },
                },
            },
        },
        _ => None,
    }
}

/// Decodes the usage object: all three counters are required.
pub open spec fn usage_of(v: JsonV) -> Option<OllamaUsage> {
    match v {
        JsonV::Obj(m) => match obj_get(m, "prompt_tokens"@) {
            None => None,
            Some(pv) => match json_as_u32(pv) {
                None => None,
                Some(prompt_tokens) => match obj_get(m, "completion_tokens"@) {
                    None => None,
                    Some(cv) => match json_as_u32(cv) {
                        None => None,
                        Some(completion_tokens) => match obj_get(m, "total_tokens"@) {
                            None => None,
                            Some(tv) => match json_as_u32(tv) {
                                None => None,
                                Some(total_tokens) => Some(
                                    OllamaUsage {
                                        prompt_tokens,
                                        completion_tokens,
                                        total_tokens,
                                    },
                                ),
                            },
                        },
                    },
                },
            },
        },
        _ => None,
    }
}

/// Decodes the choices starting at index `i`.
pub open spec fn choices_from(items: Seq<JsonV>, i: int) -> Option<Seq<ChatChoiceDeltaV>>
    decreases items.len() - i when 0 <= i <= items.len()
{
    if i >= items.len() {
        Some(Seq::empty())
    } else {
        match choice_of(items[i]) {
            None => None,
            Some(c) => match choices_from(items, i + 1) {
                None => None,
                Some(rest) => Some(seq![c] + rest),
            },
        }
    }
}

/// Decodes one stream-event frame: `object`, `created`, `model` and
/// `choices` are required; `id` and `usage` are optional.
pub open spec fn event_of(v: JsonV) -> Option<OllamaResponseStreamEventV> {
    match v {
        JsonV::Obj(m) => match opt_string_field(m, "id"@) {
            None => None,
            Some(id) => match obj_get(m, "object"@) {
                Some(JsonV::Str(object)) => match obj_get(m, "created"@) {
                    None => None,
                    Some(cv) => match json_as_u32(cv) {
                        None => None,
                        Some(created) => match obj_get(m, "model"@) {
                            Some(JsonV::Str(model)) => match obj_get(m, "choices"@) {
                                Some(JsonV::Arr(items)) => match choices_from(items, 0) {
                                    None => None,
                                    Some(choices) => match obj_get(m, "usage"@) {
                                        None => Some(
                                            OllamaResponseStreamEventV {
                                                id,
                                                object,
                                                created,
                                                model,
                                                choices,
                                                usage: None,
                                            },
                                        ),
                                        Some(uv) => match uv {
                                            JsonV::Null => Some(
                                                OllamaResponseStreamEventV {
                                                    id,
                                                    object,
                                                    created,
                                                    model,
                                                    choices,
                                                    usage: None,
                                                },
                                            ),
                                            _ => match usage_of(uv) {
                                                None => None,
                                                Some(u) => Some(
                                                    OllamaResponseStreamEventV {
                                                        id,
                                                        object,
                                                        created,
                                                        model,
                                                        choices,
                                                        usage: Some(u),
                                                    },
                                                ),
                                            },
                                        },
                                    },
                                },
                                _ => None,
                            },
                            _ => None,
                        },
                    },
                },
                _ => None,
            },
        },
        _ => None,
    }
}

fn string_eq_lit(s: &String, lit: &str) -> (r: bool)
    ensures
        r == (s@ == lit@),
{
    let l = String::from_str(lit);
    s.eq(&l)
}

fn exec_obj_get<'a>(members: &'a Vec<(String, Json)>, key: &str) -> (r: Option<&'a Json>)
    ensures
        match r {
            Some(v) => obj_get(dv_members(members@), key@) == Some(v.dv()),
            None => obj_get(dv_members(members@), key@) is None,
        },
{
    let ghost d = dv_members(members@);
    proof {
        lemma_dv_members_len(members@);
    }
    let mut i: usize = 0;
    while i < members.len()
        invariant
            i <= members@.len(),
            d == dv_members(members@),
            d.len() == members@.len(),
            obj_get_from(d, key@, 0) == obj_get_from(d, key@, i as int),
        decreases members@.len() - i,
    {
        proof {
            lemma_dv_members_index(members@, i as int);
        }
        if string_eq_lit(&members[i].0, key) {
            return Some(&members[i].1);
        }
        i += 1;
    }
    None
}

fn exec_json_as_u32(v: &Json) -> (r: Option<u32>)
    ensures
        match r {
            Some(x) => json_as_u32(v.dv()) == Some(x),
            None => json_as_u32(v.dv()) is None,
        },
{
    match v {
        Json::Num(n) => match n {
            JsonNum::Int(x) => if *x <= 0xFFFF_FFFFu64 {
                Some(*x as u32)
            } else {
                None
            },
            JsonNum::Other => None,
        },
        _ => None,
    }
}

fn exec_opt_string_field(members: &Vec<(String, Json)>, key: &str) -> (r: Option<Option<String>>)
    ensures
        match r {
            Some(o) => match o {
                Some(s) => opt_string_field(dv_members(members@), key@) == Some(Some(s@)),
                None => opt_string_field(dv_members(members@), key@) == Some(None::<Seq<char>>),
            },
            None => opt_string_field(dv_members(members@), key@) is None,
        },
{
    match exec_obj_get(members, key) {
        None => Some(None),
        Some(v) => match v {
            Json::Null => Some(None),
            Json::Str(s) => Some(Some(s.clone())),
            _ => None,
        },
    }
}

fn exec_role_of_wire(s: &String) -> (r: Option<Role>)
    ensures
        r == role_of_wire(s@),
{
    if string_eq_lit(s, "user") {
        Some(Role::User)
    } else if string_eq_lit(s, "assistant") {
        Some(Role::Assistant)
    } else if string_eq_lit(s, "system") {
        Some(Role::System)
    } else {
        None
    }
}

fn exec_message_of(v: &Json) -> (r: Option<ResponseMessage>)
    ensures
        match r {
            Some(msg) => message_of(v.dv()) == Some(msg.dv()),
            None => message_of(v.dv()) is None,
        },
{
    match v {
        Json::Obj(m) => {
            let role = match exec_obj_get(m, "role") {
                None => Some(None),
                Some(rv) => match rv {
                    Json::Null => Some(None),
                    Json::Str(s) => match exec_role_of_wire(s) {
                        Some(role) => Some(Some(role)),
                        None => {
                            return None;
                        },
                    },
                    _ => {
                        return None;
                    },
                },
            };
            let role = match role {
                Some(role) => role,
                None => {
                    return None;
                },
            };
            match exec_opt_string_field(m, "content") {
                None => None,
                Some(content) => Some(ResponseMessage { role, content }),
            }
        },
        _ => None,
    }
}

fn exec_choice_of(v: &Json) -> (r: Option<ChatChoiceDelta>)
    ensures
        match r {
            Some(c) => choice_of(v.dv()) == Some(c.dv()),
            None => choice_of(v.dv()) is None,
        },
{
    match v {
        Json::Obj(m) => {
            let index = match exec_obj_get(m, "index") {
                None => {
                    return None;
                },
                Some(iv) => match exec_json_as_u32(iv) {
                    None => {
                        return None;
                    },
                    Some(index) => index,
                },
            };
            let delta = match exec_obj_get(m, "delta") {
                None => {
                    return None;
                },
                Some(dval) => match exec_message_of(dval) {
                    None => {
                        return None;
                    },
                    Some(delta) => delta,
                },
            };
            match exec_opt_string_field(m, "finish_reason") {
                None => None,
                Some(finish_reason) => Some(ChatChoiceDelta { index, delta, finish_reason }),
            }
        },
        _ => None,
    }
}

fn exec_usage_of(v: &Json) -> (r: Option<OllamaUsage>)
    ensures
        match r {
            Some(u) => usage_of(v.dv()) == Some(u),
            None => usage_of(v.dv()) is None,
        },
{
    match v {
        Json::Obj(m) => {
            let prompt_tokens = match exec_obj_get(m, "prompt_tokens") {
                None => {
                    return None;
                },
                Some(pv) => match exec_json_as_u32(pv) {
                    None => {
                        return None;
                    },
                    Some(x) => x,
                },
            };
            let completion_tokens = match exec_obj_get(m, "completion_tokens") {
                None => {
                    return None;
                },
                Some(cv) => match exec_json_as_u32(cv) {
                    None => {
                        return None;
                    },
                    Some(x) => x,
                },
            };
            match exec_obj_get(m, "total_tokens") {
                None => None,
                Some(tv) => match exec_json_as_u32(tv) {
                    None => None,
                    Some(total_tokens) => Some(
                        OllamaUsage { prompt_tokens, completion_tokens, total_tokens },
                    ),
                },
            }
        },
        _ => None,
    }
}

fn exec_choices_from(items: &Vec<Json>, i: usize) -> (r: Option<Vec<ChatChoiceDelta>>)
    requires
        i <= items@.len(),
    ensures
        match r {
            Some(cs) => choices_from(crate::json::dv_seq(items@), i as int) == Some(cdv_seq(cs@)),
            None => choices_from(crate::json::dv_seq(items@), i as int) is None,
        },
    decreases items@.len() - i,
{
    proof {
        crate::json::lemma_dv_seq_len(items@);
    }
    if i == items.len() {
        let cs: Vec<ChatChoiceDelta> = Vec::new();
        assert(cdv_seq(cs@) =~= Seq::<ChatChoiceDeltaV>::empty());
        Some(cs)
    } else {
        proof {
            crate::json::lemma_dv_seq_index(items@, i as int);
        }
        match exec_choice_of(&items[i]) {
            None => None,
            Some(c) => match exec_choices_from(items, i + 1) {
                None => None,
                Some(rest) => {
                    let ghost rest_view = rest@;
                    let ghost c_dv = c.dv();
                    let mut cs = rest;
                    cs.insert(0, c);
                    proof {
                        assert(cs@ =~= seq![cs@[0]] + rest_view);
                        lemma_cdv_seq_cons(cs@[0], rest_view);
                    }
                    assert(cdv_seq(cs@) == seq![c_dv] + cdv_seq(rest_view));
                    Some(cs)
                },
            },
        }
    }
}

/// Decodes one stream-event frame from its JSON value; `None` exactly when
/// the value does not match the frame schema.
pub fn exec_event_of(v: &Json) -> (r: Option<OllamaResponseStreamEvent>)
    ensures
        match r {
            Some(e) => event_of(v.dv()) == Some(e.dv()),
            None => event_of(v.dv()) is None,
        },
{
    match v {
        Json::Obj(m) => {
            let id = match exec_opt_string_field(m, "id") {
                None => {
                    return None;
                },
                Some(id) => id,
            };
            let object = match exec_obj_get(m, "object") {
                Some(ov) => match ov {
                    Json::Str(s) => s.clone(),
                    _ => {
                        return None;
                    },
                },
                None => {
                    return None;
                },
            };
            let created = match exec_obj_get(m, "created") {
                None => {
                    return None;
                },
                Some(cv) => match exec_json_as_u32(cv) {
                    None => {
                        return None;
                    },
                    Some(x) => x,
                },
            };
            let model = match exec_obj_get(m, "model") {
                Some(mv) => match mv {
                    Json::Str(s) => s.clone(),
                    _ => {
                        return None;
                    },
                },
                None => {
                    return None;
                },
            };
            let choices = match exec_obj_get(m, "choices") {
                Some(chv) => match chv {
                    Json::Arr(items) => match exec_choices_from(items, 0) {
                        None => {
                            return None;
                        },
                        Some(cs) => cs,
                    },
                    _ => {
                        return None;
                    },
                },
                None => {
                    return None;
                },
            };
            let usage = match exec_obj_get(m, "usage") {
                None => None,
                Some(uv) => match uv {
                    Json::Null => None,
                    _ => match exec_usage_of(uv) {
                        None => {
                            return None;
                        },
                        Some(u) => Some(u),
                    },
                },
            };
            Some(OllamaResponseStreamEvent { id, object, created, model, choices, usage })
        },
        _ => None,
    }
}

/// Whether a line carries a frame: it must begin with the event marker
/// `"data: "`.
pub open spec fn is_data_line(l: Seq<char>) -> bool {
    l.len() >= 6 && l[0] == 'd' && l[1] == 'a' && l[2] == 't' && l[3] == 'a' && l[4] == ':'
        && l[5] == ' '
}

/// The text after the event marker.
pub open spec fn line_payload(l: Seq<char>) -> Seq<char> {
    l.skip(6)
}

/// What one line yields: `None` for a line without the event marker
/// (discarded as keep-alive tolerance), `Some(None)` for a marked line
/// whose payload is not a well-formed frame, and `Some(Some(e))` for a
/// decoded frame.
pub open spec fn line_event(l: Seq<char>) -> Option<Option<OllamaResponseStreamEventV>> {
    if !is_data_line(l) {
        None
    } else {
        match spec_parse_json(line_payload(l)) {
            None => Some(None),
            Some(v) => match event_of(v) {
                None => Some(None),
                Some(e) => Some(Some(e)),
            },
        }
    }
}

/// Whether a frame terminates the stream: its last choice carries a
/// non-empty finish reason.
pub open spec fn event_done(e: OllamaResponseStreamEventV) -> bool {
    e.choices.len() > 0 && match e.choices.last().finish_reason {
        Some(r) => r.len() > 0,
        None => false,
    }
}

/// Decodes one line of the event stream: `None` for a line without the
/// event marker, `Some(None)` for a marked line that is not a well-formed
/// frame, `Some(Some(e))` for a decoded frame.
pub fn parse_line(line: &str) -> (r: Option<Option<OllamaResponseStreamEvent>>)
    ensures
        match r {
            None => line_event(line@) is None,
            Some(o) => match o {
                None => line_event(line@) == Some(None::<OllamaResponseStreamEventV>),
                Some(e) => line_event(line@) == Some(Some(e.dv())),
            },
        },
{
    let n = line.unicode_len();
    if n < 6 {
        return None;
    }
    if line.get_char(0) != 'd' || line.get_char(1) != 'a' || line.get_char(2) != 't'
        || line.get_char(3) != 'a' || line.get_char(4) != ':' || line.get_char(5) != ' ' {
        return None;
    }
    let payload = line.substring_char(6, n);
    assert(payload@ =~= line@.skip(6));
    match parse_json(payload) {
        None => Some(None),
        Some(j) => match exec_event_of(&j) {
            None => Some(None),
            Some(e) => Some(Some(e)),
        },
    }
}

/// Whether a decoded frame terminates the stream.
pub fn exec_event_done(e: &OllamaResponseStreamEvent) -> (r: bool)
    ensures
        r == event_done(e.dv()),
{
    let n = e.choices.len();
    if n == 0 {
        proof {
            lemma_cdv_seq_len(e.choices@);
        }
        false
    } else {
        proof {
            lemma_cdv_seq_index(e.choices@, n as int - 1);
        }
        match &e.choices[n - 1].finish_reason {
            Some(s) => !s.as_str().is_empty(),
            None => false,
        }
    }
}

/// A malformed frame on the event stream: undecodable payload after the
/// event marker.
#[derive(Clone, Copy, Debug, PartialEq, Eq, Structural)]
pub enum ProtocolError {
    MalformedFrame,
}

impl ProtocolError {
    /// A human-readable description of the failure.
    pub fn message(&self) -> (r: String)
        ensures
            r@ == "malformed frame on the event stream"@,
    {
        String::from_str("malformed frame on the event stream")
    }
}

/// Where the streaming loop stands.
#[derive(Clone, Copy, Debug, PartialEq, Eq, Structural)]
pub enum StreamPhase {
    /// Reading lines and forwarding frames.
    Streaming,
    /// A frame with a non-empty finish reason arrived; no further lines
    /// are read.
    Done,
    /// The consumer dropped its receiver; no further lines are read and
    /// nothing more is sent.
    Aborted,
    /// A malformed frame ended the stream fail-fast.
    Failed,
}

/// The decision core of the streaming loop. The surrounding task reads one
/// line at a time while [`Self::wants_more`] holds, hands each line to
/// [`Self::on_line`], sends the returned item (if any) to the consumer, and
/// reports a failed send through [`Self::on_send_failed`].
pub struct StreamMachine {
    pub phase: StreamPhase,
}

impl StreamMachine {
    pub fn new() -> (r: StreamMachine)
        ensures
            r.phase is Streaming,
    {
        StreamMachine { phase: StreamPhase::Streaming }
    }

    /// Whether the loop should read another line.
    pub fn wants_more(&self) -> (r: bool)
        ensures
            r == (self.phase is Streaming),
    {
        matches!(self.phase, StreamPhase::Streaming)
    }

    /// Feeds one line: an unmarked line is discarded and streaming goes
    /// on; a malformed frame yields an error item and fails the stream; a
    /// decoded frame yields it, ending the stream exactly when the frame
    /// carries a non-empty finish reason on its last choice.
    pub fn on_line(&mut self, line: &str) -> (out: Option<
        Result<OllamaResponseStreamEvent, ProtocolError>,
    >)
        requires
            old(self).phase is Streaming,
        ensures
            match line_event(line@) {
                None => final(self).phase is Streaming && out is None,
                Some(o) => match o {
                    None => final(self).phase is Failed && (out matches Some(item) && item is Err),
                    Some(ev) => out matches Some(item) && item matches Ok(e) && e.dv() == ev && (
                    if event_done(ev) {
                        final(self).phase is Done
                    } else {
                        final(self).phase is Streaming
                    }),
                },
            },
    {
        match parse_line(line) {
            None => None,
            Some(o) => match o {
                None => {
                    self.phase = StreamPhase::Failed;
                    Some(Err(ProtocolError::MalformedFrame))
                },
                Some(e) => {
                    if exec_event_done(&e) {
                        self.phase = StreamPhase::Done;
                    }
                    Some(Ok(e))
                },
            },
        }
    }

    /// Records that the consumer dropped its receiver: the stream is
    /// aborted and no further lines are read.
    pub fn on_send_failed(&mut self)
        ensures
            final(self).phase is Aborted,
    {
        self.phase = StreamPhase::Aborted;
    }
}

/// The views of a sequence of lines.
pub open spec fn lines_dv(lines: Seq<String>) -> Seq<Seq<char>>
    decreases lines.len(),
{
    if lines.len() == 0 {
        Seq::empty()
    } else {
        seq![lines[0]@] + lines_dv(lines.drop_first())
    }
}

/// [`lines_dv`] maps index-wise and keeps the length.
pub proof fn lemma_lines_dv_index(lines: Seq<String>, i: int)
    requires
        0 <= i < lines.len(),
    ensures
        lines_dv(lines).len() == lines.len(),
        lines_dv(lines)[i] == lines[i]@,
    decreases lines.len(),
{
    lemma_lines_dv_len(lines);
    if i > 0 {
        lemma_lines_dv_index(lines.drop_first(), i - 1);
    }
}

/// [`lines_dv`] keeps the length.
pub proof fn lemma_lines_dv_len(lines: Seq<String>)
    ensures
        lines_dv(lines).len() == lines.len(),
    decreases lines.len(),
{
    if lines.len() > 0 {
        lemma_lines_dv_len(lines.drop_first());
    }
}

/// The models of the forwarded items: a decoded frame, or `None` for the
/// error item a malformed frame yields.
pub open spec fn odv_seq(items: Seq<Result<OllamaResponseStreamEvent, ProtocolError>>) -> Seq<
    Option<OllamaResponseStreamEventV>,
>
    decreases items.len(),
{
    if items.len() == 0 {
        Seq::empty()
    } else {
        seq![
            match items[0] {
                Ok(e) => Some(e.dv()),
                Err(_) => None,
            },
        ] + odv_seq(items.drop_first())
    }
}

/// Unfolding [`odv_seq`] over a prepended item.
pub proof fn lemma_odv_seq_cons(
    item: Result<OllamaResponseStreamEvent, ProtocolError>,
    rest: Seq<Result<OllamaResponseStreamEvent, ProtocolError>>,
)
    ensures
        odv_seq(seq![item] + rest) == seq![
            match item {
                Ok(e) => Some(e.dv()),
                Err(_) => None,
            },
        ] + odv_seq(rest),
{
    let s = seq![item] + rest;
    assert(s.len() > 0);
    assert(s[0] == item);
    assert(s.drop_first() =~= rest);
}

/// What a whole run of the streaming loop over the given lines yields,
/// starting at line `i`: the forwarded items in order, and the position
/// after the last line read. Lines without the event marker are discarded;
/// a malformed frame yields its error item and ends the run; a frame with
/// a non-empty finish reason is forwarded and ends the run; no line after
/// the ending line is read.
pub open spec fn stream_run(lines: Seq<Seq<char>>, i: int) -> (Seq<
    Option<OllamaResponseStreamEventV>,
>, int)
    decreases lines.len() - i when 0 <= i <= lines.len()
{
    if i >= lines.len() {
        (Seq::empty(), i)
    } else {
        match line_event(lines[i]) {
            None => stream_run(lines, i + 1),
            Some(o) => match o {
                None => (seq![None::<OllamaResponseStreamEventV>], i + 1),
                Some(ev) => if event_done(ev) {
                    (seq![Some(ev)], i + 1)
                } else {
                    let rest = stream_run(lines, i + 1);
                    (seq![Some(ev)] + rest.0, rest.1)
                },
            },
        }
    }
}

fn run_lines_from(lines: &Vec<String>, i: usize) -> (r: (
    Vec<Result<OllamaResponseStreamEvent, ProtocolError>>,
    usize,
))
    requires
        i <= lines@.len(),
    ensures
        odv_seq(r.0@) == stream_run(lines_dv(lines@), i as int).0,
        r.1 as int == stream_run(lines_dv(lines@), i as int).1,
        i <= r.1 <= lines@.len(),
    decreases lines@.len() - i,
{
    proof {
        lemma_lines_dv_len(lines@);
    }
    if i == lines.len() {
        let items: Vec<Result<OllamaResponseStreamEvent, ProtocolError>> = Vec::new();
        assert(odv_seq(items@) =~= Seq::<Option<OllamaResponseStreamEventV>>::empty());
        (items, i)
    } else {
        proof {
            lemma_lines_dv_index(lines@, i as int);
        }
        match parse_line(lines[i].as_str()) {
            None => run_lines_from(lines, i + 1),
            Some(o) => match o {
                None => {
                    let mut items: Vec<Result<OllamaResponseStreamEvent, ProtocolError>> =
                        Vec::new();
                    items.push(Err(ProtocolError::MalformedFrame));
                    proof {
                        assert(items@ =~= seq![items@[0]] + Seq::<
                            Result<OllamaResponseStreamEvent, ProtocolError>,
                        >::empty());
                        lemma_odv_seq_cons(
                            items@[0],
                            Seq::<Result<OllamaResponseStreamEvent, ProtocolError>>::empty(),
                        );
                        assert(odv_seq(items@) =~= seq![None::<OllamaResponseStreamEventV>]);
                    }
                    (items, i + 1)
                },
                Some(e) => {
                    let ghost e_dv = e.dv();
                    if exec_event_done(&e) {
                        let mut items: Vec<Result<OllamaResponseStreamEvent, ProtocolError>> =
                            Vec::new();
                        items.push(Ok(e));
                        proof {
                            assert(items@ =~= seq![items@[0]] + Seq::<
                                Result<OllamaResponseStreamEvent, ProtocolError>,
                            >::empty());
                            lemma_odv_seq_cons(
                                items@[0],
                                Seq::<Result<OllamaResponseStreamEvent, ProtocolError>>::empty(),
                            );
                            assert(odv_seq(items@) =~= seq![Some(e_dv)]);
                        }
                        (items, i + 1)
                    } else {
                        let (rest, end) = run_lines_from(lines, i + 1);
                        let ghost rest_view = rest@;
                        let mut items = rest;
                        items.insert(0, Ok(e));
                        proof {
                            assert(items@ =~= seq![items@[0]] + rest_view);
                            lemma_odv_seq_cons(items@[0], rest_view);
                            assert(odv_seq(items@) =~= seq![Some(e_dv)] + odv_seq(rest_view));
                        }
                        (items, end)
                    }
                },
            },
        }
    }
}

/// Runs the streaming loop over the given lines, as the background task
/// would read them in order: the forwarded items, and how many lines were
/// read (no line after a terminating frame is touched).
pub fn run_lines(lines: &Vec<String>) -> (r: (
    Vec<Result<OllamaResponseStreamEvent, ProtocolError>>,
    usize,
))
    ensures
        odv_seq(r.0@) == stream_run(lines_dv(lines@), 0).0,
        r.1 as int == stream_run(lines_dv(lines@), 0).1,
        r.1 <= lines@.len(),
{
    run_lines_from(lines, 0)
}

proof fn lemma_stream_run_shift(lines: Seq<Seq<char>>, p: int, l: Seq<char>, j: int)
    requires
        0 <= p <= j <= lines.len(),
    ensures
        stream_run(lines.insert(p, l), j + 1).0 == stream_run(lines, j).0,
    decreases lines.len() - j,
{
    let ins = lines.insert(p, l);
    assert(ins.len() == lines.len() + 1);
    if j < lines.len() {
        assert(ins[j + 1] == lines[j]);
        lemma_stream_run_shift(lines, p, l, j + 1);
    }
}

/// A line without the event marker (a blank keep-alive line, a comment),
/// inserted anywhere among the lines, leaves the forwarded items exactly
/// as they were.
pub proof fn lemma_keepalive_line_ignored(lines: Seq<Seq<char>>, p: int, l: Seq<char>)
    requires
        0 <= p <= lines.len(),
        !is_data_line(l),
    ensures
        stream_run(lines.insert(p, l), 0).0 == stream_run(lines, 0).0,
{
    lemma_keepalive_aux(lines, p, l, 0);
}

proof fn lemma_keepalive_aux(lines: Seq<Seq<char>>, p: int, l: Seq<char>, i: int)
    requires
        0 <= i <= p <= lines.len(),
        !is_data_line(l),
    ensures
        stream_run(lines.insert(p, l), i).0 == stream_run(lines, i).0,
    decreases lines.len() - i,
{
    let ins = lines.insert(p, l);
    assert(ins.len() == lines.len() + 1);
    if i == p {
        assert(ins[i] == l);
        assert(line_event(l) is None);
        lemma_stream_run_shift(lines, p, l, i);
    } else {
        assert(ins[i] == lines[i]);
        lemma_keepalive_aux(lines, p, l, i + 1);
    }
}

/// The error message extracted from a structured error body: present
/// exactly when the body is a JSON object whose `error.message` is a
/// non-empty string.
pub open spec fn extracted_error_message(body: Seq<char>) -> Option<Seq<char>> {
    match spec_parse_json(body) {
        Some(v) => match v {
            JsonV::Obj(m) => match obj_get(m, "error"@) {
                Some(ev) => match ev {
                    JsonV::Obj(em) => match obj_get(em, "message"@) {
                        Some(mv) => match mv {
                            JsonV::Str(s) => if s.len() > 0 {
                                Some(s)
                            } else {
                                None
                            },
                            _ => None,
                        },
                        None => None,
                    },
                    _ => None,
                },
                None => None,
            },
            _ => None,
        },
        None => None,
    }
}

/// The message a failed request surfaces: the structured error message
/// when the body carries a non-empty one, else the raw status code and
/// body verbatim, so that the caller never sees a silently empty error.
pub open spec fn server_error_spec(status: u16, body: Seq<char>) -> Seq<char> {
    match extracted_error_message(body) {
        Some(msg) => "Failed to connect to OpenAI API: "@ + msg,
        None => "Failed to connect to OpenAI API: "@ + dec_digits(status as int) + seq![' ']
            + body,
    }
}

/// Builds the error message for a non-success response.
pub fn server_error_message(status: u16, body: &str) -> (r: String)
    ensures
        r@ == server_error_spec(status, body@),
{
    let mut found: Option<String> = None;
    match parse_json(body) {
        Some(j) => match &j {
            Json::Obj(m) => match exec_obj_get(m, "error") {
                Some(ev) => match ev {
                    Json::Obj(em) => match exec_obj_get(em, "message") {
                        Some(mv) => match mv {
                            Json::Str(s) => if !s.as_str().is_empty() {
                                found = Some(s.clone());
                            },
                            _ => {},
                        },
                        None => {},
                    },
                    _ => {},
                },
                None => {},
            },
            _ => {},
        },
        None => {},
    }
    match found {
        Some(msg) => {
            let mut out = String::from_str("Failed to connect to OpenAI API: ");
            out.append(msg.as_str());
            out
        },
        None => {
            let mut out = String::from_str("Failed to connect to OpenAI API: ");
            let st = u64_to_string(status as u64);
            out.append(st.as_str());
            push_char(&mut out, ' ');
            out.append(body);
            out
        },
    }
}

/// The text fragment one frame contributes: the content of the last
/// choice's delta (empty text when the content field is absent), or
/// nothing for a frame without choices, which is benign and skipped.
pub open spec fn delta_fragment_spec(e: OllamaResponseStreamEventV) -> Option<Seq<char>> {
    if e.choices.len() == 0 {
        None
    } else {
        match e.choices.last().delta.content {
            Some(c) => Some(c),
            None => Some(Seq::empty()),
        }
    }
}

/// Reduces one frame to its text fragment.
pub fn delta_fragment(e: &OllamaResponseStreamEvent) -> (r: Option<String>)
    ensures
        match r {
            Some(s) => delta_fragment_spec(e.dv()) == Some(s@),
            None => delta_fragment_spec(e.dv()) is None,
        },
{
    let n = e.choices.len();
    if n == 0 {
        proof {
            lemma_cdv_seq_len(e.choices@);
        }
        None
    } else {
        proof {
            lemma_cdv_seq_index(e.choices@, n as int - 1);
        }
        match &e.choices[n - 1].delta.content {
            Some(s) => Some(s.clone()),
            None => Some(String::new()),
        }
    }
}

/// A completion provider for the local server: a model, the base URL, and
/// the streaming protocol above. Cloning it duplicates the configuration;
/// no connection is held.
#[derive(Clone)]
pub struct OllamaCompletionProvider {
    api_url: String,
    model: OllamaLanguageModel,
}

impl OllamaCompletionProvider {
    /// The base URL this provider sends requests to.
    pub closed spec fn spec_api_url(&self) -> Seq<char> {
        self.api_url@
    }

    /// The model this provider is bound to.
    pub closed spec fn spec_model(&self) -> OllamaLanguageModel {
        self.model
    }

    /// Binds a base URL and a model loaded under the given name.
    pub fn new(api_url: String, model_name: String) -> (r: OllamaCompletionProvider)
        ensures
            r.spec_api_url() == api_url@,
            r.spec_model().spec_name() == model_name@,
            r.spec_model().spec_vocab() == Some(OLLAMA_VOCAB_KEY@),
            r.spec_model().spec_capacity() == Some(
                crate::providers::ollama::model::OLLAMA_CAPACITY,
            ),
    {
        let model = OllamaLanguageModel::load(model_name.as_str());
        OllamaCompletionProvider { api_url, model }
    }

    /// The local server needs no credential.
    pub fn has_credentials(&self) -> (r: bool)
        ensures
            r == true,
    {
        true
    }

    /// The local server needs no credential.
    pub fn retrieve_credentials(&self) -> (r: ProviderCredential)
        ensures
            r is NotNeeded,
    {
        ProviderCredential::NotNeeded
    }

    /// A read-only view of the bound model, for capacity and truncation
    /// planning before a request is issued.
    pub fn base_model(&self) -> (r: &OllamaLanguageModel)
        ensures
            *r == self.spec_model(),
    {
        &self.model
    }

    /// The URL a completion request is posted to.
    pub fn request_url(&self) -> (r: String)
        ensures
            r@ == self.spec_api_url() + "/chat/completions"@,
    {
        let mut u = self.api_url.clone();
        u.append("/chat/completions");
        u
    }
}

} // verus!
