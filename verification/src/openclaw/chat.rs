//! Chat requests: settling the message, keys and timeout, and the agent
//! call with its JSON parameters.
use vstd::prelude::*;
use crate::json::{
    json_error_text, json_object_text, keys_ascending, string_object_json, text_less,
};
use crate::openclaw::runtime::{CommandRequest, OpenClawError, OpenClawRuntime, OpenClawRuntimeConfig, clamp};
use crate::text::{append_str, decimal, decimal_string, is_blank, is_blank_text, owned, trim, trimmed};

verus! {

/// A message for the OpenClaw agent.
#[derive(Debug)]
pub struct OpenClawChatRequest {
    pub message: String,
    pub session_key: Option<String>,
    pub idempotency_key: Option<String>,
    pub timeout_ms: Option<u64>,
}

/// A chat request whose values are settled: the trimmed message, the keys
/// and the time the agent may take.
#[derive(Debug)]
pub struct ChatPlan {
    message: String,
    idempotency_key: String,
    session_key: String,
    timeout_ms: u64,
}

/// `o` holds text that is not blank.
pub open spec fn usable_text(o: Option<String>) -> bool {
    o matches Some(s) && !is_blank(s@)
}

/// The text of `o` where it is not blank, else `fallback`.
pub open spec fn chosen_text(o: Option<String>, fallback: Seq<char>) -> Seq<char> {
    match o {
        Some(s) => if !is_blank(s@) {
            s@
        } else {
            fallback
        },
        None => fallback,
    }
}

/// The error for a blank chat message.
pub open spec fn is_empty_message_error(e: OpenClawError) -> bool {
    e matches OpenClawError::BadRequest(m) && m@ == "message nao pode ser vazio"@
}

/// The settled values of a chat request: message, idempotency key, session
/// key and timeout, where `generated_key` stands in for a missing key.
pub open spec fn chat_plan_of(
    cfg: OpenClawRuntimeConfig,
    request: OpenClawChatRequest,
    generated_key: Seq<char>,
) -> (Seq<char>, Seq<char>, Seq<char>, int) {
    (
        trimmed(request.message@),
        chosen_text(request.idempotency_key, generated_key),
        chosen_text(request.session_key, cfg.session_key@),
        chat_timeout_ms(cfg, request),
    )
}

/// The members of the JSON parameters of a chat call, in the order of
/// their keys.
pub open spec fn chat_param_entries(plan: (Seq<char>, Seq<char>, Seq<char>, int)) -> Seq<
    (Seq<char>, Seq<char>),
> {
    seq![("idempotencyKey"@, plan.1), ("message"@, plan.0), ("sessionKey"@, plan.2)]
}

/// The JSON parameters of a chat call: the idempotency key, the message
/// and the session key, as a compact JSON object.
pub open spec fn chat_params_text(plan: (Seq<char>, Seq<char>, Seq<char>, int)) -> Seq<char> {
    json_object_text(chat_param_entries(plan))
}

/// The keys of the chat parameters come in increasing order.
pub proof fn lemma_chat_param_keys_ascending(plan: (Seq<char>, Seq<char>, Seq<char>, int))
    ensures
        keys_ascending(chat_param_entries(plan)),
{
    reveal_strlit("idempotencyKey");
    reveal_strlit("message");
    reveal_strlit("sessionKey");
    let e = chat_param_entries(plan);
    assert(text_less("idempotencyKey"@, "message"@));
    assert(text_less("idempotencyKey"@, "sessionKey"@));
    assert(text_less("message"@, "sessionKey"@));
    assert forall|i: int, j: int| 0 <= i < j < e.len() implies text_less(
        #[trigger] e[i].0,
        #[trigger] e[j].0,
    ) by {
        if i == 0 && j == 1 {
            assert(e[i].0 == "idempotencyKey"@ && e[j].0 == "message"@);
        } else if i == 0 {
            assert(e[i].0 == "idempotencyKey"@ && e[j].0 == "sessionKey"@);
        } else {
            assert(e[i].0 == "message"@ && e[j].0 == "sessionKey"@);
        }
    }
}

/// The arguments of a chat call with these parameters.
pub open spec fn chat_args(timeout_ms: nat, params: Seq<char>) -> Seq<Seq<char>> {
    seq![
        "gateway"@,
        "call"@,
        "agent"@,
        "--expect-final"@,
        "--json"@,
        "--timeout"@,
        decimal(timeout_ms),
        "--params"@,
        params,
    ]
}

/// The error for parameters that could not be serialized, with the
/// serializer's message.
pub open spec fn is_params_error(e: OpenClawError, message: Seq<char>) -> bool {
    e matches OpenClawError::Parse { details } && details@ == "falha serializando params: "@
        + message
}

impl View for ChatPlan {
    /// `(message, idempotency key, session key, timeout in ms)`.
    type V = (Seq<char>, Seq<char>, Seq<char>, int);

    closed spec fn view(&self) -> (Seq<char>, Seq<char>, Seq<char>, int) {
        (self.message@, self.idempotency_key@, self.session_key@, self.timeout_ms as int)
    }
}

impl ChatPlan {
    #[verifier::type_invariant]
    spec fn timeout_in_range(self) -> bool {
        1000 <= self.timeout_ms <= 900000
    }

    /// The members of the JSON parameters of the chat call.
    pub fn params(&self) -> (res: Vec<(String, String)>)
        ensures
            res.deep_view() == chat_param_entries(self@),
    {
        let res = vec![
            (owned("idempotencyKey"), self.idempotency_key.clone()),
            (owned("message"), self.message.clone()),
            (owned("sessionKey"), self.session_key.clone()),
        ];
        assert(res.deep_view() =~= chat_param_entries(self@));
        res
    }

    /// The CLI call for this plan, given the serialized parameters (or the
    /// serializer's error message); the call may take two seconds more than
    /// the agent.
    pub fn command(&self, params: Result<String, String>) -> (res: Result<
        CommandRequest,
        OpenClawError,
    >)
        ensures
            match params {
                Ok(p) => res matches Ok(c) && c.args.deep_view() == chat_args(
                    self@.3 as nat,
                    p@,
                ) && c.timeout_ms == self@.3 + 2000,
                Err(m) => res matches Err(e) && is_params_error(e, m@),
            },
    {
        proof {
            use_type_invariant(self);
        }
        match params {
            Ok(p) => {
                let args = vec![
                    owned("gateway"),
                    owned("call"),
                    owned("agent"),
                    owned("--expect-final"),
                    owned("--json"),
                    owned("--timeout"),
                    crate::text::decimal_string(self.timeout_ms as u128),
                    owned("--params"),
                    p,
                ];
                assert(args.deep_view() =~= chat_args(self@.3 as nat, args[8]@));
                Ok(CommandRequest { args, timeout_ms: self.timeout_ms + 2000 })
            },
            Err(message) => {
                let mut details = owned("falha serializando params: ");
                append_str(&mut details, message.as_str());
                Err(OpenClawError::Parse { details })
            },
        }
    }
}

/// Whether a chat request lacks a usable idempotency key, so that one has
/// to be generated for it.
pub fn needs_generated_key(request: &OpenClawChatRequest) -> (res: bool)
    ensures
        res == !usable_text(request.idempotency_key),
{
    match &request.idempotency_key {
        Some(k) => is_blank_text(k.as_str()),
        None => true,
    }
}

fn chosen(o: Option<String>, fallback: String) -> (res: String)
    ensures
        res@ == chosen_text(o, fallback@),
{
    match o {
        Some(s) => if !is_blank_text(s.as_str()) {
            s
        } else {
            fallback
        },
        None => fallback,
    }
}

impl OpenClawRuntime {
    /// Settles a chat request: the trimmed message (a blank one is a bad
    /// request), the idempotency key (`generated_key` where the request has
    /// none that is not blank), the session key (the configured one by
    /// default) and the timeout.
    pub fn plan_chat(&self, request: OpenClawChatRequest, generated_key: String) -> (res: Result<
        ChatPlan,
        OpenClawError,
    >)
        ensures
            is_blank(request.message@) ==> (res matches Err(e) && is_empty_message_error(e)),
            !is_blank(request.message@) ==> (res matches Ok(plan) && plan@ == chat_plan_of(
                self.config(),
                request,
                generated_key@,
            )),
            !is_blank(request.message@) ==> (res matches Ok(plan) && (request.timeout_ms matches Some(
                t,
            ) ==> (1000 <= t <= 900000 ==> plan@.3 == t))),
    {
        let message = trim(request.message.as_str());
        if message.as_str().is_empty() {
            return Err(OpenClawError::BadRequest(owned("message nao pode ser vazio")));
        }
        let ghost req = request;
        let idempotency_key = chosen(request.idempotency_key, generated_key);
        let session_key = chosen(request.session_key, self.cfg().session_key.clone());
        let asked = match request.timeout_ms {
            Some(t) => t,
            None => self.cfg().timeout_ms,
        };
        let timeout_ms = if asked < 1000 {
            1000
        } else if asked > 900000 {
            900000
        } else {
            asked
        };
        let plan = ChatPlan { message, idempotency_key, session_key, timeout_ms };
        assert(plan@ == chat_plan_of(self.config(), req, generated_key@));
        Ok(plan)
    }

    /// The CLI call for a chat request: the agent call with the JSON of the
    /// message and keys as parameters.
    pub fn prepare_chat(&self, request: OpenClawChatRequest, generated_key: String) -> (res:
        Result<CommandRequest, OpenClawError>)
        ensures
            is_blank(request.message@) ==> (res matches Err(e) && is_empty_message_error(e)),
            !is_blank(request.message@) ==> {
                let plan = chat_plan_of(self.config(), request, generated_key@);
                res matches Ok(c) && c.args.deep_view() == chat_args(
                    plan.3 as nat,
                    chat_params_text(plan),
                ) && c.timeout_ms == plan.3 + 2000
            },
    {
        let plan = match self.plan_chat(request, generated_key) {
            Ok(plan) => plan,
            Err(e) => return Err(e),
        };
        let entries = plan.params();
        proof {
            lemma_chat_param_keys_ascending(plan@);
        }
        let params = match string_object_json(&entries) {
            Ok(text) => Ok(text),
            Err(error) => Err(json_error_text(&error)),
        };
        plan.command(params)
    }
}

/// The time a chat may take: what the request asks, else the configured
/// default, held within 1 s ..= 15 min.
pub open spec fn chat_timeout_ms(cfg: OpenClawRuntimeConfig, request: OpenClawChatRequest) -> int {
    clamp(
        match request.timeout_ms {
            Some(t) => t as int,
            None => cfg.timeout_ms as int,
        },
        1000,
        900000,
    )
}

/// A chat may take from one second up to fifteen minutes, and its call two
/// seconds more.
pub proof fn lemma_chat_timeout_range(cfg: OpenClawRuntimeConfig, request: OpenClawChatRequest)
    ensures
        1000 <= chat_timeout_ms(cfg, request) <= 900000,
{
}

/// The time a chat may take is the one the request asks for where that
/// lies within 1 s ..= 15 min, the nearest bound where it lies outside, and
/// likewise the configured default where the request asks for none.
pub proof fn lemma_chat_timeout_choice(
    cfg: OpenClawRuntimeConfig,
    request: OpenClawChatRequest,
    generated_key: Seq<char>,
)
    ensures
        ({
            let t = chat_plan_of(cfg, request, generated_key).3;
            &&& request.timeout_ms matches Some(asked) ==> (1000 <= asked <= 900000 ==> t == asked)
            &&& request.timeout_ms matches Some(asked) ==> (asked < 1000 ==> t == 1000)
            &&& request.timeout_ms matches Some(asked) ==> (asked > 900000 ==> t == 900000)
            &&& request.timeout_ms is None && 1000 <= cfg.timeout_ms <= 900000 ==> t
                == cfg.timeout_ms
            &&& request.timeout_ms is None && cfg.timeout_ms < 1000 ==> t == 1000
            &&& request.timeout_ms is None && cfg.timeout_ms > 900000 ==> t == 900000
        }),
{
}

} // verus!
