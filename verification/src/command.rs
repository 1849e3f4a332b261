//! The chat command, its credentials and the requests that it makes.

use crate::json::{Json, JsonValue};
use crate::text::{trim, trim_spec};
use vstd::prelude::*;
use vstd::string::*;

verus! {

/// Where the bot listens unless the command says otherwise.
pub const DEFAULT_ENDPOINT: &'static str = "http://localhost:1933/bot/v1";

/// The name of the history file in the home directory.
pub const HISTORY_FILE: &'static str = ".ov_chat_history";

/// A chat with the bot, as it was asked for on the command line.
#[derive(Debug)]
pub struct ChatCommand {
    /// API endpoint URL.
    pub endpoint: String,
    /// API key for authentication.
    pub api_key: Option<String>,
    /// LLM provider name for this chat request.
    pub provider: Option<String>,
    /// LLM model for this chat request.
    pub model: Option<String>,
    /// LLM API base URL for this chat request.
    pub api_base: Option<String>,
    /// LLM API key for this chat request.
    pub model_api_key: Option<String>,
    /// Account identifier to send as X-OpenViking-Account.
    pub account: Option<String>,
    /// User identifier to send as X-OpenViking-User.
    pub user: Option<String>,
    /// Session ID to use (creates new if not provided).
    pub session: Option<String>,
    /// Sender ID.
    pub sender: String,
    /// Non-interactive mode (single message).
    pub message: Option<String>,
    /// Stream the response.
    pub stream: bool,
    /// Disable rich formatting / markdown rendering.
    pub no_format: bool,
    /// Disable command history.
    pub no_history: bool,
}

/// The credentials that the configuration file holds.
#[derive(Debug)]
pub struct Config {
    pub api_key: Option<String>,
    pub account: Option<String>,
    pub user: Option<String>,
}

/// The credentials that go with every request.
#[derive(Debug)]
pub struct ChatAuth {
    pub api_key: Option<String>,
    pub account: Option<String>,
    pub user: Option<String>,
}

/// Request-scoped LLM overrides.
#[derive(Debug)]
pub struct RuntimeLlmOverrides {
    pub provider: Option<String>,
    pub model: String,
    pub api_base: Option<String>,
    pub api_key: Option<String>,
}

/// One message of a conversation.
#[derive(Debug)]
pub struct ChatMessage {
    pub role: String,
    pub content: String,
}

/// The body of a chat request.
#[derive(Debug)]
pub struct ChatRequest {
    pub message: String,
    pub session_id: Option<String>,
    pub user_id: Option<String>,
    pub stream: bool,
    pub context: Option<Vec<ChatMessage>>,
    pub runtime_llm: Option<RuntimeLlmOverrides>,
}

/// An HTTP POST of a chat request.
#[derive(Debug)]
pub struct PostRequest {
    pub url: String,
    /// Names and values of the headers beyond those that go with any JSON body.
    pub headers: Vec<(String, String)>,
    pub body: ChatRequest,
}

/// The model of a [`ChatAuth`].
pub struct AuthView {
    pub api_key: Option<Seq<char>>,
    pub account: Option<Seq<char>>,
    pub user: Option<Seq<char>>,
}

/// The model of [`RuntimeLlmOverrides`].
pub struct RuntimeLlmView {
    pub provider: Option<Seq<char>>,
    pub model: Seq<char>,
    pub api_base: Option<Seq<char>>,
    pub api_key: Option<Seq<char>>,
}

/// The model of a [`ChatMessage`].
pub struct ChatMessageView {
    pub role: Seq<char>,
    pub content: Seq<char>,
}

/// The model of a [`ChatRequest`].
pub struct ChatRequestView {
    pub message: Seq<char>,
    pub session_id: Option<Seq<char>>,
    pub user_id: Option<Seq<char>>,
    pub stream: bool,
    pub context: Option<Seq<ChatMessageView>>,
    pub runtime_llm: Option<RuntimeLlmView>,
}

/// The model of a [`PostRequest`].
pub struct PostView {
    pub url: Seq<char>,
    pub headers: Seq<(Seq<char>, Seq<char>)>,
    pub body: ChatRequestView,
}

impl View for ChatAuth {
    type V = AuthView;

    open spec fn view(&self) -> AuthView {
        AuthView {
            api_key: self.api_key.deep_view(),
            account: self.account.deep_view(),
            user: self.user.deep_view(),
        }
    }
}

impl View for RuntimeLlmOverrides {
    type V = RuntimeLlmView;

    open spec fn view(&self) -> RuntimeLlmView {
        RuntimeLlmView {
            provider: self.provider.deep_view(),
            model: self.model@,
            api_base: self.api_base.deep_view(),
            api_key: self.api_key.deep_view(),
        }
    }
}

impl DeepView for RuntimeLlmOverrides {
    type V = RuntimeLlmView;

    open spec fn deep_view(&self) -> RuntimeLlmView {
        self@
    }
}

impl View for ChatMessage {
    type V = ChatMessageView;

    open spec fn view(&self) -> ChatMessageView {
        ChatMessageView { role: self.role@, content: self.content@ }
    }
}

impl DeepView for ChatMessage {
    type V = ChatMessageView;

    open spec fn deep_view(&self) -> ChatMessageView {
        self@
    }
}

impl View for ChatRequest {
    type V = ChatRequestView;

    open spec fn view(&self) -> ChatRequestView {
        ChatRequestView {
            message: self.message@,
            session_id: self.session_id.deep_view(),
            user_id: self.user_id.deep_view(),
            stream: self.stream,
            context: self.context.deep_view(),
            runtime_llm: self.runtime_llm.deep_view(),
        }
    }
}

impl View for PostRequest {
    type V = PostView;

    open spec fn view(&self) -> PostView {
        PostView { url: self.url@, headers: self.headers.deep_view(), body: self.body@ }
    }
}

/// `first` where it is given, or else `second`.
pub open spec fn first_given(first: Option<Seq<char>>, second: Option<Seq<char>>) -> Option<
    Seq<char>,
> {
    match first {
        Some(v) => Some(v),
        None => second,
    }
}

/// What is left of an optional text once white space at its ends is gone, where anything is.
pub open spec fn nonblank(value: Option<Seq<char>>) -> Option<Seq<char>> {
    match value {
        Some(v) => if trim_spec(v).len() > 0 {
            Some(trim_spec(v))
        } else {
            None
        },
        None => None,
    }
}

/// The header `name`, where it has a value.
pub open spec fn header_of(name: Seq<char>, value: Option<Seq<char>>) -> Seq<
    (Seq<char>, Seq<char>),
> {
    match value {
        Some(v) => seq![(name, v)],
        None => seq![],
    }
}

/// The headers that carry the credentials `auth`.
pub open spec fn auth_headers(auth: AuthView) -> Seq<(Seq<char>, Seq<char>)> {
    header_of("X-API-Key"@, auth.api_key) + header_of("X-OpenViking-Account"@, auth.account)
        + header_of("X-OpenViking-User"@, auth.user)
}

/// The text member `key`, where it has a value.
pub open spec fn text_member_of(key: Seq<char>, value: Option<Seq<char>>) -> Seq<
    (Seq<char>, Json),
> {
    match value {
        Some(v) => seq![(key, Json::Text(v))],
        None => seq![],
    }
}

impl ChatMessageView {
    /// The JSON form of this message.
    pub open spec fn json(self) -> Json {
        Json::Object(
            seq![("role"@, Json::Text(self.role)), ("content"@, Json::Text(self.content))],
        )
    }
}

impl RuntimeLlmView {
    /// The JSON form of these overrides: what is not given has no member.
    pub open spec fn json(self) -> Json {
        Json::Object(
            text_member_of("provider"@, self.provider) + seq![("model"@, Json::Text(self.model))]
                + text_member_of("api_base"@, self.api_base) + text_member_of(
                "api_key"@,
                self.api_key,
            ),
        )
    }
}

impl ChatRequestView {
    /// The JSON form of this request: what is not given has no member.
    pub open spec fn json(self) -> Json {
        Json::Object(
            seq![("message"@, Json::Text(self.message))] + text_member_of(
                "session_id"@,
                self.session_id,
            ) + text_member_of("user_id"@, self.user_id) + seq![("stream"@, Json::Bool(self.stream))]
                + (match self.context {
                Some(messages) => seq![
                    ("context"@, Json::Array(messages.map_values(|m: ChatMessageView| m.json()))),
                ],
                None => seq![],
            }) + (match self.runtime_llm {
                Some(overrides) => seq![("runtime_llm"@, overrides.json())],
                None => seq![],
            }),
        )
    }

    /// The line that tells which overrides this request carries, where it carries any. Of the
    /// API key it tells only whether there is one.
    pub open spec fn override_notice(self) -> Option<Seq<char>> {
        match self.runtime_llm {
            Some(overrides) => Some(
                "[ov chat] request-scoped LLM override enabled: provider="@ + (
                match overrides.provider {
                    Some(v) => v,
                    None => "(auto)"@,
                }) + ", model="@ + overrides.model + ", api_base="@ + (match overrides.api_base {
                    Some(v) => v,
                    None => "(default)"@,
                }) + ", api_key="@ + (match overrides.api_key {
                    Some(_) => "set"@,
                    None => "unset"@,
                }),
            ),
            None => None,
        }
    }
}

impl ChatCommand {
    /// The credentials of this command where it has them, or else those of `config`.
    pub open spec fn auth_with(self, config: Config) -> AuthView {
        AuthView {
            api_key: first_given(self.api_key.deep_view(), config.api_key.deep_view()),
            account: first_given(self.account.deep_view(), config.account.deep_view()),
            user: first_given(self.user.deep_view(), config.user.deep_view()),
        }
    }

    /// The overrides that this command asks for: none without a model, and each of the others
    /// only where it is more than white space.
    pub open spec fn runtime_llm(self) -> Option<RuntimeLlmView> {
        match nonblank(self.model.deep_view()) {
            Some(model) => Some(
                RuntimeLlmView {
                    provider: nonblank(self.provider.deep_view()),
                    model,
                    api_base: nonblank(self.api_base.deep_view()),
                    api_key: nonblank(self.model_api_key.deep_view()),
                },
            ),
            None => None,
        }
    }

    /// The body of the request that carries `message`.
    pub open spec fn request(
        self,
        message: Seq<char>,
        session_id: Option<Seq<char>>,
        stream: bool,
    ) -> ChatRequestView {
        ChatRequestView {
            message,
            session_id,
            user_id: Some(self.sender@),
            stream,
            context: None,
            runtime_llm: self.runtime_llm(),
        }
    }

    /// Where requests go: streamed ones have an address of their own.
    pub open spec fn url(self, stream: bool) -> Seq<char> {
        if stream {
            self.endpoint@ + "/chat/stream"@
        } else {
            self.endpoint@ + "/chat"@
        }
    }

    /// The whole POST that carries `message`.
    pub open spec fn post(
        self,
        message: Seq<char>,
        session_id: Option<Seq<char>>,
        stream: bool,
        auth: AuthView,
    ) -> PostView {
        PostView {
            url: self.url(stream),
            headers: auth_headers(auth),
            body: self.request(message, session_id, stream),
        }
    }
}

/// What is left of an optional text once white space at its ends is gone, where anything is.
fn nonblank_text(value: &Option<String>) -> (r: Option<String>)
    ensures
        r.deep_view() == nonblank(value.deep_view()),
{
    match value {
        Some(v) => {
            let trimmed = trim(v.as_str());
            if trimmed.is_empty() {
                None
            } else {
                Some(trimmed.to_owned())
            }
        },
        None => None,
    }
}

/// `first` where it is given, or else `second`.
fn or_given(first: &Option<String>, second: &Option<String>) -> (r: Option<String>)
    ensures
        r.deep_view() == first_given(first.deep_view(), second.deep_view()),
{
    match first {
        Some(v) => Some(v.clone()),
        None => second.clone(),
    }
}

impl ChatCommand {
    /// A command with the given parameters, and no overrides, account or user.
    #[allow(clippy::too_many_arguments)]
    pub fn new(
        endpoint: String,
        api_key: Option<String>,
        session: Option<String>,
        sender: String,
        message: Option<String>,
        stream: bool,
        no_format: bool,
        no_history: bool,
    ) -> (r: Self)
        ensures
            r == (ChatCommand {
                endpoint,
                api_key,
                provider: None,
                model: None,
                api_base: None,
                model_api_key: None,
                account: None,
                user: None,
                session,
                sender,
                message,
                stream,
                no_format,
                no_history,
            }),
    {
        Self {
            endpoint,
            api_key,
            provider: None,
            model: None,
            api_base: None,
            model_api_key: None,
            account: None,
            user: None,
            session,
            sender,
            message,
            stream,
            no_format,
            no_history,
        }
    }

    /// The credentials for the requests: what the command line gives, and from `config` what it
    /// does not.
    pub fn resolve_auth(&self, config: &Config) -> (r: ChatAuth)
        ensures
            r@ == self.auth_with(*config),
    {
        ChatAuth {
            api_key: or_given(&self.api_key, &config.api_key),
            account: or_given(&self.account, &config.account),
            user: or_given(&self.user, &config.user),
        }
    }

    /// Adds the headers that carry `auth` to those that are there.
    pub fn apply_auth_headers(
        &self,
        headers: Vec<(String, String)>,
        auth: &ChatAuth,
    ) -> (r: Vec<(String, String)>)
        ensures
            r.deep_view() == headers.deep_view() + auth_headers(auth@),
    {
        let mut r = headers;
        if let Some(api_key) = &auth.api_key {
            r.push(("X-API-Key".to_owned(), api_key.clone()));
        }
        if let Some(account) = &auth.account {
            r.push(("X-OpenViking-Account".to_owned(), account.clone()));
        }
        if let Some(user) = &auth.user {
            r.push(("X-OpenViking-User".to_owned(), user.clone()));
        }
        assert(r.deep_view() =~= headers.deep_view() + auth_headers(auth@));
        r
    }

    /// The LLM overrides that this command asks for.
    pub fn build_runtime_llm(&self) -> (r: Option<RuntimeLlmOverrides>)
        ensures
            r.deep_view() == self.runtime_llm(),
    {
        match nonblank_text(&self.model) {
            Some(model) => Some(
                RuntimeLlmOverrides {
                    provider: nonblank_text(&self.provider),
                    model,
                    api_base: nonblank_text(&self.api_base),
                    api_key: nonblank_text(&self.model_api_key),
                },
            ),
            None => None,
        }
    }

    /// The body of the request that carries `message`.
    pub fn build_request(
        &self,
        message: String,
        session_id: Option<String>,
        stream: bool,
    ) -> (r: ChatRequest)
        ensures
            r@ == self.request(message@, session_id.deep_view(), stream),
    {
        ChatRequest {
            message,
            session_id,
            user_id: Some(self.sender.clone()),
            stream,
            context: None,
            runtime_llm: self.build_runtime_llm(),
        }
    }

    /// Where requests go.
    pub fn request_url(&self, stream: bool) -> (r: String)
        ensures
            r@ == self.url(stream),
    {
        if stream {
            self.endpoint.clone().concat("/chat/stream")
        } else {
            self.endpoint.clone().concat("/chat")
        }
    }

    /// The whole POST that carries `message`.
    pub fn build_post(
        &self,
        message: String,
        session_id: Option<String>,
        stream: bool,
        auth: &ChatAuth,
    ) -> (r: PostRequest)
        ensures
            r@ == self.post(message@, session_id.deep_view(), stream, auth@),
    {
        let headers: Vec<(String, String)> = Vec::new();
        assert(headers.deep_view() + auth_headers(auth@) =~= auth_headers(auth@));
        PostRequest {
            url: self.request_url(stream),
            headers: self.apply_auth_headers(headers, auth),
            body: self.build_request(message, session_id, stream),
        }
    }
}

/// Adds the member `key` to `members`.
fn push_member(members: &mut Vec<(String, JsonValue)>, key: &str, value: JsonValue)
    ensures
        JsonValue::Object(*final(members))@ == Json::Object(
            JsonValue::Object(*old(members))@->Object_0.push((key@, value@)),
        ),
{
    members.push((key.to_owned(), value));
    assert(JsonValue::Object(*members)@->Object_0 =~= JsonValue::Object(
        *old(members),
    )@->Object_0.push((key@, value@)));
}

/// Adds the text member `key` to `members`, where it has a value.
fn push_text_member(members: &mut Vec<(String, JsonValue)>, key: &str, value: &Option<String>)
    ensures
        JsonValue::Object(*final(members))@ == Json::Object(
            JsonValue::Object(*old(members))@->Object_0 + text_member_of(key@, value.deep_view()),
        ),
{
    if let Some(v) = value {
        push_member(members, key, JsonValue::Text(v.clone()));
    }
    assert(JsonValue::Object(*members)@->Object_0 =~= JsonValue::Object(*old(members))@->Object_0
        + text_member_of(key@, value.deep_view()));
}

impl ChatMessage {
    /// The JSON form of this message.
    pub fn to_json(&self) -> (r: JsonValue)
        ensures
            r@ == self@.json(),
    {
        let mut members: Vec<(String, JsonValue)> = Vec::new();
        push_member(&mut members, "role", JsonValue::Text(self.role.clone()));
        push_member(&mut members, "content", JsonValue::Text(self.content.clone()));
        let r = JsonValue::Object(members);
        assert(r@->Object_0 =~= self@.json()->Object_0);
        r
    }
}

impl RuntimeLlmOverrides {
    /// The JSON form of these overrides: what is not given has no member.
    pub fn to_json(&self) -> (r: JsonValue)
        ensures
            r@ == self@.json(),
    {
        let mut members: Vec<(String, JsonValue)> = Vec::new();
        push_text_member(&mut members, "provider", &self.provider);
        push_member(&mut members, "model", JsonValue::Text(self.model.clone()));
        push_text_member(&mut members, "api_base", &self.api_base);
        push_text_member(&mut members, "api_key", &self.api_key);
        let r = JsonValue::Object(members);
        assert(r@->Object_0 =~= self@.json()->Object_0);
        r
    }
}

impl ChatRequest {
    /// The JSON form of this request: what is not given has no member.
    pub fn to_json(&self) -> (r: JsonValue)
        ensures
            r@ == self@.json(),
    {
        let mut members: Vec<(String, JsonValue)> = Vec::new();
        push_member(&mut members, "message", JsonValue::Text(self.message.clone()));
        push_text_member(&mut members, "session_id", &self.session_id);
        push_text_member(&mut members, "user_id", &self.user_id);
        push_member(&mut members, "stream", JsonValue::Bool(self.stream));
        if let Some(messages) = &self.context {
            let mut items: Vec<JsonValue> = Vec::new();
            let mut i: usize = 0;
            while i < messages.len()
                invariant
                    i <= messages@.len(),
                    items@.len() == i,
                    forall|j: int| 0 <= j < i ==> #[trigger] items@[j]@ == messages@[j]@.json(),
                decreases messages@.len() - i,
            {
                items.push(messages[i].to_json());
                i = i + 1;
            }
            let array = JsonValue::Array(items);
            proof {
                let json = |m: ChatMessageView| m.json();
                assert forall|j: int| 0 <= j < items@.len() implies (#[trigger] array@->Array_0[j])
                    == messages.deep_view().map_values(json)[j] by {
                    assert(array@->Array_0[j] == items@[j]@);
                }
                assert(array@->Array_0 =~= messages.deep_view().map_values(json));
            }
            push_member(&mut members, "context", array);
        }
        if let Some(overrides) = &self.runtime_llm {
            push_member(&mut members, "runtime_llm", overrides.to_json());
        }
        let r = JsonValue::Object(members);
        assert(r@->Object_0 =~= self@.json()->Object_0);
        r
    }

    /// The line that tells which overrides this request carries, where it carries any.
    pub fn override_notice(&self) -> (r: Option<String>)
        ensures
            r.deep_view() == self@.override_notice(),
    {
        match &self.runtime_llm {
            Some(overrides) => {
                let mut line = "[ov chat] request-scoped LLM override enabled: provider=".to_owned();
                match &overrides.provider {
                    Some(v) => line.append(v.as_str()),
                    None => line.append("(auto)"),
                }
                line.append(", model=");
                line.append(overrides.model.as_str());
                line.append(", api_base=");
                match &overrides.api_base {
                    Some(v) => line.append(v.as_str()),
                    None => line.append("(default)"),
                }
                line.append(", api_key=");
                if overrides.api_key.is_some() {
                    line.append("set");
                } else {
                    line.append("unset");
                }
                Some(line)
            },
            None => None,
        }
    }
}

} // verus!
