use ov_chat::command::{ChatAuth, ChatCommand, ChatMessage, Config};
use ov_chat::json::JsonValue;

fn base_command() -> ChatCommand {
    ChatCommand {
        endpoint: "http://localhost:1933/bot/v1".to_string(),
        api_key: Some("server-key".to_string()),
        provider: None,
        model: None,
        api_base: None,
        model_api_key: None,
        account: None,
        user: None,
        session: Some("session-1".to_string()),
        sender: "user".to_string(),
        message: None,
        stream: true,
        no_format: false,
        no_history: false,
    }
}

#[test]
fn build_runtime_llm_uses_explicit_override_fields() {
    let mut cmd = base_command();
    cmd.provider = Some("openai".to_string());
    cmd.model = Some("gpt-4.1".to_string());
    cmd.api_base = Some("https://example.test/v1".to_string());
    cmd.model_api_key = Some("model-secret".to_string());

    let runtime_llm = cmd
        .build_runtime_llm()
        .expect("runtime_llm should be built when model is present");

    assert_eq!(runtime_llm.provider.as_deref(), Some("openai"));
    assert_eq!(runtime_llm.model, "gpt-4.1");
    assert_eq!(runtime_llm.api_base.as_deref(), Some("https://example.test/v1"));
    assert_eq!(runtime_llm.api_key.as_deref(), Some("model-secret"));
}

#[test]
fn build_request_omits_runtime_llm_without_model() {
    let cmd = base_command();
    let request = cmd.build_request("hello".to_string(), cmd.session.clone(), false);
    let value = request.to_json();

    assert!(value.get("runtime_llm").is_none());
    assert_eq!(value.get("message").and_then(|v| v.as_str()), Some("hello"));
}

#[test]
fn build_request_includes_runtime_llm_when_model_is_present() {
    let mut cmd = base_command();
    cmd.provider = Some("openai".to_string());
    cmd.model = Some("gpt-4.1".to_string());
    cmd.api_base = Some("https://example.test/v1".to_string());
    cmd.model_api_key = Some("model-secret".to_string());

    let request = cmd.build_request("hello".to_string(), cmd.session.clone(), true);
    let value = request.to_json();
    let runtime_llm = value
        .get("runtime_llm")
        .expect("runtime_llm should be present");

    assert_eq!(runtime_llm.get("provider").and_then(|v| v.as_str()), Some("openai"));
    assert_eq!(runtime_llm.get("model").and_then(|v| v.as_str()), Some("gpt-4.1"));
    assert_eq!(
        runtime_llm.get("api_base").and_then(|v| v.as_str()),
        Some("https://example.test/v1")
    );
    assert_eq!(
        runtime_llm.get("api_key").and_then(|v| v.as_str()),
        Some("model-secret")
    );
}

#[test]
fn new_leaves_overrides_account_and_user_out() {
    let cmd = ChatCommand::new(
        "http://e".to_string(),
        Some("k".to_string()),
        Some("s".to_string()),
        "me".to_string(),
        Some("hi".to_string()),
        false,
        true,
        false,
    );
    assert_eq!(cmd.endpoint, "http://e");
    assert_eq!(cmd.api_key.as_deref(), Some("k"));
    assert_eq!(cmd.session.as_deref(), Some("s"));
    assert_eq!(cmd.sender, "me");
    assert_eq!(cmd.message.as_deref(), Some("hi"));
    assert_eq!((cmd.stream, cmd.no_format, cmd.no_history), (false, true, false));
    assert!(cmd.provider.is_none() && cmd.model.is_none() && cmd.api_base.is_none());
    assert!(cmd.model_api_key.is_none() && cmd.account.is_none() && cmd.user.is_none());
}

#[test]
fn blank_overrides_are_left_out() {
    let mut cmd = base_command();
    cmd.provider = Some(" \t".to_string());
    cmd.api_base = Some(" http://x \n".to_string());
    cmd.model_api_key = Some("".to_string());
    assert!(cmd.build_runtime_llm().is_none());
    cmd.model = Some("  ".to_string());
    assert!(cmd.build_runtime_llm().is_none());
    cmd.model = Some(" m\u{a0}".to_string());
    let overrides = cmd.build_runtime_llm().unwrap();
    assert_eq!(overrides.model, "m");
    assert!(overrides.provider.is_none());
    assert_eq!(overrides.api_base.as_deref(), Some("http://x"));
    assert!(overrides.api_key.is_none());
}

fn config() -> Config {
    Config {
        api_key: Some("conf-key".to_string()),
        account: Some("conf-account".to_string()),
        user: Some("conf-user".to_string()),
    }
}

#[test]
fn the_command_line_wins_over_the_configuration() {
    let mut cmd = base_command();
    cmd.account = Some("cli-account".to_string());
    let auth = cmd.resolve_auth(&config());
    assert_eq!(auth.api_key.as_deref(), Some("server-key"));
    assert_eq!(auth.account.as_deref(), Some("cli-account"));
    assert_eq!(auth.user.as_deref(), Some("conf-user"));
    cmd.api_key = None;
    assert_eq!(cmd.resolve_auth(&config()).api_key.as_deref(), Some("conf-key"));
    let none = Config { api_key: None, account: None, user: None };
    assert!(cmd.resolve_auth(&none).api_key.is_none());
}

#[test]
fn every_known_credential_has_its_header() {
    let mut cmd = base_command();
    cmd.api_key = None;
    let auth = cmd.resolve_auth(&config());
    let post = cmd.build_post("hi".to_string(), None, true, &auth);
    let headers: Vec<(&str, &str)> =
        post.headers.iter().map(|(n, v)| (n.as_str(), v.as_str())).collect();
    assert_eq!(
        headers,
        [
            ("X-API-Key", "conf-key"),
            ("X-OpenViking-Account", "conf-account"),
            ("X-OpenViking-User", "conf-user"),
        ]
    );
    let some = ChatAuth { api_key: None, account: None, user: Some("u".to_string()) };
    let before = vec![("A".to_string(), "b".to_string())];
    assert_eq!(
        cmd.apply_auth_headers(before, &some),
        [
            ("A".to_string(), "b".to_string()),
            ("X-OpenViking-User".to_string(), "u".to_string()),
        ]
    );
}

#[test]
fn streamed_requests_have_their_own_address() {
    let cmd = base_command();
    let auth = cmd.resolve_auth(&config());
    let streamed = cmd.build_post("hi".to_string(), None, true, &auth);
    assert_eq!(streamed.url, "http://localhost:1933/bot/v1/chat/stream");
    assert!(streamed.body.stream);
    let whole = cmd.build_post("hi".to_string(), None, false, &auth);
    assert_eq!(whole.url, "http://localhost:1933/bot/v1/chat");
    assert!(!whole.body.stream);
}

/// The compact text of a JSON value.
fn write_json(value: &JsonValue) -> String {
    match value {
        JsonValue::Null => "null".to_string(),
        JsonValue::Bool(b) => b.to_string(),
        JsonValue::Number(n) => n.clone(),
        JsonValue::Text(s) => serde_json::to_string(s).unwrap(),
        JsonValue::Array(items) => {
            let parts: Vec<String> = items.iter().map(write_json).collect();
            format!("[{}]", parts.join(","))
        }
        JsonValue::Object(members) => {
            let parts: Vec<String> = members
                .iter()
                .map(|(k, v)| format!("{}:{}", serde_json::to_string(k).unwrap(), write_json(v)))
                .collect();
            format!("{{{}}}", parts.join(","))
        }
    }
}

#[test]
fn the_json_form_has_every_part_that_is_given() {
    let mut cmd = base_command();
    let request = cmd.build_request("say \"hi\"".to_string(), None, false);
    assert_eq!(
        write_json(&request.to_json()),
        r#"{"message":"say \"hi\"","user_id":"user","stream":false}"#
    );
    cmd.model = Some("m".to_string());
    cmd.model_api_key = Some("k".to_string());
    let mut request = cmd.build_request("x".to_string(), Some("s1".to_string()), true);
    request.context = Some(vec![ChatMessage { role: "user".to_string(), content: "y".to_string() }]);
    assert_eq!(
        write_json(&request.to_json()),
        r#"{"message":"x","session_id":"s1","user_id":"user","stream":true,"context":[{"role":"user","content":"y"}],"runtime_llm":{"model":"m","api_key":"k"}}"#
    );
    let value = request.to_json();
    let overrides = value.get("runtime_llm").unwrap();
    assert!(overrides.get("provider").is_none() && overrides.get("api_base").is_none());
    assert_eq!(value.get("session_id").and_then(|v| v.as_str()), Some("s1"));
}

#[test]
fn the_notice_tells_of_overrides_but_not_of_the_key() {
    let mut cmd = base_command();
    assert!(cmd.build_request("x".to_string(), None, true).override_notice().is_none());
    cmd.model = Some("m".to_string());
    assert_eq!(
        cmd.build_request("x".to_string(), None, true).override_notice().as_deref(),
        Some("[ov chat] request-scoped LLM override enabled: provider=(auto), model=m, api_base=(default), api_key=unset")
    );
    cmd.provider = Some("p".to_string());
    cmd.api_base = Some("b".to_string());
    cmd.model_api_key = Some("one".to_string());
    let first = cmd.build_request("x".to_string(), None, true).override_notice();
    assert_eq!(
        first.as_deref(),
        Some("[ov chat] request-scoped LLM override enabled: provider=p, model=m, api_base=b, api_key=set")
    );
    cmd.model_api_key = Some("two".to_string());
    assert_eq!(cmd.build_request("x".to_string(), None, true).override_notice(), first);
}
