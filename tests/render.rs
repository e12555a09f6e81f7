use gh_guard::notify::{
    accept_send_reply, api_request_text, escape_html, new_request_id, pr_request_text,
    send_api_approval_request, send_approval_request, truncate, NotifyError, SendReply, TgConfig,
};

fn config() -> TgConfig {
    TgConfig { token: "123:abc".to_string(), chat_id: "42".to_string() }
}

fn is_request_id(s: &str) -> bool {
    s.len() == 8 && s.chars().all(|c| c.is_ascii_digit() || ('a'..='f').contains(&c))
}

#[test]
fn escape_html_replaces_markup_characters() {
    assert_eq!(escape_html("a < b && c > d"), "a &lt; b &amp;&amp; c &gt; d");
    assert_eq!(escape_html("&lt;"), "&amp;lt;");
    assert_eq!(escape_html(""), "");
}

#[test]
fn truncate_counts_characters() {
    assert_eq!(truncate("hello", 10), "hello");
    assert_eq!(truncate("hello", 5), "hello");
    assert_eq!(truncate("hello", 3), "hel");
    assert_eq!(truncate("héllo→x", 3), "hél");
    assert_eq!(truncate("abc", 0), "");
}

#[test]
fn pr_text_without_body_omits_description() {
    let text = pr_request_text("Fix login bug", "", "feature/login → main", false);
    assert_eq!(
        text,
        "🔀 <b>PR Review Required</b>\n\n<b>Title</b>   Fix login bug\n<b>Branch</b>  feature/login → main"
    );
}

#[test]
fn pr_text_with_body_and_draft() {
    let text = pr_request_text("a<b", "x & y", "dev → main", true);
    assert_eq!(
        text,
        "🔀 <b>PR Review Required</b> · <b>DRAFT</b>\n\n<b>Title</b>   a&lt;b\n<b>Branch</b>  dev → main\n\n<b>Description</b>\n<pre>x &amp; y</pre>"
    );
}

#[test]
fn pr_body_is_cut_at_cap() {
    let body = "é".repeat(3100);
    let text = pr_request_text("t", &body, "b", false);
    let expected_body = "é".repeat(3000);
    assert!(text.ends_with(&format!("<pre>{expected_body}</pre>")));
}

#[test]
fn send_trims_body_before_rendering() {
    let tg = config();
    let req = send_approval_request(&tg, "T", "  \n hello world \n ", "dev → main", false);
    assert!(req.text.ends_with("<pre>hello world</pre>"));
    let blank = send_approval_request(&tg, "T", "   \n\t ", "dev → main", false);
    assert!(!blank.text.contains("Description"));
    assert_eq!(req.url, "https://api.telegram.org/bot123:abc/sendMessage");
    assert_eq!(req.chat_id, "42");
}

#[test]
fn request_carries_fresh_id_in_both_tokens() {
    let tg = config();
    let req = send_approval_request(&tg, "T", "", "b", false);
    assert!(is_request_id(&req.request_id));
    assert_eq!(req.approve_data, format!("approve:{}", req.request_id));
    assert_eq!(req.reject_data, format!("reject:{}", req.request_id));
    let a = new_request_id();
    let b = new_request_id();
    assert!(is_request_id(&a) && is_request_id(&b));
    assert_ne!(a, b);
}

#[test]
fn api_text_formats_fields() {
    let fields = vec!["title=New <title>".to_string(), "draft".to_string(), "a=b=c".to_string()];
    let text = api_request_text("PATCH", Some("/repos/o/r/pulls/1"), &fields);
    assert_eq!(
        text,
        "🔧 <b>API Mutation · Approval Required</b>\n\n<code>PATCH /repos/o/r/pulls/1</code>\n\n<b>Fields</b>\n<pre>title = New &lt;title&gt;\ndraft\na = b=c</pre>"
    );
}

#[test]
fn api_text_without_endpoint_or_fields() {
    let text = api_request_text("DELETE", None, &[]);
    assert_eq!(
        text,
        "🔧 <b>API Mutation · Approval Required</b>\n\n<code>DELETE (unknown endpoint)</code>"
    );
}

#[test]
fn api_field_value_is_cut_at_cap() {
    let fields = vec![format!("k={}", "v".repeat(400))];
    let text = api_request_text("POST", Some("/x"), &fields);
    assert!(text.ends_with(&format!("<pre>k = {}</pre>", "v".repeat(300))));
}

#[test]
fn api_request_uses_rendered_text() {
    let tg = config();
    let fields = vec!["a=1".to_string()];
    let req = send_api_approval_request(&tg, "POST", Some("/x"), &fields);
    assert_eq!(req.text, api_request_text("POST", Some("/x"), &fields));
    assert!(is_request_id(&req.request_id));
}

#[test]
fn send_reply_outcomes() {
    let tg = config();
    let req = send_approval_request(&tg, "T", "", "b", false);
    let ok = accept_send_reply(&req, SendReply { ok: true, description: None, message_id: Some(77) });
    assert_eq!(ok.unwrap(), (req.request_id.clone(), 77));
    let refused = accept_send_reply(
        &req,
        SendReply { ok: false, description: Some("chat not found".to_string()), message_id: None },
    );
    match refused {
        Err(e) => assert_eq!(e.message(), "Telegram sendMessage failed: chat not found"),
        Ok(_) => panic!("expected a refusal"),
    }
    let unknown = accept_send_reply(&req, SendReply { ok: false, description: None, message_id: Some(1) });
    match unknown {
        Err(e) => assert_eq!(e.message(), "Telegram sendMessage failed: unknown error"),
        Ok(_) => panic!("expected a refusal"),
    }
    let missing = accept_send_reply(&req, SendReply { ok: true, description: None, message_id: None });
    assert!(matches!(missing, Err(NotifyError::MissingMessageId)));
    assert_eq!(NotifyError::Unreachable.message(), "Failed to reach Telegram API");
    assert_eq!(NotifyError::Malformed.message(), "Invalid Telegram response");
}

#[test]
fn api_url_of_method() {
    assert_eq!(config().api("getUpdates"), "https://api.telegram.org/bot123:abc/getUpdates");
    assert_eq!(gh_guard::setup::tg("t", "getMe"), "https://api.telegram.org/bott/getMe");
}
