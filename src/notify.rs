use vstd::prelude::*;
use crate::approval::{approve_token, reject_token};
use crate::text::{chars_of, push_chars, push_str_chars, string_of};

verus! {

/// Credentials of the bot and the chat that receives approval requests.
pub struct TgConfig {
    pub token: String,
    pub chat_id: String,
}

/// The endpoint URL of bot API method `method` for bot `token`.
pub open spec fn api_url(token: Seq<char>, method: Seq<char>) -> Seq<char> {
    "https://api.telegram.org/bot"@ + token + "/"@ + method
}

/// The endpoint URL of a bot API method.
pub fn method_url(token: &str, method: &str) -> (r: String)
    ensures
        r@ == api_url(token@, method@),
{
    let mut out: Vec<char> = Vec::new();
    push_str_chars(&mut out, "https://api.telegram.org/bot");
    push_str_chars(&mut out, token);
    push_str_chars(&mut out, "/");
    push_str_chars(&mut out, method);
    proof {
        assert(out@ =~= api_url(token@, method@));
    }
    string_of(out.as_slice())
}

impl TgConfig {
    /// The endpoint URL of `method` for this bot.
    pub fn api(&self, method: &str) -> (r: String)
        ensures
            r@ == api_url(self.token@, method@),
    {
        method_url(self.token.as_str(), method)
    }
}

/// The markup-safe form of one character.
pub open spec fn escape_char(c: char) -> Seq<char> {
    if c == '&' {
        "&amp;"@
    } else if c == '<' {
        "&lt;"@
    } else if c == '>' {
        "&gt;"@
    } else {
        seq![c]
    }
}

/// `s` with `&`, `<` and `>` replaced by their HTML entities.
pub open spec fn escaped(s: Seq<char>) -> Seq<char>
    decreases s.len(),
{
    if s.len() == 0 {
        seq![]
    } else {
        escaped(s.drop_last()) + escape_char(s.last())
    }
}

/// The first `max` characters of `s`, or all of `s` if it is shorter.
pub open spec fn truncated(s: Seq<char>, max: nat) -> Seq<char> {
    if s.len() <= max {
        s
    } else {
        s.take(max as int)
    }
}

fn escape_into(out: &mut Vec<char>, s: &[char])
    ensures
        final(out)@ == old(out)@ + escaped(s@),
{
    let ghost start = out@;
    let mut i: usize = 0;
    while i < s.len()
        invariant
            0 <= i <= s@.len(),
            out@ == start + escaped(s@.take(i as int)),
        decreases s@.len() - i,
    {
        let c = s[i];
        if c == '&' {
            push_str_chars(out, "&amp;");
        } else if c == '<' {
            push_str_chars(out, "&lt;");
        } else if c == '>' {
            push_str_chars(out, "&gt;");
        } else {
            out.push(c);
        }
        proof {
            let t = s@.take(i + 1);
            assert(t.drop_last() =~= s@.take(i as int));
            assert(t.last() == c);
            assert(out@ =~= start + escaped(t));
        }
        i = i + 1;
    }
    assert(s@.take(s@.len() as int) =~= s@);
}

/// Escapes the markup-significant characters `&`, `<` and `>`.
pub fn escape_html(s: &str) -> (r: String)
    ensures
        r@ == escaped(s@),
{
    let cs = chars_of(s);
    let mut out: Vec<char> = Vec::new();
    escape_into(&mut out, cs.as_slice());
    string_of(out.as_slice())
}

fn truncate_chars(s: &[char], max_chars: usize) -> (r: Vec<char>)
    ensures
        r@ == truncated(s@, max_chars as nat),
{
    let n = if s.len() <= max_chars { s.len() } else { max_chars };
    let mut out: Vec<char> = Vec::new();
    let mut i: usize = 0;
    while i < n
        invariant
            n <= s@.len(),
            0 <= i <= n,
            out@ == s@.take(i as int),
        decreases n - i,
    {
        out.push(s[i]);
        i = i + 1;
        assert(out@ =~= s@.take(i as int));
    }
    assert(s@.take(s@.len() as int) =~= s@);
    out
}

/// The first `max_chars` characters of `s`; all of `s` if it is no longer.
pub fn truncate(s: &str, max_chars: usize) -> (r: String)
    ensures
        r@ == truncated(s@, max_chars as nat),
{
    let cs = chars_of(s);
    let out = truncate_chars(cs.as_slice(), max_chars);
    string_of(out.as_slice())
}

/// Longest description shown in a PR request, in characters.
pub const BODY_CAP_CHARS: usize = 3000;

/// Longest field value shown in an API request, in characters.
pub const FIELD_CAP_CHARS: usize = 300;

/// What `str::trim` makes of a text: it depends on the characters alone.
pub uninterp spec fn trimmed(s: Seq<char>) -> Seq<char>;

/// Relies on `str::trim`: leading and trailing whitespace removed, a
/// function of the characters alone.
#[verifier::external_body]
pub(crate) fn trim_text(s: &str) -> (r: String)
    ensures
        r@ == trimmed(s@),
{
    s.trim().to_string()
}

/// The description section of a PR request for an already trimmed body;
/// empty when the body is.
pub open spec fn body_section(body: Seq<char>) -> Seq<char> {
    if body.len() == 0 {
        ""@
    } else {
        "\n\n<b>Description</b>\n<pre>"@ + escaped(truncated(body, BODY_CAP_CHARS as nat))
            + "</pre>"@
    }
}

/// The text of a PR approval request, for an already trimmed body.
pub open spec fn pr_text(title: Seq<char>, body: Seq<char>, branch: Seq<char>, draft: bool) -> Seq<
    char,
> {
    "🔀 <b>PR Review Required</b>"@ + (if draft {
        " · <b>DRAFT</b>"@
    } else {
        ""@
    }) + "\n\n<b>Title</b>   "@ + escaped(title) + "\n<b>Branch</b>  "@ + escaped(branch)
        + body_section(body)
}

/// The text of a PR approval request. `body` is taken as already trimmed.
pub fn pr_request_text(title: &str, body: &str, branch_info: &str, draft: bool) -> (r: String)
    ensures
        r@ == pr_text(title@, body@, branch_info@, draft),
{
    let mut out: Vec<char> = Vec::new();
    push_str_chars(&mut out, "🔀 <b>PR Review Required</b>");
    if draft {
        push_str_chars(&mut out, " · <b>DRAFT</b>");
    } else {
        push_str_chars(&mut out, "");
    }
    push_str_chars(&mut out, "\n\n<b>Title</b>   ");
    let tc = chars_of(title);
    escape_into(&mut out, tc.as_slice());
    push_str_chars(&mut out, "\n<b>Branch</b>  ");
    let bc = chars_of(branch_info);
    escape_into(&mut out, bc.as_slice());
    let body_chars = chars_of(body);
    if body_chars.len() == 0 {
        push_str_chars(&mut out, "");
    } else {
        push_str_chars(&mut out, "\n\n<b>Description</b>\n<pre>");
        let cut = truncate_chars(body_chars.as_slice(), BODY_CAP_CHARS);
        escape_into(&mut out, cut.as_slice());
        push_str_chars(&mut out, "</pre>");
    }
    proof {
        assert(out@ =~= pr_text(title@, body@, branch_info@, draft));
    }
    string_of(out.as_slice())
}

/// A lowercase hexadecimal digit.
pub open spec fn is_lower_hex(c: char) -> bool {
    ('0' <= c && c <= '9') || ('a' <= c && c <= 'f')
}

/// A request id: eight lowercase hexadecimal digits.
pub open spec fn is_request_id(s: Seq<char>) -> bool {
    s.len() == 8 && forall|i: int| 0 <= i < 8 ==> is_lower_hex(#[trigger] s[i])
}

/// The hyphenated lowercase text form of a UUID.
pub open spec fn is_hyphenated_uuid(s: Seq<char>) -> bool {
    &&& s.len() == 36
    &&& forall|i: int|
        0 <= i < 36 ==> if i == 8 || i == 13 || i == 18 || i == 23 {
            #[trigger] s[i] == '-'
        } else {
            is_lower_hex(s[i])
        }
}

/// Relies on uuid's `Uuid::new_v4` (a random UUID) and its `Display`
/// impl, which writes the hyphenated lowercase form.
#[verifier::external_body]
fn random_uuid_text() -> (r: Vec<char>)
    ensures
        is_hyphenated_uuid(r@),
{
    uuid::Uuid::new_v4().to_string().chars().collect()
}

/// A fresh request id: the first eight digits of a random UUID.
pub fn new_request_id() -> (r: String)
    ensures
        is_request_id(r@),
{
    let u = random_uuid_text();
    let mut out: Vec<char> = Vec::new();
    let mut i: usize = 0;
    while i < 8
        invariant
            is_hyphenated_uuid(u@),
            0 <= i <= 8,
            out@ == u@.take(i as int),
        decreases 8 - i,
    {
        out.push(u[i]);
        i = i + 1;
        assert(out@ =~= u@.take(i as int));
    }
    proof {
        assert forall|i: int| 0 <= i < 8 implies is_lower_hex(#[trigger] out@[i]) by {
            assert(out@[i] == u@[i]);
        }
    }
    string_of(out.as_slice())
}

/// Everything a `sendMessage` call with Approve / Reject buttons needs.
pub struct ApprovalRequest {
    pub request_id: String,
    pub url: String,
    pub chat_id: String,
    pub text: String,
    /// The token of the Approve button.
    pub approve_data: String,
    /// The token of the Reject button.
    pub reject_data: String,
}

/// Label of the Approve button.
pub const APPROVE_LABEL: &'static str = "✅ Approve";

/// Label of the Reject button.
pub const REJECT_LABEL: &'static str = "❌ Reject";

/// The request sends `text` to the configured chat under a fresh request
/// id, with buttons that carry that id.
pub open spec fn is_request_for(r: ApprovalRequest, tg: TgConfig, text: Seq<char>) -> bool {
    &&& is_request_id(r.request_id@)
    &&& r.url@ == api_url(tg.token@, "sendMessage"@)
    &&& r.chat_id@ == tg.chat_id@
    &&& r.text@ == text
    &&& r.approve_data@ == approve_token(r.request_id@)
    &&& r.reject_data@ == reject_token(r.request_id@)
}

/// Builds the `sendMessage` request for `text` under a fresh request id.
fn approval_request(tg: &TgConfig, text: String) -> (r: ApprovalRequest)
    ensures
        is_request_for(r, *tg, text@),
{
    let request_id = new_request_id();
    let rid = chars_of(request_id.as_str());
    let mut approve: Vec<char> = Vec::new();
    push_str_chars(&mut approve, "approve:");
    push_chars(&mut approve, rid.as_slice());
    let mut reject: Vec<char> = Vec::new();
    push_str_chars(&mut reject, "reject:");
    push_chars(&mut reject, rid.as_slice());
    proof {
        assert(approve@ =~= approve_token(request_id@));
        assert(reject@ =~= reject_token(request_id@));
    }
    ApprovalRequest {
        request_id,
        url: tg.api("sendMessage"),
        chat_id: tg.chat_id.clone(),
        text,
        approve_data: string_of(approve.as_slice()),
        reject_data: string_of(reject.as_slice()),
    }
}

/// Prepares the notification of a PR creation: the trimmed body is
/// rendered by `pr_request_text`, under a fresh request id.
pub fn send_approval_request(
    tg: &TgConfig,
    title: &str,
    body: &str,
    branch_info: &str,
    draft: bool,
) -> (r: ApprovalRequest)
    ensures
        is_request_for(r, *tg, pr_text(title@, trimmed(body@), branch_info@, draft)),
{
    let body_trimmed = trim_text(body);
    let text = pr_request_text(title, body_trimmed.as_str(), branch_info, draft);
    approval_request(tg, text)
}

/// Position `i` holds the first `=` of `f`.
pub open spec fn first_eq_at(f: Seq<char>, i: int) -> bool {
    0 <= i < f.len() && f[i] == '=' && forall|j: int| 0 <= j < i ==> f[j] != '='
}

/// How a field `key=value` is shown: `key = value` with the value cut to
/// its cap; a field without `=` is shown as it is.
pub open spec fn field_line(f: Seq<char>) -> Seq<char> {
    if exists|i: int| first_eq_at(f, i) {
        let i = choose|i: int| first_eq_at(f, i);
        f.take(i) + " = "@ + truncated(f.skip(i + 1), FIELD_CAP_CHARS as nat)
    } else {
        f
    }
}

/// The lines joined by newlines.
pub open spec fn joined_lines(ls: Seq<Seq<char>>) -> Seq<char>
    decreases ls.len(),
{
    if ls.len() == 0 {
        seq![]
    } else if ls.len() == 1 {
        ls[0]
    } else {
        joined_lines(ls.drop_last()) + "\n"@ + ls.last()
    }
}

pub open spec fn strings_view(v: Seq<String>) -> Seq<Seq<char>> {
    v.map_values(|f: String| f@)
}

/// The fields section of an API request; empty without fields.
pub open spec fn fields_section(fields: Seq<Seq<char>>) -> Seq<char> {
    if fields.len() == 0 {
        ""@
    } else {
        "\n\n<b>Fields</b>\n<pre>"@ + escaped(joined_lines(fields.map_values(|f| field_line(f))))
            + "</pre>"@
    }
}

/// The text of an API mutation approval request.
pub open spec fn api_text(method: Seq<char>, endpoint: Option<Seq<char>>, fields: Seq<Seq<char>>) -> Seq<
    char,
> {
    let shown = match endpoint {
        Some(e) => e,
        None => "(unknown endpoint)"@,
    };
    "🔧 <b>API Mutation · Approval Required</b>\n\n<code>"@ + escaped(method) + " "@ + escaped(
        shown,
    ) + "</code>"@ + fields_section(fields)
}

fn push_field_line(out: &mut Vec<char>, f: &str)
    ensures
        final(out)@ == old(out)@ + field_line(f@),
{
    let fc = chars_of(f);
    let mut i: usize = 0;
    while i < fc.len() && fc[i] != '='
        invariant
            fc@ == f@,
            0 <= i <= fc@.len(),
            forall|j: int| 0 <= j < i ==> fc@[j] != '=',
        decreases fc@.len() - i,
    {
        i = i + 1;
    }
    if i < fc.len() {
        proof {
            assert(first_eq_at(f@, i as int));
            let k = choose|k: int| first_eq_at(f@, k);
            assert(k == i);
        }
        let mut key: Vec<char> = Vec::new();
        let mut j: usize = 0;
        while j < i
            invariant
                i < fc@.len(),
                0 <= j <= i,
                key@ == fc@.take(j as int),
            decreases i - j,
        {
            key.push(fc[j]);
            j = j + 1;
            assert(key@ =~= fc@.take(j as int));
        }
        let value = crate::text::suffix_from(fc.as_slice(), i + 1);
        assert(value@ =~= f@.skip(i + 1));
        let cut = truncate_chars(value.as_slice(), FIELD_CAP_CHARS);
        push_chars(out, key.as_slice());
        push_str_chars(out, " = ");
        push_chars(out, cut.as_slice());
    } else {
        proof {
            assert forall|k: int| !first_eq_at(f@, k) by {
                if 0 <= k < f@.len() {
                    assert(fc@[k] != '=');
                }
            }
        }
        push_chars(out, fc.as_slice());
    }
}

/// The text of an API mutation approval request.
pub fn api_request_text(method: &str, endpoint: Option<&str>, fields: &[String]) -> (r: String)
    ensures
        r@ == api_text(
            method@,
            match endpoint {
                Some(e) => Some(e@),
                None => None,
            },
            strings_view(fields@),
        ),
{
    let ghost ep = match endpoint {
        Some(e) => Some(e@),
        None => None::<Seq<char>>,
    };
    let ghost fv = strings_view(fields@);
    let mut out: Vec<char> = Vec::new();
    push_str_chars(&mut out, "🔧 <b>API Mutation · Approval Required</b>\n\n<code>");
    let mc = chars_of(method);
    escape_into(&mut out, mc.as_slice());
    push_str_chars(&mut out, " ");
    let shown = match endpoint {
        Some(e) => chars_of(e),
        None => chars_of("(unknown endpoint)"),
    };
    escape_into(&mut out, shown.as_slice());
    push_str_chars(&mut out, "</code>");
    if fields.len() == 0 {
        push_str_chars(&mut out, "");
    } else {
        let ghost lines = fv.map_values(|f| field_line(f));
        let mut joined: Vec<char> = Vec::new();
        let mut i: usize = 0;
        while i < fields.len()
            invariant
                fv == strings_view(fields@),
                lines == fv.map_values(|f| field_line(f)),
                fields@.len() > 0,
                0 <= i <= fields@.len(),
                joined@ == joined_lines(lines.take(i as int)),
            decreases fields@.len() - i,
        {
            if i > 0 {
                push_str_chars(&mut joined, "\n");
            }
            push_field_line(&mut joined, fields[i].as_str());
            proof {
                let t = lines.take(i + 1);
                assert(t.drop_last() =~= lines.take(i as int));
                assert(t.last() == field_line(fields@[i as int]@));
                if i == 0 {
                    assert(lines.take(0) =~= Seq::<Seq<char>>::empty());
                    assert(joined@ =~= joined_lines(t));
                } else {
                    assert(joined@ =~= joined_lines(t));
                }
            }
            i = i + 1;
        }
        assert(lines.take(fields@.len() as int) =~= lines);
        push_str_chars(&mut out, "\n\n<b>Fields</b>\n<pre>");
        escape_into(&mut out, joined.as_slice());
        push_str_chars(&mut out, "</pre>");
    }
    proof {
        assert(out@ =~= api_text(method@, ep, fv));
    }
    string_of(out.as_slice())
}

/// Prepares the notification of an API mutation, rendered by
/// `api_request_text`, under a fresh request id.
pub fn send_api_approval_request(
    tg: &TgConfig,
    method: &str,
    endpoint: Option<&str>,
    fields: &[String],
) -> (r: ApprovalRequest)
    ensures
        is_request_for(
            r,
            *tg,
            api_text(
                method@,
                match endpoint {
                    Some(e) => Some(e@),
                    None => None,
                },
                strings_view(fields@),
            ),
        ),
{
    let text = api_request_text(method, endpoint, fields);
    approval_request(tg, text)
}

/// Why an approval request was not sent. The action must then not run.
#[derive(Debug)]
pub enum NotifyError {
    /// The network call failed.
    Unreachable,
    /// The answer was not a well-formed JSON object.
    Malformed,
    /// The API answered `ok: false`, with this description.
    Refused { description: String },
    /// The API answered `ok: true` but gave no message id.
    MissingMessageId,
}

impl NotifyError {
    pub open spec fn message_spec(&self) -> Seq<char> {
        match self {
            NotifyError::Unreachable => "Failed to reach Telegram API"@,
            NotifyError::Malformed => "Invalid Telegram response"@,
            NotifyError::Refused { description } => "Telegram sendMessage failed: "@
                + description@,
            NotifyError::MissingMessageId => "Missing message_id in Telegram response"@,
        }
    }

    /// A one-line description of the error.
    pub fn message(&self) -> (r: String)
        ensures
            r@ == self.message_spec(),
    {
        match self {
            NotifyError::Unreachable => "Failed to reach Telegram API".to_owned(),
            NotifyError::Malformed => "Invalid Telegram response".to_owned(),
            NotifyError::Refused { description } => {
                let mut out: Vec<char> = Vec::new();
                push_str_chars(&mut out, "Telegram sendMessage failed: ");
                push_str_chars(&mut out, description.as_str());
                string_of(out.as_slice())
            },
            NotifyError::MissingMessageId => "Missing message_id in Telegram response".to_owned(),
        }
    }
}

/// The parts of a `sendMessage` answer that decide its outcome.
pub struct SendReply {
    /// The `ok` flag; absent counts as `false`.
    pub ok: bool,
    /// The `description`, if the answer holds one as a string.
    pub description: Option<String>,
    /// `result.message_id`, if the answer holds one as an integer.
    pub message_id: Option<i64>,
}

/// Settles a sent request from the API's answer: its request id and the
/// message handle on success.
pub fn accept_send_reply(request: &ApprovalRequest, reply: SendReply) -> (r: Result<
    (String, i64),
    NotifyError,
>)
    ensures
        !reply.ok ==> (r matches Err(NotifyError::Refused { description }) && description@ == (
        match reply.description {
            Some(d) => d@,
            None => "unknown error"@,
        })),
        reply.ok && reply.message_id is None ==> r matches Err(NotifyError::MissingMessageId),
        reply.ok && reply.message_id is Some ==> (r matches Ok((id, m)) && id@
            == request.request_id@ && m == reply.message_id->0),
{
    if !reply.ok {
        let description = match reply.description {
            Some(d) => d,
            None => "unknown error".to_owned(),
        };
        return Err(NotifyError::Refused { description });
    }
    match reply.message_id {
        Some(m) => Ok((request.request_id.clone(), m)),
        None => Err(NotifyError::MissingMessageId),
    }
}

} // verus!
