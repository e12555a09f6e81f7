use vstd::prelude::*;
use crate::approval::{advance, offset_view};
use crate::notify::{api_url, method_url};
use crate::text::{chars_of, is_lit, push_chars, push_str_chars, string_of};

verus! {

/// The steps of the setup wizard.
#[derive(Clone, Copy, Debug, PartialEq, Eq, Structural)]
pub enum SetupCommand {
    /// Token, then bot, then chat.
    Full,
    /// The GitHub token only.
    Pat,
    /// The bot token and chat only.
    Telegram,
    /// Send a test message.
    Test,
    /// Print the stored configuration, masked.
    Show,
}

/// A setup subcommand that does not exist.
#[derive(Debug)]
pub struct UnknownSubcommand {
    pub name: String,
}

impl UnknownSubcommand {
    /// A one-line description of the error.
    pub fn message(&self) -> (r: String)
        ensures
            r@ == "Unknown setup subcommand: "@ + self.name@,
    {
        let mut out: Vec<char> = Vec::new();
        push_str_chars(&mut out, "Unknown setup subcommand: ");
        push_str_chars(&mut out, self.name.as_str());
        string_of(out.as_slice())
    }
}

/// The setup step that a subcommand names.
pub open spec fn setup_command(sub: Option<Seq<char>>) -> Option<SetupCommand> {
    match sub {
        None => Some(SetupCommand::Full),
        Some(s) => if s == "test"@ {
            Some(SetupCommand::Test)
        } else if s == "show"@ {
            Some(SetupCommand::Show)
        } else if s == "pat"@ {
            Some(SetupCommand::Pat)
        } else if s == "telegram"@ {
            Some(SetupCommand::Telegram)
        } else {
            None
        },
    }
}

/// Decides which setup step runs for the subcommand `sub`.
pub fn run(sub: Option<&str>) -> (r: Result<SetupCommand, UnknownSubcommand>)
    ensures
        match sub {
            None => r == Ok::<SetupCommand, UnknownSubcommand>(SetupCommand::Full),
            Some(s) => match setup_command(Some(s@)) {
                Some(c) => r matches Ok(rc) && rc == c,
                None => r matches Err(e) && e.name@ == s@,
            },
        },
{
    match sub {
        None => Ok(SetupCommand::Full),
        Some(s) => {
            let c = chars_of(s);
            if is_lit(c.as_slice(), "test") {
                Ok(SetupCommand::Test)
            } else if is_lit(c.as_slice(), "show") {
                Ok(SetupCommand::Show)
            } else if is_lit(c.as_slice(), "pat") {
                Ok(SetupCommand::Pat)
            } else if is_lit(c.as_slice(), "telegram") {
                Ok(SetupCommand::Telegram)
            } else {
                Err(UnknownSubcommand { name: s.to_owned() })
            }
        },
    }
}

/// The endpoint URL of bot API method `method` for bot `token`.
pub fn tg(token: &str, method: &str) -> (r: String)
    ensures
        r@ == api_url(token@, method@),
{
    method_url(token, method)
}

/// A GitHub token as shown: its first seven characters, an ellipsis, and
/// its last four when they do not overlap the first seven.
pub open spec fn masked_pat(pat: Seq<char>) -> Seq<char> {
    let start = if pat.len() < 7 { pat.len() as int } else { 7 };
    let end = if pat.len() < 4 { 0 } else { pat.len() - 4 };
    if end > start {
        pat.take(start) + "…"@ + pat.skip(end)
    } else {
        pat.take(start) + "…"@
    }
}

/// A bot token as shown: its first ten characters and an ellipsis.
pub open spec fn masked_token(token: Seq<char>) -> Seq<char> {
    let n = if token.len() < 10 { token.len() as int } else { 10 };
    token.take(n) + "…"@
}

fn slice_chars(s: &[char], from: usize, to: usize) -> (r: Vec<char>)
    requires
        from <= to <= s@.len(),
    ensures
        r@ == s@.subrange(from as int, to as int),
{
    let mut out: Vec<char> = Vec::new();
    let mut i: usize = from;
    while i < to
        invariant
            from <= i <= to <= s@.len(),
            out@ == s@.subrange(from as int, i as int),
        decreases to - i,
    {
        out.push(s[i]);
        i = i + 1;
        assert(out@ =~= s@.subrange(from as int, i as int));
    }
    out
}

/// Masks a GitHub token for display.
pub fn mask_pat(pat: &str) -> (r: String)
    ensures
        r@ == masked_pat(pat@),
{
    let p = chars_of(pat);
    let start: usize = if p.len() < 7 { p.len() } else { 7 };
    let end: usize = if p.len() < 4 { 0 } else { p.len() - 4 };
    let mut out = slice_chars(p.as_slice(), 0, start);
    push_str_chars(&mut out, "…");
    if end > start {
        let tail = slice_chars(p.as_slice(), end, p.len());
        push_chars(&mut out, tail.as_slice());
    }
    proof {
        assert(out@ =~= masked_pat(pat@));
    }
    string_of(out.as_slice())
}

/// Masks a bot token for display.
pub fn mask_token(token: &str) -> (r: String)
    ensures
        r@ == masked_token(token@),
{
    let t = chars_of(token);
    let n: usize = if t.len() < 10 { t.len() } else { 10 };
    let mut out = slice_chars(t.as_slice(), 0, n);
    push_str_chars(&mut out, "…");
    proof {
        assert(out@ =~= masked_token(token@));
    }
    string_of(out.as_slice())
}

/// An update seen while waiting for the first message to the bot: its id,
/// and the id of the chat its message came from, if it carries one.
pub struct ChatUpdate {
    pub update_id: i64,
    pub chat_id: Option<i64>,
}

/// The offset after seeing every update of `ups`, in order.
pub open spec fn chat_offset_after(prior: Option<int>, ups: Seq<ChatUpdate>) -> Option<int>
    decreases ups.len(),
{
    if ups.len() == 0 {
        prior
    } else {
        advance(chat_offset_after(prior, ups.drop_last()), ups.last().update_id as int)
    }
}

/// Scans a batch for the first update that names a chat: the offset after
/// the batch and the position of that update, if there is one.
pub fn scan_chat_batch(offset: Option<i64>, updates: &[ChatUpdate]) -> (r: (Option<i64>, Option<usize>))
    requires
        forall|i: int| 0 <= i < updates@.len() ==> #[trigger] updates@[i].update_id < i64::MAX,
    ensures
        offset_view(r.0) == chat_offset_after(offset_view(offset), updates@),
        r.1 matches Some(k) ==> k < updates@.len() && updates@[k as int].chat_id is Some && forall|
            j: int,
        | 0 <= j < k ==> #[trigger] updates@[j].chat_id is None,
        r.1 is None ==> forall|j: int| 0 <= j < updates@.len() ==> #[trigger] updates@[j].chat_id is None,
{
    let mut off = offset;
    let mut found: Option<usize> = None;
    let mut i: usize = 0;
    while i < updates.len()
        invariant
            0 <= i <= updates@.len(),
            forall|i: int| 0 <= i < updates@.len() ==> #[trigger] updates@[i].update_id < i64::MAX,
            offset_view(off) == chat_offset_after(offset_view(offset), updates@.take(i as int)),
            found matches Some(k) ==> k < i && updates@[k as int].chat_id is Some && forall|j: int|
                0 <= j < k ==> #[trigger] updates@[j].chat_id is None,
            found is None ==> forall|j: int| 0 <= j < i ==> #[trigger] updates@[j].chat_id is None,
        decreases updates@.len() - i,
    {
        let u = &updates[i];
        proof {
            assert(updates@.take(i + 1).drop_last() =~= updates@.take(i as int));
        }
        let next: i64 = u.update_id + 1;
        off = match off {
            None => Some(next),
            Some(o) => Some(if o >= next { o } else { next }),
        };
        if found.is_none() && u.chat_id.is_some() {
            found = Some(i);
        }
        i = i + 1;
    }
    assert(updates@.take(updates@.len() as int) =~= updates@);
    (off, found)
}

/// The error of a bot API answer: none when it says `ok`, else its
/// description (or `fallback`) after "Telegram error: ".
pub fn reply_error(ok: bool, description: Option<&str>, fallback: &str) -> (r: Option<String>)
    ensures
        ok ==> r is None,
        !ok ==> (r matches Some(m) && m@ == "Telegram error: "@ + match description {
            Some(d) => d@,
            None => fallback@,
        }),
{
    if ok {
        return None;
    }
    let mut out: Vec<char> = Vec::new();
    push_str_chars(&mut out, "Telegram error: ");
    match description {
        Some(d) => push_str_chars(&mut out, d),
        None => push_str_chars(&mut out, fallback),
    }
    Some(string_of(out.as_slice()))
}

} // verus!
