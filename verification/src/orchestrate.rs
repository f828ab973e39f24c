//! The request orchestrator's decisions: command dispatch, prefix
//! stripping, quote prepending, the apology reply, and the inline-image
//! URI. All of it is pure; the host I/O around it hands in plain values.
use vstd::prelude::*;
use vstd::string::*;

use base64::Engine;

use crate::req::Message;
use crate::req::Role;
use crate::text::TrimRule;
use crate::text::rule_pred;
use crate::text::trim_both;
use crate::text::trim_window;

verus! {

/// `s` begins with `p`.
pub open spec fn starts_with(s: Seq<char>, p: Seq<char>) -> bool {
    p.len() <= s.len() && s.subrange(0, p.len() as int) == p
}

/// How one inbound text is handled.
#[derive(Clone, Copy, Debug, PartialEq, Eq, Structural)]
pub enum Dispatch {
    /// Doubled command prefix: reply with plain text.
    TextReply,
    /// Single command prefix: reply with a rendered image.
    ImageReply,
    /// No command prefix: not for us.
    Ignore,
}

/// The dispatch a text calls for under command character `c`.
pub open spec fn dispatch_spec(s: Seq<char>, c: char) -> Dispatch {
    if starts_with(s, seq![c, c]) {
        Dispatch::TextReply
    } else if starts_with(s, seq![c]) {
        Dispatch::ImageReply
    } else {
        Dispatch::Ignore
    }
}

/// Decides how an inbound text is handled: a doubled command prefix asks
/// for a text reply, a single one for an image reply, anything else is
/// ignored.
pub fn command_kind(text: &str, cmd: char) -> (r: Dispatch)
    ensures
        r == dispatch_spec(text@, cmd),
{
    let n = text.unicode_len();
    if n >= 2 && text.get_char(0) == cmd && text.get_char(1) == cmd {
        proof {
            assert(text@.subrange(0, 2) =~= seq![cmd, cmd]);
        }
        Dispatch::TextReply
    } else if n >= 1 && text.get_char(0) == cmd {
        proof {
            assert(text@.subrange(0, 1) =~= seq![cmd]);
            if text@.len() >= 2 {
                assert(text@.subrange(0, 2)[1] == text@[1]);
            }
        }
        Dispatch::ImageReply
    } else {
        proof {
            if text@.len() >= 1 {
                assert(text@.subrange(0, 1)[0] == text@[0]);
            }
            if text@.len() >= 2 {
                assert(text@.subrange(0, 2)[0] == text@[0]);
            }
        }
        Dispatch::Ignore
    }
}

/// The text a command carries: the leading and trailing runs of the
/// command character go first, surrounding whitespace second.
pub open spec fn stripped_text(s: Seq<char>, cmd: char) -> Seq<char> {
    trim_both(
        trim_both(s, rule_pred(TrimRule::Exactly(cmd))),
        rule_pred(TrimRule::Whitespace),
    )
}

/// Strips the command prefix and suffix runs, then surrounding whitespace.
pub fn strip_command(text: &str, cmd: char) -> (r: String)
    ensures
        r@ == stripped_text(text@, cmd),
{
    let n = text.unicode_len();
    proof {
        assert(text@.subrange(0, n as int) =~= text@);
    }
    let (a, b) = trim_window(text, 0, n, &(TrimRule::Exactly(cmd)));
    let (x, y) = trim_window(text, a, b, &(TrimRule::Whitespace));
    let piece = text.substring_char(x, y);
    String::from_str(piece)
}

/// The turn list of one question: the quoted parent's text first, when
/// there is one, then the stripped question, both as user turns.
pub fn build_turns(quote: Option<String>, question: String) -> (r: Vec<Message>)
    ensures
        quote matches Some(q) ==> (r@.len() == 2 && r@[0].role == Role::User && r@[0].content == q
            && r@[1].role == Role::User && r@[1].content == question),
        quote is None ==> (r@.len() == 1 && r@[0].role == Role::User && r@[0].content == question),
{
    let mut turns: Vec<Message> = Vec::new();
    match quote {
        Some(q) => turns.push(Message::new_with_user(q)),
        None => (),
    }
    turns.push(Message::new_with_user(question));
    turns
}

/// The fixed apology that precedes an error's display form in a reply.
pub open spec fn apology_prefix() -> Seq<char> {
    "你的问题太难了，我不会Q-Q。\n\n"@
}

/// The user-visible reply for a failed request: the fixed apology, then
/// the error's display form.
pub fn apology_reply(detail: &str) -> (r: String)
    ensures
        r@ == apology_prefix() + detail@,
{
    let mut out = String::new();
    out.append("你的问题太难了，我不会Q-Q。\n\n");
    out.append(detail);
    proof {
        assert(out@ =~= apology_prefix() + detail@);
    }
    out
}

/// The body of a text reply for a completion or render outcome: the
/// answer itself on success, the apology followed by the error's display
/// form on failure.
pub fn reply_body(outcome: Result<String, String>) -> (b: String)
    ensures
        outcome matches Ok(v) ==> b == v,
        outcome matches Err(e) ==> b@ == apology_prefix() + e@,
{
    match outcome {
        Ok(v) => v,
        Err(e) => apology_reply(e.as_str()),
    }
}

/// What base64's standard engine encodes a byte sequence to.
pub uninterp spec fn base64_of(bytes: Seq<u8>) -> Seq<char>;

/// Relies on base64's STANDARD engine: the encoding is a function of the
/// bytes alone.
#[verifier::external_body]
fn image_to_base64(img: Vec<u8>) -> (r: String)
    ensures
        r@ == base64_of(img@),
{
    base64::engine::general_purpose::STANDARD.encode(&img)
}

/// The inline-image URI of a captured PNG: `base64://` followed by the
/// standard base64 encoding of its bytes.
pub fn image_uri(png: Vec<u8>) -> (r: String)
    ensures
        r@ == "base64://"@ + base64_of(png@),
{
    let encoded = image_to_base64(png);
    let mut out = String::new();
    out.append("base64://");
    out.append(encoded.as_str());
    proof {
        assert(out@ =~= "base64://"@ + base64_of(png@));
    }
    out
}

} // verus!
