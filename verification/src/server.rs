//! Server-type probe and reaction dispatch: a one-shot classification of
//! the host chat server, and the pure decision of which reaction call an
//! acknowledgement needs.
use vstd::prelude::*;
use vstd::string::*;

use crate::text::contains_seq;
use crate::text::contains_str;

verus! {

/// The two known host server variants; each exposes its own reaction API.
#[derive(Clone, Copy, Debug, PartialEq, Eq, Structural)]
pub enum ServerType {
    NapCat,
    Lagrange,
}

/// What str::to_lowercase maps a character sequence to.
pub uninterp spec fn lower_of(s: Seq<char>) -> Seq<char>;

/// Relies on str::to_lowercase: the result depends on the characters
/// alone.
#[verifier::external_body]
fn to_lowercase(s: &str) -> (r: String)
    ensures
        r@ == lower_of(s@),
{
    s.to_lowercase()
}

/// The server variant a lowercased app name indicates.
pub open spec fn classify_spec(lowered: Seq<char>) -> Option<ServerType> {
    if contains_seq(lowered, "napcat"@) {
        Some(ServerType::NapCat)
    } else if contains_seq(lowered, "lagrange"@) {
        Some(ServerType::Lagrange)
    } else {
        None
    }
}

/// Classifies an already-lowercased app name.
pub fn classify_lowered(lowered: &str) -> (r: Option<ServerType>)
    ensures
        r == classify_spec(lowered@),
{
    if contains_str(lowered, "napcat") {
        Some(ServerType::NapCat)
    } else if contains_str(lowered, "lagrange") {
        Some(ServerType::Lagrange)
    } else {
        None
    }
}

/// The startup probe's decision: lowercases the app name the host runtime
/// reports and classifies it. An unknown name yields no server type, and
/// reactions become no-ops.
pub fn classify_server(app_name: &str) -> (r: Option<ServerType>)
    ensures
        r == classify_spec(lower_of(app_name@)),
{
    let lowered = to_lowercase(app_name);
    classify_lowered(lowered.as_str())
}

/// The emoji code of the "working" reaction, on either server.
pub const REACTION_CODE: &'static str = "424";

/// One concrete reaction call for the host to perform.
#[derive(Clone, Copy, Debug, PartialEq, Eq, Structural)]
pub enum ReactionCall {
    /// NapCat's set-message-emoji-like: no add/remove flag.
    NapCat { message_id: i64 },
    /// Lagrange's set-group-reaction, with an explicit add/remove flag.
    Lagrange { group_id: i64, message_id: i64, is_add: bool },
}

/// Decides the reaction call for one acknowledgement: no known server or
/// (on Lagrange) no group means no call at all; NapCat ignores the
/// add/remove flag, Lagrange carries it.
pub fn reaction_plan(
    server: Option<ServerType>,
    group_id: Option<i64>,
    message_id: i64,
    is_add: bool,
) -> (r: Option<ReactionCall>)
    ensures
        server is None ==> r is None,
        server == Some(ServerType::NapCat) ==> r == Some(ReactionCall::NapCat { message_id }),
        server == Some(ServerType::Lagrange) && group_id is None ==> r is None,
        server == Some(ServerType::Lagrange) ==> (group_id matches Some(g) ==> r == Some(
            ReactionCall::Lagrange { group_id: g, message_id, is_add },
        )),
{
    match server {
        None => None,
        Some(ServerType::NapCat) => Some(ReactionCall::NapCat { message_id }),
        Some(ServerType::Lagrange) => match group_id {
            None => None,
            Some(group_id) => Some(ReactionCall::Lagrange { group_id, message_id, is_add }),
        },
    }
}

} // verus!
