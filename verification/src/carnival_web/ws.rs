//! The notification socket's greeting: a match server introduces itself with
//! `whattup_bitch:<token>:...:im:<id>...`, and every text message is answered
//! with a greeting and the token and id last introduced.

use vstd::prelude::*;
use vstd::string::*;
use crate::text::{
    starts_with, contains, occurs_at, occurs_in, split_char, split_parts, parse_i32,
    parse_i32_spec, push_char, i32_text, signed_decimal_text, texts,
};

verus! {

/// The message introduces its sender.
pub open spec fn is_introduction(recv: Seq<char>) -> bool {
    occurs_at(recv, "whattup_bitch:"@, 0) && occurs_in(recv, ":im:"@)
}

/// An introduction without a fifth `:`-separated field holding a number:
/// a fatal error.
pub open spec fn is_malformed_introduction(recv: Seq<char>) -> bool {
    is_introduction(recv) && (split_parts(recv, ':').len() < 5 || parse_i32_spec(
        split_parts(recv, ':')[4],
    ) is None)
}

/// The second answer to a message: the token, a tab and the id.
pub open spec fn identity_reply(token: Seq<char>, id: i32) -> Seq<char> {
    token + seq!['\t'] + signed_decimal_text(id as int)
}

/// Handles one text message of the socket: an introduction sets the token
/// (second field) and id (fifth field); then the answers are a greeting and
/// the token and id. `None` for a malformed introduction, with nothing changed.
pub fn websocket_message(recv: &str, token: &mut String, id: &mut i32) -> (r: Option<(String, String)>)
    ensures
        is_malformed_introduction(recv@) ==> r is None && final(token)@ == old(token)@ && *final(id)
            == *old(id),
        !is_malformed_introduction(recv@) ==> {
            &&& is_introduction(recv@) ==> final(token)@ == split_parts(recv@, ':')[1] && *final(id)
                == parse_i32_spec(split_parts(recv@, ':')[4])->0
            &&& !is_introduction(recv@) ==> final(token)@ == old(token)@ && *final(id) == *old(id)
            &&& r matches Some((greeting, identity)) && greeting@ == "sup bitch"@ && identity@
                == identity_reply(final(token)@, *final(id))
        },
{
    if starts_with(recv, "whattup_bitch:") && contains(recv, ":im:") {
        let deets = split_char(recv, ':');
        if deets.len() < 5 {
            return None;
        }
        let parsed = parse_i32(deets[4].as_str());
        match parsed {
            None => {
                return None;
            },
            Some(v) => {
                *token = deets[1].clone();
                *id = v;
            },
        }
    }
    let greeting = String::from_str("sup bitch");
    let mut identity = token.clone();
    push_char(&mut identity, '\t');
    let id_text = i32_text(*id);
    identity.append(id_text.as_str());
    assert(identity@ =~= identity_reply(token@, *id));
    Some((greeting, identity))
}

} // verus!
