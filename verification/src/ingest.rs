//! Ingest normalization: how one adapter turns an inbound chat line into a
//! relay event. The sender identity comes from the protocol prefix, and a
//! line addressed to the adapter's own nickname is treated as a direct
//! message from a personal channel named after the sender.

use vstd::prelude::*;
use vstd::string::StrSliceExecFns;
use crate::event::MessageReceived;
use crate::config::Server;

verus! {

/// The position of the first `!` delimiter in a protocol prefix, or the
/// prefix's length when there is none.
pub open spec fn spec_first_delim(s: Seq<char>) -> int
    decreases s.len(),
{
    if s.len() == 0 {
        0
    } else if s[0] == '!' {
        0
    } else {
        1 + spec_first_delim(s.drop_first())
    }
}

/// The sender's nick within a protocol prefix: the part before the first
/// `!` delimiter, or the whole prefix when there is none.
pub open spec fn spec_nick_of(s: Seq<char>) -> Seq<char> {
    s.subrange(0, spec_first_delim(s))
}

/// A position left of any `!`, and itself holding `!` or the end, is the
/// first delimiter position.
proof fn lemma_first_delim_at(s: Seq<char>, i: int)
    requires
        0 <= i <= s.len(),
        forall|k: int| 0 <= k < i ==> s[k] != '!',
        i < s.len() ==> s[i] == '!',
    ensures
        spec_first_delim(s) == i,
    decreases s.len(),
{
    if s.len() == 0 {
    } else if s[0] == '!' {
        assert(i == 0);
    } else {
        assert(i >= 1);
        let t = s.drop_first();
        assert(forall|k: int| 0 <= k < i - 1 ==> t[k] == s[k + 1] && t[k] != '!');
        assert(i - 1 < t.len() ==> t[i - 1] == s[i]);
        lemma_first_delim_at(t, i - 1);
    }
}

/// Extracts the sender's nick from a protocol prefix: the substring before
/// the first `!` delimiter; absence of a delimiter means the whole prefix.
pub fn nick_of_prefix(prefix: &String) -> (r: String)
    ensures
        r@ == spec_nick_of(prefix@),
{
    let s = prefix.as_str();
    let n = s.unicode_len();
    let mut i: usize = 0;
    while i < n
        invariant
            n == s@.len(),
            s@ == prefix@,
            i <= n,
            forall|k: int| 0 <= k < i ==> s@[k] != '!',
        decreases n - i,
    {
        if s.get_char(i) == '!' {
            proof {
                lemma_first_delim_at(prefix@, i as int);
            }
            let nick = s.substring_char(0, i);
            return nick.to_owned();
        }
        i += 1;
    }
    proof {
        lemma_first_delim_at(prefix@, n as int);
        assert(prefix@.subrange(0, n as int) =~= prefix@);
    }
    prefix.clone()
}

/// Normalizes one inbound chat line to a relay event. The sender is the nick
/// part of the protocol prefix. A line whose target equals the adapter's own
/// nickname is a direct message: it is routed as if the sender were a
/// personal channel, so the event's channel is the sender's nick; any other
/// target is taken as the channel name itself.
pub fn normalize_privmsg(
    host: String,
    own_nick: &String,
    prefix: &String,
    target: String,
    message: String,
) -> (r: MessageReceived)
    ensures
        (r matches MessageReceived::PrivMsg { host: h, from: f, channel: c, message: m }
            && h == host && m == message && f@ == spec_nick_of(prefix@) && c@ == (
        if target@ == own_nick@ {
            spec_nick_of(prefix@)
        } else {
            target@
        })),
{
    let from = nick_of_prefix(prefix);
    if target == *own_nick {
        let channel = from.clone();
        MessageReceived::PrivMsg { host, from, channel, message }
    } else {
        MessageReceived::PrivMsg { host, from, channel: target, message }
    }
}

/// Normalizes any other protocol line to a server log event carrying its
/// human-readable rendering.
pub fn normalize_log(host: String, rendered: String) -> (r: MessageReceived)
    ensures
        (r matches MessageReceived::Log { host: h, message: m } && h == host && m == rendered),
{
    MessageReceived::Log { host, message: rendered }
}

/// The immutable channel-name snapshot an adapter takes at startup: the
/// names of the server's currently known channels, to be joined on connect.
pub fn channel_names(server: &Server) -> (r: Vec<String>)
    ensures
        r@.len() == server.channels@.len(),
        forall|i: int| 0 <= i < r@.len() ==> r@[i] == server.channels@[i].name,
{
    let n = server.channels.len();
    let mut names: Vec<String> = Vec::new();
    let mut i: usize = 0;
    while i < n
        invariant
            n == server.channels@.len(),
            i <= n,
            names@.len() == i,
            forall|k: int| 0 <= k < i ==> names@[k] == server.channels@[k].name,
        decreases n - i,
    {
        names.push(server.channels[i].name.clone());
        i += 1;
    }
    names
}

} // verus!
