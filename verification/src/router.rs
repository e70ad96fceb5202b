//! The router: resolves one relay event against the mapping store and
//! produces, in order, the outbound effects the Discord side must perform.
//! The router is the only mutator of the store; a mutation is always
//! persisted before the message that depended on it is forwarded.

use vstd::prelude::*;
use vstd::string::StringExecFns;
use crate::config::adds_channel;
use crate::config::lemma_channel_index_is;
use crate::config::lemma_server_index_is;
use crate::config::Config;
use crate::event::MessageReceived;

verus! {

/// One outbound operation, to be performed in the order returned.
#[derive(Debug, Clone, PartialEq)]
pub enum Effect {
    /// Deliver a chat line, labelled with its sender, to a Discord channel.
    SendMessage { channel_id: u64, from: String, message: String },
    /// Create a new text channel with this name under the parent channel;
    /// the new channel's id must then be handed to `provision_channel`.
    CreateChannel { guild_id: u64, parent_channel_id: u64, name: String },
    /// Deliver an operational warning to the store's log channel.
    LogWarning { log_channel_id: u64, warning: String },
    /// Write the full store to durable storage, overwriting prior content.
    Persist,
}

/// The effect delivers exactly this line, with this sender label, to this channel.
pub open spec fn is_send_effect(e: Effect, channel_id: u64, from: Seq<char>, message: Seq<char>) -> bool {
    e matches Effect::SendMessage { channel_id: c, from: f, message: m } && c == channel_id && f@
        == from && m@ == message
}

/// The effect requests exactly this channel creation.
pub open spec fn is_create_effect(e: Effect, guild_id: u64, parent_channel_id: u64, name: Seq<char>) -> bool {
    e matches Effect::CreateChannel { guild_id: g, parent_channel_id: p, name: n } && g == guild_id
        && p == parent_channel_id && n@ == name
}

/// The effect delivers exactly this warning to this log channel.
pub open spec fn is_warning_effect(e: Effect, log_channel_id: u64, warning: Seq<char>) -> bool {
    e matches Effect::LogWarning { log_channel_id: l, warning: w } && l == log_channel_id && w@
        == warning
}

/// The warning issued when an event names a host no server carries.
pub open spec fn spec_unknown_host_warning(host: Seq<char>) -> Seq<char> {
    "Could not find server by host "@ + host
}

/// Builds the warning for an event whose host no server carries.
pub fn unknown_host_warning(host: &String) -> (r: String)
    ensures
        r@ == spec_unknown_host_warning(host@),
{
    let r = String::from_str("Could not find server by host ").concat(host.as_str());
    proof {
        assert(r@ =~= spec_unknown_host_warning(host@));
    }
    r
}

/// How a delivered chat line is formatted: the sender label in angle
/// brackets, then the text.
pub open spec fn spec_formatted_line(from: Seq<char>, message: Seq<char>) -> Seq<char> {
    "<"@ + from + "> "@ + message
}

/// Formats a chat line for delivery.
pub fn format_message(from: &String, message: &String) -> (r: String)
    ensures
        r@ == spec_formatted_line(from@, message@),
{
    let r = String::from_str("<").concat(from.as_str()).concat("> ").concat(message.as_str());
    proof {
        assert(r@ =~= spec_formatted_line(from@, message@));
    }
    r
}

/// What routing a server log line returns: forwarded to the server's log
/// channel with the SYSTEM label when the host is known, one warning to the
/// store's log channel when it is not.
pub open spec fn routes_log(c: Config, host: Seq<char>, message: Seq<char>, r: Seq<Effect>) -> bool {
    if c.spec_has_server(host) {
        r.len() == 1 && is_send_effect(r[0], c.spec_server(host).log_channel_id, "SYSTEM"@, message)
    } else {
        r.len() == 1 && is_warning_effect(r[0], c.special_channels.log, spec_unknown_host_warning(host))
    }
}

/// What routing a chat line returns: delivery to the mapped channel, a
/// creation request when the channel is not yet mapped, or one warning when
/// the host is unknown.
pub open spec fn routes_privmsg(
    c: Config,
    host: Seq<char>,
    from: Seq<char>,
    channel: Seq<char>,
    message: Seq<char>,
    r: Seq<Effect>,
) -> bool {
    if !c.spec_has_server(host) {
        r.len() == 1 && is_warning_effect(r[0], c.special_channels.log, spec_unknown_host_warning(host))
    } else if c.spec_server(host).spec_has_channel(channel) {
        r.len() == 1 && is_send_effect(r[0], c.spec_server(host).spec_channel_id(channel), from, message)
    } else {
        r.len() == 1 && is_create_effect(
            r[0],
            c.guild_id,
            c.spec_server(host).discord_channel_id,
            channel,
        )
    }
}

/// Routes one informational or protocol line: to the owning server's log
/// channel under the SYSTEM label, or, for an unknown host, one warning to
/// the store's log channel.
pub fn handle_server_log(config: &Config, host: &String, message: String) -> (r: Vec<Effect>)
    requires
        config.wf(),
    ensures
        routes_log(*config, host@, message@, r@),
{
    let mut effects: Vec<Effect> = Vec::new();
    match config.find_server(host) {
        Some(i) => {
            let from = String::from_str("SYSTEM");
            effects.push(Effect::SendMessage {
                channel_id: config.servers[i].log_channel_id,
                from,
                message,
            });
        },
        None => {
            let warning = unknown_host_warning(host);
            effects.push(Effect::LogWarning {
                log_channel_id: config.special_channels.log,
                warning,
            });
        },
    }
    effects
}

/// Routes one chat line. A mapped channel gets the delivery; an unmapped
/// channel on a known server gets a creation request (to be completed by
/// `provision_channel`); an unknown host gets one warning and nothing else.
pub fn handle_incoming_privmsg(
    config: &Config,
    host: &String,
    from: &String,
    channel: &String,
    message: &String,
) -> (r: Vec<Effect>)
    requires
        config.wf(),
    ensures
        routes_privmsg(*config, host@, from@, channel@, message@, r@),
{
    let mut effects: Vec<Effect> = Vec::new();
    match config.find_server(host) {
        Some(i) => {
            let server = &config.servers[i];
            match server.find_channel(channel) {
                Some(j) => {
                    effects.push(Effect::SendMessage {
                        channel_id: server.channels[j].discord_channel_id,
                        from: from.clone(),
                        message: message.clone(),
                    });
                },
                None => {
                    effects.push(Effect::CreateChannel {
                        guild_id: config.guild_id,
                        parent_channel_id: server.discord_channel_id,
                        name: channel.clone(),
                    });
                },
            }
        },
        None => {
            let warning = unknown_host_warning(host);
            effects.push(Effect::LogWarning {
                log_channel_id: config.special_channels.log,
                warning,
            });
        },
    }
    effects
}

/// Why a provisioning request could not be completed.
#[derive(Debug, Clone, Copy, PartialEq, Eq)]
pub enum ProvisionError {
    /// No server of the store carries the event's host.
    UnknownHost,
    /// The channel is already mapped on that server.
    ChannelExists,
    /// The newly created channel's id is already mapped somewhere in the store.
    DiscordChannelIdInUse,
}

/// Which error, if any, a provisioning request meets against this store.
pub open spec fn spec_provision_error(
    c: Config,
    host: Seq<char>,
    channel: Seq<char>,
    new_id: u64,
) -> Option<ProvisionError> {
    if !c.spec_has_server(host) {
        Some(ProvisionError::UnknownHost)
    } else if c.spec_server(host).spec_has_channel(channel) {
        Some(ProvisionError::ChannelExists)
    } else if c.spec_id_used(new_id) {
        Some(ProvisionError::DiscordChannelIdInUse)
    } else {
        None
    }
}

/// Completes the provisioning of a channel: once the Discord side has
/// created the requested channel and handed back its id, the new mapping is
/// appended to the store, and the returned effects first persist the store
/// and only then deliver the triggering message to the new channel — the
/// mapping is durably recorded before anything relies on it.
pub fn provision_channel(
    config: &mut Config,
    host: &String,
    channel: &String,
    from: &String,
    message: &String,
    new_id: u64,
) -> (r: Result<Vec<Effect>, ProvisionError>)
    requires
        old(config).wf(),
    ensures
        final(config).wf(),
        (match r {
            Ok(effects) => {
                &&& spec_provision_error(*old(config), host@, channel@, new_id) is None
                &&& adds_channel(
                    *old(config),
                    *final(config),
                    old(config).spec_server_index(host@),
                    channel@,
                    new_id,
                )
                &&& final(config).spec_has_server(host@)
                &&& final(config).spec_server(host@).spec_has_channel(channel@)
                &&& final(config).spec_server(host@).spec_channel_id(channel@) == new_id
                &&& effects@.len() == 2
                &&& effects@[0] == Effect::Persist
                &&& is_send_effect(effects@[1], new_id, from@, message@)
            },
            Err(e) => {
                &&& *final(config) == *old(config)
                &&& spec_provision_error(*old(config), host@, channel@, new_id) == Some(e)
            },
        }),
{
    let i = match config.find_server(host) {
        Some(i) => i,
        None => {
            return Err(ProvisionError::UnknownHost);
        },
    };
    proof {
        assert(config.servers@[i as int].channel_names_unique());
    }
    let server = &config.servers[i];
    match server.find_channel(channel) {
        Some(_) => {
            return Err(ProvisionError::ChannelExists);
        },
        None => {},
    }
    if config.discord_id_used(new_id) {
        return Err(ProvisionError::DiscordChannelIdInUse);
    }
    let ghost pre = *config;
    config.add_channel(i, channel.clone(), new_id);
    proof {
        let post = *config;
        let m = pre.servers@[i as int].channels@.len() as int;
        assert(post.servers@[i as int].host@ == host@);
        lemma_server_index_is(post, host@, i as int);
        assert(post.servers@[i as int].channel_names_unique());
        assert(post.servers@[i as int].channels@[m].name@ == channel@);
        lemma_channel_index_is(post.servers@[i as int], channel@, m);
    }
    let mut effects: Vec<Effect> = Vec::new();
    effects.push(Effect::Persist);
    effects.push(Effect::SendMessage {
        channel_id: new_id,
        from: from.clone(),
        message: message.clone(),
    });
    Ok(effects)
}

/// Routes one relay event: the single dispatch point of the router loop.
pub fn route_event(config: &Config, event: &MessageReceived) -> (r: Vec<Effect>)
    requires
        config.wf(),
    ensures
        match *event {
            MessageReceived::PrivMsg { ref host, ref from, ref channel, ref message } =>
                routes_privmsg(*config, host@, from@, channel@, message@, r@),
            MessageReceived::Log { ref host, ref message } => routes_log(
                *config,
                host@,
                message@,
                r@,
            ),
        },
{
    match event {
        MessageReceived::PrivMsg { host, from, channel, message } => handle_incoming_privmsg(
            config,
            host,
            from,
            channel,
            message,
        ),
        MessageReceived::Log { host, message } => handle_server_log(config, host, message.clone()),
    }
}

/// Provisioning idempotence: once a (host, channel) pair is mapped, routing
/// a further chat line for the same pair delivers it to the recorded id and
/// requests no channel creation — so over any run of events with one
/// (host, channel) pair, only the first can request a creation.
pub proof fn provisioning_idempotence(
    c: Config,
    host: Seq<char>,
    from: Seq<char>,
    channel: Seq<char>,
    message: Seq<char>,
    r: Seq<Effect>,
)
    requires
        c.wf(),
        c.spec_has_server(host),
        c.spec_server(host).spec_has_channel(channel),
        routes_privmsg(c, host, from, channel, message, r),
    ensures
        r.len() == 1,
        is_send_effect(r[0], c.spec_server(host).spec_channel_id(channel), from, message),
        forall|i: int|
            0 <= i < r.len() ==> !((#[trigger] r[i]) matches Effect::CreateChannel { .. }),
{
    assert forall|i: int| 0 <= i < r.len() implies !((#[trigger] r[i])
        matches Effect::CreateChannel { .. }) by {
        assert(i == 0);
        assert(r[0] matches Effect::SendMessage { .. });
    }
}

/// Persistence before send: in the provisioning outcome, every delivery is
/// preceded by a persistence of the store, so the new mapping is durably
/// recorded before the message that depends on it is forwarded.
pub proof fn persistence_before_send(
    effects: Seq<Effect>,
    new_id: u64,
    from: Seq<char>,
    message: Seq<char>,
)
    requires
        effects.len() == 2,
        effects[0] == Effect::Persist,
        is_send_effect(effects[1], new_id, from, message),
    ensures
        forall|i: int|
            0 <= i < effects.len() && ((#[trigger] effects[i]) matches Effect::SendMessage { .. })
                ==> exists|j: int| 0 <= j < i && #[trigger] effects[j] == Effect::Persist,
{
    assert forall|i: int|
        0 <= i < effects.len() && ((#[trigger] effects[i]) matches Effect::SendMessage {
            ..
        }) implies exists|j: int| 0 <= j < i && #[trigger] effects[j] == Effect::Persist by {
        assert(i != 0);
        assert(0 <= 0 < i && effects[0] == Effect::Persist);
    }
}

/// Unknown-host handling: an event whose host no server of the store carries
/// yields exactly one warning — which carries the host's name after its
/// fixed prefix — and neither a delivery nor a channel creation.
pub proof fn unknown_host_isolation(
    c: Config,
    host: Seq<char>,
    from: Seq<char>,
    channel: Seq<char>,
    message: Seq<char>,
    r: Seq<Effect>,
)
    requires
        !c.spec_has_server(host),
        routes_privmsg(c, host, from, channel, message, r) || routes_log(c, host, message, r),
    ensures
        r.len() == 1,
        is_warning_effect(r[0], c.special_channels.log, spec_unknown_host_warning(host)),
        spec_unknown_host_warning(host).len() == 30 + host.len(),
        spec_unknown_host_warning(host).subrange(30, 30 + host.len() as int) == host,
        forall|i: int|
            0 <= i < r.len() ==> !((#[trigger] r[i]) matches Effect::SendMessage { .. }) && !(r[i]
                matches Effect::CreateChannel { .. }),
{
    reveal_strlit("Could not find server by host ");
    assert(("Could not find server by host "@).len() == 30);
    assert(spec_unknown_host_warning(host).subrange(30, 30 + host.len() as int) =~= host);
    assert forall|i: int|
        0 <= i < r.len() implies !((#[trigger] r[i]) matches Effect::SendMessage { .. }) && !(r[i]
        matches Effect::CreateChannel { .. }) by {
        assert(i == 0);
        assert(r[0] matches Effect::LogWarning { .. });
    }
}

} // verus!
