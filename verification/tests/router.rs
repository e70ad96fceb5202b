use ircord::config::{Channel, Config, Server, SpecialChannels};
use ircord::event::MessageReceived;
use ircord::router::{
    format_message, handle_incoming_privmsg, handle_server_log, provision_channel, route_event,
    unknown_host_warning, Effect, ProvisionError,
};

fn server(host: &str, channels: Vec<Channel>) -> Server {
    Server {
        host: host.to_string(),
        port: 6697,
        use_ssl: true,
        nick: "relay".to_string(),
        password: "pw".to_string(),
        discord_channel_id: 42,
        log_channel_id: 77,
        channels,
    }
}

fn store() -> Config {
    Config {
        servers: vec![server("irc.example.org", vec![])],
        special_channels: SpecialChannels { log: 99 },
        guild_id: 1,
    }
}

#[test]
fn new_channel_is_created_persisted_then_sent() {
    let mut config = store();
    let host = "irc.example.org".to_string();
    let from = "alice".to_string();
    let channel = "#general".to_string();
    let message = "hi".to_string();

    let effects = handle_incoming_privmsg(&config, &host, &from, &channel, &message);
    assert_eq!(effects.len(), 1);
    assert_eq!(
        effects[0],
        Effect::CreateChannel {
            guild_id: 1,
            parent_channel_id: 42,
            name: "#general".to_string(),
        }
    );

    let effects = provision_channel(&mut config, &host, &channel, &from, &message, 555).unwrap();
    assert_eq!(effects.len(), 2);
    assert_eq!(effects[0], Effect::Persist);
    assert_eq!(
        effects[1],
        Effect::SendMessage {
            channel_id: 555,
            from: "alice".to_string(),
            message: "hi".to_string(),
        }
    );
    assert_eq!(config.servers[0].channels.len(), 1);
    assert_eq!(config.servers[0].channels[0].name, "#general");
    assert_eq!(config.servers[0].channels[0].discord_channel_id, 555);
    assert!(config.check_wf());
}

#[test]
fn second_message_reuses_the_mapped_channel() {
    let mut config = store();
    let host = "irc.example.org".to_string();
    let channel = "#general".to_string();
    let message = "hi".to_string();
    provision_channel(&mut config, &host, &channel, &"alice".to_string(), &message, 555).unwrap();

    let effects = handle_incoming_privmsg(&config, &host, &"bob".to_string(), &channel, &message);
    assert_eq!(effects.len(), 1);
    assert_eq!(
        effects[0],
        Effect::SendMessage {
            channel_id: 555,
            from: "bob".to_string(),
            message: "hi".to_string(),
        }
    );
}

#[test]
fn unknown_host_yields_exactly_one_warning() {
    let config = store();
    let effects = handle_incoming_privmsg(
        &config,
        &"unknown.host".to_string(),
        &"alice".to_string(),
        &"#general".to_string(),
        &"hi".to_string(),
    );
    assert_eq!(effects.len(), 1);
    match &effects[0] {
        Effect::LogWarning { log_channel_id, warning } => {
            assert_eq!(*log_channel_id, 99);
            assert!(warning.contains("unknown.host"));
            assert_eq!(warning, "Could not find server by host unknown.host");
        }
        other => panic!("expected a warning, got {:?}", other),
    }
}

#[test]
fn server_log_goes_to_the_server_log_channel() {
    let config = store();
    let effects = handle_server_log(&config, &"irc.example.org".to_string(), "MOTD done".to_string());
    assert_eq!(effects.len(), 1);
    assert_eq!(
        effects[0],
        Effect::SendMessage {
            channel_id: 77,
            from: "SYSTEM".to_string(),
            message: "MOTD done".to_string(),
        }
    );
}

#[test]
fn server_log_for_unknown_host_warns() {
    let config = store();
    let effects = handle_server_log(&config, &"unknown.host".to_string(), "notice".to_string());
    assert_eq!(effects.len(), 1);
    assert_eq!(
        effects[0],
        Effect::LogWarning {
            log_channel_id: 99,
            warning: "Could not find server by host unknown.host".to_string(),
        }
    );
}

#[test]
fn route_event_dispatches_both_event_kinds() {
    let config = store();
    let log = MessageReceived::Log {
        host: "irc.example.org".to_string(),
        message: "ping".to_string(),
    };
    let effects = route_event(&config, &log);
    assert!(matches!(effects[0], Effect::SendMessage { channel_id: 77, .. }));

    let msg = MessageReceived::PrivMsg {
        host: "irc.example.org".to_string(),
        from: "alice".to_string(),
        channel: "#general".to_string(),
        message: "hi".to_string(),
    };
    let effects = route_event(&config, &msg);
    assert!(matches!(effects[0], Effect::CreateChannel { .. }));
}

#[test]
fn provision_for_unknown_host_is_refused() {
    let mut config = store();
    let r = provision_channel(
        &mut config,
        &"unknown.host".to_string(),
        &"#general".to_string(),
        &"alice".to_string(),
        &"hi".to_string(),
        555,
    );
    assert_eq!(r, Err(ProvisionError::UnknownHost));
    assert_eq!(config.servers[0].channels.len(), 0);
}

#[test]
fn provision_of_a_mapped_channel_is_refused() {
    let mut config = store();
    let host = "irc.example.org".to_string();
    let channel = "#general".to_string();
    provision_channel(&mut config, &host, &channel, &"alice".to_string(), &"hi".to_string(), 555)
        .unwrap();
    let r = provision_channel(
        &mut config,
        &host,
        &channel,
        &"bob".to_string(),
        &"hi again".to_string(),
        556,
    );
    assert_eq!(r, Err(ProvisionError::ChannelExists));
    assert_eq!(config.servers[0].channels.len(), 1);
}

#[test]
fn provision_with_a_used_discord_id_is_refused() {
    let mut config = store();
    let host = "irc.example.org".to_string();
    provision_channel(
        &mut config,
        &host,
        &"#general".to_string(),
        &"alice".to_string(),
        &"hi".to_string(),
        555,
    )
    .unwrap();
    let r = provision_channel(
        &mut config,
        &host,
        &"#other".to_string(),
        &"alice".to_string(),
        &"hi".to_string(),
        555,
    );
    assert_eq!(r, Err(ProvisionError::DiscordChannelIdInUse));
    assert_eq!(config.servers[0].channels.len(), 1);
}

#[test]
fn provisioning_across_servers_keeps_the_store_well_formed() {
    let mut config = store();
    config.servers.push(server("irc.oftc.net", vec![]));
    provision_channel(
        &mut config,
        &"irc.example.org".to_string(),
        &"#general".to_string(),
        &"alice".to_string(),
        &"hi".to_string(),
        555,
    )
    .unwrap();
    provision_channel(
        &mut config,
        &"irc.oftc.net".to_string(),
        &"#general".to_string(),
        &"carol".to_string(),
        &"hey".to_string(),
        556,
    )
    .unwrap();
    assert!(config.check_wf());
    assert_eq!(config.servers[0].channels[0].discord_channel_id, 555);
    assert_eq!(config.servers[1].channels[0].discord_channel_id, 556);
}

#[test]
fn formats_a_line_with_the_sender_label() {
    assert_eq!(format_message(&"alice".to_string(), &"hi".to_string()), "<alice> hi");
    assert_eq!(format_message(&"".to_string(), &"".to_string()), "<> ");
}

#[test]
fn unknown_host_warning_names_the_host() {
    assert_eq!(
        unknown_host_warning(&"irc.oftc.net".to_string()),
        "Could not find server by host irc.oftc.net"
    );
}
