use ircord::config::{Channel, Config, Server, SpecialChannels};

fn server(host: &str, channels: Vec<Channel>) -> Server {
    Server {
        host: host.to_string(),
        port: 6667,
        use_ssl: false,
        nick: "relay".to_string(),
        password: "pw".to_string(),
        discord_channel_id: 10,
        log_channel_id: 11,
        channels,
    }
}

fn channel(name: &str, id: u64) -> Channel {
    Channel { name: name.to_string(), discord_channel_id: id }
}

fn two_server_store() -> Config {
    Config {
        servers: vec![
            server("irc.example.org", vec![channel("#a", 100), channel("#b", 101)]),
            server("irc.oftc.net", vec![channel("#a", 102)]),
        ],
        special_channels: SpecialChannels { log: 99 },
        guild_id: 1,
    }
}

#[test]
fn find_server_matches_host_exactly() {
    let config = two_server_store();
    assert_eq!(config.find_server(&"irc.example.org".to_string()), Some(0));
    assert_eq!(config.find_server(&"irc.oftc.net".to_string()), Some(1));
    assert_eq!(config.find_server(&"irc.example.or".to_string()), None);
    assert_eq!(config.find_server(&"".to_string()), None);
}

#[test]
fn find_channel_matches_name_exactly() {
    let config = two_server_store();
    assert_eq!(config.servers[0].find_channel(&"#a".to_string()), Some(0));
    assert_eq!(config.servers[0].find_channel(&"#b".to_string()), Some(1));
    assert_eq!(config.servers[1].find_channel(&"#b".to_string()), None);
    assert_eq!(config.servers[0].find_channel(&"#A".to_string()), None);
}

#[test]
fn add_channel_appends_and_keeps_the_store_well_formed() {
    let mut config = two_server_store();
    config.add_channel(1, "#c".to_string(), 103);
    assert_eq!(config.servers[1].channels.len(), 2);
    assert_eq!(config.servers[1].channels[1].name, "#c");
    assert_eq!(config.servers[1].channels[1].discord_channel_id, 103);
    assert_eq!(config.servers[0].channels.len(), 2);
    assert!(config.check_wf());
}

#[test]
fn discord_id_used_scans_the_whole_store() {
    let config = two_server_store();
    assert!(config.discord_id_used(100));
    assert!(config.discord_id_used(102));
    assert!(!config.discord_id_used(103));
}

#[test]
fn check_wf_accepts_a_well_formed_store() {
    assert!(two_server_store().check_wf());
    let empty = Config {
        servers: vec![],
        special_channels: SpecialChannels { log: 0 },
        guild_id: 0,
    };
    assert!(empty.check_wf());
}

#[test]
fn add_channel_accepts_the_largest_discord_id() {
    let mut config = two_server_store();
    config.add_channel(0, "#max".to_string(), u64::MAX);
    assert_eq!(config.servers[0].channels[2].discord_channel_id, u64::MAX);
    assert!(config.check_wf());
    assert!(config.discord_id_used(u64::MAX));
}

#[test]
fn check_wf_rejects_duplicate_hosts() {
    let config = Config {
        servers: vec![server("irc.example.org", vec![]), server("irc.example.org", vec![])],
        special_channels: SpecialChannels { log: 99 },
        guild_id: 1,
    };
    assert!(!config.check_wf());
}

#[test]
fn check_wf_rejects_duplicate_channel_names_within_a_server() {
    let config = Config {
        servers: vec![server("irc.example.org", vec![channel("#a", 100), channel("#a", 101)])],
        special_channels: SpecialChannels { log: 99 },
        guild_id: 1,
    };
    assert!(!config.check_wf());
}

#[test]
fn check_wf_rejects_a_discord_id_shared_across_servers() {
    let config = Config {
        servers: vec![
            server("irc.example.org", vec![channel("#a", 100)]),
            server("irc.oftc.net", vec![channel("#b", 100)]),
        ],
        special_channels: SpecialChannels { log: 99 },
        guild_id: 1,
    };
    assert!(!config.check_wf());
}
