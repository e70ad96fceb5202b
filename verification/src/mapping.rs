//! A flat per-network configuration schema: one record per relayed IRC
//! network, pairing its connection settings with its channel map.

use vstd::prelude::*;

verus! {

/// The whole flat configuration: the bot token, the channel that receives
/// configuration traffic, and one mapping per network.
pub struct Config {
    pub discord_bot_token: String,
    pub config_channel: u64,
    pub mapping: Vec<Mapping>,
}

/// One relayed network: its IRC connection settings, its Discord settings,
/// and the channel pairs relayed between the two.
pub struct Mapping {
    pub irc_config: IrcConfig,
    pub discord_config: DiscordConfig,
    pub channel_map: Vec<ChannelMap>,
}

/// Connection settings for one IRC network.
pub struct IrcConfig {
    pub host: String,
    pub port: u16,
    pub use_ssl: bool,
    pub nick: String,
}

/// Discord-side settings for one relayed network.
pub struct DiscordConfig {
    pub config_channel: u64,
}

/// One relayed channel pair.
pub struct ChannelMap {
    pub irc_channel: String,
    pub discord_channel: u64,
}

} // verus!
