use vstd::prelude::*;

verus! {

/// Sends a respawn request after the player dies.
#[derive(Debug, Clone, Copy, PartialEq, Eq, Structural)]
pub struct AutoRespawnPlugin {
    pub enabled: bool,
    /// Milliseconds to wait before the request.
    pub respawn_delay: u64,
}

impl AutoRespawnPlugin {
    /// On, without delay.
    pub fn default() -> (res: AutoRespawnPlugin)
        ensures
            res.enabled,
            res.respawn_delay == 0,
    {
        AutoRespawnPlugin { enabled: true, respawn_delay: 0 }
    }
}

/// Connects again after the connection was lost.
#[derive(Debug, Clone, Copy, PartialEq, Eq, Structural)]
pub struct AutoReconnectPlugin {
    pub enabled: bool,
    /// Milliseconds to wait before connecting again.
    pub reconnect_delay: u64,
    /// How many times to connect again; -1 for no limit.
    pub max_attempts: i32,
}

impl AutoReconnectPlugin {
    /// Off.
    pub fn default() -> (res: AutoReconnectPlugin)
        ensures
            !res.enabled,
            res.reconnect_delay == 1000,
            res.max_attempts == -1,
    {
        AutoReconnectPlugin { enabled: false, reconnect_delay: 1000, max_attempts: -1 }
    }
}

/// The plugins of a bot.
#[derive(Debug, Clone, Copy, PartialEq, Eq, Structural)]
pub struct BotPlugins {
    pub auto_respawn: AutoRespawnPlugin,
    pub auto_reconnect: AutoReconnectPlugin,
}

impl BotPlugins {
    /// Every plugin at its default.
    pub fn default() -> (res: BotPlugins)
        ensures
            res.auto_respawn.enabled,
            res.auto_respawn.respawn_delay == 0,
            !res.auto_reconnect.enabled,
            res.auto_reconnect.reconnect_delay == 1000,
            res.auto_reconnect.max_attempts == -1,
    {
        BotPlugins {
            auto_respawn: AutoRespawnPlugin::default(),
            auto_reconnect: AutoReconnectPlugin::default(),
        }
    }
}

/// What a bot does when its connection ends with an error.
#[derive(Debug, Clone, Copy, PartialEq, Eq, Structural)]
pub enum ReconnectStep {
    /// Wait the delay, in milliseconds, then connect again; the attempt is the new count.
    Retry { delay: u64, attempt: i32 },
    /// Give the error back.
    GiveUp,
}

/// Whether a bot connects again: only when the error is one of a lost connection, the plugin is
/// on, and the attempts made so far are fewer than allowed (-1 allows any number).
pub open spec fn spec_reconnect(connection_lost: bool, plugin: AutoReconnectPlugin, attempts: i32) -> ReconnectStep {
    if connection_lost && plugin.enabled && (plugin.max_attempts == -1 || attempts < plugin.max_attempts) {
        ReconnectStep::Retry { delay: plugin.reconnect_delay, attempt: (attempts + 1) as i32 }
    } else {
        ReconnectStep::GiveUp
    }
}

/// Decides whether a bot connects again after its connection ended with an error.
pub fn reconnect_step(connection_lost: bool, plugin: &AutoReconnectPlugin, attempts: i32) -> (res: ReconnectStep)
    requires
        attempts == i32::MAX ==> !(connection_lost && plugin.enabled && plugin.max_attempts == -1),
    ensures
        res == spec_reconnect(connection_lost, *plugin, attempts),
{
    let max_attempts = if plugin.enabled {
        plugin.max_attempts
    } else {
        1
    };
    if !connection_lost {
        return ReconnectStep::GiveUp;
    }
    if !plugin.enabled || (max_attempts != -1 && attempts >= max_attempts) {
        return ReconnectStep::GiveUp;
    }
    ReconnectStep::Retry { delay: plugin.reconnect_delay, attempt: attempts + 1 }
}

/// A bot that keeps losing its connection gives up after the allowed number of attempts:
/// counting from zero, it connects again exactly `max_attempts` times.
pub proof fn lemma_reconnect_bounded(plugin: AutoReconnectPlugin, attempts: i32)
    requires
        plugin.max_attempts >= 0,
        attempts >= 0,
    ensures
        spec_reconnect(true, plugin, attempts) is Retry <==> plugin.enabled && attempts
            < plugin.max_attempts,
        spec_reconnect(true, plugin, attempts) matches ReconnectStep::Retry { attempt, .. }
            ==> attempt == attempts + 1 && attempt <= plugin.max_attempts,
{
}

} // verus!
