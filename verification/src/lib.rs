//! A Discord bot for a Hypixel guild: it links members' Discord accounts to
//! their Minecraft accounts and keeps their roles and nicknames in line with
//! the guild's ranks.
use vstd::prelude::*;

pub mod commands;
pub mod config;
pub mod database;
pub mod minecraft;
pub mod models;
pub mod text;

use crate::text::{append_str, decimal, owned, write_u64};

verus! {

/// What the gateway handed a shard.
pub enum GatewayItem {
    /// The gateway closed the connection.
    Close,
    /// Any other event.
    Event,
    /// Receiving failed, and the shard is reconnecting.
    ReconnectError,
    /// Receiving failed otherwise.
    OtherError,
}

/// What a shard does with what the gateway handed it.
pub enum ShardStep {
    /// Stop the shard.
    Stop,
    /// Pass over it and wait for the next.
    Skip,
    /// Handle the event.
    Handle,
}

/// What a shard does with `item` while a shutdown is, or is not, under
/// way: during a shutdown a closed connection or a reconnect stops it;
/// other failures are passed over, and every event is handled.
pub fn shard_step(item: GatewayItem, shutdown: bool) -> (r: ShardStep)
    ensures
        r == (match item {
            GatewayItem::Close => if shutdown {
                ShardStep::Stop
            } else {
                ShardStep::Handle
            },
            GatewayItem::Event => ShardStep::Handle,
            GatewayItem::ReconnectError => if shutdown {
                ShardStep::Stop
            } else {
                ShardStep::Skip
            },
            GatewayItem::OtherError => ShardStep::Skip,
        }),
{
    match item {
        GatewayItem::Close => if shutdown {
            ShardStep::Stop
        } else {
            ShardStep::Handle
        },
        GatewayItem::Event => ShardStep::Handle,
        GatewayItem::ReconnectError => if shutdown {
            ShardStep::Stop
        } else {
            ShardStep::Skip
        },
        GatewayItem::OtherError => ShardStep::Skip,
    }
}

/// The name of the game a shard shows itself playing.
pub fn presence_name(shard: u32) -> (s: String)
    ensures
        s@ == "with Rust & Twilight ("@ + decimal(shard as nat) + ")"@,
{
    let mut s = owned("with Rust & Twilight (");
    write_u64(&mut s, shard as u64);
    append_str(&mut s, ")");
    s
}

} // verus!
