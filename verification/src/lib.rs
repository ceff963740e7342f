//! The logic of a shielded wallet: addresses, keys, proposals, transfers and what is reported
//! of them to the host.
//!
//! The wallet itself, with its notes, its prover and its connection, belongs to another
//! library. What alternates with calls into it is written as steps, from a state and an event
//! to the next state and an action: see `opening` and `transfer`. The open wallets are kept in
//! `client`; `sync`, `poll`, `proposal` and `transfer` work on them. The rest is about texts
//! and bytes: `address`, `keys`, `memo`, `activity` and `masternodes`, above `text`,
//! `hexadecimal`, `bech32m` and `json_text`.

pub mod activity;
pub mod address;
pub mod alias_map;
pub mod bech32m;
pub mod client;
pub mod hexadecimal;
pub mod host;
pub mod json_text;
pub mod keys;
pub mod masternodes;
pub mod memo;
pub mod network;
pub mod opening;
pub mod poll;
pub mod proposal;
pub mod sync;
pub mod text;
pub mod transfer;
