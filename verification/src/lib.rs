//! The rules of a chat bot for guilds of players, kept apart from the chat
//! platform so that they can be stated and proved.
//!
//! The heart of the crate is the store of per-guild configuration:
//! [`command_filter`] decides where a command may run, [`info_channel`] holds
//! the channels set aside for automated messages, [`guild_config`] gathers one
//! guild's settings and changes them in transactions, [`document`] is the form
//! in which a guild's settings are stored, and [`manager`] is the cache that
//! loads every guild once. [`theorems`] states what holds of these together.
//!
//! Around it stand the smaller rules of the bot: what it shows of a guild's
//! configuration ([`display`], [`config_commands`]), of mods ([`mods`],
//! [`mod_lookup`], [`mod_list`], [`versions`]), of its host ([`host`]), what it
//! finds in messages ([`scan`]), and what it does when members come, go, or
//! are removed ([`members`], [`moderation`], [`dispatch`], [`replies`]).
//!
//! Nothing here reads or writes anything: a function that has something
//! stored, sent or looked up says so in its result, and the program around the
//! crate does it.

pub mod command_filter;
pub mod config_commands;
pub mod dispatch;
pub mod display;
pub mod document;
pub mod embed;
pub mod error;
pub mod guild_config;
pub mod host;
pub mod ids;
pub mod info_channel;
pub mod manager;
pub mod members;
pub mod mention;
pub mod mod_list;
pub mod mod_lookup;
pub mod moderation;
pub mod mods;
pub mod replies;
pub mod scan;
pub mod text;
pub mod theorems;
pub mod versions;
