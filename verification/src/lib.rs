//! Client-side logic of the idle game frontend: asset paths, routing,
//! keyboard state, authentication state, chat state, loot filtering and
//! the small state machines that the user interface drives.

pub mod assets;
pub mod keys;
pub mod text;
pub mod routing;
pub mod auth;
pub mod backend;
pub mod measure;
pub mod indexed;
pub mod loot_filter;
pub mod chat;
pub mod syncable;
pub mod inventory;
pub mod rewards;
pub mod panels;
pub mod connection;
pub mod format;
pub mod labels;
pub mod passives;
pub mod accessibility;
pub mod data;
pub mod monsters;
pub mod loot_queue;
pub mod statuses;
pub mod skill_shop;
pub mod effects;
