//! Verified core of the AniList Discord bot: response models, text
//! formatting, the embeds and replies of every command, pagination, the
//! quiz's rounds, the store's records, scheduling decisions, caching and
//! rate limiting.

pub mod text;
pub mod store;
pub mod models;
pub mod embed;
pub mod errors;
pub mod embeds;
pub mod pagination;
pub mod clock;
pub mod anilist;
pub mod quiz;
pub mod schedule;
pub mod startup;
pub mod help;
pub mod leaderboard;
pub mod commands;
pub mod cache;
pub mod rate_limit;
pub mod utility;
pub mod presence;
