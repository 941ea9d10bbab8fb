//! The dashboard's state: navigation, member list, popups and what is known
//! of Discord.
pub mod discord;
pub mod popups;
pub mod dashboard;
pub mod user;
