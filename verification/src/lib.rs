//! A Telegram bot that sends language learners words at an interval they choose:
//! the verified core of its conversation states, timing and replies.

pub mod bot;
pub mod clock;
pub mod state;
pub mod telegram;
pub mod text;
pub mod user;
pub mod web;
