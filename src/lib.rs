//! A voice assistant's core: speech arbitration between user replies, alerts
//! and idle chatter, a due-task scanner with a per-task cooldown, a yes/no
//! confirmation state machine, and the task-tree logic they rely on.

pub mod chat;
pub mod confirm;
pub mod dispatch;
pub mod encourage;
pub mod kotonoha;
pub mod models;
pub mod scanner;
pub mod speech;
pub mod tasks;
pub mod text;
pub mod tts;
