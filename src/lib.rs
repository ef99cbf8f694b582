//! Send notifications via Slack, Telegram, Matrix, webhooks, e-mail, the
//! desktop or a local command.
//!
//! The library decides which channels an environment or a command line
//! configures, and builds every request that a channel sends: its address,
//! its payload and its form fields. The transports themselves (HTTP clients,
//! SMTP, processes, the desktop) are driven by the caller with these values.

pub mod clap;
pub mod command;
pub mod decimal;
pub mod desktop;
pub mod email;
pub mod env;
pub mod matrix;
pub mod notifier;
pub mod parse_mode;
pub mod slack;
pub mod target_chat;
pub mod telegram;
pub mod text;
pub mod web_url;
pub mod webhook;

pub use crate::command::{exit_result, Command, CommandError};
pub use crate::desktop::Desktop;
pub use crate::email::Email;
pub use crate::env::Environment;
pub use crate::matrix::Matrix;
pub use crate::notifier::Notifier;
pub use crate::parse_mode::{ParseMode, ParseModeError};
pub use crate::parse_mode::ParseMode as TelegramParseMode;
pub use crate::slack::Slack;
pub use crate::target_chat::{TargetChat, TargetChatError};
pub use crate::target_chat::TargetChat as TelegramTargetChat;
pub use crate::telegram::{generate_url, Telegram};
pub use crate::text::{escape_quotes, split_spaces};
pub use crate::web_url::WebUrl;
pub use crate::webhook::Webhook;
