//! An ownership registry for badge records: minting a badge with a single
//! owner, and rotating ownership among the badge's current owners.

pub mod badge;
pub mod identity;
pub mod key;
pub mod registry;

pub use badge::{is_owner, mint_badge, transfer_badge, Badge, BadgeError};
pub use identity::Identity;
pub use key::badge_key;
pub use registry::Registry;
