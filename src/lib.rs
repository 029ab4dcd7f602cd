//! The event-delivery and periodic-task core of a household allowance tracker.
//!
//! [`notify`] chooses who is told of an event and hands it to a publish/subscribe back end
//! ([`notifications`]); [`socket`] decides what a live connection does with each event it
//! receives; [`tasks`] decides the steps that run each recurring task at most once per period.
//! The remaining modules hold the values and records that these carry.

pub mod api;
pub mod currency_format;
pub mod email;
pub mod entities;
pub mod events;
pub mod link;
pub mod notifications;
pub mod notify;
pub mod role;
pub mod schedule;
pub mod socket;
pub mod tasks;
pub mod text;
pub mod timestamp;
pub mod transaction_type;
pub mod uid;

pub use currency_format::{CurrencyFormat, CurrencyFormatParseError};
pub use email::{EmailAddress, EmailAddressParseError};
pub use link::{URLParseError, URL};
pub use role::{Role, RoleParseError};
pub use schedule::{Schedule, ScheduleParseError, Weekday};
pub use timestamp::{Timestamp, TimestampParseError};
pub use transaction_type::{TransactionType, TransactionTypeParseError};
pub use uid::{UIDParseError, UID};
