//! Lightweight localization: a table of units of localization, and the
//! word-by-word rendering of a message through it.

pub mod locale;
pub mod text;
pub mod transform;

pub use locale::{Locale, LocaleMessage};
pub use transform::{localize, phoneticize};
