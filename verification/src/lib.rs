//! Text reports for a search terminal interface.
//!
//! Two pure formatters make up the library: one turns a search result
//! (processing time, estimated hit count, hit records) into a report,
//! the other turns an index name and its settings into a report.

pub use keycase::display_key;
pub use keycase::underscore_to_space;
pub use search::format_search;
pub use settings::format_settings;
pub use value::Value;

pub mod keycase;
pub mod num;
pub mod search;
pub mod settings;
pub mod value;
