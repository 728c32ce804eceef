//! Reads browser cookies from a profile's cookie store and session file into
//! one model, and renders them as header expressions, a Netscape table or JSON.

pub mod cli;
pub mod cookie;
pub mod decimal;
pub mod laws;
pub mod profile;
pub mod render;
pub mod select;
pub mod session;

pub use cookie::{flag_from_number, optional_flag, Cookie};
pub use decimal::decimal_text;
pub use render::{
    json_object_text, render, render_expressions, render_json, render_table, OutputFormat,
};
pub use select::{filter_by_domain, matches_domain, merge_cookies};
pub use cli::Cli;
pub use session::{session_payload, MozSession, SessionError, SESSION_HEADER_LEN};
pub use profile::{select_profile, ProfileEntry};
