//! A verified core for a small SQL-client command-line tool: server-registry
//! resolution, database-name expansion, statement construction, and typed
//! column-value rendering.

mod config;
mod db;
mod error;
mod numfmt;
mod render;
mod text;

pub use config::Config;
pub use config::ServerInfo;
pub use config::Staff;
pub use config::StaffBadges;
pub use config::default_port;
pub use config::lemma_default_port_forms;
pub use config::spec_find_server;
pub use db::ClauseSet;
pub use db::Operation;
pub use db::Request;
pub use db::build_statement;
pub use db::is_db_code;
pub use db::lemma_code_prefix_iff;
pub use db::parse_db_name;
pub use db::parse_operation;
pub use db::prepare;
pub use error::Error;
pub use render::ColumnString;
pub use render::ColumnValue;
pub use render::DateTimeValue;
pub use render::DateValue;
pub use render::NumericValue;
pub use render::render_rows;
pub use render::render_tables;
pub use render::rendered_text;
pub use render::TimeValue;
