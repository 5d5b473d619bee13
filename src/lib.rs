//! A scraper of a stateful ASP.NET WebForms timetable: the server's tokens,
//! the partial-update ("delta") frame format, the form payloads, the tooltip
//! decoder, the per-command scrape state machine and the decisions of the
//! tasks around it.
pub mod api_config;
pub mod auth;
pub mod bus;
pub mod delta;
pub mod engine;
pub mod forms;
pub mod html;
pub mod ids;
pub mod query;
pub mod schedule;
pub mod schedule_config;
pub mod scraper_config;
pub mod supervisor;
pub mod text;
pub mod timetable;
pub mod tokens;
