//! Current-weather lookup: the report model, the request URL, and the
//! printed summary, with their contracts.

pub mod units;
pub mod text;
pub mod report;
pub mod summary;
pub mod client;
