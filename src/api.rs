pub mod client;
pub mod error;
pub mod headers;
pub mod json;
pub mod status;
pub mod text;
pub mod url_parse;
pub mod dispatch;
