pub mod http_types;
pub mod text;
pub mod byte_buf;
pub mod json;
pub mod url_query;
pub mod request;
pub mod session;
pub mod realtime_call;
pub mod backend_call;
pub mod app_server;
pub mod core_call;
