pub mod headers;
pub mod http_server;
pub mod lifecycle;
pub mod metrics;
pub mod subscriber;
