//! Server-side engine of the Inertia protocol: request classification,
//! property resolution, asset-version negotiation and the decisions that
//! surround server-side rendering.
pub mod config;
pub mod controller;
pub mod error;
pub mod headers;
pub mod inertia;
pub mod json;
pub mod middleware;
pub mod node_process;
pub mod page;
pub mod props;
pub mod req_type;
pub mod request;
pub mod response;
pub mod ssr;
pub mod template;
pub mod temporary_session;
pub mod text;
pub mod url;
pub mod utils;

pub use config::{InertiaConfig, InertiaConfigBuilder};
pub use error::{InertiaError, NodeJsError};
pub use headers::InertiaHeader;
pub use inertia::{Inertia, InertiaVersion, SsrClient, ViewData};
pub use page::{InertiaPage, InertiaSSRPage};
pub use props::{InertiaProp, InertiaProps};
pub use req_type::{Component, InertiaRequestType, PartialComponent};
pub use response::{InertiaErrMapper, InertiaResponse};
pub use temporary_session::InertiaTemporarySession;
