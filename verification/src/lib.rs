//! Cross-origin resource sharing (CORS) for Rocket applications: the settings,
//! the validation of CORS requests and the CORS response headers.

pub mod error;
pub mod external;
pub mod handlers;
pub mod headers;
pub mod laws;
pub mod method;
pub mod options;
pub mod origins;
pub mod response;
pub mod text;
pub mod validation;

pub use error::Error;
pub use method::{HttpMethod, Method};
pub use origins::{AllOrSome, AllowedOrigins, Origins};
pub use options::{AllowedHeaders, AllowedMethods, Cors, CorsOptions};
