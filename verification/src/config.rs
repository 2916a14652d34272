//! Application configuration.  Reading it from the environment stays with
//! the binary; here it is plain data.

use vstd::prelude::*;

verus! {

/// The settings the application starts with.
#[derive(Clone, Debug)]
pub struct AppConfig {
    /// The address the server listens on.
    pub server_address: String,
    /// The address written into the generated API description.
    pub openapi_server_address: String,
    pub aws_access_key_id: String,
    pub aws_secret_access_key: String,
    pub aws_region: String,
    /// Cap on the store client's own retries; a default applies when
    /// absent.
    pub aws_max_retries: Option<u32>,
}

impl AppConfig {
    pub fn new(
        server_address: String,
        openapi_server_address: String,
        aws_access_key_id: String,
        aws_secret_access_key: String,
        aws_region: String,
        aws_max_retries: Option<u32>,
    ) -> (r: AppConfig)
        ensures
            r.server_address == server_address,
            r.openapi_server_address == openapi_server_address,
            r.aws_max_retries == aws_max_retries,
    {
        AppConfig {
            server_address,
            openapi_server_address,
            aws_access_key_id,
            aws_secret_access_key,
            aws_region,
            aws_max_retries,
        }
    }
}

} // verus!
