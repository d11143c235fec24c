//! The builder of a blob client's options.

use crate::base_client::protocol_version;
use crate::options::BlobClientOptions;
use azure_core::ClientOptions;
use vstd::prelude::*;

verus! {

/// Builds `BlobClientOptions` step by step, starting from the defaults.
pub struct BlobClientOptionsBuilder {
    options: BlobClientOptions,
}

impl BlobClientOptionsBuilder {
    /// The options as built so far.
    pub closed spec fn options(self) -> BlobClientOptions {
        self.options
    }

    /// A builder that starts from the default options.
    pub(crate) fn new() -> (builder: Self)
        ensures
            builder.options().version() == Some(protocol_version()),
    {
        BlobClientOptionsBuilder { options: BlobClientOptions::default() }
    }

    /// Names `api_version` as the protocol version, in place of any named before.
    pub fn with_api_version(self, api_version: &str) -> (builder: Self)
        ensures
            builder.options().version() == Some(api_version@),
            builder.options().pipeline_options() == self.options().pipeline_options(),
    {
        BlobClientOptionsBuilder { options: self.options.naming(api_version) }
    }

    /// Takes `client_options` for the pipeline, in place of any taken before.
    pub fn with_client_options(self, client_options: ClientOptions) -> (builder: Self)
        ensures
            builder.options().version() == self.options().version(),
            builder.options().pipeline_options() == client_options,
    {
        BlobClientOptionsBuilder { options: self.options.through(client_options) }
    }

    /// The options built: a copy, so that the builder can be used again.
    pub fn build(&self) -> (options: BlobClientOptions)
        ensures
            options.version() == self.options().version(),
            options.pipeline_options() == self.options().pipeline_options(),
    {
        self.options.clone()
    }
}

} // verus!
