//! The options a client is constructed with.

pub mod builders;

use crate::base_client::protocol_version;
use azure_core::ClientOptions;
use vstd::prelude::*;
use vstd::string::*;

verus! {

/// `azure_core::ClientOptions`, the options of a pipeline. They are carried,
/// never read.
#[verifier::external_type_specification]
#[verifier::external_body]
pub struct ExClientOptions(azure_core::ClientOptions);

/// `ClientOptions::default`. The options are the pipeline's own affair and
/// are handed on unopened, so nothing is claimed of them.
#[verifier::external_body]
pub(crate) fn default_client_options() -> ClientOptions {
    ClientOptions::default()
}

/// `ClientOptions::clone`. The copy equals the options it was made from.
#[verifier::external_body]
pub(crate) fn clone_client_options(options: &ClientOptions) -> (copy: ClientOptions)
    ensures
        copy == *options,
{
    options.clone()
}

/// The options of a blob client: the protocol version it names, and the
/// options of the pipeline it will send through.
#[derive(Debug)]
pub struct BlobClientOptions {
    api_version: Option<String>,
    client_options: ClientOptions,
}

impl BlobClientOptions {
    /// The protocol version named, if any.
    pub closed spec fn version(self) -> Option<Seq<char>> {
        match self.api_version {
            Some(version) => Some(version@),
            None => None,
        }
    }

    /// The pipeline options.
    pub closed spec fn pipeline_options(self) -> ClientOptions {
        self.client_options
    }

    /// Starts a builder from the default options.
    pub fn builder() -> (builder: builders::BlobClientOptionsBuilder)
        ensures
            builder.options().version() == Some(protocol_version()),
    {
        builders::BlobClientOptionsBuilder::new()
    }

    /// The protocol version named, if any.
    pub fn api_version(&self) -> (version: &Option<String>)
        ensures
            match *version {
                Some(text) => self.version() == Some(text@),
                None => self.version() is None,
            },
    {
        &self.api_version
    }

    /// The pipeline options.
    pub fn client_options(&self) -> (options: &ClientOptions)
        ensures
            *options == self.pipeline_options(),
    {
        &self.client_options
    }

    /// These options, naming `api_version` as the protocol version.
    pub(crate) fn naming(self, api_version: &str) -> (options: Self)
        ensures
            options.version() == Some(api_version@),
            options.pipeline_options() == self.pipeline_options(),
    {
        BlobClientOptions {
            api_version: Some(api_version.to_owned()),
            client_options: self.client_options,
        }
    }

    /// These options, with `client_options` for the pipeline.
    pub(crate) fn through(self, client_options: ClientOptions) -> (options: Self)
        ensures
            options.version() == self.version(),
            options.pipeline_options() == client_options,
    {
        BlobClientOptions { api_version: self.api_version, client_options }
    }
}

impl Default for BlobClientOptions {
    /// Options that name the default protocol version and carry the
    /// pipeline's default options.
    fn default() -> (options: Self)
        ensures
            options.version() == Some(protocol_version()),
    {
        BlobClientOptions {
            api_version: Some(String::from_str("2023-11-03")),
            client_options: default_client_options(),
        }
    }
}

impl Clone for BlobClientOptions {
    fn clone(&self) -> (copy: Self)
        ensures
            copy.version() == self.version(),
            copy.pipeline_options() == self.pipeline_options(),
    {
        let api_version = match &self.api_version {
            Some(version) => Some(version.clone()),
            None => None,
        };
        BlobClientOptions {
            api_version,
            client_options: clone_client_options(&self.client_options),
        }
    }
}

} // verus!
