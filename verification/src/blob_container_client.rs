//! The container client: the identity of one container and its address.

use crate::base_client::{account_url, build_url};
use crate::descriptor::{descriptor, parse_url, parsed_url, url_text};
use crate::error::ClientError;
use crate::request_builder::{get_properties, request_for, Operation};
use azure_core::{Request, Url};
use url::ParseError;
use vstd::prelude::*;
use vstd::string::*;

verus! {

/// The address of a container before it is parsed: the address of the
/// account's blob service, then the container as it stands, a slash, and the
/// query that marks the target as a container.
pub open spec fn container_url(account_name: Seq<char>, container_name: Seq<char>) -> Seq<char> {
    account_url(account_name, "blob"@) + container_name + "/"@ + "?restype=container"@
}

/// A client for one container.
pub struct BlobContainerClient {
    account_name: String,
    container_name: String,
    url: Url,
}

impl BlobContainerClient {
    /// The address is the one the names give, as parsed at construction.
    #[verifier::type_invariant]
    spec fn addressed(self) -> bool {
        parsed_url(container_url(self.account_name@, self.container_name@)) == Some(
            url_text(self.url),
        )
    }

    /// The name of the account.
    pub closed spec fn account(self) -> Seq<char> {
        self.account_name@
    }

    /// The name of the container.
    pub closed spec fn container(self) -> Seq<char> {
        self.container_name@
    }

    /// The text of the container's address.
    pub closed spec fn address(self) -> Seq<char> {
        url_text(self.url)
    }

    /// Constructs a client for the container `container_name` of the account
    /// `account_name`. Construction fails where the address that the names
    /// give is not a valid URL.
    pub fn new(account_name: String, container_name: String) -> (made: Result<
        BlobContainerClient,
        ClientError,
    >)
        ensures
            match made {
                Ok(client) => {
                    &&& client.account() == account_name@
                    &&& client.container() == container_name@
                    &&& parsed_url(container_url(account_name@, container_name@)) == Some(
                        client.address(),
                    )
                },
                Err(error) => {
                    &&& error == ClientError::UrlConstruction
                    &&& parsed_url(container_url(account_name@, container_name@)) is None
                },
            },
    {
        let base = match build_url(account_name.as_str(), "blob") {
            Ok(base) => base,
            Err(error) => {
                return Err(error);
            },
        };
        let text = Self::build_container_url(base.as_str(), container_name.as_str());
        let parsed = parse_url(text.as_str());
        Self::from_parsed_url(account_name, container_name, parsed)
    }

    /// Constructs a client from its names and from what parsing made of the
    /// address that the names give: the client at the parsed address, or the
    /// construction error where parsing refused the address.
    pub fn from_parsed_url(
        account_name: String,
        container_name: String,
        parsed: Result<Url, ParseError>,
    ) -> (made: Result<BlobContainerClient, ClientError>)
        requires
            match parsed {
                Ok(url) => parsed_url(container_url(account_name@, container_name@)) == Some(
                    url_text(url),
                ),
                Err(_) => true,
            },
        ensures
            match parsed {
                Ok(url) => {
                    &&& made is Ok
                    &&& made->Ok_0.account() == account_name@
                    &&& made->Ok_0.container() == container_name@
                    &&& made->Ok_0.address() == url_text(url)
                },
                Err(_) => made == Err::<BlobContainerClient, ClientError>(
                    ClientError::UrlConstruction,
                ),
            },
    {
        match parsed {
            Ok(url) => Ok(BlobContainerClient { account_name, container_name, url }),
            Err(_) => Err(ClientError::UrlConstruction),
        }
    }

    /// Appends the container, as it stands, to the address of the account's
    /// service, then a slash and the query that marks the target as a container.
    pub fn build_container_url(base_url: &str, container_name: &str) -> (url: String)
        ensures
            url@ == base_url@ + container_name@ + "/"@ + "?restype=container"@,
    {
        let mut url = base_url.to_owned();
        url.append(container_name);
        url.append("/");
        url.append("?restype=container");
        url
    }

    /// The name of the account.
    pub fn account_name(&self) -> (name: &String)
        ensures
            name@ == self.account(),
    {
        &self.account_name
    }

    /// The name of the container.
    pub fn container_name(&self) -> (name: &String)
        ensures
            name@ == self.container(),
    {
        &self.container_name
    }

    /// The container's address: what parsing makes of the address that the
    /// names give.
    pub fn url(&self) -> (url: &Url)
        ensures
            url_text(*url) == self.address(),
            parsed_url(container_url(self.account(), self.container())) == Some(self.address()),
    {
        proof {
            use_type_invariant(self);
        }
        &self.url
    }

    /// Describes the request that probes the container's properties.
    pub fn get_container_properties(&self) -> (request: Request)
        ensures
            descriptor(request) == request_for(Operation::GetProperties, self.address()),
    {
        get_properties(&self.url)
    }
}

} // verus!
