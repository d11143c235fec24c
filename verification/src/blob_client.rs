//! The blob client: the identity of one blob, its address, and the kind of
//! upload it has been committed to.

use crate::base_client::{account_url, build_url, protocol_version};
use crate::clock::{http_date, now_utc, to_rfc7231};
use crate::descriptor::{bytes_content, descriptor, parse_url, parsed_url, url_text};
use crate::error::{ClientError, ValidationError};
use crate::options::BlobClientOptions;
use crate::request_builder::{
    download, get_properties, outcome_descriptor, request_for, upload, upload_outcome, Operation,
};
use crate::units::{Append, BlobKind, Block, Kind, Page, Unset, UploadKind};
use crate::validator::{validate, PAGE_SIZE};
use azure_core::{Request, Url};
use url::ParseError;
use bytes::Bytes;
use time::OffsetDateTime;
use vstd::prelude::*;
use vstd::string::*;

verus! {

/// The address of a blob before it is parsed: the address of the account's
/// blob service, then the container and the blob, each as it stands, with a
/// slash between them.
pub open spec fn blob_url(account_name: Seq<char>, container_name: Seq<char>, blob_name: Seq<char>) -> Seq<
    char,
> {
    account_url(account_name, "blob"@) + container_name + "/"@ + blob_name
}

/// A client for one blob. `K` is the kind the client is committed to; a client
/// starts as `Unset` and is committed once, by a transition that consumes it.
pub struct BlobClient<K: BlobKind> {
    account_name: String,
    container_name: String,
    blob_name: String,
    url: Url,
    options: BlobClientOptions,
    state: K,
}

impl<K: BlobKind> BlobClient<K> {
    /// The address is the one the names give, as parsed at construction.
    #[verifier::type_invariant]
    spec fn addressed(self) -> bool {
        parsed_url(blob_url(self.account_name@, self.container_name@, self.blob_name@)) == Some(
            url_text(self.url),
        )
    }

    /// The name of the account.
    pub closed spec fn account(self) -> Seq<char> {
        self.account_name@
    }

    /// The name of the container.
    pub closed spec fn container(self) -> Seq<char> {
        self.container_name@
    }

    /// The name of the blob.
    pub closed spec fn blob(self) -> Seq<char> {
        self.blob_name@
    }

    /// The text of the blob's address.
    pub closed spec fn address(self) -> Seq<char> {
        url_text(self.url)
    }

    /// The options the client was constructed with.
    pub closed spec fn configuration(self) -> BlobClientOptions {
        self.options
    }

    /// The kind the client is committed to.
    pub open spec fn kind(self) -> Kind {
        K::kind()
    }

    /// True where `other` is a client for the same blob, at the same address
    /// and with the same options, whatever its kind.
    pub open spec fn same_blob<L: BlobKind>(self, other: BlobClient<L>) -> bool {
        &&& other.account() == self.account()
        &&& other.container() == self.container()
        &&& other.blob() == self.blob()
        &&& other.address() == self.address()
        &&& other.configuration() == self.configuration()
    }

    /// The name of the account.
    pub fn account_name(&self) -> (name: &String)
        ensures
            name@ == self.account(),
    {
        &self.account_name
    }

    /// The name of the container.
    pub fn container_name(&self) -> (name: &String)
        ensures
            name@ == self.container(),
    {
        &self.container_name
    }

    /// The name of the blob.
    pub fn blob_name(&self) -> (name: &String)
        ensures
            name@ == self.blob(),
    {
        &self.blob_name
    }

    /// The blob's address: what parsing makes of the address that the names give.
    pub fn url(&self) -> (url: &Url)
        ensures
            url_text(*url) == self.address(),
            parsed_url(blob_url(self.account(), self.container(), self.blob())) == Some(
                self.address(),
            ),
    {
        proof {
            use_type_invariant(self);
        }
        &self.url
    }

    /// The options the client was constructed with.
    pub fn options(&self) -> (options: &BlobClientOptions)
        ensures
            *options == self.configuration(),
    {
        &self.options
    }

    /// The kind the client is committed to.
    pub fn blob_kind(&self) -> (kind: Kind)
        ensures
            kind == self.kind(),
    {
        self.state.discriminator()
    }

    /// Describes the request that reads the blob.
    pub fn download_blob(&self) -> (request: Request)
        ensures
            descriptor(request) == request_for(Operation::Download, self.address()),
    {
        download(&self.url)
    }

    /// Describes the request that probes the blob's properties.
    pub fn get_blob_properties(&self) -> (request: Request)
        ensures
            descriptor(request) == request_for(Operation::GetProperties, self.address()),
    {
        get_properties(&self.url)
    }
}

impl BlobClient<Unset> {
    /// Constructs a client for the blob `blob_name` in the container
    /// `container_name` of the account `account_name`, not yet committed to a
    /// kind. Without `options` the client gets the default ones. Construction
    /// fails where the address that the names give is not a valid URL.
    pub fn new(
        account_name: String,
        container_name: String,
        blob_name: String,
        options: Option<BlobClientOptions>,
    ) -> (made: Result<BlobClient<Unset>, ClientError>)
        ensures
            match made {
                Ok(client) => {
                    &&& client.kind() == Kind::Undetermined
                    &&& client.account() == account_name@
                    &&& client.container() == container_name@
                    &&& client.blob() == blob_name@
                    &&& parsed_url(blob_url(account_name@, container_name@, blob_name@)) == Some(
                        client.address(),
                    )
                    &&& match options {
                        Some(given) => client.configuration() == given,
                        None => client.configuration().version() == Some(protocol_version()),
                    }
                },
                Err(error) => {
                    &&& error == ClientError::UrlConstruction
                    &&& parsed_url(blob_url(account_name@, container_name@, blob_name@)) is None
                },
            },
    {
        let base = match build_url(account_name.as_str(), "blob") {
            Ok(base) => base,
            Err(error) => {
                return Err(error);
            },
        };
        let text = Self::build_blob_url(base.as_str(), container_name.as_str(), blob_name.as_str());
        let parsed = parse_url(text.as_str());
        Self::from_parsed_url(account_name, container_name, blob_name, options, parsed)
    }

    /// Constructs a client from its names and from what parsing made of the
    /// address that the names give: the client at the parsed address, or the
    /// construction error where parsing refused the address.
    pub fn from_parsed_url(
        account_name: String,
        container_name: String,
        blob_name: String,
        options: Option<BlobClientOptions>,
        parsed: Result<Url, ParseError>,
    ) -> (made: Result<BlobClient<Unset>, ClientError>)
        requires
            match parsed {
                Ok(url) => parsed_url(blob_url(account_name@, container_name@, blob_name@))
                    == Some(url_text(url)),
                Err(_) => true,
            },
        ensures
            match parsed {
                Ok(url) => {
                    &&& made is Ok
                    &&& made->Ok_0.kind() == Kind::Undetermined
                    &&& made->Ok_0.account() == account_name@
                    &&& made->Ok_0.container() == container_name@
                    &&& made->Ok_0.blob() == blob_name@
                    &&& made->Ok_0.address() == url_text(url)
                    &&& match options {
                        Some(given) => made->Ok_0.configuration() == given,
                        None => made->Ok_0.configuration().version() == Some(protocol_version()),
                    }
                },
                Err(_) => made == Err::<BlobClient<Unset>, ClientError>(
                    ClientError::UrlConstruction,
                ),
            },
    {
        let options = match options {
            Some(given) => given,
            None => BlobClientOptions::default(),
        };
        match parsed {
            Ok(url) => Ok(
                BlobClient { account_name, container_name, blob_name, url, options, state: Unset },
            ),
            Err(_) => Err(ClientError::UrlConstruction),
        }
    }

    /// Appends the container and the blob to the address of the account's
    /// service, each as it stands, with a slash between them.
    pub fn build_blob_url(base_url: &str, container_name: &str, blob_name: &str) -> (url: String)
        ensures
            url@ == base_url@ + container_name@ + "/"@ + blob_name@,
    {
        let mut url = base_url.to_owned();
        url.append(container_name);
        url.append("/");
        url.append(blob_name);
        url
    }

    /// Commits the client to block blobs.
    pub fn as_block_blob(self) -> (client: BlobClient<Block>)
        ensures
            self.same_blob(client),
            client.kind() == Kind::Block,
    {
        proof {
            use_type_invariant(&self);
        }
        BlobClient {
            account_name: self.account_name,
            container_name: self.container_name,
            blob_name: self.blob_name,
            url: self.url,
            options: self.options,
            state: Block,
        }
    }

    /// Commits the client to append blobs.
    pub fn as_append_blob(self) -> (client: BlobClient<Append>)
        ensures
            self.same_blob(client),
            client.kind() == Kind::Append,
    {
        proof {
            use_type_invariant(&self);
        }
        BlobClient {
            account_name: self.account_name,
            container_name: self.container_name,
            blob_name: self.blob_name,
            url: self.url,
            options: self.options,
            state: Append,
        }
    }

    /// Commits the client to page blobs.
    pub fn as_page_blob(self) -> (client: BlobClient<Page>)
        ensures
            self.same_blob(client),
            client.kind() == Kind::Page,
    {
        proof {
            use_type_invariant(&self);
        }
        BlobClient {
            account_name: self.account_name,
            container_name: self.container_name,
            blob_name: self.blob_name,
            url: self.url,
            options: self.options,
            state: Page,
        }
    }
}

impl<K: UploadKind> BlobClient<K> {
    /// A client that can upload is committed: its kind is block, page or
    /// append, never the undetermined one.
    pub proof fn uploading_client_is_committed(self)
        ensures
            self.kind() == Kind::Block || self.kind() == Kind::Page || self.kind() == Kind::Append,
    {
        K::kind_is_concrete();
    }

    /// Validates `data` for the client's kind and, where it passes, describes
    /// the request that uploads it, stamped with the time at which the
    /// request is built. Where it does not pass, the clock is not read and no
    /// request is built.
    pub fn upload_blob(&self, data: Bytes) -> (outcome: Result<Request, ValidationError>)
        ensures
            exists|when: OffsetDateTime|
                outcome_descriptor(outcome) == upload_outcome(
                    self.kind(),
                    bytes_content(data),
                    self.address(),
                    #[trigger] http_date(when),
                ),
    {
        match validate(self.state.discriminator(), data) {
            Ok(parameters) => {
                let when = now_utc();
                let request = upload(&self.url, parameters, to_rfc7231(&when));
                assert(outcome_descriptor(Ok(request)) == upload_outcome(
                    self.kind(),
                    bytes_content(data),
                    self.address(),
                    http_date(when),
                ));
                Ok(request)
            },
            Err(error) => {
                let ghost when: OffsetDateTime = arbitrary();
                assert(outcome_descriptor(Err(error)) == upload_outcome(
                    self.kind(),
                    bytes_content(data),
                    self.address(),
                    http_date(when),
                ));
                Err(error)
            },
        }
    }

    /// As `upload_blob`, stamped with the instant `when` in place of the
    /// time at which the request is built.
    pub fn upload_blob_at(&self, data: Bytes, when: &OffsetDateTime) -> (outcome: Result<
        Request,
        ValidationError,
    >)
        ensures
            outcome_descriptor(outcome) == upload_outcome(
                self.kind(),
                bytes_content(data),
                self.address(),
                http_date(*when),
            ),
    {
        match validate(self.state.discriminator(), data) {
            Ok(parameters) => Ok(upload(&self.url, parameters, to_rfc7231(when))),
            Err(error) => Err(error),
        }
    }
}

impl BlobClient<Block> {
    /// Describes the upload of `data` as a block blob. Every payload passes
    /// validation, so a request is always described.
    pub fn upload_block_blob(&self, data: Bytes) -> (outcome: Result<Request, ValidationError>)
        ensures
            outcome is Ok,
            exists|when: OffsetDateTime|
                outcome_descriptor(outcome) == upload_outcome(
                    Kind::Block,
                    bytes_content(data),
                    self.address(),
                    #[trigger] http_date(when),
                ),
    {
        self.upload_blob(data)
    }
}

impl BlobClient<Append> {
    /// Describes the creation of an empty append blob. Every payload passes
    /// validation and none is sent, so a request is always described, and it
    /// is the same whatever `data` holds.
    pub fn upload_append_blob(&self, data: Bytes) -> (outcome: Result<Request, ValidationError>)
        ensures
            outcome is Ok,
            exists|when: OffsetDateTime|
                outcome_descriptor(outcome) == upload_outcome(
                    Kind::Append,
                    bytes_content(data),
                    self.address(),
                    #[trigger] http_date(when),
                ),
    {
        self.upload_blob(data)
    }
}

impl BlobClient<Page> {
    /// Describes the upload of `data` as a page blob. A payload whose length
    /// is not a multiple of the page size is refused, with its length, and no
    /// request is described.
    pub fn upload_page_blob(&self, data: Bytes) -> (outcome: Result<Request, ValidationError>)
        ensures
            outcome is Ok <==> bytes_content(data).len() % (PAGE_SIZE as nat) == 0,
            exists|when: OffsetDateTime|
                outcome_descriptor(outcome) == upload_outcome(
                    Kind::Page,
                    bytes_content(data),
                    self.address(),
                    #[trigger] http_date(when),
                ),
    {
        self.upload_blob(data)
    }
}

} // verus!
