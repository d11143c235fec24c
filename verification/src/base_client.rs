//! What every client shares: the account address, and the protocol version
//! that every request declares.

use crate::descriptor::{
    insert_header, is_header_name, is_name_char, request_body, request_headers, request_method,
    request_url,
};
use crate::error::ClientError;
use azure_core::Request;
use vstd::prelude::*;
use vstd::string::*;

verus! {

/// True of the storage services that an account address may name.
pub open spec fn is_service(service: Seq<char>) -> bool {
    service == "blob"@ || service == "queue"@ || service == "file-share"@ || service == "dfs"@
}

/// The address of an account's service, up to and including the slash that
/// ends the host.
pub open spec fn account_url(account_name: Seq<char>, service: Seq<char>) -> Seq<char> {
    "https://"@ + account_name + "."@ + service + ".core.windows.net/"@
}

/// The name of the header that declares the protocol version.
pub open spec fn version_header() -> Seq<char> {
    "x-ms-version"@
}

/// The protocol version that every request declares.
pub open spec fn protocol_version() -> Seq<char> {
    "2023-11-03"@
}

/// A header set after it has been given the protocol version: the version
/// stands under its name, whatever stood there before, and every other header
/// is as it was.
pub open spec fn with_version(headers: Map<Seq<char>, Seq<char>>) -> Map<Seq<char>, Seq<char>> {
    headers.insert(version_header(), protocol_version())
}

/// Whether two texts are the same.
fn same_text(left: &str, right: &str) -> (same: bool)
    ensures
        same == (left@ == right@),
{
    left.to_owned() == right.to_owned()
}

/// Whether `service` names a storage service.
pub fn service_is_allowed(service: &str) -> (allowed: bool)
    ensures
        allowed == is_service(service@),
{
    same_text(service, "blob") || same_text(service, "queue") || same_text(service, "file-share")
        || same_text(service, "dfs")
}

/// Composes the address of an account's service. A service outside the
/// storage services is a configuration error, and no address is composed.
pub fn build_url(account_name: &str, service: &str) -> (built: Result<String, ClientError>)
    ensures
        match built {
            Ok(url) => is_service(service@) && url@ == account_url(account_name@, service@),
            Err(error) => !is_service(service@) && error == ClientError::Configuration,
        },
{
    if !service_is_allowed(service) {
        return Err(ClientError::Configuration);
    }
    let mut url = String::from_str("https://");
    url.append(account_name);
    url.append(".");
    url.append(service);
    url.append(".core.windows.net/");
    Ok(url)
}

proof fn version_header_is_name()
    ensures
        is_header_name(version_header()),
{
    let name = version_header();
    reveal_strlit("x-ms-version");
    assert forall|i: int| 0 <= i < name.len() implies is_name_char(#[trigger] name[i]) by {
        assert(i == 0 || i == 1 || i == 2 || i == 3 || i == 4 || i == 5 || i == 6 || i == 7 || i
            == 8 || i == 9 || i == 10 || i == 11);
    }
}

/// Declares the protocol version on a request: the last step of every
/// request's construction.
pub fn finalize_request(request: &mut Request)
    ensures
        request_headers(*final(request)) == with_version(request_headers(*old(request))),
        request_method(*final(request)) == request_method(*old(request)),
        request_url(*final(request)) == request_url(*old(request)),
        request_body(*final(request)) == request_body(*old(request)),
{
    proof {
        version_header_is_name();
    }
    insert_header(request, "x-ms-version", String::from_str("2023-11-03"));
}

} // verus!
