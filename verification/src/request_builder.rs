//! The request builder: one descriptor for each operation, built fresh for
//! every call.

use crate::base_client::{finalize_request, protocol_version, version_header, with_version};
use crate::decimal::{decimal, decimal_text};
use crate::descriptor::{
    clone_url, descriptor, insert_header, is_header_name, is_name_char, new_request, no_body,
    no_headers, set_body, url_text, HttpMethod, RequestDescriptor,
};
use crate::error::ValidationError;
use crate::units::Kind;
use crate::validator::{validation, UploadParameters, UploadPlan};
use azure_core::{Request, Url};
use vstd::prelude::*;
use vstd::string::*;

verus! {

/// The name of the kind-marker header.
pub open spec fn blob_type_header() -> Seq<char> {
    "x-ms-blob-type"@
}

/// The name of the header that gives the number of bytes sent.
pub open spec fn content_length_header() -> Seq<char> {
    "content-length"@
}

/// The name of the header that declares a blob's length apart from the bytes sent.
pub open spec fn blob_content_length_header() -> Seq<char> {
    "x-ms-blob-content-length"@
}

/// The name of the request-timestamp header.
pub open spec fn date_header() -> Seq<char> {
    "x-ms-date"@
}

/// The operations a client issues.
pub enum Operation {
    /// Reads the target.
    Download,
    /// Probes the target's properties.
    GetProperties,
    /// Writes the target as `plan` says, stamped with `date`.
    Upload { plan: UploadPlan, date: Seq<char> },
}

/// The headers of an upload, before the protocol version is declared: the
/// kind marker, the content length, the declared length where the plan has
/// one, and the timestamp.
pub open spec fn upload_headers(plan: UploadPlan, date: Seq<char>) -> Map<Seq<char>, Seq<char>> {
    let marked = no_headers().insert(blob_type_header(), plan.kind.marker()).insert(
        content_length_header(),
        decimal_text(plan.content_length),
    );
    let sized = match plan.declared_length {
        Some(length) => marked.insert(blob_content_length_header(), decimal_text(length)),
        None => marked,
    };
    sized.insert(date_header(), date)
}

/// The descriptor of an operation on the target at `url`.
pub open spec fn request_for(operation: Operation, url: Seq<char>) -> RequestDescriptor {
    match operation {
        Operation::Download => RequestDescriptor {
            method: HttpMethod::Get.name(),
            url,
            headers: with_version(no_headers()),
            body: no_body(),
        },
        Operation::GetProperties => RequestDescriptor {
            method: HttpMethod::Head.name(),
            url,
            headers: with_version(no_headers()),
            body: no_body(),
        },
        Operation::Upload { plan, date } => RequestDescriptor {
            method: HttpMethod::Put.name(),
            url,
            headers: with_version(upload_headers(plan, date)),
            body: match plan.body {
                Some(bytes) => bytes,
                None => no_body(),
            },
        },
    }
}

/// What an upload of `payload` as `kind` to the blob at `url` comes to, when
/// stamped with `date`: the descriptor of the request where the payload
/// passes validation, else the error of validation and no descriptor.
pub open spec fn upload_outcome(kind: Kind, payload: Seq<u8>, url: Seq<char>, date: Seq<char>) -> Result<
    RequestDescriptor,
    ValidationError,
> {
    match validation(kind, payload) {
        Ok(plan) => Ok(request_for(Operation::Upload { plan, date }, url)),
        Err(error) => Err(error),
    }
}

/// What an upload returned, seen as a descriptor.
pub open spec fn outcome_descriptor(outcome: Result<Request, ValidationError>) -> Result<
    RequestDescriptor,
    ValidationError,
> {
    match outcome {
        Ok(request) => Ok(descriptor(request)),
        Err(error) => Err(error),
    }
}

proof fn upload_header_names()
    ensures
        is_header_name(blob_type_header()),
        is_header_name(content_length_header()),
        is_header_name(blob_content_length_header()),
        is_header_name(date_header()),
{
    reveal_strlit("x-ms-blob-type");
    reveal_strlit("content-length");
    reveal_strlit("x-ms-blob-content-length");
    reveal_strlit("x-ms-date");
    let kind = blob_type_header();
    assert forall|i: int| 0 <= i < kind.len() implies is_name_char(#[trigger] kind[i]) by {
        assert(i == 0 || i == 1 || i == 2 || i == 3 || i == 4 || i == 5 || i == 6 || i == 7 || i
            == 8 || i == 9 || i == 10 || i == 11 || i == 12 || i == 13);
    }
    let length = content_length_header();
    assert forall|i: int| 0 <= i < length.len() implies is_name_char(#[trigger] length[i]) by {
        assert(i == 0 || i == 1 || i == 2 || i == 3 || i == 4 || i == 5 || i == 6 || i == 7 || i
            == 8 || i == 9 || i == 10 || i == 11 || i == 12 || i == 13);
    }
    let declared = blob_content_length_header();
    assert forall|i: int| 0 <= i < declared.len() implies is_name_char(#[trigger] declared[i]) by {
        assert(i == 0 || i == 1 || i == 2 || i == 3 || i == 4 || i == 5 || i == 6 || i == 7 || i
            == 8 || i == 9 || i == 10 || i == 11 || i == 12 || i == 13 || i == 14 || i == 15 || i
            == 16 || i == 17 || i == 18 || i == 19 || i == 20 || i == 21 || i == 22 || i == 23);
    }
    let date = date_header();
    assert forall|i: int| 0 <= i < date.len() implies is_name_char(#[trigger] date[i]) by {
        assert(i == 0 || i == 1 || i == 2 || i == 3 || i == 4 || i == 5 || i == 6 || i == 7 || i
            == 8);
    }
}

/// Describes the request that reads the blob at `url`.
pub fn download(url: &Url) -> (request: Request)
    ensures
        descriptor(request) == request_for(Operation::Download, url_text(*url)),
{
    let mut request = new_request(clone_url(url), HttpMethod::Get);
    finalize_request(&mut request);
    request
}

/// Describes the request that probes the properties of the target at `url`.
pub fn get_properties(url: &Url) -> (request: Request)
    ensures
        descriptor(request) == request_for(Operation::GetProperties, url_text(*url)),
{
    let mut request = new_request(clone_url(url), HttpMethod::Head);
    finalize_request(&mut request);
    request
}

/// Describes the request that writes the blob at `url` as the validated
/// parameters say, stamped with `date`.
pub fn upload(url: &Url, parameters: UploadParameters, date: String) -> (request: Request)
    ensures
        descriptor(request) == request_for(
            Operation::Upload { plan: parameters@, date: date@ },
            url_text(*url),
        ),
{
    proof {
        upload_header_names();
    }
    let mut request = new_request(clone_url(url), HttpMethod::Put);
    insert_header(
        &mut request,
        "x-ms-blob-type",
        String::from_str(parameters.kind().marker_text()),
    );
    insert_header(&mut request, "content-length", decimal(parameters.content_length()));
    match parameters.declared_length() {
        Some(length) => {
            insert_header(&mut request, "x-ms-blob-content-length", decimal(length));
        },
        None => {},
    }
    match parameters.into_body() {
        Some(bytes) => {
            set_body(&mut request, bytes);
        },
        None => {},
    }
    insert_header(&mut request, "x-ms-date", date);
    finalize_request(&mut request);
    request
}

/// The five header names are five different names.
pub proof fn header_names_differ()
    ensures
        blob_type_header() != content_length_header(),
        blob_type_header() != blob_content_length_header(),
        blob_type_header() != date_header(),
        blob_type_header() != version_header(),
        content_length_header() != blob_content_length_header(),
        content_length_header() != date_header(),
        content_length_header() != version_header(),
        blob_content_length_header() != date_header(),
        blob_content_length_header() != version_header(),
        date_header() != version_header(),
{
    reveal_strlit("x-ms-blob-type");
    reveal_strlit("content-length");
    reveal_strlit("x-ms-blob-content-length");
    reveal_strlit("x-ms-date");
    reveal_strlit("x-ms-version");
    assert(blob_type_header().len() == 14);
    assert(content_length_header().len() == 14);
    assert(blob_content_length_header().len() == 24);
    assert(date_header().len() == 9);
    assert(version_header().len() == 12);
    assert(blob_type_header()[0] != content_length_header()[0]);
}

/// Every request declares the protocol version, under its one name and with
/// its one value, whatever the operation, the kind and the target.
pub proof fn every_request_declares_the_version(operation: Operation, url: Seq<char>)
    ensures
        request_for(operation, url).headers.contains_key(version_header()),
        request_for(operation, url).headers[version_header()] == protocol_version(),
{
}

/// An upload names its kind, gives as content length the number of bytes it
/// sends, and carries the timestamp it was stamped with; it declares a length
/// apart exactly where the plan has one.
pub proof fn upload_declares_its_plan(plan: UploadPlan, date: Seq<char>, url: Seq<char>)
    ensures
        ({
            let request = request_for(Operation::Upload { plan, date }, url);
            &&& request.method == HttpMethod::Put.name()
            &&& request.url == url
            &&& request.headers[blob_type_header()] == plan.kind.marker()
            &&& request.headers[content_length_header()] == decimal_text(plan.content_length)
            &&& request.headers[date_header()] == date
            &&& match plan.declared_length {
                Some(length) => request.headers.contains_key(blob_content_length_header())
                    && request.headers[blob_content_length_header()] == decimal_text(length),
                None => !request.headers.contains_key(blob_content_length_header()),
            }
        }),
{
    header_names_differ();
}

/// A block upload is never refused: it gives the payload's length as content
/// length and carries the payload, byte for byte.
pub proof fn block_upload_carries_the_payload(payload: Seq<u8>, url: Seq<char>, date: Seq<char>)
    ensures
        upload_outcome(Kind::Block, payload, url, date) is Ok,
        ({
            let request = upload_outcome(Kind::Block, payload, url, date)->Ok_0;
            &&& request.headers[blob_type_header()] == Kind::Block.marker()
            &&& request.headers[content_length_header()] == decimal_text(payload.len())
            &&& request.body == payload
        }),
{
    header_names_differ();
}

/// A page upload is described exactly where the payload's length is a
/// multiple of the page size; it then carries the payload and declares its
/// length, and where it is refused there is no descriptor.
pub proof fn page_upload_needs_whole_pages(payload: Seq<u8>, url: Seq<char>, date: Seq<char>)
    ensures
        upload_outcome(Kind::Page, payload, url, date) is Ok <==> payload.len() % 512 == 0,
        payload.len() % 512 == 0 ==> ({
            let request = upload_outcome(Kind::Page, payload, url, date)->Ok_0;
            &&& request.headers[blob_type_header()] == Kind::Page.marker()
            &&& request.headers[blob_content_length_header()] == decimal_text(payload.len())
            &&& request.body == payload
        }),
        payload.len() % 512 != 0 ==> upload_outcome(Kind::Page, payload, url, date) == Err::<
            RequestDescriptor,
            ValidationError,
        >(ValidationError::InvalidPayloadAlignment(payload.len() as usize)),
{
    header_names_differ();
}

/// An append upload is never refused and does not depend on the payload: it
/// gives zero as content length and has no body, whatever was handed in.
pub proof fn append_upload_ignores_the_payload(
    first: Seq<u8>,
    second: Seq<u8>,
    url: Seq<char>,
    date: Seq<char>,
)
    ensures
        upload_outcome(Kind::Append, first, url, date) is Ok,
        upload_outcome(Kind::Append, first, url, date) == upload_outcome(
            Kind::Append,
            second,
            url,
            date,
        ),
        ({
            let request = upload_outcome(Kind::Append, first, url, date)->Ok_0;
            &&& request.headers[blob_type_header()] == Kind::Append.marker()
            &&& request.headers[content_length_header()] == seq!['0']
            &&& request.body == no_body()
        }),
{
    header_names_differ();
    assert(decimal_text(0) == seq!['0']);
}

/// No upload is described for the undetermined kind, whatever the payload.
pub proof fn undetermined_kind_has_no_upload(payload: Seq<u8>, url: Seq<char>, date: Seq<char>)
    ensures
        upload_outcome(Kind::Undetermined, payload, url, date) == Err::<
            RequestDescriptor,
            ValidationError,
        >(ValidationError::UndeterminedKind),
{
}

} // verus!
