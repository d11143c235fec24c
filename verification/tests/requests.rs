use azure_core::date::parse_rfc7231;
use azure_core::headers::HeaderName;
use azure_core::{Body, Method, Request, Url};
use bytes::Bytes;
use storage_blobs::base_client::{build_url, finalize_request, service_is_allowed};
use storage_blobs::error::{ClientError, ValidationError};
use storage_blobs::request_builder::{download, get_properties, upload};
use storage_blobs::units::Kind;
use storage_blobs::validator::validate;
use storage_blobs::{BlobClient, BlobContainerClient};
use time::OffsetDateTime;

fn header(request: &Request, name: &'static str) -> Option<String> {
    request
        .headers()
        .get_optional_string(&HeaderName::from_static(name))
}

fn header_count(request: &Request) -> usize {
    request.headers().iter().count()
}

fn body(request: &Request) -> Vec<u8> {
    match request.body() {
        Body::Bytes(bytes) => bytes.to_vec(),
        _ => panic!("a body of bytes was expected"),
    }
}

fn client() -> BlobClient<storage_blobs::units::Unset> {
    BlobClient::new(
        String::from("acct"),
        String::from("c1"),
        String::from("b.txt"),
        None,
    )
    .unwrap()
}

#[test]
fn build_url_accepts_the_storage_services() {
    assert_eq!(
        build_url("acct", "blob"),
        Ok(String::from("https://acct.blob.core.windows.net/"))
    );
    assert_eq!(
        build_url("acct", "queue"),
        Ok(String::from("https://acct.queue.core.windows.net/"))
    );
    assert_eq!(
        build_url("acct", "file-share"),
        Ok(String::from("https://acct.file-share.core.windows.net/"))
    );
    assert_eq!(
        build_url("acct", "dfs"),
        Ok(String::from("https://acct.dfs.core.windows.net/"))
    );
}

#[test]
fn build_url_refuses_any_other_service() {
    for service in ["", "table", "Blob", "blob ", " blob", "blobs", "file", "dfs/", "queue\n"] {
        assert_eq!(build_url("acct", service), Err(ClientError::Configuration));
        assert!(!service_is_allowed(service));
    }
    for service in ["blob", "queue", "file-share", "dfs"] {
        assert!(service_is_allowed(service));
    }
}

#[test]
fn build_url_takes_the_account_as_it_stands() {
    assert_eq!(
        build_url("", "blob"),
        Ok(String::from("https://.blob.core.windows.net/"))
    );
    assert_eq!(
        build_url("My Account", "dfs"),
        Ok(String::from("https://My Account.dfs.core.windows.net/"))
    );
}

#[test]
fn finalize_request_declares_the_version() {
    let url = Url::parse("https://acct.blob.core.windows.net/c1/b.txt").unwrap();
    let mut request = Request::new(url, Method::Get);
    finalize_request(&mut request);
    assert_eq!(header(&request, "x-ms-version"), Some("2023-11-03".to_string()));
    assert_eq!(header_count(&request), 1);
    assert_eq!(request.method(), &Method::Get);
    assert_eq!(
        request.url().as_str(),
        "https://acct.blob.core.windows.net/c1/b.txt"
    );
    assert!(body(&request).is_empty());
}

#[test]
fn finalize_request_replaces_a_version_already_present() {
    let url = Url::parse("https://acct.blob.core.windows.net/c1/b.txt").unwrap();
    let mut request = Request::new(url, Method::Put);
    request.insert_header("x-ms-version", "2019-02-02");
    request.insert_header("x-ms-meta-colour", "green");
    request.set_body(Bytes::from_static(b"abc"));
    finalize_request(&mut request);
    assert_eq!(header(&request, "x-ms-version"), Some("2023-11-03".to_string()));
    assert_eq!(header(&request, "x-ms-meta-colour"), Some("green".to_string()));
    assert_eq!(header_count(&request), 2);
    assert_eq!(request.method(), &Method::Put);
    assert_eq!(body(&request), b"abc".to_vec());
}

#[test]
fn download_describes_a_get_without_body() {
    let url = Url::parse("https://acct.blob.core.windows.net/c1/b.txt").unwrap();
    let request = download(&url);
    assert_eq!(request.method(), &Method::Get);
    assert_eq!(request.method().as_ref(), "GET");
    assert_eq!(
        request.url().as_str(),
        "https://acct.blob.core.windows.net/c1/b.txt"
    );
    assert_eq!(header(&request, "x-ms-version"), Some("2023-11-03".to_string()));
    assert_eq!(header_count(&request), 1);
    assert!(body(&request).is_empty());
}

#[test]
fn get_properties_describes_a_head_without_body() {
    let url = Url::parse("https://acct.blob.core.windows.net/c1/b.txt").unwrap();
    let request = get_properties(&url);
    assert_eq!(request.method(), &Method::Head);
    assert_eq!(request.method().as_ref(), "HEAD");
    assert_eq!(
        request.url().as_str(),
        "https://acct.blob.core.windows.net/c1/b.txt"
    );
    assert_eq!(header(&request, "x-ms-version"), Some("2023-11-03".to_string()));
    assert_eq!(header_count(&request), 1);
    assert!(body(&request).is_empty());
}

#[test]
fn upload_describes_what_the_parameters_say() {
    let url = Url::parse("https://acct.blob.core.windows.net/c1/b.txt").unwrap();
    let parameters = validate(Kind::Page, Bytes::from(vec![1u8; 1024])).unwrap();
    let request = upload(
        &url,
        parameters,
        String::from("Sun, 06 Nov 1994 08:49:37 GMT"),
    );
    assert_eq!(request.method().as_ref(), "PUT");
    assert_eq!(
        request.url().as_str(),
        "https://acct.blob.core.windows.net/c1/b.txt"
    );
    assert_eq!(header(&request, "x-ms-blob-type"), Some("PageBlob".to_string()));
    assert_eq!(header(&request, "content-length"), Some("1024".to_string()));
    assert_eq!(
        header(&request, "x-ms-blob-content-length"),
        Some("1024".to_string())
    );
    assert_eq!(
        header(&request, "x-ms-date"),
        Some("Sun, 06 Nov 1994 08:49:37 GMT".to_string())
    );
    assert_eq!(header(&request, "x-ms-version"), Some("2023-11-03".to_string()));
    assert_eq!(header_count(&request), 5);
    assert_eq!(body(&request), vec![1u8; 1024]);
}

#[test]
fn every_operation_declares_the_version_once() {
    let block = client().as_block_blob();
    let page = client().as_page_blob();
    let append = client().as_append_blob();
    let container = BlobContainerClient::new(String::from("acct"), String::from("c1")).unwrap();
    let requests = vec![
        client().download_blob(),
        client().get_blob_properties(),
        block.download_blob(),
        block.get_blob_properties(),
        block.upload_block_blob(Bytes::from_static(b"hello world")).unwrap(),
        page.download_blob(),
        page.get_blob_properties(),
        page.upload_page_blob(Bytes::from(vec![0u8; 512])).unwrap(),
        append.download_blob(),
        append.get_blob_properties(),
        append.upload_append_blob(Bytes::from_static(b"ignored")).unwrap(),
        container.get_container_properties(),
    ];
    for request in &requests {
        let versions: Vec<String> = request
            .headers()
            .iter()
            .filter(|(name, _)| name.as_str() == "x-ms-version")
            .map(|(_, value)| value.as_str().to_string())
            .collect();
        assert_eq!(versions, vec!["2023-11-03".to_string()]);
    }
}

#[test]
fn block_upload_gives_length_and_payload() {
    let block = client().as_block_blob();
    for length in [0usize, 1, 11, 1_000_000] {
        let payload: Vec<u8> = (0..length).map(|i| (i % 251) as u8).collect();
        let request = block
            .upload_block_blob(Bytes::from(payload.clone()))
            .unwrap();
        assert_eq!(header(&request, "content-length"), Some(length.to_string()));
        assert_eq!(header(&request, "x-ms-blob-type"), Some("BlockBlob".to_string()));
        assert_eq!(header(&request, "x-ms-blob-content-length"), None);
        assert_eq!(body(&request), payload);
    }
}

#[test]
fn append_upload_is_the_same_whatever_the_payload() {
    let append = client().as_append_blob();
    let when = OffsetDateTime::from_unix_timestamp(784_111_777).unwrap();
    let empty = append.upload_blob_at(Bytes::new(), &when).unwrap();
    let full = append
        .upload_blob_at(Bytes::from(vec![9u8; 700]), &when)
        .unwrap();
    for request in [&empty, &full] {
        assert_eq!(request.method(), &Method::Put);
        assert_eq!(header(request, "content-length"), Some("0".to_string()));
        assert_eq!(header(request, "x-ms-blob-type"), Some("AppendBlob".to_string()));
        assert_eq!(header(request, "x-ms-blob-content-length"), None);
        assert_eq!(header_count(request), 4);
        assert!(body(request).is_empty());
    }
    assert_eq!(empty.headers(), full.headers());
    assert_eq!(empty.url(), full.url());
}

#[test]
fn block_upload_of_hello_world() {
    let block = BlobClient::new(
        String::from("acct"),
        String::from("c1"),
        String::from("b.txt"),
        None,
    )
    .unwrap()
    .as_block_blob();
    let request = block
        .upload_block_blob(Bytes::from_static(b"hello world"))
        .unwrap();
    assert_eq!(request.method(), &Method::Put);
    assert_eq!(
        request.url().as_str(),
        "https://acct.blob.core.windows.net/c1/b.txt"
    );
    assert_eq!(header(&request, "x-ms-blob-type"), Some("BlockBlob".to_string()));
    assert_eq!(header(&request, "content-length"), Some("11".to_string()));
    assert_eq!(body(&request), b"hello world".to_vec());
}

#[test]
fn page_upload_of_two_pages_and_of_one_byte_less() {
    let page = BlobClient::new(
        String::from("acct"),
        String::from("c1"),
        String::from("b.txt"),
        None,
    )
    .unwrap()
    .as_page_blob();
    let request = page
        .upload_page_blob(Bytes::from(vec![5u8; 1024]))
        .unwrap();
    assert_eq!(request.method(), &Method::Put);
    assert_eq!(
        request.url().as_str(),
        "https://acct.blob.core.windows.net/c1/b.txt"
    );
    assert_eq!(header(&request, "x-ms-blob-type"), Some("PageBlob".to_string()));
    assert_eq!(
        header(&request, "x-ms-blob-content-length"),
        Some("1024".to_string())
    );
    assert_eq!(header(&request, "content-length"), Some("1024".to_string()));
    assert_eq!(body(&request), vec![5u8; 1024]);

    let refused = page.upload_page_blob(Bytes::from(vec![5u8; 1023]));
    assert_eq!(
        refused.err(),
        Some(ValidationError::InvalidPayloadAlignment(1023))
    );
}

#[test]
fn upload_is_stamped_with_the_instant_given() {
    let block = client().as_block_blob();
    let when = OffsetDateTime::from_unix_timestamp(784_111_777).unwrap();
    let request = block
        .upload_blob_at(Bytes::from_static(b"hello world"), &when)
        .unwrap();
    assert_eq!(
        header(&request, "x-ms-date"),
        Some("Sun, 06 Nov 1994 08:49:37 GMT".to_string())
    );
    let epoch = OffsetDateTime::from_unix_timestamp(0).unwrap();
    let request = block
        .upload_blob_at(Bytes::from_static(b"hello world"), &epoch)
        .unwrap();
    assert_eq!(
        header(&request, "x-ms-date"),
        Some("Thu, 01 Jan 1970 00:00:00 GMT".to_string())
    );
}

#[test]
fn upload_is_stamped_with_the_time_of_building() {
    let block = client().as_block_blob();
    let before = OffsetDateTime::now_utc().unix_timestamp();
    let request = block
        .upload_blob(Bytes::from_static(b"hello world"))
        .unwrap();
    let after = OffsetDateTime::now_utc().unix_timestamp();
    let date = header(&request, "x-ms-date").unwrap();
    let stamped = parse_rfc7231(&date).unwrap().unix_timestamp();
    assert!(before <= stamped && stamped <= after);
}

#[test]
fn refused_page_upload_at_an_instant_gives_no_request() {
    let page = client().as_page_blob();
    let when = OffsetDateTime::from_unix_timestamp(784_111_777).unwrap();
    let refused = page.upload_blob_at(Bytes::from(vec![0u8; 1]), &when);
    assert_eq!(
        refused.err(),
        Some(ValidationError::InvalidPayloadAlignment(1))
    );
    let refused = page.upload_blob(Bytes::from(vec![0u8; 513]));
    assert_eq!(
        refused.err(),
        Some(ValidationError::InvalidPayloadAlignment(513))
    );
}
