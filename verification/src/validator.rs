//! The upload validator: from a kind and a payload to the parameters of the
//! upload, or to the reason why there will be none. It builds no request and
//! reads no clock.

use crate::descriptor::{bytes_content, bytes_len};
use crate::error::ValidationError;
use crate::units::Kind;
use bytes::Bytes;
use vstd::prelude::*;

verus! {

/// The number of bytes in a page: the length of a page payload is a multiple of it.
pub const PAGE_SIZE: usize = 512;

/// What an upload will declare and carry.
pub struct UploadPlan {
    /// The kind uploaded, which the kind-marker header names.
    pub kind: Kind,
    /// The value of the content-length header: the number of bytes sent.
    pub content_length: nat,
    /// The blob's length where it is declared apart from the bytes sent.
    pub declared_length: Option<nat>,
    /// The bytes sent, if any are.
    pub body: Option<Seq<u8>>,
}

/// The rules of validation, kind by kind.
///
/// - A block payload of any length is accepted and sent as it is.
/// - A page payload is accepted where its length is a multiple of the page
///   size, the empty payload included; it is sent as it is, and its length is
///   also declared apart.
/// - An append upload only creates the blob: any payload is accepted and
///   none is sent.
/// - The undetermined kind has no upload.
pub open spec fn validation(kind: Kind, payload: Seq<u8>) -> Result<UploadPlan, ValidationError> {
    match kind {
        Kind::Undetermined => Err(ValidationError::UndeterminedKind),
        Kind::Block => Ok(
            UploadPlan {
                kind,
                content_length: payload.len(),
                declared_length: None,
                body: Some(payload),
            },
        ),
        Kind::Page => if payload.len() % (PAGE_SIZE as nat) == 0 {
            Ok(
                UploadPlan {
                    kind,
                    content_length: payload.len(),
                    declared_length: Some(payload.len()),
                    body: Some(payload),
                },
            )
        } else {
            Err(ValidationError::InvalidPayloadAlignment(payload.len() as usize))
        },
        Kind::Append => Ok(
            UploadPlan { kind, content_length: 0, declared_length: None, body: None },
        ),
    }
}

/// The parameters of a validated upload, on their way to the request builder.
pub struct UploadParameters {
    kind: Kind,
    content_length: usize,
    declared_length: Option<usize>,
    body: Option<Bytes>,
}

impl View for UploadParameters {
    type V = UploadPlan;

    closed spec fn view(&self) -> UploadPlan {
        UploadPlan {
            kind: self.kind,
            content_length: self.content_length as nat,
            declared_length: match self.declared_length {
                Some(length) => Some(length as nat),
                None => None,
            },
            body: match self.body {
                Some(bytes) => Some(bytes_content(bytes)),
                None => None,
            },
        }
    }
}

impl UploadParameters {
    /// Every value has passed validation: it is the plan of some payload.
    #[verifier::type_invariant]
    spec fn validated(self) -> bool {
        exists|payload: Seq<u8>| #[trigger] validation(self.kind, payload) == Ok::<UploadPlan, ValidationError>(self@)
    }

    /// The kind uploaded.
    pub fn kind(&self) -> (kind: Kind)
        ensures
            kind == self@.kind,
            kind.is_concrete(),
    {
        proof {
            use_type_invariant(self);
        }
        self.kind
    }

    /// The value of the content-length header. It is the number of bytes sent.
    pub fn content_length(&self) -> (length: usize)
        ensures
            length == self@.content_length,
            length == match self@.body {
                Some(bytes) => bytes.len(),
                None => 0,
            },
    {
        proof {
            use_type_invariant(self);
        }
        self.content_length
    }

    /// The separately declared length of the blob: present for a page upload only.
    pub fn declared_length(&self) -> (length: Option<usize>)
        ensures
            match length {
                Some(declared) => self@.declared_length == Some(declared as nat),
                None => self@.declared_length is None,
            },
            length is Some <==> self@.kind == Kind::Page,
    {
        proof {
            use_type_invariant(self);
        }
        self.declared_length
    }

    /// Hands out the bytes to send, if any.
    pub fn into_body(self) -> (body: Option<Bytes>)
        ensures
            match body {
                Some(bytes) => self@.body == Some(bytes_content(bytes)),
                None => self@.body is None,
            },
    {
        self.body
    }
}

/// What validation returned, seen as a plan.
pub open spec fn outcome_plan(outcome: Result<UploadParameters, ValidationError>) -> Result<
    UploadPlan,
    ValidationError,
> {
    match outcome {
        Ok(parameters) => Ok(parameters@),
        Err(error) => Err(error),
    }
}

/// Validates a payload for upload as `kind`.
pub fn validate(kind: Kind, payload: Bytes) -> (outcome: Result<UploadParameters, ValidationError>)
    ensures
        outcome_plan(outcome) == validation(kind, bytes_content(payload)),
{
    let length = bytes_len(&payload);
    match kind {
        Kind::Undetermined => Err(ValidationError::UndeterminedKind),
        Kind::Block => Ok(
            UploadParameters {
                kind,
                content_length: length,
                declared_length: None,
                body: Some(payload),
            },
        ),
        Kind::Page => {
            if length % PAGE_SIZE == 0 {
                Ok(
                    UploadParameters {
                        kind,
                        content_length: length,
                        declared_length: Some(length),
                        body: Some(payload),
                    },
                )
            } else {
                Err(ValidationError::InvalidPayloadAlignment(length))
            }
        },
        Kind::Append => {
            proof {
                assert(validation(kind, bytes_content(payload)) == Ok::<
                    UploadPlan,
                    ValidationError,
                >(UploadPlan { kind, content_length: 0, declared_length: None, body: None }));
            }
            Ok(UploadParameters { kind, content_length: 0, declared_length: None, body: None })
        },
    }
}

/// A page payload passes validation exactly where its length is a multiple
/// of the page size. The empty payload passes. A payload that does not pass is
/// refused with its length.
pub proof fn page_validation_is_alignment(payload: Seq<u8>)
    ensures
        validation(Kind::Page, payload) is Ok <==> payload.len() % 512 == 0,
        validation(Kind::Page, Seq::empty()) is Ok,
        payload.len() % 512 != 0 ==> validation(Kind::Page, payload) == Err::<
            UploadPlan,
            ValidationError,
        >(ValidationError::InvalidPayloadAlignment(payload.len() as usize)),
{
}

/// Block and append payloads always pass validation, and the undetermined
/// kind never does.
pub proof fn validation_fails_only_by_kind_or_alignment(kind: Kind, payload: Seq<u8>)
    ensures
        validation(kind, payload) is Err <==> kind == Kind::Undetermined || (kind == Kind::Page
            && payload.len() % 512 != 0),
{
}

/// The content length of a plan is the number of bytes it sends.
pub proof fn content_length_is_bytes_sent(kind: Kind, payload: Seq<u8>)
    requires
        validation(kind, payload) is Ok,
    ensures
        validation(kind, payload)->Ok_0.content_length == match validation(kind, payload)->Ok_0.body {
            Some(bytes) => bytes.len(),
            None => 0,
        },
{
}

} // verus!
