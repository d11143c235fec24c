//! Blob kinds: the runtime discriminator and the type-level markers that carry
//! it through a client's type.

use crate::sealed::Sealed;
use vstd::prelude::*;

verus! {

/// Which upload operation, if any, a client may invoke.
#[derive(Clone, Copy, Debug, PartialEq, Eq, Structural)]
pub enum Kind {
    /// No kind chosen yet: only the kind-agnostic operations are available.
    Undetermined,
    Block,
    Page,
    Append,
}

impl Kind {
    /// True for the three kinds that can be uploaded.
    pub open spec fn is_concrete(self) -> bool {
        self != Kind::Undetermined
    }

    /// The value of the kind-marker header for this kind. Only the concrete
    /// kinds have one; the undetermined kind maps to the empty text.
    pub open spec fn marker(self) -> Seq<char> {
        match self {
            Kind::Undetermined => Seq::empty(),
            Kind::Block => "BlockBlob"@,
            Kind::Page => "PageBlob"@,
            Kind::Append => "AppendBlob"@,
        }
    }

    /// The kind-marker header value of this kind.
    pub fn marker_text(self) -> (text: &'static str)
        ensures
            text@ == self.marker(),
    {
        proof {
            reveal_strlit("");
            assert(""@ =~= Seq::<char>::empty());
        }
        match self {
            Kind::Undetermined => "",
            Kind::Block => "BlockBlob",
            Kind::Page => "PageBlob",
            Kind::Append => "AppendBlob",
        }
    }
}

/// A type-level marker for a blob kind. The set is closed: `Unset`, `Block`,
/// `Page` and `Append` are its only members.
pub trait BlobKind: Sealed {
    /// The kind this marker stands for.
    spec fn kind() -> Kind;

    /// The runtime discriminator of this marker.
    fn discriminator(&self) -> (kind: Kind)
        ensures
            kind == Self::kind(),
    ;
}

/// A marker whose kind is concrete, so that a client carrying it may upload.
pub trait UploadKind: BlobKind {
    proof fn kind_is_concrete()
        ensures
            Self::kind().is_concrete(),
    ;
}

/// Marker of a client whose kind has not been chosen.
#[derive(Clone, Copy, Debug)]
pub struct Unset;

/// Marker of a block-blob client.
#[derive(Clone, Copy, Debug)]
pub struct Block;

/// Marker of a page-blob client.
#[derive(Clone, Copy, Debug)]
pub struct Page;

/// Marker of an append-blob client.
#[derive(Clone, Copy, Debug)]
pub struct Append;

impl BlobKind for Unset {
    open spec fn kind() -> Kind {
        Kind::Undetermined
    }

    fn discriminator(&self) -> (kind: Kind) {
        Kind::Undetermined
    }
}

impl BlobKind for Block {
    open spec fn kind() -> Kind {
        Kind::Block
    }

    fn discriminator(&self) -> (kind: Kind) {
        Kind::Block
    }
}

impl BlobKind for Page {
    open spec fn kind() -> Kind {
        Kind::Page
    }

    fn discriminator(&self) -> (kind: Kind) {
        Kind::Page
    }
}

impl BlobKind for Append {
    open spec fn kind() -> Kind {
        Kind::Append
    }

    fn discriminator(&self) -> (kind: Kind) {
        Kind::Append
    }
}

impl UploadKind for Block {
    proof fn kind_is_concrete() {
    }
}

impl UploadKind for Page {
    proof fn kind_is_concrete() {
    }
}

impl UploadKind for Append {
    proof fn kind_is_concrete() {
    }
}

} // verus!
