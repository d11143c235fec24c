//! Closes the set of kind markers: only the markers of `units` implement `Sealed`.

use crate::units::{Append, Block, Page, Unset};
use vstd::prelude::*;

verus! {

pub trait Sealed {

}

impl Sealed for Unset {

}

impl Sealed for Block {

}

impl Sealed for Page {

}

impl Sealed for Append {

}

} // verus!
