//! Letterbox export of images onto fixed social-media canvases, with the
//! small selection state machine of the tool's window.
use vstd::prelude::*;

pub mod choice;
pub mod fit;
pub mod raster;
pub mod export;
pub mod ui;

verus! {

} // verus!
