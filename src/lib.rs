use vstd::prelude::*;

pub mod key;
pub mod coords;
pub mod editor;
pub mod winsize;
pub mod render;

verus! {

} // verus!
