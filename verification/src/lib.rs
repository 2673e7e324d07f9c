use vstd::prelude::*;

pub mod bytes;
pub mod dispatch;
pub mod distributions;
pub mod error;
pub mod laws;
pub mod parse;
pub mod replay;
pub mod tape;

verus! {

} // verus!
