//! Verified cores of two small real-time demos: a two-player Pong simulation
//! and a rotating-cube projection pipeline. All geometry is exact integer
//! arithmetic; the host window, input and drawing layer stays outside.
use vstd::prelude::*;

pub mod engine;
pub mod fixed;
pub mod pong;

verus! {

} // verus!
