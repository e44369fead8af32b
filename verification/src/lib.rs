//! Verified core of a small Win32 windowing helper library.
use vstd::prelude::*;

pub mod resource;
pub mod wide;
pub mod error;
pub mod window;
pub mod calls;
pub mod procedure;
