use vstd::prelude::*;

pub mod token;
pub mod model;
pub mod emit;
pub mod parse;
pub mod transform;
