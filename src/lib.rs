#![allow(non_camel_case_types)]

use vstd::prelude::*;

pub mod closures;
pub mod collections;

verus! {

} // verus!
