use vstd::prelude::*;

pub mod lifecycle;
pub mod reply_closure;

verus! {

} // verus!
