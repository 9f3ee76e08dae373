use vstd::prelude::*;

verus! {

/// A closure holds everything needed for a stateful, leak-free callback:
/// the callable together with the state it captured.
///
/// A missing callable (`call` is `None`) is the gravestone value: calling it
/// does nothing and releasing it does nothing. Releasing a closure destroys
/// its captured state exactly once; as calls borrow the closure and release
/// takes it mutably, no call can overlap or follow the release.
pub struct z_owned_closure_reply_t<F> {
    pub call: Option<F>,
}

impl<F> z_owned_closure_reply_t<F> {
    /// The gravestone closure.
    pub fn empty() -> (r: Self)
        ensures
            r.call is None,
    {
        z_owned_closure_reply_t { call: None }
    }

    /// Wraps a callable and its captured state into a closure.
    pub fn from(f: F) -> (r: Self)
        ensures
            r.call == Some(f),
    {
        z_owned_closure_reply_t { call: Some(f) }
    }
}

/// Constructs a null, safe-to-drop closure.
pub fn z_closure_reply_null<F>() -> (r: z_owned_closure_reply_t<F>)
    ensures
        r.call is None,
{
    z_owned_closure_reply_t::empty()
}

/// Calls the closure on `reply`. Calling an uninitialized closure is a no-op.
pub fn z_closure_reply_call<R, F: Fn(R)>(closure: &z_owned_closure_reply_t<F>, reply: R)
    requires
        closure.call matches Some(f) ==> f.requires((reply,)),
    ensures
        closure.call matches Some(f) ==> f.ensures((reply,), ()),
{
    match &closure.call {
        Some(f) => f(reply),
        None => {},
    }
}

/// Releases the closure's captured state and leaves the gravestone in its
/// place. Releasing an uninitialized closure is a no-op.
pub fn z_closure_reply_drop<F>(closure: &mut z_owned_closure_reply_t<F>)
    ensures
        final(closure).call is None,
{
    closure.call = None;
}

} // verus!
