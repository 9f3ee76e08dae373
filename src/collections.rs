use vstd::prelude::*;
use vstd::slice::slice_subrange;
use vstd::slice::slice_to_vec;

verus! {

/// Number of bytes a (possibly gravestone) value holds; a gravestone holds none.
pub open spec fn length_of(v: Option<Seq<u8>>) -> nat {
    match v {
        Some(s) => s.len(),
        None => 0,
    }
}

/// Bytes a (possibly gravestone) value holds; a gravestone holds none.
pub open spec fn bytes_of(v: Option<Seq<u8>>) -> Seq<u8> {
    match v {
        Some(s) => s,
        None => Seq::empty(),
    }
}

/// The owned value made by deep-copying `v`: a gravestone or an empty region
/// gives the gravestone, anything else a fresh copy of the same bytes.
pub open spec fn copy_model(v: Option<Seq<u8>>) -> Option<Seq<u8>> {
    match v {
        Some(s) => if s.len() > 0 {
            Some(s)
        } else {
            None
        },
        None => None,
    }
}

/// The view of `len` bytes at `start`; a missing start gives the gravestone.
pub open spec fn wrap_model(start: Option<Seq<u8>>, len: nat) -> Option<Seq<u8>> {
    match start {
        Some(s) => Some(s.take(len as int)),
        None => None,
    }
}

/// An owned value after release: always the gravestone.
pub open spec fn released_model(v: Option<Seq<u8>>) -> Option<Seq<u8>> {
    None
}

/// `s` holds a zero byte, its terminator.
pub open spec fn is_terminated(s: Seq<u8>) -> bool {
    exists|i: int| 0 <= i < s.len() && s[i] == 0
}

/// `n` is the index of the first zero byte of `s`, i.e. the length of the
/// string that `s` starts with.
pub open spec fn is_string_length(s: Seq<u8>, n: int) -> bool {
    &&& 0 <= n < s.len()
    &&& s[n] == 0
    &&& forall|i: int| 0 <= i < n ==> s[i] != 0
}

/// A contiguous view of bytes owned by some other entity.
///
/// A missing region (`start` is `None`) is the gravestone value; an empty
/// region is an initialized view of length zero.
#[derive(Clone, Copy)]
pub struct z_bytes_t<'a> {
    pub start: Option<&'a [u8]>,
}

impl<'a> View for z_bytes_t<'a> {
    type V = Option<Seq<u8>>;

    open spec fn view(&self) -> Option<Seq<u8>> {
        match self.start {
            Some(s) => Some(s@),
            None => None,
        }
    }
}

impl<'a> z_bytes_t<'a> {
    /// The viewed bytes, or `None` for the gravestone.
    pub fn as_slice(&self) -> (r: Option<&'a [u8]>)
        ensures
            r == self.start,
            match r {
                Some(s) => self@ == Some(s@),
                None => self@ is None,
            },
    {
        self.start
    }

    /// The gravestone view.
    pub fn empty() -> (r: Self)
        ensures
            r@ is None,
    {
        z_bytes_t { start: None }
    }

    /// Number of viewed bytes; zero for the gravestone.
    pub fn len(&self) -> (r: usize)
        ensures
            r == length_of(self@),
    {
        match self.start {
            Some(s) => s.len(),
            None => 0,
        }
    }
}

impl<'a> Default for z_bytes_t<'a> {
    fn default() -> (r: Self)
        ensures
            r@ is None,
    {
        Self::empty()
    }
}

impl<'a> From<&'a [u8]> for z_bytes_t<'a> {
    fn from(s: &'a [u8]) -> (r: Self)
        ensures
            r@ == Some(s@),
    {
        z_bytes_t { start: Some(s) }
    }
}

impl<'a> vstd::std_specs::convert::FromSpecImpl<&'a [u8]> for z_bytes_t<'a> {
    open spec fn obeys_from_spec() -> bool {
        true
    }

    open spec fn from_spec(s: &'a [u8]) -> Self {
        z_bytes_t { start: Some(s) }
    }
}

/// A contiguous run of bytes that this value owns and releases.
///
/// A missing buffer (`start` is `None`) is the gravestone value; releasing it
/// does nothing.
pub struct z_owned_bytes_t {
    pub start: Option<Vec<u8>>,
}

impl View for z_owned_bytes_t {
    type V = Option<Seq<u8>>;

    open spec fn view(&self) -> Option<Seq<u8>> {
        match self.start {
            Some(v) => Some(v@),
            None => None,
        }
    }
}

impl z_owned_bytes_t {
    /// A fresh copy of `data`; empty data gives the gravestone.
    pub fn new(data: &[u8]) -> (r: z_owned_bytes_t)
        ensures
            r@ == copy_model(Some(data@)),
    {
        if data.len() == 0 {
            return z_bytes_null();
        }
        z_owned_bytes_t { start: Some(slice_to_vec(data)) }
    }

    /// `len` zeroed bytes to be filled in by the caller; zero bytes give the
    /// gravestone.
    pub fn preallocate(len: usize) -> (r: z_owned_bytes_t)
        ensures
            len == 0 ==> r@ is None,
            len > 0 ==> r@ == Some(Seq::new(len as nat, |i: int| 0u8)),
    {
        if len == 0 {
            return z_bytes_null();
        }
        let mut data: Vec<u8> = Vec::new();
        while data.len() < len
            invariant
                data.len() <= len,
                forall|i: int| 0 <= i < data.len() ==> data@[i] == 0u8,
            decreases len - data.len(),
        {
            data.push(0u8);
        }
        proof {
            assert(data@ =~= Seq::new(len as nat, |i: int| 0u8));
        }
        z_owned_bytes_t { start: Some(data) }
    }

    /// Writes `value` over the bytes from index `start` on.
    pub fn insert_unchecked(&mut self, start: usize, value: &[u8])
        requires
            old(self)@ is Some,
            start + value@.len() <= length_of(old(self)@),
        ensures
            final(self)@ == Some(
                bytes_of(old(self)@).take(start as int) + value@ + bytes_of(old(self)@).skip(
                    start + value@.len(),
                ),
            ),
    {
        let ghost before = bytes_of(self@);
        let mut data = match self.start.take() {
            Some(v) => v,
            None => Vec::new(),
        };
        let mut i: usize = 0;
        while i < value.len()
            invariant
                data@.len() == before.len(),
                data.len() == before.len(),
                start + value@.len() <= before.len(),
                i <= value@.len(),
                forall|k: int| 0 <= k < start ==> data@[k] == before[k],
                forall|k: int| start <= k < start + i ==> data@[k] == value@[k - start],
                forall|k: int| start + i <= k < before.len() ==> data@[k] == before[k],
            decreases value@.len() - i,
        {
            data.set(start + i, value[i]);
            i = i + 1;
        }
        proof {
            assert(data@ =~= before.take(start as int) + value@ + before.skip(
                start + value@.len(),
            ));
        }
        self.start = Some(data);
    }
}

/// The id of a peer, as its sixteen bytes in little-endian order.
#[derive(Clone, Copy)]
pub struct z_id_t {
    pub id: [u8; 16],
}

impl From<z_id_t> for z_owned_bytes_t {
    /// An owned copy of the id's bytes.
    fn from(id: z_id_t) -> (r: Self)
        ensures
            r@ == Some(id.id@),
    {
        let mut data: Vec<u8> = Vec::new();
        let mut i: usize = 0;
        while i < 16
            invariant
                i <= 16,
                data@ == id.id@.take(i as int),
            decreases 16 - i,
        {
            data.push(id.id[i]);
            i = i + 1;
            proof {
                assert(data@ =~= id.id@.take(i as int));
            }
        }
        proof {
            assert(id.id@.take(16) =~= id.id@);
        }
        z_owned_bytes_t { start: Some(data) }
    }
}

// A buffer owns heap storage that no spec value builds: the contract of
// `from` itself states the result.
impl vstd::std_specs::convert::FromSpecImpl<z_id_t> for z_owned_bytes_t {
    open spec fn obeys_from_spec() -> bool {
        false
    }

    open spec fn from_spec(id: z_id_t) -> Self {
        z_owned_bytes_t { start: None }
    }
}

impl From<Option<z_id_t>> for z_owned_bytes_t {
    /// An owned copy of the id's bytes; no id gives the gravestone.
    fn from(id: Option<z_id_t>) -> (r: Self)
        ensures
            r@ == match id {
                Some(i) => Some(i.id@),
                None => None,
            },
    {
        match id {
            Some(i) => <z_owned_bytes_t as From<z_id_t>>::from(i),
            None => z_bytes_null(),
        }
    }
}

// As above: the contract of `from` states the result.
impl vstd::std_specs::convert::FromSpecImpl<Option<z_id_t>> for z_owned_bytes_t {
    open spec fn obeys_from_spec() -> bool {
        false
    }

    open spec fn from_spec(id: Option<z_id_t>) -> Self {
        z_owned_bytes_t { start: None }
    }
}

/// The text that the bytes `b` encode as UTF-8, or `None` where they are not
/// valid UTF-8.
pub uninterp spec fn utf8_text(b: Seq<u8>) -> Option<Seq<char>>;

/// Relies on `String::from_utf8`: the text that the bytes encode, or an error
/// where they are not valid UTF-8.
#[verifier::external_body]
fn string_from_utf8(b: Vec<u8>) -> (r: Option<String>)
    ensures
        match r {
            Some(t) => utf8_text(b@) == Some(t@),
            None => utf8_text(b@) is None,
        },
{
    String::from_utf8(b).ok()
}

impl z_owned_bytes_t {
    /// Takes the owned bytes as text; `None` for the gravestone or for bytes
    /// that are not valid UTF-8.
    pub fn into_string(self) -> (r: Option<String>)
        ensures
            match self@ {
                None => r is None,
                Some(s) => match r {
                    Some(t) => utf8_text(s) == Some(t@),
                    None => utf8_text(s) is None,
                },
            },
    {
        match self.start {
            None => None,
            Some(v) => string_from_utf8(v),
        }
    }
}

/// Returns `true` if `b` is initialized.
pub fn z_bytes_is_initialized(b: &z_bytes_t) -> (r: bool)
    ensures
        r == (b@ is Some),
{
    b.start.is_some()
}

/// Returns the gravestone value for `z_bytes_t`.
pub fn z_bytes_empty<'a>() -> (r: z_bytes_t<'a>)
    ensures
        r@ is None,
{
    z_bytes_t { start: None }
}

/// Returns a view of the string that `str` starts with, up to its
/// terminating zero byte; a missing `str` gives the gravestone.
pub fn z_bytes_from_str<'a>(str: Option<&'a [u8]>) -> (r: z_bytes_t<'a>)
    requires
        str matches Some(s) ==> is_terminated(s@),
    ensures
        str is None ==> r@ is None,
        str matches Some(s) ==> (r@ matches Some(v) && is_string_length(s@, v.len() as int) && v
            == s@.take(v.len() as int)),
{
    match str {
        None => z_bytes_empty(),
        Some(s) => {
            let n = string_length(s);
            z_bytes_t { start: Some(slice_subrange(s, 0, n)) }
        },
    }
}

/// Index of the first zero byte of `s`.
fn string_length(s: &[u8]) -> (n: usize)
    requires
        is_terminated(s@),
    ensures
        is_string_length(s@, n as int),
{
    let mut i: usize = 0;
    while s[i] != 0
        invariant
            is_terminated(s@),
            0 <= i < s@.len(),
            forall|k: int| 0 <= k < i ==> s@[k] != 0,
        decreases s@.len() - i,
    {
        proof {
            let w = choose|w: int| 0 <= w < s@.len() && s@[w] == 0;
            assert(i < w);
        }
        i = i + 1;
    }
    i
}

/// Older name of `z_bytes_from_str`.
pub fn z_bytes_new<'a>(str: Option<&'a [u8]>) -> (r: z_bytes_t<'a>)
    requires
        str matches Some(s) ==> is_terminated(s@),
    ensures
        str is None ==> r@ is None,
        str matches Some(s) ==> (r@ matches Some(v) && is_string_length(s@, v.len() as int) && v
            == s@.take(v.len() as int)),
{
    z_bytes_from_str(str)
}

/// Constructs a view of the first `len` bytes of `start`; a missing `start`
/// gives the gravestone.
pub fn z_bytes_wrap<'a>(start: Option<&'a [u8]>, len: usize) -> (r: z_bytes_t<'a>)
    requires
        start matches Some(s) ==> len <= s@.len(),
    ensures
        r@ == wrap_model(
            match start {
                Some(s) => Some(s@),
                None => None,
            },
            len as nat,
        ),
{
    match start {
        None => z_bytes_empty(),
        Some(s) => z_bytes_t { start: Some(slice_subrange(s, 0, len)) },
    }
}

/// Frees `b` and leaves the gravestone in its place, so that a second
/// release does nothing.
pub fn z_bytes_drop(b: &mut z_owned_bytes_t)
    ensures
        final(b)@ == released_model(old(b)@),
        old(b)@ is None ==> final(b)@ == old(b)@,
{
    if b.start.is_some() {
        b.start = None;
    }
}

/// Returns the gravestone value for `z_owned_bytes_t`.
pub fn z_bytes_null() -> (r: z_owned_bytes_t)
    ensures
        r@ is None,
{
    z_owned_bytes_t { start: None }
}

/// A view of the bytes that `b` owns; `b` keeps the duty to release them.
pub fn z_bytes_loan<'a>(b: &'a z_owned_bytes_t) -> (r: z_bytes_t<'a>)
    ensures
        r@ == b@,
{
    match &b.start {
        Some(v) => z_bytes_t { start: Some(v.as_slice()) },
        None => z_bytes_t { start: None },
    }
}

/// An owned deep copy of the bytes that `b` views.
pub fn z_bytes_clone(b: &z_bytes_t) -> (r: z_owned_bytes_t)
    ensures
        r@ == copy_model(b@),
{
    match b.start {
        None => z_bytes_null(),
        Some(s) => z_owned_bytes_t::new(s),
    }
}

/// Returns `true` if `b` is initialized.
pub fn z_bytes_check(b: &z_owned_bytes_t) -> (r: bool)
    ensures
        r == (b@ is Some),
{
    b.start.is_some()
}

/// Loaning a fresh copy of any bytes `s` gives a view of exactly `len(s)`
/// bytes, equal to `s` byte for byte.
pub proof fn lemma_copy_then_loan(s: Seq<u8>)
    ensures
        length_of(copy_model(Some(s))) == s.len(),
        bytes_of(copy_model(Some(s))) == s,
{
}

/// A copy taken from an owned value keeps that value's bytes when the value
/// is released afterwards: the copy owns storage of its own.
pub proof fn lemma_copy_outlives_release(owned: Option<Seq<u8>>)
    ensures
        released_model(owned) is None,
        bytes_of(copy_model(owned)) == bytes_of(owned),
        length_of(copy_model(owned)) == length_of(owned),
{
}

/// Release is idempotent: releasing twice gives the same gravestone as
/// releasing once, and releasing a gravestone leaves a gravestone.
pub proof fn lemma_release_idempotent(owned: Option<Seq<u8>>)
    ensures
        released_model(released_model(owned)) == released_model(owned),
        released_model(owned) is None,
        released_model(None) is None,
{
}

/// Wrapping a missing start, whatever the length, gives the same
/// uninitialized value as the gravestone view.
pub proof fn lemma_wrap_missing_is_gravestone(len: nat)
    ensures
        wrap_model(None, len) is None,
{
}

/// Wrapping a present start with length zero gives an initialized view of no
/// bytes, distinct from the gravestone.
pub proof fn lemma_wrap_empty_is_initialized(start: Seq<u8>)
    ensures
        wrap_model(Some(start), 0) is Some,
        length_of(wrap_model(Some(start), 0)) == 0,
        wrap_model(Some(start), 0) != wrap_model(None, 0),
{
    assert(start.take(0) =~= Seq::<u8>::empty());
}

} // verus!
