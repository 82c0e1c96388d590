//! The wire types the router works on: a header collection, a request split
//! into its parts and its body, and a response.
//!
//! They hold plain values only. A transport turns what it received into a
//! [`Request`] and sends out what a [`Response`] holds.

use vstd::prelude::*;
use vstd::string::StringSliceAdditionalSpecFns;
use vstd::utf8::encode_utf8;

verus! {

/// One header as specifications see it: its name and its value.
pub type HeaderView = (Seq<char>, Seq<char>);

/// An upper-case ASCII letter as its lower-case letter, any other byte as it is.
pub open spec fn lower(byte: u8) -> u8 {
    if 65 <= byte <= 90 {
        (byte + 32) as u8
    } else {
        byte
    }
}

/// Whether two header names are the same name: their UTF-8 bytes agree but
/// for the case of ASCII letters.
pub open spec fn same_name(a: Seq<char>, b: Seq<char>) -> bool {
    let x = encode_utf8(a);
    let y = encode_utf8(b);
    x.len() == y.len() && forall|i: int| 0 <= i < x.len() ==> lower(#[trigger] x[i]) == lower(y[i])
}

/// The headers of `entries` that are not named `name`, in their order.
pub open spec fn without(entries: Seq<HeaderView>, name: Seq<char>) -> Seq<HeaderView>
    decreases entries.len(),
{
    if entries.len() == 0 {
        Seq::empty()
    } else if same_name(entries.last().0, name) {
        without(entries.drop_last(), name)
    } else {
        without(entries.drop_last(), name).push(entries.last())
    }
}

/// The value of the first header of `entries` that is named `name`.
pub open spec fn first_value(entries: Seq<HeaderView>, name: Seq<char>) -> Option<Seq<char>>
    decreases entries.len(),
{
    if entries.len() == 0 {
        None
    } else if same_name(entries[0].0, name) {
        Some(entries[0].1)
    } else {
        first_value(entries.skip(1), name)
    }
}

/// `entries` with every header named `name` taken out and `(name, value)`
/// put at the end.
pub open spec fn replaced(entries: Seq<HeaderView>, name: Seq<char>, value: Seq<char>) -> Seq<
    HeaderView,
> {
    without(entries, name).push((name, value))
}

/// Whether no header of `entries` is named `name`.
pub open spec fn lacks(entries: Seq<HeaderView>, name: Seq<char>) -> bool {
    forall|i: int| 0 <= i < entries.len() ==> !same_name((#[trigger] entries[i]).0, name)
}

/// Taking the headers named `name` out leaves none of that name.
pub proof fn lemma_without_lacks(entries: Seq<HeaderView>, name: Seq<char>)
    ensures
        lacks(without(entries, name), name),
    decreases entries.len(),
{
    if entries.len() > 0 {
        lemma_without_lacks(entries.drop_last(), name);
    }
}

/// Taking headers out brings in no name that was not there.
pub proof fn lemma_without_keeps_lack(entries: Seq<HeaderView>, name: Seq<char>, other: Seq<char>)
    requires
        lacks(entries, other),
    ensures
        lacks(without(entries, name), other),
    decreases entries.len(),
{
    if entries.len() > 0 {
        let rest = entries.drop_last();
        assert forall|i: int| 0 <= i < rest.len() implies !same_name(
            (#[trigger] rest[i]).0,
            other,
        ) by {
            assert(rest[i] == entries[i]);
        }
        lemma_without_keeps_lack(rest, name, other);
        assert(!same_name(entries[entries.len() - 1].0, other));
    }
}

/// The first header of a name is looked for behind the headers that lack
/// the name.
pub proof fn lemma_first_value_skips(front: Seq<HeaderView>, back: Seq<HeaderView>, name: Seq<char>)
    requires
        lacks(front, name),
    ensures
        first_value(front + back, name) == first_value(back, name),
    decreases front.len(),
{
    if front.len() == 0 {
        assert(front + back =~= back);
    } else {
        assert(!same_name(front[0].0, name));
        assert((front + back)[0] == front[0]);
        assert((front + back).skip(1) =~= front.skip(1) + back);
        assert forall|i: int| 0 <= i < front.skip(1).len() implies !same_name(
            (#[trigger] front.skip(1)[i]).0,
            name,
        ) by {
            assert(front.skip(1)[i] == front[i + 1]);
        }
        lemma_first_value_skips(front.skip(1), back, name);
    }
}

/// A header that was set is the first of its name, and so the one that is
/// found.
pub proof fn lemma_replaced_is_found(entries: Seq<HeaderView>, name: Seq<char>, value: Seq<char>)
    ensures
        first_value(replaced(entries, name, value), name) == Some(value),
{
    let kept = without(entries, name);
    let set = seq![(name, value)];
    lemma_without_lacks(entries, name);
    lemma_first_value_skips(kept, set, name);
    assert(replaced(entries, name, value) =~= kept + set);
    assert(same_name(name, name));
}

/// An ordered collection of headers. A name may occur more than once.
///
/// Names are compared without regard to the case of ASCII letters, and kept
/// as they were written.
pub struct HeaderMap {
    pub entries: Vec<(String, String)>,
}

impl View for HeaderMap {
    type V = Seq<HeaderView>;

    open spec fn view(&self) -> Seq<HeaderView> {
        Seq::new(self.entries@.len(), |i: int| (self.entries@[i].0@, self.entries@[i].1@))
    }
}

/// Whether `a` and `b` are the same header name.
pub fn names_match(a: &str, b: &str) -> (same: bool)
    ensures
        same == same_name(a@, b@),
{
    let x = a.as_bytes();
    let y = b.as_bytes();
    if x.len() != y.len() {
        return false;
    }
    let mut i: usize = 0;
    while i < x.len()
        invariant
            i <= x@.len(),
            x@.len() == y@.len(),
            x@ == encode_utf8(a@),
            y@ == encode_utf8(b@),
            forall|k: int| 0 <= k < i ==> lower(#[trigger] x@[k]) == lower(y@[k]),
        decreases x@.len() - i,
    {
        if lower_byte(x[i]) != lower_byte(y[i]) {
            return false;
        }
        i += 1;
    }
    true
}

/// Whether `a` and `b` are the same text.
pub fn same_text(a: &str, b: &str) -> (same: bool)
    ensures
        same == (a@ == b@),
{
    let x = a.as_bytes();
    let y = b.as_bytes();
    proof {
        vstd::utf8::encode_utf8_decode_utf8(a@);
        vstd::utf8::encode_utf8_decode_utf8(b@);
    }
    if x.len() != y.len() {
        return false;
    }
    let mut i: usize = 0;
    while i < x.len()
        invariant
            i <= x@.len(),
            x@.len() == y@.len(),
            x@ == encode_utf8(a@),
            y@ == encode_utf8(b@),
            forall|k: int| 0 <= k < i ==> x@[k] == y@[k],
        decreases x@.len() - i,
    {
        if x[i] != y[i] {
            return false;
        }
        i += 1;
    }
    assert(x@ =~= y@);
    true
}

fn lower_byte(byte: u8) -> (lowered: u8)
    ensures
        lowered == lower(byte),
{
    if 65 <= byte && byte <= 90 {
        byte + 32
    } else {
        byte
    }
}

impl HeaderMap {
    /// A collection without headers.
    pub fn new() -> (headers: HeaderMap)
        ensures
            headers@ == Seq::<HeaderView>::empty(),
    {
        let headers = HeaderMap { entries: Vec::new() };
        assert(headers@ =~= Seq::<HeaderView>::empty());
        headers
    }

    /// The number of headers.
    pub fn len(&self) -> (n: usize)
        ensures
            n == self@.len(),
    {
        self.entries.len()
    }

    /// Adds a header at the end and keeps what is there.
    pub fn append(&mut self, name: &str, value: &str)
        ensures
            final(self)@ == old(self)@.push((name@, value@)),
    {
        self.entries.push((name.to_owned(), value.to_owned()));
        assert(self@ =~= old(self)@.push((name@, value@)));
    }

    /// Sets a header: every header of that name leaves, and the new one is
    /// put at the end.
    pub fn insert(&mut self, name: &str, value: &str)
        ensures
            final(self)@ == replaced(old(self)@, name@, value@),
    {
        let mut kept: Vec<(String, String)> = Vec::new();
        let mut i: usize = 0;
        let ghost before = self@;
        while i < self.entries.len()
            invariant
                i <= self.entries@.len(),
                self@ == before,
                (HeaderMap { entries: kept })@ == without(before.take(i as int), name@),
            decreases self.entries@.len() - i,
        {
            let ghost old_kept = (HeaderMap { entries: kept })@;
            assert(before.take(i + 1).drop_last() =~= before.take(i as int));
            assert(before.take(i + 1).last() == before[i as int]);
            if !names_match(self.entries[i].0.as_str(), name) {
                kept.push((self.entries[i].0.clone(), self.entries[i].1.clone()));
                assert((HeaderMap { entries: kept })@ =~= old_kept.push(before[i as int]));
            }
            i += 1;
        }
        assert(before.take(i as int) =~= before);
        kept.push((name.to_owned(), value.to_owned()));
        self.entries = kept;
        assert(self@ =~= replaced(before, name@, value@));
    }

    /// The value of the first header named `name`.
    pub fn get(&self, name: &str) -> (value: Option<&String>)
        ensures
            match value {
                Some(v) => first_value(self@, name@) == Some(v@),
                None => first_value(self@, name@) is None,
            },
    {
        let mut i: usize = 0;
        assert(self@.skip(0) =~= self@);
        while i < self.entries.len()
            invariant
                i <= self.entries@.len(),
                first_value(self@, name@) == first_value(self@.skip(i as int), name@),
            decreases self.entries@.len() - i,
        {
            assert(self@.skip(i as int)[0] == self@[i as int]);
            if names_match(self.entries[i].0.as_str(), name) {
                return Some(&self.entries[i].1);
            }
            assert(self@.skip(i as int).skip(1) =~= self@.skip(i + 1));
            i += 1;
        }
        None
    }

    /// A copy that holds the same headers.
    pub fn duplicate(&self) -> (copy: HeaderMap)
        ensures
            copy@ == self@,
    {
        let mut entries: Vec<(String, String)> = Vec::new();
        let mut i: usize = 0;
        while i < self.entries.len()
            invariant
                i <= self.entries@.len(),
                (HeaderMap { entries })@ == self@.take(i as int),
            decreases self.entries@.len() - i,
        {
            let ghost done = (HeaderMap { entries })@;
            entries.push((self.entries[i].0.clone(), self.entries[i].1.clone()));
            assert((HeaderMap { entries })@ =~= done.push(self@[i as int]));
            assert(self@.take(i + 1) =~= self@.take(i as int).push(self@[i as int]));
            i += 1;
        }
        assert(self@.take(i as int) =~= self@);
        HeaderMap { entries }
    }
}

/// What a request carries besides its body.
pub struct Parts {
    pub method: String,
    pub path: String,
    pub headers: HeaderMap,
}

/// A [`Parts`] value as specifications see it.
pub struct PartsView {
    pub method: Seq<char>,
    pub path: Seq<char>,
    pub headers: Seq<HeaderView>,
}

impl View for Parts {
    type V = PartsView;

    open spec fn view(&self) -> PartsView {
        PartsView { method: self.method@, path: self.path@, headers: self.headers@ }
    }
}

/// One invocation as the transport hands it over: method, target path,
/// headers, and the body as it was received.
pub struct Request {
    pub method: String,
    pub path: String,
    pub headers: HeaderMap,
    pub body: Vec<u8>,
}

/// A [`Request`] as specifications see it.
pub struct RequestView {
    pub method: Seq<char>,
    pub path: Seq<char>,
    pub headers: Seq<HeaderView>,
    pub body: Seq<u8>,
}

impl View for Request {
    type V = RequestView;

    open spec fn view(&self) -> RequestView {
        RequestView {
            method: self.method@,
            path: self.path@,
            headers: self.headers@,
            body: self.body@,
        }
    }
}

impl Request {
    /// The request's parts.
    pub open spec fn parts(self) -> Parts {
        Parts { method: self.method, path: self.path, headers: self.headers }
    }

    /// The request made of `parts` and `body`.
    pub open spec fn assembled(parts: Parts, body: Vec<u8>) -> Request {
        Request { method: parts.method, path: parts.path, headers: parts.headers, body }
    }

    /// Splits the request into its parts and its body.
    pub fn into_parts(self) -> (split: (Parts, Vec<u8>))
        ensures
            split.0 == self.parts(),
            split.1 == self.body,
    {
        (Parts { method: self.method, path: self.path, headers: self.headers }, self.body)
    }

    /// Puts parts and a body together again.
    pub fn from_parts(parts: Parts, body: Vec<u8>) -> (request: Request)
        ensures
            request == Request::assembled(parts, body),
            request.parts() == parts,
            request.body == body,
    {
        Request { method: parts.method, path: parts.path, headers: parts.headers, body }
    }

    /// Gives up everything but the body.
    pub fn into_body(self) -> (body: Vec<u8>)
        ensures
            body == self.body,
    {
        self.body
    }
}

/// What goes back to the caller: a status code, headers, and a body.
pub struct Response {
    pub status: u16,
    pub headers: HeaderMap,
    pub body: Vec<u8>,
}

/// A [`Response`] as specifications see it.
pub struct ResponseView {
    pub status: u16,
    pub headers: Seq<HeaderView>,
    pub body: Seq<u8>,
}

impl View for Response {
    type V = ResponseView;

    open spec fn view(&self) -> ResponseView {
        ResponseView { status: self.status, headers: self.headers@, body: self.body@ }
    }
}

} // verus!
