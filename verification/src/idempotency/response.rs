use vstd::prelude::*;

verus! {

/// One header of a stored response.
#[derive(Debug, PartialEq, Eq)]
pub struct HeaderPair {
    pub name: String,
    pub value: Vec<u8>,
}

/// The response of a finished action, kept so that a retry can be answered
/// with it again: status code, headers in their order, and the body bytes.
#[derive(Debug, PartialEq, Eq)]
pub struct SavedResponse {
    pub status_code: u16,
    pub headers: Vec<HeaderPair>,
    pub body: Vec<u8>,
}

/// A [`SavedResponse`] as plain values.
pub struct ResponseView {
    pub status_code: u16,
    pub headers: Seq<(Seq<char>, Seq<u8>)>,
    pub body: Seq<u8>,
}

impl View for HeaderPair {
    type V = (Seq<char>, Seq<u8>);

    open spec fn view(&self) -> (Seq<char>, Seq<u8>) {
        (self.name@, self.value@)
    }
}

impl View for SavedResponse {
    type V = ResponseView;

    open spec fn view(&self) -> ResponseView {
        ResponseView {
            status_code: self.status_code,
            headers: Seq::new(self.headers.len() as nat, |i: int| self.headers[i]@),
            body: self.body@,
        }
    }
}

/// A copy of `bytes`, byte for byte.
fn copy_bytes(bytes: &Vec<u8>) -> (copy: Vec<u8>)
    ensures
        copy@ == bytes@,
{
    let mut copy: Vec<u8> = Vec::new();
    let mut i: usize = 0;
    while i < bytes.len()
        invariant
            i <= bytes.len(),
            copy@ == bytes@.subrange(0, i as int),
        decreases bytes.len() - i,
    {
        copy.push(bytes[i]);
        assert(copy@ =~= bytes@.subrange(0, i + 1));
        i += 1;
    }
    assert(bytes@.subrange(0, bytes.len() as int) =~= bytes@);
    copy
}

impl Clone for HeaderPair {
    fn clone(&self) -> (copy: Self)
        ensures
            copy@ == self@,
    {
        HeaderPair { name: self.name.clone(), value: copy_bytes(&self.value) }
    }
}

impl Clone for SavedResponse {
    /// A copy that is identical in status, headers and body.
    fn clone(&self) -> (copy: Self)
        ensures
            copy@ == self@,
    {
        let mut headers: Vec<HeaderPair> = Vec::new();
        let mut i: usize = 0;
        while i < self.headers.len()
            invariant
                i <= self.headers.len(),
                headers.len() == i,
                forall|k: int| 0 <= k < i ==> headers[k]@ == self.headers[k]@,
            decreases self.headers.len() - i,
        {
            headers.push(self.headers[i].clone());
            i += 1;
        }
        let copy = SavedResponse {
            status_code: self.status_code,
            headers,
            body: copy_bytes(&self.body),
        };
        assert(copy@.headers =~= self@.headers);
        copy
    }
}

impl SavedResponse {
    /// A response with the given status, no headers and an empty body.
    pub fn empty(status_code: u16) -> (response: SavedResponse)
        ensures
            response@ == (ResponseView {
                status_code,
                headers: Seq::empty(),
                body: Seq::empty(),
            }),
    {
        let response = SavedResponse { status_code, headers: Vec::new(), body: Vec::new() };
        assert(response@.headers =~= Seq::empty());
        response
    }
}

} // verus!
