use vstd::prelude::*;

use crate::addr::SocketAddr;
use crate::json::{decoded, parse_json, DecodeError};
use crate::method::Method;
use crate::text_map::{lookup, text_of, TextMap};

verus! {

/// A request as a mathematical value.
pub ghost struct RequestView {
    pub method: Method,
    pub path: Seq<char>,
    pub version: Seq<char>,
    pub headers: Map<Seq<char>, Seq<char>>,
    pub params: Map<Seq<char>, Seq<char>>,
    pub remote_addr: SocketAddr,
    pub data: Seq<u8>,
}

impl RequestView {
    /// This request with its headers replaced by `h`.
    pub open spec fn with_headers(self, h: Map<Seq<char>, Seq<char>>) -> RequestView {
        RequestView { headers: h, ..self }
    }

    /// This request with its route parameters replaced by `p`.
    pub open spec fn with_params(self, p: Map<Seq<char>, Seq<char>>) -> RequestView {
        RequestView { params: p, ..self }
    }

    /// This request with its body replaced by `d`.
    pub open spec fn with_data(self, d: Seq<u8>) -> RequestView {
        RequestView { data: d, ..self }
    }
}

/// One of the changes that a holder of a request can make through its
/// mutable views: the headers, the route parameters or the body are
/// replaced, and nothing else changes.
pub open spec fn is_edit(before: RequestView, after: RequestView) -> bool {
    ||| after == before.with_headers(after.headers)
    ||| after == before.with_params(after.params)
    ||| after == before.with_data(after.data)
}

/// The method, path, version and peer address of a request stay what they
/// were through any run of changes to its headers, parameters and body.
pub proof fn identity_survives_edits(run: Seq<RequestView>)
    requires
        run.len() > 0,
        forall|i: int| 0 <= i < run.len() - 1 ==> is_edit(#[trigger] run[i], run[i + 1]),
    ensures
        run.last().method == run[0].method,
        run.last().path == run[0].path,
        run.last().version == run[0].version,
        run.last().remote_addr == run[0].remote_addr,
    decreases run.len(),
{
    if run.len() > 1 {
        let front = run.drop_last();
        assert forall|i: int| 0 <= i < front.len() - 1 implies is_edit(#[trigger] front[i], front[i + 1]) by {
            assert(is_edit(run[i], run[i + 1]));
        }
        identity_survives_edits(front);
        assert(is_edit(run[run.len() - 2], run[run.len() - 1]));
    }
}

/// One inbound HTTP request: what was received on the wire (method, path,
/// protocol version, peer address), the headers, the route parameters that
/// a router fills in, and the body bytes.
pub struct Request {
    method: Method,
    path: String,
    version: String,
    headers: TextMap,
    params: TextMap,
    remote_addr: SocketAddr,
    data: Vec<u8>,
}

impl View for Request {
    type V = RequestView;

    closed spec fn view(&self) -> RequestView {
        RequestView {
            method: self.method,
            path: self.path@,
            version: self.version@,
            headers: self.headers@,
            params: self.params@,
            remote_addr: self.remote_addr,
            data: self.data@,
        }
    }
}

impl Request {
    /// A request from parts that the parser has already checked. It starts
    /// with no route parameters.
    pub fn new(
        method: Method,
        path: String,
        version: String,
        headers: TextMap,
        remote_addr: SocketAddr,
        data: Vec<u8>,
    ) -> (r: Request)
        ensures
            r@ == (RequestView {
                method,
                path: path@,
                version: version@,
                headers: headers@,
                params: Map::empty(),
                remote_addr,
                data: data@,
            }),
    {
        Request {
            method,
            path,
            version,
            headers,
            params: TextMap::new(),
            remote_addr,
            data,
        }
    }

    /// The HTTP verb that was received.
    pub fn method(&self) -> (r: &Method)
        ensures
            *r == self@.method,
    {
        &self.method
    }

    /// The request target that was received.
    pub fn path(&self) -> (r: &str)
        ensures
            r@ == self@.path,
    {
        self.path.as_str()
    }

    /// The protocol version that was received.
    pub fn version(&self) -> (r: &str)
        ensures
            r@ == self@.version,
    {
        self.version.as_str()
    }

    /// The headers themselves, to read or change in place.
    pub fn headers(&mut self) -> (r: &mut TextMap)
        ensures
            r@ == old(self)@.headers,
            final(self)@ == old(self)@.with_headers(final(r)@),
    {
        &mut self.headers
    }

    /// An owned copy of the header value under `key`, or `None`.
    pub fn get_header(&self, key: &str) -> (r: Option<String>)
        ensures
            text_of(r) == lookup(self@.headers, key@),
    {
        self.headers.get(key)
    }

    /// The address of the peer that sent the request.
    pub fn remote_addr(&self) -> (r: &SocketAddr)
        ensures
            *r == self@.remote_addr,
    {
        &self.remote_addr
    }

    /// The number of bytes in the body as it is now.
    pub fn data_length(&self) -> (r: usize)
        ensures
            r == self@.data.len(),
    {
        self.data.len()
    }

    /// The body bytes, to read or change in place. A slice cannot grow or
    /// shrink, so their number stays the one the request was built with.
    pub fn data(&mut self) -> (r: &mut [u8])
        ensures
            r@ == old(self)@.data,
            final(self)@ == old(self)@.with_data(final(r)@),
    {
        self.data.as_mut_slice()
    }

    /// The body bytes, to read.
    pub fn body(&self) -> (r: &[u8])
        ensures
            r@ == self@.data,
    {
        self.data.as_slice()
    }

    /// The route parameters themselves, for a router to fill in.
    pub fn params(&mut self) -> (r: &mut TextMap)
        ensures
            r@ == old(self)@.params,
            final(self)@ == old(self)@.with_params(final(r)@),
    {
        &mut self.params
    }

    /// An owned copy of the route parameter under `key`, or `None`.
    pub fn get_param(&self, key: &str) -> (r: Option<String>)
        ensures
            text_of(r) == lookup(self@.params, key@),
    {
        self.params.get(key)
    }

    /// Decodes the whole body as JSON text into a value tree. The body is
    /// left as it is; a failure yields no value at all.
    pub fn bind_json(&self) -> (r: Result<serde_json::Value, DecodeError>)
        ensures
            r == decoded(self@.data),
    {
        match parse_json(self.data.as_slice()) {
            Ok(v) => Ok(v),
            Err(e) => Err(DecodeError { cause: e }),
        }
    }
}

} // verus!
