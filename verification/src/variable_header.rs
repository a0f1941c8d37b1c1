//! The variable header between the fixed header and the body: thread-context
//! headers, and for requests the feature list and the action name.
use vstd::prelude::*;
use crate::codec::{
    enc_string, enc_string_array, lemma_string_array_roundtrip, lemma_string_roundtrip, parse_string,
    parse_string_array, string_fits, strings_fit,
};
use crate::smap::{sorted_keys, StringMap, StringSet};
use crate::stream::{strings_view, StreamInput, StreamInputError, StreamOutput};
use crate::stream_maps::{
    enc_string_map, enc_string_set_map, lemma_string_map_roundtrip, lemma_string_set_map_roundtrip,
    pairs_fit, parse_string_map, parse_string_set_map, set_pairs_fit,
};

verus! {

/// Request headers (name to value) and response headers (name to values).
#[derive(Debug, PartialEq, Eq)]
pub struct ThreadHeaders {
    pub request: StringMap<String>,
    pub response: StringMap<StringSet>,
}

pub type ThreadHeadersView = (Seq<(Seq<char>, Seq<char>)>, Seq<(Seq<char>, Seq<Seq<char>>)>);

impl View for ThreadHeaders {
    type V = ThreadHeadersView;

    open spec fn view(&self) -> ThreadHeadersView {
        (self.request@, self.response@)
    }
}

pub open spec fn enc_thread_headers(t: ThreadHeadersView) -> Seq<u8> {
    enc_string_map(t.0) + enc_string_set_map(t.1)
}

pub open spec fn parse_thread_headers(s: Seq<u8>) -> Option<(ThreadHeadersView, int)> {
    match parse_string_map(s) {
        Some((req, k)) => match parse_string_set_map(s.skip(k)) {
            Some((resp, m)) => Some(((req, resp), k + m)),
            None => None,
        },
        None => None,
    }
}

impl Default for ThreadHeaders {
    fn default() -> (t: Self)
        ensures
            t@.0.len() == 0 && t@.1.len() == 0,
    {
        ThreadHeaders { request: StringMap::new(), response: StringMap::new() }
    }
}

impl ThreadHeaders {
    /// Reads request headers, then response headers.
    pub fn read(input: &mut StreamInput) -> (r: Result<Self, StreamInputError>)
        ensures
            final(input).data() == old(input).data(),
            old(input).pos() <= final(input).pos() <= final(input).data().len(),
            match parse_thread_headers(old(input).rest()) {
                Some((v, n)) => r matches Ok(t) && t@ == v && final(input).pos() == old(input).pos() + n,
                None => r is Err,
            },
    {
        let ghost s = old(input).rest();
        let request = input.read_string_map()?;
        assert(input.rest() =~= s.skip(input.pos() - old(input).pos()));
        let response = input.read_string_set_map()?;
        Ok(ThreadHeaders { request, response })
    }

    /// Writes request headers, then response headers.
    pub fn write(&self, output: &mut StreamOutput)
        ensures
            final(output)@ == old(output)@ + enc_thread_headers(self@),
    {
        output.write_string_map(&self.request);
        output.write_string_set_map(&self.response);
        assert(output@ =~= old(output)@ + enc_thread_headers(self@));
    }
}

/// Variable header of a request.
#[derive(Debug, PartialEq, Eq)]
pub struct RequestVariableHeader {
    pub thread_headers: ThreadHeaders,
    pub features: Vec<String>,
    pub action: String,
}

pub type RequestVariableHeaderView = (ThreadHeadersView, Seq<Seq<char>>, Seq<char>);

impl View for RequestVariableHeader {
    type V = RequestVariableHeaderView;

    open spec fn view(&self) -> RequestVariableHeaderView {
        (self.thread_headers@, strings_view(self.features@), self.action@)
    }
}

pub open spec fn enc_request_variable_header(v: RequestVariableHeaderView) -> Seq<u8> {
    enc_thread_headers(v.0) + enc_string_array(v.1) + enc_string(v.2)
}

pub open spec fn parse_request_variable_header(s: Seq<u8>) -> Option<(RequestVariableHeaderView, int)> {
    match parse_thread_headers(s) {
        Some((t, k1)) => match parse_string_array(s.skip(k1)) {
            Some((f, k2)) => match parse_string(s.skip(k1 + k2)) {
                Some((a, k3)) => Some(((t, f, a), k1 + k2 + k3)),
                None => None,
            },
            None => None,
        },
        None => None,
    }
}

impl RequestVariableHeader {
    /// A request header for `action` with no thread headers and no features.
    pub fn new(action: &str) -> (h: Self)
        ensures
            h@.0.0.len() == 0,
            h@.0.1.len() == 0,
            h@.1.len() == 0,
            h@.2 == action@,
    {
        let features: Vec<String> = Vec::new();
        let h = RequestVariableHeader {
            thread_headers: ThreadHeaders::default(),
            features,
            action: crate::text::owned(action),
        };
        assert(strings_view(h.features@).len() == 0);
        h
    }

    /// Reads a request variable header from the start of `bytes`.
    pub fn read(bytes: Vec<u8>) -> (r: Result<Self, StreamInputError>)
        ensures
            match parse_request_variable_header(bytes@) {
                Some((v, n)) => r matches Ok(h) && h@ == v,
                None => r is Err,
            },
    {
        let mut input = StreamInput::new(bytes);
        let ghost s = input.rest();
        let thread_headers = ThreadHeaders::read(&mut input)?;
        assert(input.rest() =~= s.skip(input.pos() as int));
        let features = input.read_string_array()?;
        assert(input.rest() =~= s.skip(input.pos() as int));
        let action = input.read_string()?;
        Ok(RequestVariableHeader { thread_headers, features, action })
    }

    pub fn write(&self, output: &mut StreamOutput)
        ensures
            final(output)@ == old(output)@ + enc_request_variable_header(self@),
    {
        self.thread_headers.write(output);
        output.write_string_array(self.features.as_slice());
        output.write_string(self.action.as_str());
        assert(output@ =~= old(output)@ + enc_request_variable_header(self@));
    }

    /// The encoded header.
    pub fn to_bytes(&self) -> (b: Vec<u8>)
        ensures
            b@ == enc_request_variable_header(self@),
    {
        let mut output = StreamOutput::new();
        self.write(&mut output);
        assert(output@ =~= enc_request_variable_header(self@));
        output.freeze()
    }
}

/// Variable header of a response.
#[derive(Debug, PartialEq, Eq)]
pub struct ResponseVariableHeader {
    pub thread_headers: ThreadHeaders,
}

impl View for ResponseVariableHeader {
    type V = ThreadHeadersView;

    open spec fn view(&self) -> ThreadHeadersView {
        self.thread_headers@
    }
}

impl Default for ResponseVariableHeader {
    fn default() -> (h: Self)
        ensures
            h@.0.len() == 0 && h@.1.len() == 0,
    {
        ResponseVariableHeader { thread_headers: ThreadHeaders::default() }
    }
}

impl ResponseVariableHeader {
    /// Reads a response variable header from the start of `bytes`.
    pub fn read(bytes: Vec<u8>) -> (r: Result<Self, StreamInputError>)
        ensures
            match parse_thread_headers(bytes@) {
                Some((v, n)) => r matches Ok(h) && h@ == v,
                None => r is Err,
            },
    {
        let mut input = StreamInput::new(bytes);
        let thread_headers = ThreadHeaders::read(&mut input)?;
        Ok(ResponseVariableHeader { thread_headers })
    }

    pub fn write(&self, output: &mut StreamOutput)
        ensures
            final(output)@ == old(output)@ + enc_thread_headers(self@),
    {
        self.thread_headers.write(output);
    }

    /// The encoded header.
    pub fn to_bytes(&self) -> (b: Vec<u8>)
        ensures
            b@ == enc_thread_headers(self@),
    {
        let mut output = StreamOutput::new();
        self.write(&mut output);
        assert(output@ =~= enc_thread_headers(self@));
        output.freeze()
    }
}

/// Thread headers that the codec can carry: sorted maps whose strings fit.
pub open spec fn thread_headers_fit(t: ThreadHeadersView) -> bool {
    &&& sorted_keys(t.0)
    &&& pairs_fit(t.0)
    &&& t.0.len() < 0x8000_0000
    &&& sorted_keys(t.1)
    &&& set_pairs_fit(t.1)
    &&& t.1.len() < 0x8000_0000
}

pub proof fn lemma_thread_headers_roundtrip(t: ThreadHeadersView, rest: Seq<u8>)
    requires
        thread_headers_fit(t),
    ensures
        parse_thread_headers(enc_thread_headers(t) + rest) == Some((t, enc_thread_headers(t).len() as int)),
{
    let s = enc_thread_headers(t) + rest;
    assert(s =~= enc_string_map(t.0) + (enc_string_set_map(t.1) + rest));
    lemma_string_map_roundtrip(t.0, enc_string_set_map(t.1) + rest);
    assert(s.skip(enc_string_map(t.0).len() as int) =~= enc_string_set_map(t.1) + rest);
    lemma_string_set_map_roundtrip(t.1, rest);
}

/// Thread headers go on the wire as the request-header map, then the
/// response-header map; with no response headers the request-header map is
/// followed by a single zero count. A reader given the two maps in that order
/// reads each into its own place, whatever follows them.
pub proof fn lemma_thread_headers_wire_order(
    request: Seq<(Seq<char>, Seq<char>)>,
    response: Seq<(Seq<char>, Seq<Seq<char>>)>,
    rest: Seq<u8>,
)
    requires
        thread_headers_fit((request, response)),
    ensures
        enc_thread_headers((request, response)) == enc_string_map(request) + enc_string_set_map(response),
        response.len() == 0 ==> enc_thread_headers((request, response)) == enc_string_map(request).push(0u8),
        parse_thread_headers(enc_string_map(request) + enc_string_set_map(response) + rest) == Some(
            ((request, response), (enc_string_map(request) + enc_string_set_map(response)).len() as int),
        ),
{
    let t = (request, response);
    assert(enc_thread_headers(t) =~= enc_string_map(request) + enc_string_set_map(response));
    if response.len() == 0 {
        assert(crate::codec::enc_varint32(0u32) == seq![0u8]);
        assert(crate::stream_maps::enc_set_pairs(response) == Seq::<u8>::empty());
        assert(enc_string_set_map(response) =~= seq![0u8]);
        assert(enc_thread_headers(t) =~= enc_string_map(request).push(0u8));
    }
    lemma_thread_headers_roundtrip(t, rest);
}

/// A request variable header reads back as it was written.
pub proof fn lemma_request_variable_header_roundtrip(v: RequestVariableHeaderView, rest: Seq<u8>)
    requires
        thread_headers_fit(v.0),
        strings_fit(v.1),
        v.1.len() < 0x8000_0000,
        string_fits(v.2),
    ensures
        parse_request_variable_header(enc_request_variable_header(v) + rest) == Some(
            (v, enc_request_variable_header(v).len() as int),
        ),
{
    let s = enc_request_variable_header(v) + rest;
    let r2 = enc_string_array(v.1) + enc_string(v.2) + rest;
    assert(s =~= enc_thread_headers(v.0) + r2);
    lemma_thread_headers_roundtrip(v.0, r2);
    let k1 = enc_thread_headers(v.0).len() as int;
    assert(s.skip(k1) =~= enc_string_array(v.1) + (enc_string(v.2) + rest));
    lemma_string_array_roundtrip(v.1, enc_string(v.2) + rest);
    let k2 = enc_string_array(v.1).len() as int;
    assert(s.skip(k1 + k2) =~= enc_string(v.2) + rest);
    lemma_string_roundtrip(v.2, rest);
}

/// The wire order of a request variable header: its fields go on the wire one after the
/// other in the order listed here, and a reader given them in that order
/// reads each back into its own field, whatever follows them.
pub proof fn lemma_request_variable_header_wire_order(v: RequestVariableHeaderView, rest: Seq<u8>)
    requires
        thread_headers_fit(v.0),
        strings_fit(v.1),
        v.1.len() < 0x8000_0000,
        string_fits(v.2),
    ensures
        enc_request_variable_header(v) == (enc_thread_headers(v.0) + enc_string_array(v.1) + enc_string(v.2)),
        parse_request_variable_header((enc_thread_headers(v.0) + enc_string_array(v.1) + enc_string(v.2)) + rest) == Some(
            (v, (enc_thread_headers(v.0) + enc_string_array(v.1) + enc_string(v.2)).len() as int),
        ),
{
    assert(enc_request_variable_header(v) =~= (enc_thread_headers(v.0) + enc_string_array(v.1) + enc_string(v.2)));
    lemma_request_variable_header_roundtrip(v, rest);
}

} // verus!
