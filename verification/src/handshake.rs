//! The handshakes that open a transport connection: the requests a node sends
//! first, and the reading of the answer that describes the remote node.
use vstd::prelude::*;
use crate::action_frames::{frame_request, plain_request_header, request_frame};
use crate::codec::{
    enc_bytes_reference, enc_string, enc_vint, parse_bool, parse_byte, parse_i32, parse_string, parse_strings,
    parse_vint,
};
use crate::node_roles::{role_set_of, DiscoveryNodeRole, DiscoveryNodeRoles, RoleView};
use crate::smap::StringMap;
use crate::stream::{strings_view, StreamInput, StreamInputError};
use crate::stream_maps::parse_string_map;
use crate::codec::{enc_strings, lemma_strings_roundtrip, string_fits, strings_fit};
use crate::version::OPENSEARCH_3_2_0_ID;
use crate::frame::encode_message;
use crate::message::{enc_message, TransportMessage};
use crate::status::{TransportStatus, STATUS_HANDSHAKE};
use crate::stream::StreamOutput;
use crate::variable_header::{enc_request_variable_header, RequestVariableHeader};
use crate::version::Version;

verus! {

/// The action of the low-level handshake sent when a connection opens.
pub const TCP_HANDSHAKE_ACTION: &'static str = "internal:tcp/handshake";

/// The action of the handshake that asks the remote node to describe itself.
pub const TRANSPORT_HANDSHAKE_ACTION: &'static str = "internal:transport/handshake";

/// The body of the low-level handshake: an empty parent task id, then the
/// sender's version id as a bytes reference.
pub open spec fn tcp_handshake_body(payload_version: i32) -> Seq<u8> {
    enc_string(Seq::empty()) + enc_bytes_reference(enc_vint(payload_version))
}

/// The frame of the low-level handshake: a request with the handshake bit set.
pub open spec fn tcp_handshake_frame(request_id: i64, header_version: i32, payload_version: i32) -> Seq<u8> {
    enc_message(
        (
            request_id,
            STATUS_HANDSHAKE,
            header_version,
            enc_request_variable_header(plain_request_header(TCP_HANDSHAKE_ACTION@)),
            tcp_handshake_body(payload_version),
        ),
    )
}

/// Builds the uncompressed low-level handshake request: the frame's header
/// carries `header_version`, its body `payload_version`.
pub fn build_tcp_handshake_request(request_id: i64, header_version: Version, payload_version: Version) -> (frame:
    Vec<u8>)
    ensures
        frame@ == tcp_handshake_frame(request_id, header_version.id, payload_version.id),
{
    let header = RequestVariableHeader::new(TCP_HANDSHAKE_ACTION);
    proof {
        assert(header@.0.0 =~= Seq::<(Seq<char>, Seq<char>)>::empty());
        assert(header@.0.1 =~= Seq::<(Seq<char>, Seq<Seq<char>>)>::empty());
        assert(header@.1 =~= Seq::<Seq<char>>::empty());
        assert(header@ == plain_request_header(TCP_HANDSHAKE_ACTION@));
    }
    let mut body = StreamOutput::new();
    write_empty_transport_request(&mut body);
    let mut version_bytes = StreamOutput::new();
    version_bytes.write_vint(payload_version.id());
    let version_bytes = version_bytes.freeze();
    body.write_bytes_reference(version_bytes.as_slice());
    assert(body@ =~= tcp_handshake_body(payload_version.id));
    let status = TransportStatus::request().with_handshake();
    assert(0u8 | STATUS_HANDSHAKE == STATUS_HANDSHAKE) by (bit_vector);
    let message = TransportMessage {
        request_id,
        status,
        version: header_version,
        variable_header: header.to_bytes(),
        body: body.freeze(),
    };
    encode_message(&message)
}

/// Builds the uncompressed transport handshake request, whose body is an
/// empty parent task id.
pub fn build_transport_handshake_request(request_id: i64, version: Version) -> (frame: Vec<u8>)
    ensures
        frame@ == request_frame(request_id, version.id, TRANSPORT_HANDSHAKE_ACTION@, enc_string(Seq::empty())),
{
    let mut body = StreamOutput::new();
    write_empty_transport_request(&mut body);
    assert(body@ =~= enc_string(Seq::empty()));
    frame_request(request_id, version, TRANSPORT_HANDSHAKE_ACTION, body.freeze())
}

/// Writes the empty parent task id: an empty node id and no task number.
fn write_empty_transport_request(output: &mut StreamOutput)
    ensures
        final(output)@ == old(output)@ + enc_string(Seq::empty()),
{
    let empty = "";
    proof {
        reveal_strlit("");
        assert(empty@ =~= Seq::<char>::empty());
    }
    output.write_string(empty);
}

/// An IP address as a transport address carries it.
#[derive(Clone, Copy, Debug, PartialEq, Eq)]
pub enum IpAddr {
    V4([u8; 4]),
    V6([u8; 16]),
}

impl View for IpAddr {
    type V = Seq<u8>;

    /// The address's octets.
    open spec fn view(&self) -> Seq<u8> {
        match self {
            IpAddr::V4(a) => a@,
            IpAddr::V6(a) => a@,
        }
    }
}

/// The address at which a node accepts transport connections.
#[derive(Clone, Debug, PartialEq, Eq)]
pub struct TransportAddress {
    pub ip: IpAddr,
    pub host: String,
    pub port: i32,
}

/// The plain values of a transport address: IP octets, host, port.
pub type TransportAddressView = (Seq<u8>, Seq<char>, i32);

impl View for TransportAddress {
    type V = TransportAddressView;

    open spec fn view(&self) -> TransportAddressView {
        (self.ip@, self.host@, self.port)
    }
}

/// A cluster node as the remote node describes itself.
#[derive(Debug, PartialEq, Eq)]
pub struct DiscoveryNode {
    pub name: String,
    pub id: String,
    pub ephemeral_id: String,
    pub host_name: String,
    pub host_address: String,
    pub address: TransportAddress,
    pub stream_address: Option<TransportAddress>,
    pub attributes: StringMap<String>,
    pub roles: DiscoveryNodeRoles,
    pub version: Version,
}

/// The plain values of a discovery node.
pub struct DiscoveryNodeView {
    pub name: Seq<char>,
    pub id: Seq<char>,
    pub ephemeral_id: Seq<char>,
    pub host_name: Seq<char>,
    pub host_address: Seq<char>,
    pub address: TransportAddressView,
    pub stream_address: Option<TransportAddressView>,
    pub attributes: Seq<(Seq<char>, Seq<char>)>,
    pub roles: Seq<RoleView>,
    pub version: i32,
}

/// The plain values of an optional transport address.
pub open spec fn opt_address_view(a: Option<TransportAddress>) -> Option<TransportAddressView> {
    match a {
        Some(x) => Some(x@),
        None => None,
    }
}

impl View for DiscoveryNode {
    type V = DiscoveryNodeView;

    open spec fn view(&self) -> DiscoveryNodeView {
        DiscoveryNodeView {
            name: self.name@,
            id: self.id@,
            ephemeral_id: self.ephemeral_id@,
            host_name: self.host_name@,
            host_address: self.host_address@,
            address: self.address@,
            stream_address: opt_address_view(self.stream_address),
            attributes: self.attributes@,
            roles: self.roles@,
            version: self.version.id,
        }
    }
}

/// The answer to a transport handshake.
#[derive(Debug, PartialEq, Eq)]
pub struct TransportHandshakeResponse {
    pub discovery_node: Option<DiscoveryNode>,
    pub cluster_name: String,
    pub version: Version,
}

/// The plain values of a handshake answer.
pub struct TransportHandshakeResponseView {
    pub discovery_node: Option<DiscoveryNodeView>,
    pub cluster_name: Seq<char>,
    pub version: i32,
}

impl View for TransportHandshakeResponse {
    type V = TransportHandshakeResponseView;

    open spec fn view(&self) -> TransportHandshakeResponseView {
        TransportHandshakeResponseView {
            discovery_node: match self.discovery_node {
                Some(n) => Some(n@),
                None => None,
            },
            cluster_name: self.cluster_name@,
            version: self.version.id,
        }
    }
}

/// Why a handshake answer cannot be read.
#[derive(Debug, PartialEq, Eq)]
pub enum HandshakeDecodeError {
    /// A value could not be read from the stream.
    Stream(StreamInputError),
    /// An IP address has a byte length other than 4 or 16.
    InvalidIpLength(usize),
    /// The node announces a negative number of roles.
    NegativeRoleCount(i32),
    /// Bytes are left after the answer.
    TrailingBytes(usize),
}

/// What reading a value of a handshake answer finds: the value and the number
/// of bytes it took, or why it cannot be read.
pub enum HandshakeRead<V> {
    Value(V, int),
    StreamFailure,
    InvalidIpLength(nat),
    NegativeRoleCount(i32),
    TrailingBytes(nat),
}

/// The failure of `r`, carried over to a read of another kind of value.
pub open spec fn failed<V, W>(r: HandshakeRead<V>) -> HandshakeRead<W> {
    match r {
        HandshakeRead::InvalidIpLength(n) => HandshakeRead::InvalidIpLength(n),
        HandshakeRead::NegativeRoleCount(c) => HandshakeRead::NegativeRoleCount(c),
        HandshakeRead::TrailingBytes(n) => HandshakeRead::TrailingBytes(n),
        _ => HandshakeRead::StreamFailure,
    }
}

/// Whether a reader's result is the failure that `d` describes, when `d` is
/// one.
pub open spec fn read_failure<T, V>(r: Result<T, HandshakeDecodeError>, d: HandshakeRead<V>) -> bool {
    match d {
        HandshakeRead::Value(..) => true,
        HandshakeRead::StreamFailure => r matches Err(HandshakeDecodeError::Stream(_)),
        HandshakeRead::InvalidIpLength(n) => r matches Err(HandshakeDecodeError::InvalidIpLength(m)) && m == n,
        HandshakeRead::NegativeRoleCount(c) => r matches Err(HandshakeDecodeError::NegativeRoleCount(m)) && m == c,
        HandshakeRead::TrailingBytes(n) => r matches Err(HandshakeDecodeError::TrailingBytes(m)) && m == n,
    }
}

/// Whether a reader's result is what `d` describes: the value it names, or
/// the failure.
pub open spec fn read_outcome<T: View>(r: Result<T, HandshakeDecodeError>, d: HandshakeRead<T::V>) -> bool {
    &&& read_failure(r, d)
    &&& d matches HandshakeRead::Value(v, _) ==> r matches Ok(x) && x@ == v
}

/// Whether the cursor moved past exactly the bytes of a value read.
pub open spec fn read_advance<V>(old_input: StreamInput, new_input: StreamInput, d: HandshakeRead<V>) -> bool {
    &&& new_input.data() == old_input.data()
    &&& old_input.pos() <= new_input.pos() <= new_input.data().len()
    &&& d matches HandshakeRead::Value(_, n) ==> new_input.pos() == old_input.pos() + n
}

/// An IP address: its byte length, then its octets; only 4 or 16 octets are
/// an address. The octets are taken before their number is checked.
pub open spec fn parse_ip(s: Seq<u8>) -> HandshakeRead<Seq<u8>> {
    match parse_byte(s) {
        None => HandshakeRead::StreamFailure,
        Some((len, k)) => if k + len > s.len() {
            HandshakeRead::StreamFailure
        } else if len != 4 && len != 16 {
            HandshakeRead::InvalidIpLength(len as nat)
        } else {
            HandshakeRead::Value(s.subrange(k, k + len), k + len)
        },
    }
}

/// A transport address: the IP address, the host string, the port.
#[verifier::opaque]
pub open spec fn parse_transport_address(s: Seq<u8>) -> HandshakeRead<TransportAddressView> {
    match parse_ip(s) {
        HandshakeRead::Value(ip, k1) => match parse_string(s.skip(k1)) {
            None => HandshakeRead::StreamFailure,
            Some((host, k2)) => match parse_i32(s.skip(k1 + k2)) {
                None => HandshakeRead::StreamFailure,
                Some((port, k3)) => HandshakeRead::Value((ip, host, port), k1 + k2 + k3),
            },
        },
        other => failed(other),
    }
}

/// The stream address, which nodes from OpenSearch 3.2.0 on send as an
/// optional transport address; from older nodes there is none.
#[verifier::opaque]
pub open spec fn parse_stream_address(s: Seq<u8>, stream_version: i32) -> HandshakeRead<
    Option<TransportAddressView>,
> {
    if stream_version >= OPENSEARCH_3_2_0_ID {
        match parse_bool(s) {
            None => HandshakeRead::StreamFailure,
            Some((present, k)) => if present {
                match parse_transport_address(s.skip(k)) {
                    HandshakeRead::Value(a, m) => HandshakeRead::Value(Some(a), k + m),
                    other => failed(other),
                }
            } else {
                HandshakeRead::Value(None, k)
            },
        }
    } else {
        HandshakeRead::Value(None, 0)
    }
}

/// A role: its name, its abbreviation, whether it holds data.
pub open spec fn parse_role(s: Seq<u8>) -> Option<(RoleView, int)> {
    match parse_string(s) {
        None => None,
        Some((name, k1)) => match parse_string(s.skip(k1)) {
            None => None,
            Some((abbreviation, k2)) => match parse_bool(s.skip(k1 + k2)) {
                None => None,
                Some((data, k3)) => Some(((name, abbreviation, data), k1 + k2 + k3)),
            },
        },
    }
}

/// `n` consecutive roles, in wire order.
pub open spec fn parse_roles(s: Seq<u8>, n: nat) -> Option<(Seq<RoleView>, int)>
    decreases n,
{
    if n == 0 {
        Some((seq![], 0))
    } else {
        match parse_roles(s, (n - 1) as nat) {
            Some((v, k)) => match parse_role(s.skip(k)) {
                Some((x, m)) => Some((v.push(x), k + m)),
                None => None,
            },
            None => None,
        }
    }
}

/// The roles of a node: their count, which must not be negative, then each
/// role; the node holds them as a set.
#[verifier::opaque]
pub open spec fn parse_node_roles(s: Seq<u8>) -> HandshakeRead<Seq<RoleView>> {
    match parse_vint(s) {
        None => HandshakeRead::StreamFailure,
        Some((count, k)) => if count < 0 {
            HandshakeRead::NegativeRoleCount(count)
        } else {
            match parse_roles(s.skip(k), count as nat) {
                None => HandshakeRead::StreamFailure,
                Some((items, m)) => HandshakeRead::Value(role_set_of(items), k + m),
            }
        },
    }
}

/// What follows a node's address: the stream address, the attributes, the
/// roles and the version. `names` and `address` were read before it, taking
/// `before` bytes.
#[verifier::opaque]
pub open spec fn parse_node_rest(
    s: Seq<u8>,
    stream_version: i32,
    names: Seq<Seq<char>>,
    address: TransportAddressView,
    before: int,
) -> HandshakeRead<DiscoveryNodeView> {
    match parse_stream_address(s, stream_version) {
        HandshakeRead::Value(stream_address, k3) => match parse_string_map(s.skip(k3)) {
            None => HandshakeRead::StreamFailure,
            Some((attributes, k4)) => match parse_node_roles(s.skip(k3 + k4)) {
                HandshakeRead::Value(roles, k5) => match parse_vint(s.skip(k3 + k4 + k5)) {
                    None => HandshakeRead::StreamFailure,
                    Some((version, k6)) => HandshakeRead::Value(
                        DiscoveryNodeView {
                            name: names[0],
                            id: names[1],
                            ephemeral_id: names[2],
                            host_name: names[3],
                            host_address: names[4],
                            address,
                            stream_address,
                            attributes,
                            roles,
                            version,
                        },
                        before + k3 + k4 + k5 + k6,
                    ),
                },
                other => failed(other),
            },
        },
        other => failed(other),
    }
}

/// A discovery node: its name, id, ephemeral id, host name and host address,
/// its transport address, then the rest.
#[verifier::opaque]
pub open spec fn parse_discovery_node(s: Seq<u8>, stream_version: i32) -> HandshakeRead<DiscoveryNodeView> {
    match parse_strings(s, 5) {
        None => HandshakeRead::StreamFailure,
        Some((names, k1)) => match parse_transport_address(s.skip(k1)) {
            HandshakeRead::Value(address, k2) => parse_node_rest(
                s.skip(k1 + k2),
                stream_version,
                names,
                address,
                k1 + k2,
            ),
            other => failed(other),
        },
    }
}

/// The optional node of a handshake answer: a presence flag, then the node.
#[verifier::opaque]
pub open spec fn parse_optional_node(s: Seq<u8>, stream_version: i32) -> HandshakeRead<Option<DiscoveryNodeView>> {
    match parse_bool(s) {
        None => HandshakeRead::StreamFailure,
        Some((present, k1)) => if present {
            match parse_discovery_node(s.skip(k1), stream_version) {
                HandshakeRead::Value(n, m) => HandshakeRead::Value(Some(n), k1 + m),
                other => failed(other),
            }
        } else {
            HandshakeRead::Value(None, k1)
        },
    }
}

/// A handshake answer: the optional node, the cluster name and the version,
/// with nothing after them.
#[verifier::opaque]
pub open spec fn parse_handshake_response(s: Seq<u8>, stream_version: i32) -> HandshakeRead<
    TransportHandshakeResponseView,
> {
    match parse_optional_node(s, stream_version) {
        HandshakeRead::Value(node, k1) => match parse_string(s.skip(k1)) {
            None => HandshakeRead::StreamFailure,
            Some((cluster_name, k2)) => match parse_vint(s.skip(k1 + k2)) {
                None => HandshakeRead::StreamFailure,
                Some((version, k3)) => if k1 + k2 + k3 < s.len() {
                    HandshakeRead::TrailingBytes((s.len() - (k1 + k2 + k3)) as nat)
                } else {
                    HandshakeRead::Value(
                        TransportHandshakeResponseView { discovery_node: node, cluster_name, version },
                        k1 + k2 + k3,
                    )
                },
            },
        },
        other => failed(other),
    }
}

/// Reads an IP address.
fn read_ip(input: &mut StreamInput) -> (r: Result<IpAddr, HandshakeDecodeError>)
    ensures
        read_outcome(r, parse_ip(old(input).rest())),
        read_advance(*old(input), *final(input), parse_ip(old(input).rest())),
{
    let ghost s = old(input).rest();
    let len = match input.read_byte() {
        Ok(b) => b,
        Err(e) => return Err(HandshakeDecodeError::Stream(e)),
    };
    assert(input.rest() =~= s.skip(1));
    let raw = match input.read_bytes(len as usize) {
        Ok(b) => b,
        Err(e) => return Err(HandshakeDecodeError::Stream(e)),
    };
    assert(raw@ =~= s.subrange(1, 1 + len));
    if len == 4 {
        let a = [raw[0], raw[1], raw[2], raw[3]];
        assert(a@ =~= raw@);
        Ok(IpAddr::V4(a))
    } else if len == 16 {
        let a = [
            raw[0],
            raw[1],
            raw[2],
            raw[3],
            raw[4],
            raw[5],
            raw[6],
            raw[7],
            raw[8],
            raw[9],
            raw[10],
            raw[11],
            raw[12],
            raw[13],
            raw[14],
            raw[15],
        ];
        assert(a@ =~= raw@);
        Ok(IpAddr::V6(a))
    } else {
        Err(HandshakeDecodeError::InvalidIpLength(len as usize))
    }
}

impl TransportAddress {
    /// Reads a transport address: IP address, host, port.
    pub fn read(input: &mut StreamInput) -> (r: Result<Self, HandshakeDecodeError>)
        ensures
            read_outcome(r, parse_transport_address(old(input).rest())),
            read_advance(*old(input), *final(input), parse_transport_address(old(input).rest())),
    {
        reveal(parse_transport_address);
        let ghost s = old(input).rest();
        let ip = match read_ip(input) {
            Ok(ip) => ip,
            Err(e) => return Err(e),
        };
        assert(input.rest() =~= s.skip(input.pos() - old(input).pos()));
        let host = match input.read_string() {
            Ok(h) => h,
            Err(e) => return Err(HandshakeDecodeError::Stream(e)),
        };
        assert(input.rest() =~= s.skip(input.pos() - old(input).pos()));
        let port = match input.read_i32() {
            Ok(p) => p,
            Err(e) => return Err(HandshakeDecodeError::Stream(e)),
        };
        Ok(TransportAddress { ip, host, port })
    }
}

/// Reads the stream address, present only from OpenSearch 3.2.0 on.
fn read_stream_address(input: &mut StreamInput, stream_version: Version) -> (r: Result<
    Option<TransportAddress>,
    HandshakeDecodeError,
>)
    ensures
        read_failure(r, parse_stream_address(old(input).rest(), stream_version.id)),
        parse_stream_address(old(input).rest(), stream_version.id) matches HandshakeRead::Value(v, _) ==> r matches Ok(
            a,
        ) && opt_address_view(a) == v,
        read_advance(*old(input), *final(input), parse_stream_address(old(input).rest(), stream_version.id)),
{
    reveal(parse_stream_address);
    let ghost s = old(input).rest();
    if stream_version.id() >= OPENSEARCH_3_2_0_ID {
        let present = match input.read_bool() {
            Ok(b) => b,
            Err(e) => return Err(HandshakeDecodeError::Stream(e)),
        };
        if present {
            assert(input.rest() =~= s.skip(1));
            let ghost mid = *input;
            let r = TransportAddress::read(input);
            assert(mid.pos() == old(input).pos() + 1);
            match r {
                Ok(a) => Ok(Some(a)),
                Err(e) => Err(e),
            }
        } else {
            Ok(None)
        }
    } else {
        let _ = input.position();
        Ok(None)
    }
}

/// Reads one role: name, abbreviation, whether it holds data.
fn read_role(input: &mut StreamInput) -> (r: Result<DiscoveryNodeRole, StreamInputError>)
    ensures
        final(input).data() == old(input).data(),
        old(input).pos() <= final(input).pos() <= final(input).data().len(),
        match parse_role(old(input).rest()) {
            Some((v, n)) => r matches Ok(x) && x@ == v && final(input).pos() == old(input).pos() + n,
            None => r is Err,
        },
{
    let ghost s = old(input).rest();
    let name = input.read_string()?;
    assert(input.rest() =~= s.skip(input.pos() - old(input).pos()));
    let abbreviation = input.read_string()?;
    assert(input.rest() =~= s.skip(input.pos() - old(input).pos()));
    let can_contain_data = input.read_bool()?;
    Ok(DiscoveryNodeRole { name, abbreviation, can_contain_data })
}

/// When the roles before index `i` parse but role `i` does not, no count of
/// roles beyond `i` parses either.
proof fn lemma_roles_fail_after(s: Seq<u8>, i: nat, n: nat)
    requires
        i < n,
        parse_roles(s, i) is Some,
        parse_roles(s, (i + 1) as nat) is None,
    ensures
        parse_roles(s, n) is None,
    decreases n - i,
{
    if n > i + 1 {
        lemma_roles_fail_after(s, i, (n - 1) as nat);
    }
}

/// Reads a node's roles into a set.
fn read_node_roles(input: &mut StreamInput) -> (r: Result<DiscoveryNodeRoles, HandshakeDecodeError>)
    ensures
        read_outcome(r, parse_node_roles(old(input).rest())),
        read_advance(*old(input), *final(input), parse_node_roles(old(input).rest())),
{
    reveal(parse_node_roles);
    let ghost s0 = old(input).rest();
    let count = match input.read_vint() {
        Ok(c) => c,
        Err(e) => return Err(HandshakeDecodeError::Stream(e)),
    };
    if count < 0 {
        return Err(HandshakeDecodeError::NegativeRoleCount(count));
    }
    let ghost k0 = input.pos() - old(input).pos();
    let ghost s = s0.skip(k0);
    assert(input.rest() =~= s);
    let ghost p0 = input.pos();
    let mut roles = DiscoveryNodeRoles::new();
    let ghost mut items: Seq<RoleView> = seq![];
    let mut i: i32 = 0;
    while i < count
        invariant
            0 <= i <= count,
            input.data() == old(input).data(),
            old(input).pos() <= p0 <= input.pos() <= input.data().len(),
            s == input.data().skip(p0 as int),
            s0 == old(input).rest(),
            parse_vint(s0) == Some((count, k0)),
            s == s0.skip(k0),
            p0 == old(input).pos() + k0,
            parse_roles(s, i as nat) == Some((items, input.pos() - p0)),
            roles@ == role_set_of(items),
        decreases count - i,
    {
        reveal(parse_node_roles);
        assert(input.rest() =~= s.skip(input.pos() - p0));
        let role = match read_role(input) {
            Ok(r) => r,
            Err(e) => {
                proof {
                    lemma_roles_fail_after(s, i as nat, count as nat);
                }
                return Err(HandshakeDecodeError::Stream(e));
            },
        };
        proof {
            let prev = items;
            items = items.push(role@);
            assert(items.drop_last() =~= prev);
        }
        roles.insert(role);
        i = i + 1;
    }
    Ok(roles)
}

/// A discovery node begins with five strings, taken in wire order as its
/// name, its id, its ephemeral id, its host name and its host address: when
/// a node reads from five strings and whatever follows them, each string
/// lands in its own field.
pub proof fn lemma_discovery_node_names_in_wire_order(
    name: Seq<char>,
    id: Seq<char>,
    ephemeral_id: Seq<char>,
    host_name: Seq<char>,
    host_address: Seq<char>,
    rest: Seq<u8>,
    stream_version: i32,
)
    requires
        string_fits(name),
        string_fits(id),
        string_fits(ephemeral_id),
        string_fits(host_name),
        string_fits(host_address),
    ensures
        parse_discovery_node(
            enc_string(name) + enc_string(id) + enc_string(ephemeral_id) + enc_string(host_name) + enc_string(
                host_address,
            ) + rest,
            stream_version,
        ) matches HandshakeRead::Value(n, _) ==> {
            &&& n.name == name
            &&& n.id == id
            &&& n.ephemeral_id == ephemeral_id
            &&& n.host_name == host_name
            &&& n.host_address == host_address
        },
{
    reveal(parse_discovery_node);
    reveal(parse_node_rest);
    let v = seq![name, id, ephemeral_id, host_name, host_address];
    let head = enc_string(name) + enc_string(id) + enc_string(ephemeral_id) + enc_string(host_name) + enc_string(
        host_address,
    );
    reveal_with_fuel(enc_strings, 6);
    assert(v.drop_last().drop_last().drop_last().drop_last().drop_last() =~= Seq::<Seq<char>>::empty());
    assert(v.drop_last().drop_last().drop_last().drop_last() =~= seq![name]);
    assert(v.drop_last().drop_last().drop_last() =~= seq![name, id]);
    assert(v.drop_last().drop_last() =~= seq![name, id, ephemeral_id]);
    assert(v.drop_last() =~= seq![name, id, ephemeral_id, host_name]);
    assert(enc_strings(v) =~= head);
    assert(strings_fit(v)) by {
        assert forall|i: int| 0 <= i < v.len() implies #[trigger] string_fits(v[i]) by {}
    }
    lemma_strings_roundtrip(v, rest);
    assert(v.len() == 5);
}

/// A transport address goes on the wire as the length of its IP address, the
/// IP octets, the host string and the port, in that order; a reader given
/// them in that order reads each into its own place, whatever follows them.
pub proof fn lemma_transport_address_wire_order(ip: Seq<u8>, host: Seq<char>, port: i32, rest: Seq<u8>)
    requires
        ip.len() == 4 || ip.len() == 16,
        string_fits(host),
    ensures
        ({
            let wire = seq![ip.len() as u8] + ip + enc_string(host) + crate::codec::enc_i32(port);
            parse_transport_address(wire + rest) == HandshakeRead::Value((ip, host, port), wire.len() as int)
        }),
{
    reveal(parse_transport_address);
    let a = seq![ip.len() as u8] + ip;
    let s = a + enc_string(host) + crate::codec::enc_i32(port) + rest;
    assert(s[0] == ip.len() as u8);
    assert(s.subrange(1, 1 + ip.len() as int) =~= ip);
    assert(s.skip(a.len() as int) =~= enc_string(host) + (crate::codec::enc_i32(port) + rest));
    crate::codec::lemma_string_roundtrip(host, crate::codec::enc_i32(port) + rest);
    assert(s.skip((a.len() + enc_string(host).len()) as int) =~= crate::codec::enc_i32(port) + rest);
    crate::codec::lemma_i32_roundtrip(port, rest);
}

/// A node role goes on the wire as its name, its abbreviation and whether it
/// holds data, in that order; a reader reads each into its own place.
pub proof fn lemma_role_wire_order(name: Seq<char>, abbreviation: Seq<char>, data: bool, rest: Seq<u8>)
    requires
        string_fits(name),
        string_fits(abbreviation),
    ensures
        ({
            let wire = enc_string(name) + enc_string(abbreviation) + crate::codec::enc_bool(data);
            parse_role(wire + rest) == Some(((name, abbreviation, data), wire.len() as int))
        }),
{
    let s = enc_string(name) + enc_string(abbreviation) + crate::codec::enc_bool(data) + rest;
    assert(s =~= enc_string(name) + (enc_string(abbreviation) + (crate::codec::enc_bool(data) + rest)));
    crate::codec::lemma_string_roundtrip(name, enc_string(abbreviation) + (crate::codec::enc_bool(data) + rest));
    assert(s.skip(enc_string(name).len() as int) =~= enc_string(abbreviation) + (crate::codec::enc_bool(data) + rest));
    crate::codec::lemma_string_roundtrip(abbreviation, crate::codec::enc_bool(data) + rest);
    assert(s.skip((enc_string(name).len() + enc_string(abbreviation).len()) as int) =~= crate::codec::enc_bool(data) + rest);
    crate::wire_fields::lemma_bool_roundtrip(data, rest);
}

/// A handshake answer without a node goes on the wire as an absent-node flag,
/// the cluster name and the version, in that order, and reads back as those.
pub proof fn lemma_handshake_response_wire_order(cluster_name: Seq<char>, version: i32, stream_version: i32)
    requires
        string_fits(cluster_name),
    ensures
        ({
            let wire = crate::codec::enc_bool(false) + enc_string(cluster_name) + enc_vint(version);
            parse_handshake_response(wire, stream_version) == HandshakeRead::Value(
                TransportHandshakeResponseView { discovery_node: None, cluster_name, version },
                wire.len() as int,
            )
        }),
{
    reveal(parse_handshake_response);
    reveal(parse_optional_node);
    let s = crate::codec::enc_bool(false) + enc_string(cluster_name) + enc_vint(version);
    crate::wire_fields::lemma_bool_roundtrip(false, enc_string(cluster_name) + enc_vint(version));
    assert(s =~= crate::codec::enc_bool(false) + (enc_string(cluster_name) + enc_vint(version)));
    assert(s.skip(1) =~= enc_string(cluster_name) + enc_vint(version));
    crate::codec::lemma_string_roundtrip(cluster_name, enc_vint(version));
    assert(s.skip((1 + enc_string(cluster_name).len()) as int) =~= enc_vint(version) + Seq::<u8>::empty());
    crate::codec::lemma_vint_roundtrip(version, Seq::<u8>::empty());
}

/// `n` strings read one after the other are `n` strings.
proof fn lemma_parse_strings_len(s: Seq<u8>, n: nat)
    ensures
        parse_strings(s, n) matches Some((v, _)) ==> v.len() == n,
    decreases n,
{
    if n > 0 {
        lemma_parse_strings_len(s, (n - 1) as nat);
    }
}

impl DiscoveryNode {
    /// Reads a discovery node; the stream's version decides whether a stream
    /// address is present.
    #[verifier::spinoff_prover]
    pub fn read(input: &mut StreamInput, stream_version: Version) -> (r: Result<Self, HandshakeDecodeError>)
        ensures
            read_outcome(r, parse_discovery_node(old(input).rest(), stream_version.id)),
            read_advance(*old(input), *final(input), parse_discovery_node(old(input).rest(), stream_version.id)),
    {
        reveal(parse_discovery_node);
        reveal(parse_node_rest);
        let ghost s = old(input).rest();
        let mut names = match input.read_strings(5) {
            Ok(v) => v,
            Err(e) => return Err(HandshakeDecodeError::Stream(e)),
        };
        let ghost k1 = input.pos() - old(input).pos();
        let ghost nv = strings_view(names@);
        proof {
            lemma_parse_strings_len(s, 5);
        }
        assert(names@.len() == 5);
        assert(input.rest() =~= s.skip(k1));
        let address = match TransportAddress::read(input) {
            Ok(a) => a,
            Err(e) => return Err(e),
        };
        let ghost k2 = input.pos() - old(input).pos() - k1;
        let ghost s2 = s.skip(k1 + k2);
        assert(input.rest() =~= s2);
        let stream_address = match read_stream_address(input, stream_version) {
            Ok(a) => a,
            Err(e) => return Err(e),
        };
        let ghost k3 = input.pos() - old(input).pos() - k1 - k2;
        assert(input.rest() =~= s2.skip(k3));
        let attributes = match input.read_string_map() {
            Ok(m) => m,
            Err(e) => return Err(HandshakeDecodeError::Stream(e)),
        };
        let ghost k4 = input.pos() - old(input).pos() - k1 - k2 - k3;
        assert(input.rest() =~= s2.skip(k3 + k4));
        let roles = match read_node_roles(input) {
            Ok(r) => r,
            Err(e) => return Err(e),
        };
        let ghost k5 = input.pos() - old(input).pos() - k1 - k2 - k3 - k4;
        assert(input.rest() =~= s2.skip(k3 + k4 + k5));
        let version = match input.read_vint() {
            Ok(v) => v,
            Err(e) => return Err(HandshakeDecodeError::Stream(e)),
        };
        let host_address = names.pop().unwrap();
        let host_name = names.pop().unwrap();
        let ephemeral_id = names.pop().unwrap();
        let id = names.pop().unwrap();
        let name = names.pop().unwrap();
        assert(name@ == nv[0] && id@ == nv[1] && ephemeral_id@ == nv[2]);
        assert(host_name@ == nv[3] && host_address@ == nv[4]);
        Ok(
            DiscoveryNode {
                name,
                id,
                ephemeral_id,
                host_name,
                host_address,
                address,
                stream_address,
                attributes,
                roles,
                version: Version::from_id(version),
            },
        )
    }
}

impl TransportHandshakeResponse {
    /// Reads the body of a transport handshake answer, which must hold
    /// nothing after the version.
    pub fn read(bytes: Vec<u8>, stream_version: Version) -> (r: Result<Self, HandshakeDecodeError>)
        ensures
            read_outcome(r, parse_handshake_response(bytes@, stream_version.id)),
    {
        reveal(parse_handshake_response);
        reveal(parse_optional_node);
        let mut input = StreamInput::new(bytes);
        let ghost s = input.rest();
        let present = match input.read_bool() {
            Ok(b) => b,
            Err(e) => return Err(HandshakeDecodeError::Stream(e)),
        };
        assert(input.rest() =~= s.skip(1));
        let discovery_node = if present {
            match DiscoveryNode::read(&mut input, stream_version) {
                Ok(n) => Some(n),
                Err(e) => return Err(e),
            }
        } else {
            None
        };
        let ghost k1 = input.pos() as int;
        assert(input.rest() =~= s.skip(k1));
        let cluster_name = match input.read_string() {
            Ok(c) => c,
            Err(e) => return Err(HandshakeDecodeError::Stream(e)),
        };
        assert(input.rest() =~= s.skip(input.pos() as int));
        let version = match input.read_vint() {
            Ok(v) => v,
            Err(e) => return Err(HandshakeDecodeError::Stream(e)),
        };
        let remaining = input.remaining();
        if remaining != 0 {
            return Err(HandshakeDecodeError::TrailingBytes(remaining));
        }
        Ok(TransportHandshakeResponse { discovery_node, cluster_name, version: Version::from_id(version) })
    }
}

} // verus!
