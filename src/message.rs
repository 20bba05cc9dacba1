use vstd::prelude::*;
use crate::address::{Address, address_bytes};
use crate::error::ProtoError;

verus! {

/// The status carried by a message.
#[derive(Clone, Copy, Debug, PartialEq, Eq, Structural)]
pub enum MessageStatus {
    Pending,
    Success,
    Created,
    Unauthorized,
    Forbidden,
    NotFound,
    BadData,
    ImATeapot,
    InternalServerError,
    ServiceUnavailable,
    Unknown,
}

/// The request or response kind carried by a message.
#[derive(Clone, Copy, Debug, PartialEq, Eq, Structural)]
pub enum MessageKind {
    Ping,
    Pong,
    AuthenticationRequest,
    AuthenticationResponse,
    StunRequest,
    StunResponse,
    DisconnectSessionRequest,
    DisconnectSessionResponse,
    StunInfoRequest,
    StunInfoResponse,
    GatewayRequest,
    GatewayResponse,
    GenericErrorResponse,
    PeerTunnelRequest,
    PeerTunnelResponse,
    NATPunchRequest,
    NATPunchResponse,
    PeerTunnelInitRequest,
    PeerTunnelInitResponse,
    SeedRequest,
    SeedResponse,
    ServerShutdown,
    PeerTunnelClose,
    Unknown,
}

/// The number that stands for a status on the wire.
pub open spec fn status_code(s: MessageStatus) -> u16 {
    match s {
        MessageStatus::Pending => 0,
        MessageStatus::Success => 200,
        MessageStatus::Created => 201,
        MessageStatus::Unauthorized => 401,
        MessageStatus::Forbidden => 403,
        MessageStatus::NotFound => 404,
        MessageStatus::BadData => 405,
        MessageStatus::ImATeapot => 419,
        MessageStatus::InternalServerError => 500,
        MessageStatus::ServiceUnavailable => 503,
        MessageStatus::Unknown => 0xffff,
    }
}

/// The status a wire number stands for; unassigned numbers read as `Unknown`.
pub open spec fn status_of_code(n: u16) -> MessageStatus {
    if n == 0 { MessageStatus::Pending }
    else if n == 200 { MessageStatus::Success }
    else if n == 201 { MessageStatus::Created }
    else if n == 401 { MessageStatus::Unauthorized }
    else if n == 403 { MessageStatus::Forbidden }
    else if n == 404 { MessageStatus::NotFound }
    else if n == 405 { MessageStatus::BadData }
    else if n == 419 { MessageStatus::ImATeapot }
    else if n == 500 { MessageStatus::InternalServerError }
    else if n == 503 { MessageStatus::ServiceUnavailable }
    else { MessageStatus::Unknown }
}

/// The number that stands for a kind on the wire.
pub open spec fn kind_code(k: MessageKind) -> u16 {
    match k {
        MessageKind::Ping => 0,
        MessageKind::Pong => 1,
        MessageKind::AuthenticationRequest => 2,
        MessageKind::AuthenticationResponse => 3,
        MessageKind::StunRequest => 4,
        MessageKind::StunResponse => 5,
        MessageKind::DisconnectSessionRequest => 6,
        MessageKind::DisconnectSessionResponse => 7,
        MessageKind::StunInfoRequest => 8,
        MessageKind::StunInfoResponse => 9,
        MessageKind::GatewayRequest => 10,
        MessageKind::GatewayResponse => 11,
        MessageKind::GenericErrorResponse => 12,
        MessageKind::PeerTunnelRequest => 13,
        MessageKind::PeerTunnelResponse => 14,
        MessageKind::NATPunchRequest => 15,
        MessageKind::NATPunchResponse => 16,
        MessageKind::PeerTunnelInitRequest => 17,
        MessageKind::PeerTunnelInitResponse => 18,
        MessageKind::SeedRequest => 19,
        MessageKind::SeedResponse => 20,
        MessageKind::ServerShutdown => 21,
        MessageKind::PeerTunnelClose => 22,
        MessageKind::Unknown => 0xffff,
    }
}

/// The kind a wire number stands for; unassigned numbers read as `Unknown`.
pub open spec fn kind_of_code(n: u16) -> MessageKind {
    if n == 0 { MessageKind::Ping }
    else if n == 1 { MessageKind::Pong }
    else if n == 2 { MessageKind::AuthenticationRequest }
    else if n == 3 { MessageKind::AuthenticationResponse }
    else if n == 4 { MessageKind::StunRequest }
    else if n == 5 { MessageKind::StunResponse }
    else if n == 6 { MessageKind::DisconnectSessionRequest }
    else if n == 7 { MessageKind::DisconnectSessionResponse }
    else if n == 8 { MessageKind::StunInfoRequest }
    else if n == 9 { MessageKind::StunInfoResponse }
    else if n == 10 { MessageKind::GatewayRequest }
    else if n == 11 { MessageKind::GatewayResponse }
    else if n == 12 { MessageKind::GenericErrorResponse }
    else if n == 13 { MessageKind::PeerTunnelRequest }
    else if n == 14 { MessageKind::PeerTunnelResponse }
    else if n == 15 { MessageKind::NATPunchRequest }
    else if n == 16 { MessageKind::NATPunchResponse }
    else if n == 17 { MessageKind::PeerTunnelInitRequest }
    else if n == 18 { MessageKind::PeerTunnelInitResponse }
    else if n == 19 { MessageKind::SeedRequest }
    else if n == 20 { MessageKind::SeedResponse }
    else if n == 21 { MessageKind::ServerShutdown }
    else if n == 22 { MessageKind::PeerTunnelClose }
    else { MessageKind::Unknown }
}

/// The kinds that carry no payload: a decoder drops whatever follows their header.
pub open spec fn carries_no_payload(k: MessageKind) -> bool {
    k == MessageKind::Ping || k == MessageKind::Pong || k == MessageKind::StunInfoRequest
        || k == MessageKind::AuthenticationResponse
}

impl MessageStatus {
    pub fn from_code(n: u16) -> (r: MessageStatus)
        ensures
            r == status_of_code(n),
    {
        if n == 0 { MessageStatus::Pending }
        else if n == 200 { MessageStatus::Success }
        else if n == 201 { MessageStatus::Created }
        else if n == 401 { MessageStatus::Unauthorized }
        else if n == 403 { MessageStatus::Forbidden }
        else if n == 404 { MessageStatus::NotFound }
        else if n == 405 { MessageStatus::BadData }
        else if n == 419 { MessageStatus::ImATeapot }
        else if n == 500 { MessageStatus::InternalServerError }
        else if n == 503 { MessageStatus::ServiceUnavailable }
        else { MessageStatus::Unknown }
    }

    pub fn code(&self) -> (r: u16)
        ensures
            r == status_code(*self),
    {
        match self {
            MessageStatus::Pending => 0,
            MessageStatus::Success => 200,
            MessageStatus::Created => 201,
            MessageStatus::Unauthorized => 401,
            MessageStatus::Forbidden => 403,
            MessageStatus::NotFound => 404,
            MessageStatus::BadData => 405,
            MessageStatus::ImATeapot => 419,
            MessageStatus::InternalServerError => 500,
            MessageStatus::ServiceUnavailable => 503,
            MessageStatus::Unknown => 0xffff,
        }
    }

    /// Whether the status reports success.
    pub fn is_success(&self) -> (r: bool)
        ensures
            r == (*self == MessageStatus::Success || *self == MessageStatus::Created),
    {
        match self {
            MessageStatus::Success | MessageStatus::Created => true,
            _ => false,
        }
    }
}

impl MessageKind {
    pub fn from_code(n: u16) -> (r: MessageKind)
        ensures
            r == kind_of_code(n),
    {
        if n == 0 { MessageKind::Ping }
        else if n == 1 { MessageKind::Pong }
        else if n == 2 { MessageKind::AuthenticationRequest }
        else if n == 3 { MessageKind::AuthenticationResponse }
        else if n == 4 { MessageKind::StunRequest }
        else if n == 5 { MessageKind::StunResponse }
        else if n == 6 { MessageKind::DisconnectSessionRequest }
        else if n == 7 { MessageKind::DisconnectSessionResponse }
        else if n == 8 { MessageKind::StunInfoRequest }
        else if n == 9 { MessageKind::StunInfoResponse }
        else if n == 10 { MessageKind::GatewayRequest }
        else if n == 11 { MessageKind::GatewayResponse }
        else if n == 12 { MessageKind::GenericErrorResponse }
        else if n == 13 { MessageKind::PeerTunnelRequest }
        else if n == 14 { MessageKind::PeerTunnelResponse }
        else if n == 15 { MessageKind::NATPunchRequest }
        else if n == 16 { MessageKind::NATPunchResponse }
        else if n == 17 { MessageKind::PeerTunnelInitRequest }
        else if n == 18 { MessageKind::PeerTunnelInitResponse }
        else if n == 19 { MessageKind::SeedRequest }
        else if n == 20 { MessageKind::SeedResponse }
        else if n == 21 { MessageKind::ServerShutdown }
        else if n == 22 { MessageKind::PeerTunnelClose }
        else { MessageKind::Unknown }
    }

    pub fn code(&self) -> (r: u16)
        ensures
            r == kind_code(*self),
    {
        match self {
            MessageKind::Ping => 0,
            MessageKind::Pong => 1,
            MessageKind::AuthenticationRequest => 2,
            MessageKind::AuthenticationResponse => 3,
            MessageKind::StunRequest => 4,
            MessageKind::StunResponse => 5,
            MessageKind::DisconnectSessionRequest => 6,
            MessageKind::DisconnectSessionResponse => 7,
            MessageKind::StunInfoRequest => 8,
            MessageKind::StunInfoResponse => 9,
            MessageKind::GatewayRequest => 10,
            MessageKind::GatewayResponse => 11,
            MessageKind::GenericErrorResponse => 12,
            MessageKind::PeerTunnelRequest => 13,
            MessageKind::PeerTunnelResponse => 14,
            MessageKind::NATPunchRequest => 15,
            MessageKind::NATPunchResponse => 16,
            MessageKind::PeerTunnelInitRequest => 17,
            MessageKind::PeerTunnelInitResponse => 18,
            MessageKind::SeedRequest => 19,
            MessageKind::SeedResponse => 20,
            MessageKind::ServerShutdown => 21,
            MessageKind::PeerTunnelClose => 22,
            MessageKind::Unknown => 0xffff,
        }
    }

    pub fn carries_no_payload(&self) -> (r: bool)
        ensures
            r == carries_no_payload(*self),
    {
        match self {
            MessageKind::Ping | MessageKind::Pong | MessageKind::StunInfoRequest
            | MessageKind::AuthenticationResponse => true,
            _ => false,
        }
    }
}

/// Reading a status's wire number gives the status back.
pub proof fn lemma_status_code_round_trip(s: MessageStatus)
    ensures
        status_of_code(status_code(s)) == s,
{
}

/// Reading a kind's wire number gives the kind back.
pub proof fn lemma_kind_code_round_trip(k: MessageKind)
    ensures
        kind_of_code(kind_code(k)) == k,
{
}

/// `256` to the power `k`.
pub open spec fn pow256(k: nat) -> nat
    decreases k,
{
    if k == 0 { 1 } else { 256 * pow256((k - 1) as nat) }
}

/// The `k` low bytes of `n`, most significant first.
pub open spec fn be_bytes(n: nat, k: nat) -> Seq<u8>
    decreases k,
{
    if k == 0 {
        Seq::empty()
    } else {
        be_bytes(n / 256, (k - 1) as nat).push((n % 256) as u8)
    }
}

/// The number that bytes stand for, most significant first.
pub open spec fn be_value(s: Seq<u8>) -> nat
    decreases s.len(),
{
    if s.len() == 0 {
        0
    } else {
        be_value(s.drop_last()) * 256 + s.last() as nat
    }
}

proof fn lemma_be_round_trip(n: nat, k: nat)
    requires
        n < pow256(k),
    ensures
        be_value(be_bytes(n, k)) == n,
        be_bytes(n, k).len() == k,
    decreases k,
{
    if k > 0 {
        let p = pow256((k - 1) as nat);
        assert(n / 256 < p) by (nonlinear_arith)
            requires
                n < 256 * p,
        ;
        lemma_be_round_trip(n / 256, (k - 1) as nat);
        let s = be_bytes(n, k);
        assert(s.drop_last() =~= be_bytes(n / 256, (k - 1) as nat));
    } else {
        assert(n == 0);
    }
}

proof fn lemma_be_value_bound(s: Seq<u8>)
    ensures
        be_value(s) < pow256(s.len()),
    decreases s.len(),
{
    if s.len() > 0 {
        lemma_be_value_bound(s.drop_last());
        let x = be_value(s.drop_last());
        let p = pow256((s.len() - 1) as nat);
        let b = s.last() as nat;
        assert(x * 256 + b < 256 * p) by (nonlinear_arith)
            requires
                x < p,
                b < 256,
        ;
    }
}

/// What a message holds, as plain mathematical values.
pub struct MessageView {
    pub kind: MessageKind,
    pub status: MessageStatus,
    pub sender: Seq<u8>,
    pub data: Option<Seq<u8>>,
}

/// The length of the fixed header: kind, status, sender and payload length.
pub const HEADER_LEN: usize = 18;

/// The size of the buffer a request is read into.
pub const READ_BUFFER_LEN: usize = 1024;

/// The bytes of a message on the wire.
pub open spec fn encode(m: MessageView) -> Seq<u8> {
    let payload = match m.data {
        Some(d) => d,
        None => Seq::empty(),
    };
    be_bytes(kind_code(m.kind) as nat, 2) + be_bytes(status_code(m.status) as nat, 2) + m.sender
        + be_bytes(payload.len(), 8) + payload
}

/// The message a buffer holds, or `None` where the buffer is too short for
/// the header or, for a kind that carries a payload, for the payload length
/// the header announces. For the kinds without a payload, whatever follows
/// the header is ignored, the length field included.
pub open spec fn decode(b: Seq<u8>) -> Option<MessageView> {
    if b.len() < 18 {
        None
    } else {
        let kind = kind_of_code(be_value(b.subrange(0, 2)) as u16);
        let status = status_of_code(be_value(b.subrange(2, 4)) as u16);
        let n = be_value(b.subrange(10, 18));
        if carries_no_payload(kind) {
            Some(MessageView { kind, status, sender: b.subrange(4, 10), data: None })
        } else if 18 + n > b.len() {
            None
        } else {
            Some(MessageView { kind, status, sender: b.subrange(4, 10), data: Some(b.subrange(18, 18 + n as int)) })
        }
    }
}

/// A message follows the payload convention of its kind: kinds without a
/// payload hold none, the others hold one (possibly empty).
pub open spec fn follows_payload_convention(m: MessageView) -> bool {
    carries_no_payload(m.kind) <==> m.data is None
}

/// Decoding the encoding of a message gives the message back, for every
/// message with a six-byte sender that follows its kind's payload
/// convention and whose payload fits the read buffer.
pub proof fn lemma_codec_round_trip(m: MessageView)
    requires
        m.sender.len() == 6,
        follows_payload_convention(m),
        m.data matches Some(d) ==> d.len() <= 1006,
    ensures
        decode(encode(m)) == Some(m),
{
    let payload = match m.data {
        Some(d) => d,
        None => Seq::empty(),
    };
    let kb = be_bytes(kind_code(m.kind) as nat, 2);
    let sb = be_bytes(status_code(m.status) as nat, 2);
    let lb = be_bytes(payload.len(), 8);
    lemma_pow256_values();
    lemma_be_round_trip(kind_code(m.kind) as nat, 2);
    lemma_be_round_trip(status_code(m.status) as nat, 2);
    lemma_be_round_trip(payload.len(), 8);
    let e = encode(m);
    assert(e.subrange(0, 2) =~= kb);
    assert(e.subrange(2, 4) =~= sb);
    assert(e.subrange(4, 10) =~= m.sender);
    assert(e.subrange(10, 18) =~= lb);
    assert(e.subrange(18, 18 + payload.len() as int) =~= payload);
    lemma_kind_code_round_trip(m.kind);
    lemma_status_code_round_trip(m.status);
}

/// The view of an optional payload.
pub open spec fn payload_view(d: Option<Vec<u8>>) -> Option<Seq<u8>> {
    match d {
        Some(v) => Some(v@),
        None => None,
    }
}

/// A control message: kind, status, sender endpoint and optional payload.
#[derive(Debug)]
pub struct Message {
    kind: MessageKind,
    status: MessageStatus,
    sender_addr: [u8; 6],
    data: Option<Vec<u8>>,
}

impl View for Message {
    type V = MessageView;

    closed spec fn view(&self) -> MessageView {
        MessageView {
            kind: self.kind,
            status: self.status,
            sender: self.sender_addr@,
            data: payload_view(self.data),
        }
    }
}

/// Appends the `k` low bytes of `n` to `v`, most significant first.
fn push_be(v: &mut Vec<u8>, n: u64, k: usize)
    ensures
        final(v)@ == old(v)@ + be_bytes(n as nat, k as nat),
    decreases k,
{
    if k > 0 {
        push_be(v, n / 256, k - 1);
        v.push((n % 256) as u8);
        assert(be_bytes(n as nat, k as nat) == be_bytes((n / 256) as nat, (k - 1) as nat).push(
            (n % 256) as u8,
        ));
        assert(final(v)@ =~= old(v)@ + be_bytes(n as nat, k as nat));
    } else {
        assert(final(v)@ =~= old(v)@ + be_bytes(n as nat, k as nat));
    }
}

/// The number held by `b[lo..hi]`, most significant first.
fn read_be(b: &[u8], lo: usize, hi: usize) -> (r: u64)
    requires
        lo <= hi <= b@.len(),
        hi - lo <= 8,
    ensures
        r as nat == be_value(b@.subrange(lo as int, hi as int)),
{
    let mut acc: u64 = 0;
    let mut i: usize = lo;
    assert(b@.subrange(lo as int, lo as int) =~= Seq::<u8>::empty());
    while i < hi
        invariant
            lo <= i <= hi <= b@.len(),
            hi - lo <= 8,
            acc as nat == be_value(b@.subrange(lo as int, i as int)),
        decreases hi - i,
    {
        let ghost prev = b@.subrange(lo as int, i as int);
        proof {
            lemma_be_value_bound(prev);
            lemma_pow256_values();
            lemma_pow256_mono(prev.len(), 7);
        }
        acc = acc * 256 + b[i] as u64;
        assert(b@.subrange(lo as int, i + 1).drop_last() =~= prev);
        i = i + 1;
    }
    acc
}

proof fn lemma_pow256_values()
    ensures
        pow256(2) == 65536,
        pow256(7) == 0x100_0000_0000_0000,
        pow256(8) == 0x1_0000_0000_0000_0000,
{
    reveal_with_fuel(pow256, 9);
}

proof fn lemma_pow256_mono(a: nat, b: nat)
    requires
        a <= b,
    ensures
        pow256(a) <= pow256(b),
    decreases b,
{
    if a < b {
        lemma_pow256_mono(a, (b - 1) as nat);
    }
}

impl Message {
    /// A message from its parts; `addr` is the sender endpoint.
    pub fn new(kind: MessageKind, status: MessageStatus, addr: &Address, data: Option<Vec<u8>>) -> (r: Message)
        ensures
            r@ == (MessageView {
                kind,
                status,
                sender: address_bytes(*addr),
                data: payload_view(data),
            }),
    {
        Message { kind, status, sender_addr: addr.to_bytes(), data }
    }

    /// The six-byte sender field for `ip:port` text; `None` where the text
    /// is not of that form.
    pub fn pack_addr(hostname: &str) -> (r: Option<[u8; 6]>)
        ensures
            match crate::parse::address_of_text(hostname@) {
                Some(a) => r matches Some(b) && b@ == address_bytes(a),
                None => r is None,
            },
    {
        match Address::parse(hostname) {
            Some(a) => Some(a.to_bytes()),
            None => None,
        }
    }

    /// Takes the payload out, leaving none behind.
    pub fn into_inner(&mut self) -> (r: Option<Vec<u8>>)
        ensures
            payload_view(r) == old(self)@.data,
            final(self)@ == (MessageView { data: None, ..old(self)@ }),
    {
        self.data.take()
    }

    pub fn kind(&self) -> (r: &MessageKind)
        ensures
            *r == self@.kind,
    {
        &self.kind
    }

    pub fn status(&self) -> (r: &MessageStatus)
        ensures
            *r == self@.status,
    {
        &self.status
    }

    pub fn sender_addr(&self) -> (r: [u8; 6])
        ensures
            r@ == self@.sender,
    {
        self.sender_addr
    }

    /// The payload, or an empty one where there is none.
    pub fn data(&self) -> (r: Vec<u8>)
        ensures
            r@ == match self@.data {
                Some(d) => d,
                None => Seq::empty(),
            },
    {
        match &self.data {
            Some(d) => d.clone(),
            None => Vec::new(),
        }
    }

    /// The payload as it stands, present or not.
    pub fn payload(&self) -> (r: &Option<Vec<u8>>)
        ensures
            payload_view(*r) == self@.data,
    {
        &self.data
    }

    /// The wire bytes of the message. Encoding cannot fail.
    pub fn serialize(self) -> (r: Result<Vec<u8>, ProtoError>)
        ensures
            r matches Ok(b) && b@ == encode(self@),
    {
        let ghost m = self@;
        let mut result: Vec<u8> = Vec::new();
        push_be(&mut result, self.kind.code() as u64, 2);
        push_be(&mut result, self.status.code() as u64, 2);
        let mut i: usize = 0;
        while i < 6
            invariant
                0 <= i <= 6,
                result@ == be_bytes(kind_code(m.kind) as nat, 2) + be_bytes(
                    status_code(m.status) as nat,
                    2,
                ) + self.sender_addr@.subrange(0, i as int),
            decreases 6 - i,
        {
            result.push(self.sender_addr[i]);
            assert(self.sender_addr@.subrange(0, i + 1) =~= self.sender_addr@.subrange(0, i as int).push(self.sender_addr@[i as int]));
            i = i + 1;
        }
        assert(self.sender_addr@.subrange(0, 6) =~= self.sender_addr@);
        let data = match self.data {
            Some(d) => d,
            None => Vec::new(),
        };
        push_be(&mut result, data.len() as u64, 8);
        let ghost before = result@;
        let mut j: usize = 0;
        while j < data.len()
            invariant
                0 <= j <= data@.len(),
                result@ == before + data@.subrange(0, j as int),
            decreases data@.len() - j,
        {
            result.push(data[j]);
            assert(data@.subrange(0, j + 1) =~= data@.subrange(0, j as int).push(data@[j as int]));
            j = j + 1;
        }
        assert(data@.subrange(0, data@.len() as int) =~= data@);
        assert(result@ =~= encode(m));
        Ok(result)
    }

    /// Reads a message from the front of a buffer. The buffer may be longer
    /// than the message; what follows it is ignored.
    pub fn deserialize(b: &[u8]) -> (r: Result<Message, ProtoError>)
        ensures
            match decode(b@) {
                Some(v) => r matches Ok(m) && m@ == v,
                None => r == Err::<Message, ProtoError>(ProtoError::MalformedMessage),
            },
    {
        if b.len() < HEADER_LEN {
            return Err(ProtoError::MalformedMessage);
        }
        let kind_code = read_be(b, 0, 2);
        let status_code = read_be(b, 2, 4);
        proof {
            lemma_pow256_values();
            lemma_be_value_bound(b@.subrange(0, 2));
            lemma_be_value_bound(b@.subrange(2, 4));
        }
        let kind = MessageKind::from_code(kind_code as u16);
        let status = MessageStatus::from_code(status_code as u16);
        let sender_addr = [b[4], b[5], b[6], b[7], b[8], b[9]];
        assert(sender_addr@ =~= b@.subrange(4, 10));
        if kind.carries_no_payload() {
            let m = Message { kind, status, sender_addr, data: None };
            assert(m@ == decode(b@).unwrap());
            return Ok(m);
        }
        let n = read_be(b, 10, 18);
        if n > (b.len() - HEADER_LEN) as u64 {
            return Err(ProtoError::MalformedMessage);
        }
        let n = n as usize;
        let blen = b.len();
        assert(18 + n <= blen);
        let mut v: Vec<u8> = Vec::new();
        let mut j: usize = 0;
        while j < n
            invariant
                0 <= j <= n,
                18 + n <= blen,
                blen == b@.len(),
                v@ == b@.subrange(18, 18 + j),
            decreases n - j,
        {
            v.push(b[18 + j]);
            assert(b@.subrange(18, 18 + j + 1) =~= b@.subrange(18, 18 + j).push(b@[18 + j]));
            j = j + 1;
        }
        let data = Some(v);
        let m = Message { kind, status, sender_addr, data };
        assert(m@ == decode(b@).unwrap());
        Ok(m)
    }
}

} // verus!
