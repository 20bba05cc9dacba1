use vstd::prelude::*;
use crate::address::{Address, ip_text};
use crate::error::ProtoError;
use crate::wireguard::{WireGuardProtoConfig, WireGuardProtoInterface, WireGuardProtoKey, WireGuardProtoKeyKind, WireGuardProtoPeer};

verus! {

/// The value of one field of a WireGuard configuration section: a string
/// (with its reading as an IPv4 address, where it is one), an integer, or
/// anything else.
pub enum FieldValue {
    Text(String, Option<[u8; 4]>),
    Integer(i64),
    Other,
}

pub enum FieldView {
    Text(Seq<char>, Option<[u8; 4]>),
    Integer(i64),
    Other,
}

impl View for FieldValue {
    type V = FieldView;

    open spec fn view(&self) -> FieldView {
        match self {
            FieldValue::Text(s, ip) => FieldView::Text(s@, *ip),
            FieldValue::Integer(n) => FieldView::Integer(*n),
            FieldValue::Other => FieldView::Other,
        }
    }
}

impl Clone for FieldValue {
    fn clone(&self) -> (r: FieldValue)
        ensures
            r@ == self@,
    {
        match self {
            FieldValue::Text(s, ip) => FieldValue::Text(s.clone(), *ip),
            FieldValue::Integer(n) => FieldValue::Integer(*n),
            FieldValue::Other => FieldValue::Other,
        }
    }
}

/// The fields of a section, by name, in file order.
pub type Fields = Seq<(Seq<char>, FieldView)>;

pub open spec fn fields_view(v: Seq<(String, FieldValue)>) -> Fields {
    v.map_values(|e: (String, FieldValue)| (e.0@, e.1@))
}

/// The value of field `name`; where a name repeats, the last one counts.
pub open spec fn lookup(f: Fields, name: Seq<char>) -> Option<FieldView>
    decreases f.len(),
{
    if f.len() == 0 {
        None
    } else if f.last().0 == name {
        Some(f.last().1)
    } else {
        lookup(f.drop_last(), name)
    }
}

/// Field `name` is absent or a string.
pub open spec fn text_or_absent(f: Fields, name: Seq<char>) -> bool {
    match lookup(f, name) {
        None => true,
        Some(FieldView::Text(_, _)) => true,
        Some(_) => false,
    }
}

/// Field `name` is absent or an integer in the range of `u16`.
pub open spec fn u16_or_absent(f: Fields, name: Seq<char>) -> bool {
    match lookup(f, name) {
        None => true,
        Some(FieldView::Integer(n)) => 0 <= n <= 65535,
        Some(_) => false,
    }
}

/// Field `name` is absent or a string that reads as an IPv4 address.
pub open spec fn ipv4_or_absent(f: Fields, name: Seq<char>) -> bool {
    match lookup(f, name) {
        None => true,
        Some(FieldView::Text(_, Some(_))) => true,
        Some(_) => false,
    }
}

pub open spec fn text_of(v: Option<FieldView>) -> Seq<char> {
    match v {
        Some(FieldView::Text(s, _)) => s,
        _ => Seq::empty(),
    }
}

pub open spec fn u16_of(v: Option<FieldView>) -> Option<u16> {
    match v {
        Some(FieldView::Integer(n)) => Some(n as u16),
        _ => None,
    }
}

pub open spec fn ipv4_of(v: Option<FieldView>) -> Option<[u8; 4]> {
    match v {
        Some(FieldView::Text(_, ip)) => ip,
        _ => None,
    }
}

/// Some known field of an `[Interface]` section holds a value of the wrong
/// type.
pub open spec fn interface_malformed(f: Fields) -> bool {
    !(text_or_absent(f, "PrivateKey"@) && text_or_absent(f, "Address"@) && u16_or_absent(f, "ListenPort"@)
        && ipv4_or_absent(f, "Dns"@))
}

/// A field that an `[Interface]` section needs is absent.
pub open spec fn interface_incomplete(f: Fields) -> bool {
    lookup(f, "PrivateKey"@) is None || lookup(f, "Address"@) is None || lookup(f, "ListenPort"@) is None
}

/// Some known field of a `[[Peer]]` section holds a value of the wrong type.
pub open spec fn peer_malformed(f: Fields) -> bool {
    !(text_or_absent(f, "PublicKey"@) && text_or_absent(f, "AllowedIPs"@) && text_or_absent(f, "Endpoint"@)
        && u16_or_absent(f, "PersistentKeepalive"@))
}

/// A field that a `[[Peer]]` section needs is absent.
pub open spec fn peer_incomplete(f: Fields) -> bool {
    lookup(f, "PublicKey"@) is None || lookup(f, "AllowedIPs"@) is None
}

/// `i` is the interface that the fields `f` describe.
pub open spec fn interface_matches(i: WireGuardProtoInterface, f: Fields) -> bool {
    &&& i.private_key.text() == text_of(lookup(f, "PrivateKey"@))
    &&& i.private_key.kind_of() == WireGuardProtoKeyKind::Private
    &&& i.address@ == text_of(lookup(f, "Address"@))
    &&& Some(i.port) == u16_of(lookup(f, "ListenPort"@))
    &&& i.dns == ipv4_of(lookup(f, "Dns"@))
}

/// `p` is the peer that the fields `f` describe.
pub open spec fn peer_matches(p: WireGuardProtoPeer, f: Fields) -> bool {
    &&& p.public_key.text() == text_of(lookup(f, "PublicKey"@))
    &&& p.public_key.kind_of() == WireGuardProtoKeyKind::Public
    &&& p.allowed_ips@ == text_of(lookup(f, "AllowedIPs"@))
    &&& (p.endpoint is None <==> lookup(f, "Endpoint"@) is None)
    &&& (p.endpoint matches Some(e) ==> e@ == text_of(lookup(f, "Endpoint"@)))
    &&& p.persistent_keepalive == u16_of(lookup(f, "PersistentKeepalive"@))
}

/// The position of the field that `lookup` reads.
fn find_field(fields: &Vec<(String, FieldValue)>, name: &String) -> (r: Option<usize>)
    ensures
        match r {
            None => lookup(fields_view(fields@), name@) is None,
            Some(i) => i < fields@.len() && lookup(fields_view(fields@), name@) == Some(fields@[i as int].1@),
        },
{
    let ghost f = fields_view(fields@);
    let mut i: usize = fields.len();
    assert(f.subrange(0, i as int) =~= f);
    while i > 0
        invariant
            0 <= i <= fields@.len(),
            f == fields_view(fields@),
            lookup(f, name@) == lookup(f.subrange(0, i as int), name@),
        decreases i,
    {
        let ghost sub = f.subrange(0, i as int);
        assert(sub.last() == (fields@[i - 1].0@, fields@[i - 1].1@));
        assert(sub.drop_last() =~= f.subrange(0, i - 1));
        if fields[i - 1].0 == *name {
            return Some(i - 1);
        }
        i = i - 1;
    }
    assert(f.subrange(0, 0) =~= Seq::<(Seq<char>, FieldView)>::empty());
    None
}

fn field(fields: &Vec<(String, FieldValue)>, name: &str) -> (r: Option<FieldValue>)
    ensures
        match r {
            None => lookup(fields_view(fields@), name@) is None,
            Some(v) => lookup(fields_view(fields@), name@) == Some(v@),
        },
{
    let key = name.to_string();
    match find_field(fields, &key) {
        Some(i) => Some(fields[i].1.clone()),
        None => None,
    }
}

/// Checks an optional string field.
fn opt_text(v: Option<FieldValue>) -> (r: Result<Option<String>, ProtoError>)
    ensures
        match v {
            None => r == Ok::<Option<String>, ProtoError>(None),
            Some(FieldValue::Text(s, _)) => r matches Ok(Some(t)) && t@ == s@,
            Some(_) => r == Err::<Option<String>, ProtoError>(ProtoError::MalformedConfig),
        },
{
    match v {
        None => Ok(None),
        Some(FieldValue::Text(s, _)) => Ok(Some(s)),
        Some(_) => Err(ProtoError::MalformedConfig),
    }
}

/// Checks an optional `u16` field.
fn opt_u16(v: Option<FieldValue>) -> (r: Result<Option<u16>, ProtoError>)
    ensures
        match v {
            None => r == Ok::<Option<u16>, ProtoError>(None),
            Some(FieldValue::Integer(n)) => if 0 <= n <= 65535 {
                r == Ok::<Option<u16>, ProtoError>(Some(n as u16))
            } else {
                r == Err::<Option<u16>, ProtoError>(ProtoError::MalformedConfig)
            },
            Some(_) => r == Err::<Option<u16>, ProtoError>(ProtoError::MalformedConfig),
        },
{
    match v {
        None => Ok(None),
        Some(FieldValue::Integer(n)) => {
            if 0 <= n && n <= 65535 {
                Ok(Some(n as u16))
            } else {
                Err(ProtoError::MalformedConfig)
            }
        },
        Some(_) => Err(ProtoError::MalformedConfig),
    }
}

/// Reads an `[Interface]` section: `PrivateKey`, `Address` and `ListenPort`
/// are needed, `Dns` may be given, other fields are ignored. A known field
/// of the wrong type is `MalformedConfig`; a needed field that is absent is
/// `MissingWireGuardField`.
pub fn interface_from_fields(fields: &Vec<(String, FieldValue)>) -> (r: Result<WireGuardProtoInterface, ProtoError>)
    ensures
        ({
            let f = fields_view(fields@);
            if interface_malformed(f) {
                r == Err::<WireGuardProtoInterface, ProtoError>(ProtoError::MalformedConfig)
            } else if interface_incomplete(f) {
                r == Err::<WireGuardProtoInterface, ProtoError>(ProtoError::MissingWireGuardField)
            } else {
                r matches Ok(i) && interface_matches(i, f)
            }
        }),
{
    let key = opt_text(field(fields, "PrivateKey"));
    let address = opt_text(field(fields, "Address"));
    let port = opt_u16(field(fields, "ListenPort"));
    let dns = match field(fields, "Dns") {
        None => Ok(None),
        Some(FieldValue::Text(_, Some(ip))) => Ok(Some(ip)),
        Some(_) => Err(ProtoError::MalformedConfig),
    };
    match (key, address, port, dns) {
        (Ok(key), Ok(address), Ok(port), Ok(dns)) => match (key, address, port) {
            (Some(key), Some(address), Some(port)) => Ok(WireGuardProtoInterface {
                private_key: WireGuardProtoKey::from_private(key),
                address,
                port,
                dns,
            }),
            _ => Err(ProtoError::MissingWireGuardField),
        },
        _ => Err(ProtoError::MalformedConfig),
    }
}

/// Reads a `[[Peer]]` section: `PublicKey` and `AllowedIPs` are needed,
/// `Endpoint` and `PersistentKeepalive` may be given, other fields are
/// ignored.
pub fn peer_from_fields(fields: &Vec<(String, FieldValue)>) -> (r: Result<WireGuardProtoPeer, ProtoError>)
    ensures
        ({
            let f = fields_view(fields@);
            if peer_malformed(f) {
                r == Err::<WireGuardProtoPeer, ProtoError>(ProtoError::MalformedConfig)
            } else if peer_incomplete(f) {
                r == Err::<WireGuardProtoPeer, ProtoError>(ProtoError::MissingWireGuardField)
            } else {
                r matches Ok(p) && peer_matches(p, f)
            }
        }),
{
    let key = opt_text(field(fields, "PublicKey"));
    let allowed = opt_text(field(fields, "AllowedIPs"));
    let endpoint = opt_text(field(fields, "Endpoint"));
    let keepalive = opt_u16(field(fields, "PersistentKeepalive"));
    match (key, allowed, endpoint, keepalive) {
        (Ok(key), Ok(allowed), Ok(endpoint), Ok(keepalive)) => match (key, allowed) {
            (Some(key), Some(allowed)) => Ok(WireGuardProtoPeer {
                public_key: WireGuardProtoKey::from_public(key),
                allowed_ips: allowed,
                endpoint,
                persistent_keepalive: keepalive,
            }),
            _ => Err(ProtoError::MissingWireGuardField),
        },
        _ => Err(ProtoError::MalformedConfig),
    }
}

/// Reads a configuration from its `[Interface]` section and its `[[Peer]]`
/// sections. The interface section is needed; the first section that
/// cannot be read, interface first, gives the error.
pub fn config_from_sections(
    interface: &Option<Vec<(String, FieldValue)>>,
    peers: &Option<Vec<Vec<(String, FieldValue)>>>,
) -> (r: Result<WireGuardProtoConfig, ProtoError>)
    ensures
        interface is None ==> r == Err::<WireGuardProtoConfig, ProtoError>(ProtoError::MissingWireGuardField),
        interface matches Some(i) && (interface_malformed(fields_view(i@)) || interface_incomplete(fields_view(i@)))
            ==> r is Err,
        r matches Ok(c) ==> interface matches Some(i) && interface_matches(c.interface, fields_view(i@)),
        r matches Ok(c) ==> match peers {
            Some(ps) => c.peers matches Some(v) && v@.len() == ps@.len() && forall|j: int| 0 <= j < v@.len()
                ==> peer_matches(#[trigger] v@[j], fields_view(ps@[j]@)),
            None => c.peers is None,
        },
        r matches Err(e) ==> e == ProtoError::MalformedConfig || e == ProtoError::MissingWireGuardField,
        ({
            let ok_peers = peers matches Some(ps) ==> forall|j: int| 0 <= j < ps@.len() ==> !peer_malformed(
                #[trigger] fields_view(ps@[j]@),
            ) && !peer_incomplete(fields_view(ps@[j]@));
            interface matches Some(i) && !interface_malformed(fields_view(i@)) && !interface_incomplete(
                fields_view(i@),
            ) && ok_peers ==> r is Ok
        }),
{
    let iface = match interface {
        None => {
            return Err(ProtoError::MissingWireGuardField);
        },
        Some(i) => interface_from_fields(i)?,
    };
    let peers = match peers {
        None => None,
        Some(ps) => {
            let mut out: Vec<WireGuardProtoPeer> = Vec::new();
            let mut j: usize = 0;
            while j < ps.len()
                invariant
                    0 <= j <= ps@.len(),
                    out@.len() == j,
                    forall|k: int| 0 <= k < j ==> peer_matches(#[trigger] out@[k], fields_view(ps@[k]@)),
                    peers matches Some(q) && q == *ps,
                    interface matches Some(i) && !interface_malformed(fields_view(i@)) && !interface_incomplete(
                        fields_view(i@),
                    ),
                    forall|k: int| 0 <= k < j ==> !peer_malformed(#[trigger] fields_view(ps@[k]@)) && !peer_incomplete(
                        fields_view(ps@[k]@),
                    ),
                decreases ps@.len() - j,
            {
                let p = peer_from_fields(&ps[j]);
                match p {
                    Ok(p) => {
                        out.push(p);
                    },
                    Err(e) => {
                        assert(peer_malformed(fields_view(ps@[j as int]@)) || peer_incomplete(fields_view(ps@[j as int]@)));
                        assert(!(forall|k: int| 0 <= k < ps@.len() ==> !peer_malformed(#[trigger] fields_view(ps@[k]@))
                            && !peer_incomplete(fields_view(ps@[k]@))));
                        return Err(e);
                    },
                }
                j = j + 1;
            }
            Some(out)
        },
    };
    Ok(WireGuardProtoConfig { interface: iface, peers })
}

/// The dotted-decimal text of an IPv4 address.
pub open spec fn ipv4_text(ip: [u8; 4]) -> Seq<char> {
    ip_text(Address { a: ip@[0], b: ip@[1], c: ip@[2], d: ip@[3], port: 0 })
}

/// The fields an `[Interface]` section is written with.
pub open spec fn interface_fields_of(i: WireGuardProtoInterface) -> Fields {
    let base = seq![
        ("PrivateKey"@, FieldView::Text(i.private_key.text(), None)),
        ("Address"@, FieldView::Text(i.address@, None)),
        ("ListenPort"@, FieldView::Integer(i.port as i64)),
    ];
    match i.dns {
        Some(ip) => base.push(("Dns"@, FieldView::Text(ipv4_text(ip), Some(ip)))),
        None => base,
    }
}

/// The fields a `[[Peer]]` section is written with.
pub open spec fn peer_fields_of(p: WireGuardProtoPeer) -> Fields {
    let base = seq![
        ("PublicKey"@, FieldView::Text(p.public_key.text(), None)),
        ("AllowedIPs"@, FieldView::Text(p.allowed_ips@, None)),
    ];
    let with_endpoint = match p.endpoint {
        Some(e) => base.push(("Endpoint"@, FieldView::Text(e@, None))),
        None => base,
    };
    match p.persistent_keepalive {
        Some(k) => with_endpoint.push(("PersistentKeepalive"@, FieldView::Integer(k as i64))),
        None => with_endpoint,
    }
}

/// The fields of an `[Interface]` section, in the order they are written;
/// `Dns` only where it is set.
pub fn interface_fields(i: &WireGuardProtoInterface) -> (r: Vec<(String, FieldValue)>)
    ensures
        fields_view(r@) == interface_fields_of(*i),
{
    let mut r: Vec<(String, FieldValue)> = Vec::new();
    r.push(("PrivateKey".to_string(), FieldValue::Text(i.private_key.to_string(), None)));
    r.push(("Address".to_string(), FieldValue::Text(i.address.clone(), None)));
    r.push(("ListenPort".to_string(), FieldValue::Integer(i.port as i64)));
    match i.dns {
        Some(ip) => {
            let text = Address::new(ip, 0).ip_string();
            r.push(("Dns".to_string(), FieldValue::Text(text, Some(ip))));
        },
        None => {},
    }
    assert(fields_view(r@) =~= interface_fields_of(*i));
    r
}

/// The fields of a `[[Peer]]` section, in the order they are written;
/// `Endpoint` and `PersistentKeepalive` only where they are set.
pub fn peer_fields(p: &WireGuardProtoPeer) -> (r: Vec<(String, FieldValue)>)
    ensures
        fields_view(r@) == peer_fields_of(*p),
{
    let mut r: Vec<(String, FieldValue)> = Vec::new();
    r.push(("PublicKey".to_string(), FieldValue::Text(p.public_key.to_string(), None)));
    r.push(("AllowedIPs".to_string(), FieldValue::Text(p.allowed_ips.clone(), None)));
    match &p.endpoint {
        Some(e) => {
            r.push(("Endpoint".to_string(), FieldValue::Text(e.clone(), None)));
        },
        None => {},
    }
    match p.persistent_keepalive {
        Some(k) => {
            r.push(("PersistentKeepalive".to_string(), FieldValue::Integer(k as i64)));
        },
        None => {},
    }
    assert(fields_view(r@) =~= peer_fields_of(*p));
    r
}

proof fn lemma_names_differ()
    ensures
        "PrivateKey"@ != "Address"@,
        "PrivateKey"@ != "ListenPort"@,
        "PrivateKey"@ != "Dns"@,
        "Address"@ != "ListenPort"@,
        "Address"@ != "Dns"@,
        "ListenPort"@ != "Dns"@,
        "PublicKey"@ != "AllowedIPs"@,
        "PublicKey"@ != "Endpoint"@,
        "PublicKey"@ != "PersistentKeepalive"@,
        "AllowedIPs"@ != "Endpoint"@,
        "AllowedIPs"@ != "PersistentKeepalive"@,
        "Endpoint"@ != "PersistentKeepalive"@,
{
    reveal_strlit("PrivateKey");
    reveal_strlit("Address");
    reveal_strlit("ListenPort");
    reveal_strlit("Dns");
    reveal_strlit("PublicKey");
    reveal_strlit("AllowedIPs");
    reveal_strlit("Endpoint");
    reveal_strlit("PersistentKeepalive");
    assert("PrivateKey"@.len() != "Address"@.len());
    assert("PrivateKey"@[0] != "ListenPort"@[0]);
    assert("PrivateKey"@.len() != "Dns"@.len());
    assert("Address"@.len() != "ListenPort"@.len());
    assert("Address"@.len() != "Dns"@.len());
    assert("ListenPort"@.len() != "Dns"@.len());
    assert("PublicKey"@.len() != "AllowedIPs"@.len());
    assert("PublicKey"@[0] != "Endpoint"@[0]);
    assert("PublicKey"@.len() != "PersistentKeepalive"@.len());
    assert("AllowedIPs"@.len() != "Endpoint"@.len());
    assert("AllowedIPs"@.len() != "PersistentKeepalive"@.len());
    assert("Endpoint"@.len() != "PersistentKeepalive"@.len());
}

/// Writing an interface as fields and reading them back gives the same
/// interface, for an interface whose key is private.
pub proof fn lemma_interface_fields_round_trip(i: WireGuardProtoInterface)
    requires
        i.private_key.kind_of() == WireGuardProtoKeyKind::Private,
    ensures
        !interface_malformed(interface_fields_of(i)),
        !interface_incomplete(interface_fields_of(i)),
        interface_matches(i, interface_fields_of(i)),
{
    lemma_names_differ();
    let f = interface_fields_of(i);
    reveal_with_fuel(lookup, 5);
    if i.dns is Some {
        assert(f.drop_last() =~= seq![
            ("PrivateKey"@, FieldView::Text(i.private_key.text(), None)),
            ("Address"@, FieldView::Text(i.address@, None)),
            ("ListenPort"@, FieldView::Integer(i.port as i64)),
        ]);
    }
}

/// Writing a peer as fields and reading them back gives the same peer, for
/// a peer whose key is public.
pub proof fn lemma_peer_fields_round_trip(p: WireGuardProtoPeer)
    requires
        p.public_key.kind_of() == WireGuardProtoKeyKind::Public,
    ensures
        !peer_malformed(peer_fields_of(p)),
        !peer_incomplete(peer_fields_of(p)),
        peer_matches(p, peer_fields_of(p)),
{
    lemma_names_differ();
    reveal_with_fuel(lookup, 5);
    let base = seq![
        ("PublicKey"@, FieldView::Text(p.public_key.text(), None)),
        ("AllowedIPs"@, FieldView::Text(p.allowed_ips@, None)),
    ];
    let with_endpoint = match p.endpoint {
        Some(e) => base.push(("Endpoint"@, FieldView::Text(e@, None))),
        None => base,
    };
    if p.endpoint is Some {
        assert(with_endpoint.drop_last() =~= base);
    }
    if p.persistent_keepalive is Some {
        assert(peer_fields_of(p).drop_last() =~= with_endpoint);
    }
}

} // verus!
