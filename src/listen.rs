use vstd::prelude::*;

verus! {

/// A local address to listen on.
#[derive(Clone, Copy, Debug, PartialEq, Eq, Structural)]
pub enum IpAddress {
    V4(u32),
    V6(u128),
}

/// The unspecified IPv4 address, `0.0.0.0`.
pub const UNSPECIFIED_V4: u32 = 0;

/// The unspecified IPv6 address, `::`.
pub const UNSPECIFIED_V6: u128 = 0;

/// Listen backlog of stream sockets.
pub const LISTEN_BACKLOG: u32 = 128;

/// Kinds of listener, in the order they are brought up.
#[derive(Clone, Copy, Debug, PartialEq, Eq, Structural)]
pub enum Transport {
    Udp,
    Tcp,
    Tls,
    Https,
    Quic,
}

/// One listener to bind and register.
#[derive(Clone, Copy, Debug, PartialEq, Eq, Structural)]
pub struct Listener {
    pub addr: IpAddress,
    pub port: u16,
    pub transport: Transport,
}

/// Whether a transport runs, and on which port.
#[derive(Clone, Copy, Debug, PartialEq, Eq, Structural)]
pub struct TransportSetting {
    pub enabled: bool,
    pub port: u16,
}

/// Settings of every transport, and whether certificate material is configured.
#[derive(Clone, Copy, Debug, PartialEq, Eq, Structural)]
pub struct ListenSettings {
    pub udp: TransportSetting,
    pub tcp: TransportSetting,
    pub tls: TransportSetting,
    pub https: TransportSetting,
    pub quic: TransportSetting,
    pub tls_material: bool,
}

/// The listeners to realize, in order, and the encrypted transports that are
/// skipped with a warning because no address is configured.
#[derive(Clone, Debug)]
pub struct ListenPlan {
    pub listeners: Vec<Listener>,
    pub skipped: Vec<Transport>,
}

/// The port of a transport: an explicit override, else the configured one.
pub fn effective_port(override_port: Option<u16>, configured: u16) -> (r: u16)
    ensures
        r == match override_port {
            Some(p) => p,
            None => configured,
        },
{
    match override_port {
        Some(p) => p,
        None => configured,
    }
}

/// A transport runs unless an explicit flag or the configuration disables it.
pub fn transport_enabled(disable_flag: bool, config_disable: bool) -> (r: bool)
    ensures
        r == (!disable_flag && !config_disable),
{
    !disable_flag && !config_disable
}

impl TransportSetting {
    /// Resolves a transport's setting from its flags and ports.
    pub fn resolve(
        disable_flag: bool,
        config_disable: bool,
        override_port: Option<u16>,
        configured: u16,
    ) -> (r: TransportSetting)
        ensures
            r.enabled == (!disable_flag && !config_disable),
            r.port == match override_port {
                Some(p) => p,
                None => configured,
            },
    {
        TransportSetting {
            enabled: transport_enabled(disable_flag, config_disable),
            port: effective_port(override_port, configured),
        }
    }
}

/// Configured addresses, IPv4 first; the unspecified IPv4 and IPv6 addresses
/// where none are configured.
pub open spec fn addresses(v4: Seq<u32>, v6: Seq<u128>) -> Seq<IpAddress> {
    let given = v4.map_values(|a: u32| IpAddress::V4(a)) + v6.map_values(|a: u128| IpAddress::V6(a));
    if given.len() == 0 {
        seq![IpAddress::V4(UNSPECIFIED_V4), IpAddress::V6(UNSPECIFIED_V6)]
    } else {
        given
    }
}

/// Builds the list of addresses to listen on.
pub fn listen_addrs(v4: &Vec<u32>, v6: &Vec<u128>) -> (r: Vec<IpAddress>)
    ensures
        r@ == addresses(v4@, v6@),
{
    let mut out: Vec<IpAddress> = Vec::new();
    let mut i: usize = 0;
    while i < v4.len()
        invariant
            0 <= i <= v4@.len(),
            out@ == v4@.subrange(0, i as int).map_values(|a: u32| IpAddress::V4(a)),
        decreases v4@.len() - i,
    {
        out.push(IpAddress::V4(v4[i]));
        i = i + 1;
        proof {
            assert(out@ =~= v4@.subrange(0, i as int).map_values(|a: u32| IpAddress::V4(a)));
        }
    }
    let ghost first = out@;
    let mut j: usize = 0;
    while j < v6.len()
        invariant
            0 <= j <= v6@.len(),
            first == v4@.map_values(|a: u32| IpAddress::V4(a)),
            out@ == first + v6@.subrange(0, j as int).map_values(|a: u128| IpAddress::V6(a)),
        decreases v6@.len() - j,
    {
        out.push(IpAddress::V6(v6[j]));
        j = j + 1;
        proof {
            assert(out@ =~= first + v6@.subrange(0, j as int).map_values(
                |a: u128| IpAddress::V6(a),
            ));
        }
    }
    proof {
        assert(v4@.subrange(0, v4@.len() as int) =~= v4@);
        assert(v6@.subrange(0, v6@.len() as int) =~= v6@);
    }
    if out.len() == 0 {
        out.push(IpAddress::V4(UNSPECIFIED_V4));
        out.push(IpAddress::V6(UNSPECIFIED_V6));
        proof {
            assert(out@ =~= addresses(v4@, v6@));
        }
    }
    out
}

/// One listener of transport `t` on each address, where the transport runs.
pub open spec fn segment(addrs: Seq<IpAddress>, t: Transport, s: TransportSetting) -> Seq<Listener> {
    if s.enabled {
        Seq::new(addrs.len(), |i: int| Listener { addr: addrs[i], port: s.port, transport: t })
    } else {
        seq![]
    }
}

/// Every listener to realize: UDP, then TCP, then, where certificate material
/// is configured, TLS, HTTPS and QUIC; each over the addresses in order.
pub open spec fn planned(addrs: Seq<IpAddress>, s: ListenSettings) -> Seq<Listener> {
    let plain = segment(addrs, Transport::Udp, s.udp) + segment(addrs, Transport::Tcp, s.tcp);
    if s.tls_material {
        plain + segment(addrs, Transport::Tls, s.tls) + segment(addrs, Transport::Https, s.https)
            + segment(addrs, Transport::Quic, s.quic)
    } else {
        plain
    }
}

/// `t` where it runs, else nothing.
pub open spec fn if_enabled(t: Transport, s: TransportSetting) -> Seq<Transport> {
    if s.enabled {
        seq![t]
    } else {
        seq![]
    }
}

/// Encrypted transports that would run but have no address to listen on.
pub open spec fn skipped(addrs: Seq<IpAddress>, s: ListenSettings) -> Seq<Transport> {
    if s.tls_material && addrs.len() == 0 {
        if_enabled(Transport::Tls, s.tls) + if_enabled(Transport::Https, s.https) + if_enabled(
            Transport::Quic,
            s.quic,
        )
    } else {
        seq![]
    }
}

fn push_segment(
    out: &mut Vec<Listener>,
    addrs: &Vec<IpAddress>,
    t: Transport,
    s: TransportSetting,
)
    ensures
        final(out)@ == old(out)@ + segment(addrs@, t, s),
{
    if !s.enabled {
        proof {
            assert(final(out)@ =~= old(out)@ + segment(addrs@, t, s));
        }
        return;
    }
    let ghost start = out@;
    let mut i: usize = 0;
    while i < addrs.len()
        invariant
            0 <= i <= addrs@.len(),
            out@ == start + Seq::new(
                i as nat,
                |k: int| Listener { addr: addrs@[k], port: s.port, transport: t },
            ),
        decreases addrs@.len() - i,
    {
        out.push(Listener { addr: addrs[i], port: s.port, transport: t });
        i = i + 1;
        proof {
            assert(out@ =~= start + Seq::new(
                i as nat,
                |k: int| Listener { addr: addrs@[k], port: s.port, transport: t },
            ));
        }
    }
}

fn push_skipped(out: &mut Vec<Transport>, t: Transport, s: TransportSetting)
    ensures
        final(out)@ == old(out)@ + if_enabled(t, s),
{
    if s.enabled {
        out.push(t);
    } else {
        proof {
            assert(final(out)@ =~= old(out)@ + if_enabled(t, s));
        }
    }
}

/// Plans every listener over the given addresses.
pub fn plan_listeners(addrs: &Vec<IpAddress>, s: &ListenSettings) -> (r: ListenPlan)
    ensures
        r.listeners@ == planned(addrs@, *s),
        r.skipped@ == skipped(addrs@, *s),
{
    let mut listeners: Vec<Listener> = Vec::new();
    let mut skipped_out: Vec<Transport> = Vec::new();
    push_segment(&mut listeners, addrs, Transport::Udp, s.udp);
    push_segment(&mut listeners, addrs, Transport::Tcp, s.tcp);
    if s.tls_material {
        if addrs.len() == 0 {
            push_skipped(&mut skipped_out, Transport::Tls, s.tls);
            push_skipped(&mut skipped_out, Transport::Https, s.https);
            push_skipped(&mut skipped_out, Transport::Quic, s.quic);
            proof {
                assert(segment(addrs@, Transport::Tls, s.tls) =~= seq![]);
                assert(segment(addrs@, Transport::Https, s.https) =~= seq![]);
                assert(segment(addrs@, Transport::Quic, s.quic) =~= seq![]);
                assert(listeners@ =~= planned(addrs@, *s));
                assert(skipped_out@ =~= skipped(addrs@, *s));
            }
        } else {
            push_segment(&mut listeners, addrs, Transport::Tls, s.tls);
            push_segment(&mut listeners, addrs, Transport::Https, s.https);
            push_segment(&mut listeners, addrs, Transport::Quic, s.quic);
            proof {
                assert(skipped_out@ =~= skipped(addrs@, *s));
            }
        }
    } else {
        proof {
            assert(skipped_out@ =~= skipped(addrs@, *s));
        }
    }
    ListenPlan { listeners, skipped: skipped_out }
}

/// Address family of a socket.
#[derive(Clone, Copy, Debug, PartialEq, Eq, Structural)]
pub enum Domain {
    Ipv4,
    Ipv6,
}

/// Stream or datagram socket.
#[derive(Clone, Copy, Debug, PartialEq, Eq, Structural)]
pub enum SocketType {
    Stream,
    Datagram,
}

/// How the socket of one listener is built before it is bound.
#[derive(Clone, Copy, Debug, PartialEq, Eq, Structural)]
pub struct SocketSetup {
    pub domain: Domain,
    pub socket_type: SocketType,
    /// Refuse IPv4-mapped traffic on an IPv6 socket.
    pub only_v6: bool,
    pub nonblocking: bool,
    /// Backlog passed to `listen`, for stream sockets.
    pub backlog: Option<u32>,
}

/// Whether a transport runs over a stream socket.
pub open spec fn is_stream(t: Transport) -> bool {
    t is Tcp || t is Tls || t is Https
}

/// The socket of a listener: its address's family, IPv6-only where that
/// family is IPv6, non-blocking, and with a backlog where it is a stream.
pub open spec fn setup_for(l: Listener) -> SocketSetup {
    SocketSetup {
        domain: if l.addr is V4 {
            Domain::Ipv4
        } else {
            Domain::Ipv6
        },
        socket_type: if is_stream(l.transport) {
            SocketType::Stream
        } else {
            SocketType::Datagram
        },
        only_v6: l.addr is V6,
        nonblocking: true,
        backlog: if is_stream(l.transport) {
            Some(LISTEN_BACKLOG)
        } else {
            None
        },
    }
}

/// Decides how to build the socket of a listener.
pub fn socket_setup(l: &Listener) -> (r: SocketSetup)
    ensures
        r == setup_for(*l),
{
    let stream = match l.transport {
        Transport::Tcp | Transport::Tls | Transport::Https => true,
        Transport::Udp | Transport::Quic => false,
    };
    let v6 = match l.addr {
        IpAddress::V4(_) => false,
        IpAddress::V6(_) => true,
    };
    SocketSetup {
        domain: if v6 {
            Domain::Ipv6
        } else {
            Domain::Ipv4
        },
        socket_type: if stream {
            SocketType::Stream
        } else {
            SocketType::Datagram
        },
        only_v6: v6,
        nonblocking: true,
        backlog: if stream {
            Some(LISTEN_BACKLOG)
        } else {
            None
        },
    }
}

/// Listening on the unspecified IPv4 and IPv6 addresses with one port gives
/// two listeners per running transport, on sockets of different families, the
/// IPv6 one restricted to IPv6 traffic and the IPv4 one unrestricted.
pub proof fn lemma_dual_stack(t: Transport, s: TransportSetting)
    requires
        s.enabled,
    ensures
        ({
            let addrs = seq![IpAddress::V4(UNSPECIFIED_V4), IpAddress::V6(UNSPECIFIED_V6)];
            let ls = segment(addrs, t, s);
            &&& ls.len() == 2
            &&& ls[0].addr == IpAddress::V4(UNSPECIFIED_V4) && ls[0].port == s.port
            &&& ls[1].addr == IpAddress::V6(UNSPECIFIED_V6) && ls[1].port == s.port
            &&& setup_for(ls[0]).domain == Domain::Ipv4 && !setup_for(ls[0]).only_v6
            &&& setup_for(ls[1]).domain == Domain::Ipv6 && setup_for(ls[1]).only_v6
        }),
        addresses(seq![], seq![]) == seq![
            IpAddress::V4(UNSPECIFIED_V4),
            IpAddress::V6(UNSPECIFIED_V6),
        ],
{
    let e: Seq<IpAddress> = seq![];
    assert(Seq::<u32>::empty().map_values(|a: u32| IpAddress::V4(a)) + Seq::<u128>::empty().map_values(
        |a: u128| IpAddress::V6(a),
    ) =~= e);
}

} // verus!
