//! Bringing up the embedded router: the configuration it runs with, and the
//! steps of its bootstrap (load what storage knows, reseed over HTTPS only
//! when it knows no router, build the router, store its own router info,
//! read the SAM addresses it bound).
//!
//! As with starting a session, the steps do no I/O: each returns the action
//! to perform, and the caller hands back what the action produced.

use vstd::prelude::*;

verus! {

/// How the embedded router is configured: NTCP2 and SSU2 on ports the system
/// picks, published on IPv4 and IPv6 with post-quantum ML-KEM, the SAMv3
/// bridge on the loopback address at ports the system picks, and transit
/// tunnels capped.
#[derive(Clone, Debug)]
pub struct EmbeddedConfig {
    pub ntcp2_port: u16,
    pub ssu2_port: u16,
    pub publish: bool,
    pub ipv4: bool,
    pub ipv6: bool,
    /// The ML-KEM variant offered for inbound connections.
    pub ml_kem: u8,
    pub disable_pq: bool,
    pub sam_host: String,
    pub sam_tcp_port: u16,
    pub sam_udp_port: u16,
    pub transit_max_tunnels: u64,
}

pub struct EmbeddedConfigView {
    pub ntcp2_port: u16,
    pub ssu2_port: u16,
    pub publish: bool,
    pub ipv4: bool,
    pub ipv6: bool,
    pub ml_kem: u8,
    pub disable_pq: bool,
    pub sam_host: Seq<char>,
    pub sam_tcp_port: u16,
    pub sam_udp_port: u16,
    pub transit_max_tunnels: u64,
}

impl View for EmbeddedConfig {
    type V = EmbeddedConfigView;

    open spec fn view(&self) -> EmbeddedConfigView {
        EmbeddedConfigView {
            ntcp2_port: self.ntcp2_port,
            ssu2_port: self.ssu2_port,
            publish: self.publish,
            ipv4: self.ipv4,
            ipv6: self.ipv6,
            ml_kem: self.ml_kem,
            disable_pq: self.disable_pq,
            sam_host: self.sam_host@,
            sam_tcp_port: self.sam_tcp_port,
            sam_udp_port: self.sam_udp_port,
            transit_max_tunnels: self.transit_max_tunnels,
        }
    }
}

/// The embedded router's configuration.
pub open spec fn embedded_config_spec() -> EmbeddedConfigView {
    EmbeddedConfigView {
        ntcp2_port: 0,
        ssu2_port: 0,
        publish: true,
        ipv4: true,
        ipv6: true,
        ml_kem: 4,
        disable_pq: false,
        sam_host: "127.0.0.1"@,
        sam_tcp_port: 0,
        sam_udp_port: 0,
        transit_max_tunnels: 1000,
    }
}

pub fn embedded_config() -> (c: EmbeddedConfig)
    ensures
        c@ == embedded_config_spec(),
{
    EmbeddedConfig {
        ntcp2_port: 0,
        ssu2_port: 0,
        publish: true,
        ipv4: true,
        ipv6: true,
        ml_kem: 4,
        disable_pq: false,
        sam_host: "127.0.0.1".to_owned(),
        sam_tcp_port: 0,
        sam_udp_port: 0,
        transit_max_tunnels: 1000,
    }
}

/// Where a bootstrap stands while it waits for the outcome of an action.
#[derive(Clone, Copy, Debug, PartialEq, Eq, Structural)]
pub enum BuildPhase {
    /// Waiting for storage to open and load what it knows.
    Loading,
    /// Waiting for the reseed; `known` routers were known before it.
    Reseeding { known: u64 },
    /// Waiting for the router to be built.
    Building,
    /// Waiting for the router's own info to be stored.
    StoringInfo,
    /// Waiting for the SAM addresses the router bound.
    ReadingSam,
    /// The bootstrap is over.
    Done,
}

/// What the outside work asked for by a bootstrap step produced.
#[derive(Debug)]
pub enum BuildEvent {
    /// How many routers storage knows, or why it could not be opened.
    Loaded(Result<u64, String>),
    /// How many router infos the reseed brought (each stored and added to
    /// the known ones), or why it failed.
    Reseeded(Result<u64, String>),
    /// Whether the router was built, or why not.
    RouterBuilt(Result<(), String>),
    /// Whether the router's own info was stored, or why not.
    InfoStored(Result<(), String>),
    /// The SAM TCP and UDP addresses the router bound, if any.
    SamBound { tcp: Option<String>, udp: Option<String> },
}

pub enum BuildEventView {
    Loaded(Result<u64, Seq<char>>),
    Reseeded(Result<u64, Seq<char>>),
    RouterBuilt(Result<(), Seq<char>>),
    InfoStored(Result<(), Seq<char>>),
    SamBound(Option<Seq<char>>, Option<Seq<char>>),
}

pub open spec fn opt_view(o: Option<String>) -> Option<Seq<char>> {
    match o {
        Some(s) => Some(s@),
        None => None,
    }
}

impl View for BuildEvent {
    type V = BuildEventView;

    open spec fn view(&self) -> BuildEventView {
        match self {
            BuildEvent::Loaded(r) => BuildEventView::Loaded(
                match r {
                    Ok(n) => Ok(*n),
                    Err(e) => Err(e@),
                },
            ),
            BuildEvent::Reseeded(r) => BuildEventView::Reseeded(
                match r {
                    Ok(n) => Ok(*n),
                    Err(e) => Err(e@),
                },
            ),
            BuildEvent::RouterBuilt(r) => BuildEventView::RouterBuilt(
                match r {
                    Ok(()) => Ok(()),
                    Err(e) => Err(e@),
                },
            ),
            BuildEvent::InfoStored(r) => BuildEventView::InfoStored(
                match r {
                    Ok(()) => Ok(()),
                    Err(e) => Err(e@),
                },
            ),
            BuildEvent::SamBound { tcp, udp } => BuildEventView::SamBound(
                opt_view(*tcp),
                opt_view(*udp),
            ),
        }
    }
}

/// The outside work that a bootstrap step asks for next.
#[derive(Debug)]
pub enum BuildAction {
    /// Open storage and load what it knows; answer with `Loaded`.
    LoadStorage,
    /// Reseed over HTTPS, storing each router info it brings; answer with
    /// `Reseeded`.
    Reseed,
    /// Build the router with this configuration and what storage holds;
    /// answer with `RouterBuilt`.
    BuildRouter(EmbeddedConfig),
    /// Store the router's own info; answer with `InfoStored`.
    StoreLocalInfo,
    /// Read the SAM addresses the router bound; answer with `SamBound`.
    ReadSamAddresses,
    /// The bootstrap is over: the SAM `(tcp, udp)` addresses, or why it failed.
    Finish(Result<(String, String), String>),
}

pub enum BuildActionView {
    LoadStorage,
    Reseed,
    BuildRouter(EmbeddedConfigView),
    StoreLocalInfo,
    ReadSamAddresses,
    Finish(Result<(Seq<char>, Seq<char>), Seq<char>>),
}

impl View for BuildAction {
    type V = BuildActionView;

    open spec fn view(&self) -> BuildActionView {
        match self {
            BuildAction::LoadStorage => BuildActionView::LoadStorage,
            BuildAction::Reseed => BuildActionView::Reseed,
            BuildAction::BuildRouter(c) => BuildActionView::BuildRouter(c@),
            BuildAction::StoreLocalInfo => BuildActionView::StoreLocalInfo,
            BuildAction::ReadSamAddresses => BuildActionView::ReadSamAddresses,
            BuildAction::Finish(r) => BuildActionView::Finish(
                match r {
                    Ok(a) => Ok((a.0@, a.1@)),
                    Err(e) => Err(e@),
                },
            ),
        }
    }
}

/// Whether a bootstrap in phase `p` waits for the event `e`.
pub open spec fn build_awaits(p: BuildPhase, e: BuildEventView) -> bool {
    match e {
        BuildEventView::Loaded(_) => p is Loading,
        BuildEventView::Reseeded(_) => p is Reseeding,
        BuildEventView::RouterBuilt(_) => p is Building,
        BuildEventView::InfoStored(_) => p is StoringInfo,
        BuildEventView::SamBound(_, _) => p is ReadingSam,
    }
}

/// Whether a bootstrap in phase `phase` waits for `event`.
pub fn awaits_build(phase: &BuildPhase, event: &BuildEvent) -> (b: bool)
    ensures
        b == build_awaits(*phase, event@),
{
    match event {
        BuildEvent::Loaded(_) => *phase == BuildPhase::Loading,
        BuildEvent::Reseeded(_) => match phase {
            BuildPhase::Reseeding { .. } => true,
            _ => false,
        },
        BuildEvent::RouterBuilt(_) => *phase == BuildPhase::Building,
        BuildEvent::InfoStored(_) => *phase == BuildPhase::StoringInfo,
        BuildEvent::SamBound { .. } => *phase == BuildPhase::ReadingSam,
    }
}

/// A bootstrap that ends in failure with `message`.
pub open spec fn build_fail(message: Seq<char>) -> (BuildPhase, BuildActionView) {
    (BuildPhase::Done, BuildActionView::Finish(Err(message)))
}

/// The step that builds the router.
pub open spec fn build_router_step() -> (BuildPhase, BuildActionView) {
    (BuildPhase::Building, BuildActionView::BuildRouter(embedded_config_spec()))
}

/// Every step of a bootstrap after the first: from the phase and what the
/// last action produced, the next phase and action.
pub open spec fn build_step_spec(p: BuildPhase, e: BuildEventView) -> (BuildPhase, BuildActionView) {
    match e {
        BuildEventView::Loaded(r) => match r {
            Ok(known) => if known == 0 {
                (BuildPhase::Reseeding { known: 0 }, BuildActionView::Reseed)
            } else {
                build_router_step()
            },
            Err(m) => build_fail("emissary storage: "@ + m),
        },
        BuildEventView::Reseeded(r) => match r {
            Ok(_) => build_router_step(),
            Err(m) => match p {
                BuildPhase::Reseeding { known } => if known == 0 {
                    build_fail("reseed failed, cannot start: "@ + m)
                } else {
                    build_router_step()
                },
                _ => build_router_step(),
            },
        },
        BuildEventView::RouterBuilt(r) => match r {
            Ok(()) => (BuildPhase::StoringInfo, BuildActionView::StoreLocalInfo),
            Err(m) => build_fail("emissary router: "@ + m),
        },
        BuildEventView::InfoStored(r) => match r {
            Ok(()) => (BuildPhase::ReadingSam, BuildActionView::ReadSamAddresses),
            Err(m) => build_fail("store router info: "@ + m),
        },
        BuildEventView::SamBound(tcp, udp) => match (tcp, udp) {
            (Some(t), Some(u)) => (BuildPhase::Done, BuildActionView::Finish(Ok((t, u)))),
            (None, _) => build_fail("emissary SAM TCP not bound"@),
            (Some(_), None) => build_fail("emissary SAM UDP not bound"@),
        },
    }
}

/// `prefix` followed by `message`.
fn prefixed(prefix: &str, message: &str) -> (s: String)
    ensures
        s@ == prefix@ + message@,
{
    let mut s = String::new();
    s.append(prefix);
    s.append(message);
    s
}

/// The first step of a bootstrap: load what storage knows.
pub fn build_begin() -> (r: (BuildPhase, BuildAction))
    ensures
        r.0 == BuildPhase::Loading,
        r.1@ == BuildActionView::LoadStorage,
{
    (BuildPhase::Loading, BuildAction::LoadStorage)
}

/// Takes the outcome of the last action and returns the next one.
pub fn build_step(phase: &mut BuildPhase, event: BuildEvent) -> (a: BuildAction)
    requires
        build_awaits(*old(phase), event@),
    ensures
        (*final(phase), a@) == build_step_spec(*old(phase), event@),
{
    match event {
        BuildEvent::Loaded(r) => match r {
            Ok(known) => if known == 0 {
                *phase = BuildPhase::Reseeding { known: 0 };
                BuildAction::Reseed
            } else {
                *phase = BuildPhase::Building;
                BuildAction::BuildRouter(embedded_config())
            },
            Err(m) => {
                *phase = BuildPhase::Done;
                BuildAction::Finish(Err(prefixed("emissary storage: ", m.as_str())))
            },
        },
        BuildEvent::Reseeded(r) => {
            let known = match *phase {
                BuildPhase::Reseeding { known } => known,
                _ => 1,
            };
            match r {
                Err(m) if known == 0 => {
                    *phase = BuildPhase::Done;
                    BuildAction::Finish(Err(prefixed("reseed failed, cannot start: ", m.as_str())))
                },
                _ => {
                    *phase = BuildPhase::Building;
                    BuildAction::BuildRouter(embedded_config())
                },
            }
        },
        BuildEvent::RouterBuilt(r) => match r {
            Ok(()) => {
                *phase = BuildPhase::StoringInfo;
                BuildAction::StoreLocalInfo
            },
            Err(m) => {
                *phase = BuildPhase::Done;
                BuildAction::Finish(Err(prefixed("emissary router: ", m.as_str())))
            },
        },
        BuildEvent::InfoStored(r) => match r {
            Ok(()) => {
                *phase = BuildPhase::ReadingSam;
                BuildAction::ReadSamAddresses
            },
            Err(m) => {
                *phase = BuildPhase::Done;
                BuildAction::Finish(Err(prefixed("store router info: ", m.as_str())))
            },
        },
        BuildEvent::SamBound { tcp, udp } => {
            *phase = BuildPhase::Done;
            match tcp {
                None => BuildAction::Finish(Err("emissary SAM TCP not bound".to_owned())),
                Some(t) => match udp {
                    None => BuildAction::Finish(Err("emissary SAM UDP not bound".to_owned())),
                    Some(u) => BuildAction::Finish(Ok((t, u))),
                },
            }
        },
    }
}

/// How far a bootstrap phase is from its end.
pub open spec fn build_rank(p: BuildPhase) -> nat {
    match p {
        BuildPhase::Loading => 5,
        BuildPhase::Reseeding { .. } => 4,
        BuildPhase::Building => 3,
        BuildPhase::StoringInfo => 2,
        BuildPhase::ReadingSam => 1,
        BuildPhase::Done => 0,
    }
}

/// The laws of a bootstrap step: it lowers the rank, so that a bootstrap
/// ends within five steps, and it ends exactly when it finishes. A reseed
/// is asked for exactly when storage knows no router; a reseed that fails
/// with no router known ends the bootstrap with `reseed failed, cannot
/// start: ` and the reason, and the router is not built; the router is
/// always built with the embedded configuration; and the bootstrap
/// succeeds only on SAM addresses that were both bound, giving them back.
pub proof fn build_step_law(p: BuildPhase, e: BuildEventView)
    requires
        build_awaits(p, e),
    ensures
        ({
            let (p2, a) = build_step_spec(p, e);
            &&& build_rank(p2) < build_rank(p)
            &&& (p2 is Done <==> a is Finish)
            &&& (e matches BuildEventView::Loaded(Ok(known)) ==> (a is Reseed <==> known == 0))
            &&& (a is Reseed ==> (e matches BuildEventView::Loaded(Ok(known)) && known == 0))
            &&& (p == BuildPhase::Reseeding { known: 0 } ==> (e matches BuildEventView::Reseeded(
                Err(m),
            ) ==> a == BuildActionView::Finish(Err("reseed failed, cannot start: "@ + m))))
            &&& (a matches BuildActionView::BuildRouter(c) ==> c == embedded_config_spec())
            &&& (a matches BuildActionView::Finish(Ok(addrs)) ==> e == BuildEventView::SamBound(
                Some(addrs.0),
                Some(addrs.1),
            ))
            &&& (e matches BuildEventView::SamBound(Some(t), Some(u)) ==> a
                == BuildActionView::Finish(Ok((t, u))))
        }),
{
}

} // verus!
