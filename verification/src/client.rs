//! The client's decisions: its configuration, its status, the steps of
//! starting a session, and what an outbound envelope becomes.
//!
//! The client does no I/O itself. Starting is a state machine: each step
//! returns the action to perform (probe the local bridge, start the embedded
//! router, read the persisted destination, open the session), and the caller
//! hands back what that action produced.

use vstd::prelude::*;

use crate::detector::{
    socket_addr, LocalRouterDetector, DEFAULT_PROBE_TIMEOUT_MS, DEFAULT_SAM_HOST, DEFAULT_SAM_PORT,
};
use crate::map::StringMap;
use crate::sam::{datagram_packet, get_or, DEFAULT_SAM_UDP};
use crate::text::{
    ascii_lowercase, chars_of, decimal, lowercase_range, push_char, parse_bounded, parse_unsigned, same_text, trim,
    trim_bounds, trimmed,
};
use vstd::utf8::encode_utf8;

verus! {

/// Router mode, from the configuration key `ra.i2p.mode`.
#[derive(Clone, Copy, Debug, PartialEq, Eq, Structural)]
pub enum Mode {
    Local,
    Embedded,
    Auto,
}

/// The mode a trimmed, lower-cased mode name selects.
pub open spec fn mode_named(t: Seq<char>) -> Mode {
    if t == "local"@ {
        Mode::Local
    } else if t == "embedded"@ {
        Mode::Embedded
    } else {
        Mode::Auto
    }
}

/// The mode a configuration value selects: its name, ignoring surrounding
/// white space and ASCII case; anything else selects `Auto`.
pub open spec fn mode_of(s: Seq<char>) -> Mode {
    mode_named(ascii_lowercase(trim(s)))
}

impl Mode {
    pub fn parse(s: &str) -> (m: Mode)
        ensures
            m == mode_of(s@),
    {
        let v = chars_of(s);
        let (i, j) = trim_bounds(&v);
        let t = lowercase_range(&v, i, j);
        if same_text(&t, "local") {
            Mode::Local
        } else if same_text(&t, "embedded") {
            Mode::Embedded
        } else {
            Mode::Auto
        }
    }
}

/// Connection status.
#[derive(Clone, Copy, Debug, PartialEq, Eq, Structural)]
pub enum Status {
    Disconnected,
    Connecting,
    Connected,
    /// Router or network reports us blocked / in a strict country.
    Blocked,
    /// SAM / router port already in use by something else.
    PortConflict,
    Error,
}

/// The byte that stands for each status.
pub open spec fn status_code(s: Status) -> u8 {
    match s {
        Status::Disconnected => 0,
        Status::Connecting => 1,
        Status::Connected => 2,
        Status::Blocked => 3,
        Status::PortConflict => 4,
        Status::Error => 5,
    }
}

/// The status a byte stands for; bytes that stand for none read as
/// `Disconnected`.
pub open spec fn status_of_code(v: u8) -> Status {
    if v == 1 {
        Status::Connecting
    } else if v == 2 {
        Status::Connected
    } else if v == 3 {
        Status::Blocked
    } else if v == 4 {
        Status::PortConflict
    } else if v == 5 {
        Status::Error
    } else {
        Status::Disconnected
    }
}

pub fn status_to_u8(s: Status) -> (v: u8)
    ensures
        v == status_code(s),
{
    match s {
        Status::Disconnected => 0,
        Status::Connecting => 1,
        Status::Connected => 2,
        Status::Blocked => 3,
        Status::PortConflict => 4,
        Status::Error => 5,
    }
}

pub fn status_from_u8(v: u8) -> (s: Status)
    ensures
        s == status_of_code(v),
{
    match v {
        1 => Status::Connecting,
        2 => Status::Connected,
        3 => Status::Blocked,
        4 => Status::PortConflict,
        5 => Status::Error,
        _ => Status::Disconnected,
    }
}

/// Every status survives its encoding as a byte.
pub proof fn status_code_round_trip(s: Status)
    ensures
        status_of_code(status_code(s)) == s,
{
}

/// Every byte that stands for a status is that status's byte; every other
/// byte reads as `Disconnected`.
pub proof fn code_status_round_trip(v: u8)
    ensures
        v <= 5 ==> status_code(status_of_code(v)) == v,
        v > 5 ==> status_of_code(v) == Status::Disconnected,
{
}

/// The destination asked for when no persisted one is at hand.
pub const TRANSIENT: &'static str = "TRANSIENT";

/// `name` appended to the directory `dir` as `PathBuf::push` does on Unix.
pub open spec fn path_join(dir: Seq<char>, name: Seq<char>) -> Seq<char> {
    if dir.len() == 0 {
        name
    } else if dir.last() == '/' {
        dir + name
    } else {
        dir + seq!['/'] + name
    }
}

/// Where the full destination of a session is kept under the data directory.
pub open spec fn dest_path(data_dir: Seq<char>) -> Seq<char> {
    path_join(path_join(data_dir, "i2p"@), "dest.b64"@)
}

/// Where the embedded router keeps its files.
pub open spec fn embedded_path(data_dir: Option<Seq<char>>) -> Seq<char> {
    path_join(
        match data_dir {
            Some(d) => d,
            None => "."@,
        },
        "emissary"@,
    )
}

/// The destination a session is opened on, given what the destination file
/// held (`None` when it could not be read): its trimmed content, unless that
/// is empty, else `TRANSIENT`.
pub open spec fn chosen_destination(persisted: Option<Seq<char>>) -> Seq<char> {
    match persisted {
        Some(s) => if trim(s).len() > 0 {
            trim(s)
        } else {
            TRANSIENT@
        },
        None => TRANSIENT@,
    }
}

/// The file that a session's full destination `full_dest` is written to,
/// if any: none without a data directory, and none for an empty or transient
/// destination.
pub open spec fn persist_path(data_dir: Option<Seq<char>>, full_dest: Seq<char>) -> Option<
    Seq<char>,
> {
    match data_dir {
        Some(d) => if full_dest.len() == 0 || full_dest == TRANSIENT@ {
            None
        } else {
            Some(dest_path(d))
        },
        None => None,
    }
}

/// `name` appended to the directory `dir`, as `PathBuf::push` does on Unix.
pub fn join_path(dir: &str, name: &str) -> (p: String)
    ensures
        p@ == path_join(dir@, name@),
{
    let v = chars_of(dir);
    if v.len() == 0 {
        return name.to_owned();
    }
    let mut p = dir.to_owned();
    if v[v.len() - 1] != '/' {
        push_char(&mut p, '/');
    }
    p.append(name);
    p
}

/// The destination to open a session on, given the content of the
/// destination file (`None` when it could not be read).
pub fn reuse_or_transient(persisted: Option<&str>) -> (d: String)
    ensures
        d@ == chosen_destination(
            match persisted {
                Some(s) => Some(s@),
                None => None,
            },
        ),
{
    match persisted {
        Some(s) => {
            let t = trimmed(s);
            if !t.as_str().is_empty() {
                t
            } else {
                TRANSIENT.to_owned()
            }
        },
        None => TRANSIENT.to_owned(),
    }
}

} // verus!

verus! {

/// The router a session runs on.
#[derive(Clone, Copy, Debug, PartialEq, Eq, Structural)]
pub enum Backend {
    Local,
    Embedded,
}

/// Where a start, or a switch of backend before a send, stands while it
/// waits for the outcome of an action.
#[derive(Debug)]
pub enum StartPhase {
    Idle,
    /// `Auto` mode, waiting to learn whether a local bridge answers.
    ResolvingMode,
    /// `Local` mode, waiting to learn whether the local bridge answers.
    CheckingLocal,
    /// Waiting for the embedded router to come up.
    StartingEmbedded,
    /// Waiting for the content of the destination file.
    ReadingDestination { sam_tcp: String, sam_udp: String, backend: Backend },
    /// Waiting for the session to open.
    OpeningSession { sam_tcp: String, sam_udp: String, backend: Backend },
    /// Before a send: waiting to learn whether the local bridge answers.
    SwitchProbing,
    /// Before a send: waiting for the embedded router to come up.
    SwitchStartingEmbedded,
    /// Before a send: waiting for the session on the other backend to open.
    SwitchOpening { sam_tcp: String, sam_udp: String, backend: Backend },
}

pub enum PhaseView {
    Idle,
    ResolvingMode,
    CheckingLocal,
    StartingEmbedded,
    ReadingDestination(Seq<char>, Seq<char>, Backend),
    OpeningSession(Seq<char>, Seq<char>, Backend),
    SwitchProbing,
    SwitchStartingEmbedded,
    SwitchOpening(Seq<char>, Seq<char>, Backend),
}

impl View for StartPhase {
    type V = PhaseView;

    open spec fn view(&self) -> PhaseView {
        match self {
            StartPhase::Idle => PhaseView::Idle,
            StartPhase::ResolvingMode => PhaseView::ResolvingMode,
            StartPhase::CheckingLocal => PhaseView::CheckingLocal,
            StartPhase::StartingEmbedded => PhaseView::StartingEmbedded,
            StartPhase::ReadingDestination { sam_tcp, sam_udp, backend } =>
            PhaseView::ReadingDestination(sam_tcp@, sam_udp@, *backend),
            StartPhase::OpeningSession { sam_tcp, sam_udp, backend } => PhaseView::OpeningSession(
                sam_tcp@,
                sam_udp@,
                *backend,
            ),
            StartPhase::SwitchProbing => PhaseView::SwitchProbing,
            StartPhase::SwitchStartingEmbedded => PhaseView::SwitchStartingEmbedded,
            StartPhase::SwitchOpening { sam_tcp, sam_udp, backend } => PhaseView::SwitchOpening(
                sam_tcp@,
                sam_udp@,
                *backend,
            ),
        }
    }
}

/// What the outside work asked for by a start step, or a switch step,
/// produced.
#[derive(Debug)]
pub enum StartEvent {
    /// Whether the local SAM bridge accepted a connection.
    RouterProbed(bool),
    /// The embedded router's SAM addresses `(tcp, udp)`, or why it did not start.
    EmbeddedStarted(Result<(String, String), String>),
    /// The content of the destination file, `None` when it could not be read.
    DestinationRead(Option<String>),
    /// The new session's `(full destination, short destination)`, or why it
    /// did not open.
    SessionOpened(Result<(String, String), String>),
}

pub enum EventView {
    RouterProbed(bool),
    EmbeddedStarted(Result<(Seq<char>, Seq<char>), Seq<char>>),
    DestinationRead(Option<Seq<char>>),
    SessionOpened(Result<(Seq<char>, Seq<char>), Seq<char>>),
}

impl View for StartEvent {
    type V = EventView;

    open spec fn view(&self) -> EventView {
        match self {
            StartEvent::RouterProbed(b) => EventView::RouterProbed(*b),
            StartEvent::EmbeddedStarted(r) => EventView::EmbeddedStarted(
                match r {
                    Ok(a) => Ok((a.0@, a.1@)),
                    Err(e) => Err(e@),
                },
            ),
            StartEvent::DestinationRead(d) => EventView::DestinationRead(
                match d {
                    Some(s) => Some(s@),
                    None => None,
                },
            ),
            StartEvent::SessionOpened(r) => EventView::SessionOpened(
                match r {
                    Ok(a) => Ok((a.0@, a.1@)),
                    Err(e) => Err(e@),
                },
            ),
        }
    }
}

/// The outside work that a start step asks for next.
#[derive(Debug)]
pub enum StartAction {
    /// Probe the local SAM bridge; answer with `RouterProbed`.
    ProbeLocalRouter,
    /// Start the embedded router with its files under `base_dir`; answer with
    /// `EmbeddedStarted`.
    StartEmbeddedRouter { base_dir: String },
    /// Read the destination file at `path`; answer with `DestinationRead`.
    ReadDestination { path: String },
    /// Open a datagram session; answer with `SessionOpened`.
    OpenSession {
        sam_tcp: String,
        sam_udp: String,
        nickname: String,
        destination: String,
        timeout_secs: u64,
    },
    /// The start is over: `started` is what it returns. `persist` names the
    /// file to write and the destination to write to it, if any.
    Finish { started: bool, persist: Option<(String, String)> },
}

pub enum ActionView {
    ProbeLocalRouter,
    StartEmbeddedRouter(Seq<char>),
    ReadDestination(Seq<char>),
    OpenSession(Seq<char>, Seq<char>, Seq<char>, Seq<char>, u64),
    Finish(bool, Option<(Seq<char>, Seq<char>)>),
}

impl View for StartAction {
    type V = ActionView;

    open spec fn view(&self) -> ActionView {
        match self {
            StartAction::ProbeLocalRouter => ActionView::ProbeLocalRouter,
            StartAction::StartEmbeddedRouter { base_dir } => ActionView::StartEmbeddedRouter(
                base_dir@,
            ),
            StartAction::ReadDestination { path } => ActionView::ReadDestination(path@),
            StartAction::OpenSession { sam_tcp, sam_udp, nickname, destination, timeout_secs } =>
            ActionView::OpenSession(
                sam_tcp@,
                sam_udp@,
                nickname@,
                destination@,
                *timeout_secs,
            ),
            StartAction::Finish { started, persist } => ActionView::Finish(
                *started,
                match persist {
                    Some(p) => Some((p.0@, p.1@)),
                    None => None,
                },
            ),
        }
    }
}

/// The outside work that a step before a send asks for next.
#[derive(Debug)]
pub enum SendAction {
    /// Probe the local SAM bridge; answer with `RouterProbed`.
    ProbeLocalRouter,
    /// Start the embedded router with its files under `base_dir`; answer with
    /// `EmbeddedStarted`.
    StartEmbeddedRouter { base_dir: String },
    /// Open a datagram session on the other backend; answer with
    /// `SessionOpened`.
    OpenSession {
        sam_tcp: String,
        sam_udp: String,
        nickname: String,
        destination: String,
        timeout_secs: u64,
    },
    /// Send on the session: the one just opened when `replaced`, else the
    /// one that was open before.
    Proceed { replaced: bool },
}

pub enum SendActionView {
    ProbeLocalRouter,
    StartEmbeddedRouter(Seq<char>),
    OpenSession(Seq<char>, Seq<char>, Seq<char>, Seq<char>, u64),
    Proceed(bool),
}

impl View for SendAction {
    type V = SendActionView;

    open spec fn view(&self) -> SendActionView {
        match self {
            SendAction::ProbeLocalRouter => SendActionView::ProbeLocalRouter,
            SendAction::StartEmbeddedRouter { base_dir } => SendActionView::StartEmbeddedRouter(
                base_dir@,
            ),
            SendAction::OpenSession { sam_tcp, sam_udp, nickname, destination, timeout_secs } =>
            SendActionView::OpenSession(
                sam_tcp@,
                sam_udp@,
                nickname@,
                destination@,
                *timeout_secs,
            ),
            SendAction::Proceed { replaced } => SendActionView::Proceed(*replaced),
        }
    }
}

/// Everything a client holds, as values.
pub struct ClientView {
    pub host: Seq<char>,
    pub sam_port: u16,
    pub probe_timeout_ms: u64,
    pub mode: Mode,
    pub nickname: Seq<char>,
    pub data_dir: Option<Seq<char>>,
    pub session_timeout_secs: u64,
    pub status: Status,
    /// The open session's `(full destination, short destination)`.
    pub session: Option<(Seq<char>, Seq<char>)>,
    /// The backend the open session runs on.
    pub active: Option<Backend>,
    /// The SAM addresses `(tcp, udp)` of the running embedded router.
    pub embedded: Option<(Seq<char>, Seq<char>)>,
    /// When the local bridge was last probed before a send, in milliseconds.
    pub last_probe_ms: Option<u64>,
    pub phase: PhaseView,
}

/// A client before any configuration.
pub open spec fn default_client() -> ClientView {
    ClientView {
        host: DEFAULT_SAM_HOST@,
        sam_port: DEFAULT_SAM_PORT,
        probe_timeout_ms: DEFAULT_PROBE_TIMEOUT_MS,
        mode: Mode::Auto,
        nickname: "1m5"@,
        data_dir: None,
        session_timeout_secs: 180,
        status: Status::Disconnected,
        session: None,
        active: None,
        embedded: None,
        last_probe_ms: None,
        phase: PhaseView::Idle,
    }
}

/// A number read from configuration value `key`, or `default` when the key
/// is missing or its value is no number within `max`.
pub open spec fn config_number(m: Map<Seq<char>, Seq<char>>, key: Seq<char>, max: nat, default: nat) -> nat {
    if m.dom().contains(key) && parse_bounded(m[key], max) is Some {
        parse_bounded(m[key], max)->0
    } else {
        default
    }
}

/// A client configured by the keys `ra.i2p.mode`, `ra.i2p.samHost`,
/// `ra.i2p.samPort`, `ra.i2p.nickname`, `ra.i2p.dataDir` and
/// `ra.i2p.sessionTimeoutSecs` of `m`; a missing key, or a number that does
/// not parse, leaves the default.
pub open spec fn client_from_config(m: Map<Seq<char>, Seq<char>>) -> ClientView {
    let d = default_client();
    ClientView {
        mode: if m.dom().contains("ra.i2p.mode"@) {
            mode_of(m["ra.i2p.mode"@])
        } else {
            d.mode
        },
        host: get_or(m, "ra.i2p.samHost"@, d.host),
        sam_port: config_number(m, "ra.i2p.samPort"@, 65535, d.sam_port as nat) as u16,
        nickname: get_or(m, "ra.i2p.nickname"@, d.nickname),
        data_dir: if m.dom().contains("ra.i2p.dataDir"@) {
            Some(m["ra.i2p.dataDir"@])
        } else {
            None
        },
        session_timeout_secs: config_number(
            m,
            "ra.i2p.sessionTimeoutSecs"@,
            u64::MAX as nat,
            d.session_timeout_secs as nat,
        ) as u64,
        ..d
    }
}

/// An I2P client: configuration, status and the open session, as the
/// decisions of starting, stopping and sending see them.
#[derive(Debug)]
pub struct I2pClient {
    detector: LocalRouterDetector,
    mode: Mode,
    nickname: String,
    data_dir: Option<String>,
    session_timeout_secs: u64,
    status: Status,
    /// `(full destination, short destination)` of the open session.
    session: Option<(String, String)>,
    active: Option<Backend>,
    /// `(tcp, udp)` SAM addresses of the running embedded router.
    embedded: Option<(String, String)>,
    last_probe_ms: Option<u64>,
    phase: StartPhase,
}

impl View for I2pClient {
    type V = ClientView;

    closed spec fn view(&self) -> ClientView {
        ClientView {
            host: self.detector.host@,
            sam_port: self.detector.sam_port,
            probe_timeout_ms: self.detector.timeout_ms,
            mode: self.mode,
            nickname: self.nickname@,
            data_dir: match self.data_dir {
                Some(d) => Some(d@),
                None => None,
            },
            session_timeout_secs: self.session_timeout_secs,
            status: self.status,
            session: match self.session {
                Some(s) => Some((s.0@, s.1@)),
                None => None,
            },
            active: self.active,
            embedded: match self.embedded {
                Some(e) => Some((e.0@, e.1@)),
                None => None,
            },
            last_probe_ms: self.last_probe_ms,
            phase: self.phase@,
        }
    }
}

impl I2pClient {
    pub fn new() -> (c: I2pClient)
        ensures
            c@ == default_client(),
    {
        I2pClient {
            detector: LocalRouterDetector::default(),
            mode: Mode::Auto,
            nickname: "1m5".to_owned(),
            data_dir: None,
            session_timeout_secs: 180,
            status: Status::Disconnected,
            session: None,
            active: None,
            embedded: None,
            last_probe_ms: None,
            phase: StartPhase::Idle,
        }
    }

    /// A client configured from `cfg`: keys `ra.i2p.mode`
    /// (`local`/`embedded`/`auto`), `ra.i2p.samHost`, `ra.i2p.samPort`,
    /// `ra.i2p.nickname`, `ra.i2p.dataDir`, `ra.i2p.sessionTimeoutSecs`.
    pub fn from_config(cfg: &StringMap) -> (c: I2pClient)
        ensures
            c@ == client_from_config(cfg@),
    {
        let mut c = I2pClient::new();
        if let Some(m) = cfg.get("ra.i2p.mode") {
            c.mode = Mode::parse(m.as_str());
        }
        if let Some(h) = cfg.get("ra.i2p.samHost") {
            c.detector.host = h.clone();
        }
        if let Some(p) = cfg.get("ra.i2p.samPort") {
            if let Some(port) = parse_unsigned(p.as_str(), 65535) {
                c.detector.sam_port = port as u16;
            }
        }
        if let Some(n) = cfg.get("ra.i2p.nickname") {
            c.nickname = n.clone();
        }
        if let Some(d) = cfg.get("ra.i2p.dataDir") {
            c.data_dir = Some(d.clone());
        }
        if let Some(t) = cfg.get("ra.i2p.sessionTimeoutSecs") {
            if let Some(secs) = parse_unsigned(t.as_str(), u64::MAX) {
                c.session_timeout_secs = secs;
            }
        }
        c
    }

    pub fn detector(&self) -> (d: &LocalRouterDetector)
        ensures
            d.host@ == self@.host,
            d.sam_port == self@.sam_port,
            d.timeout_ms == self@.probe_timeout_ms,
    {
        &self.detector
    }

    pub fn mode(&self) -> (m: Mode)
        ensures
            m == self@.mode,
    {
        self.mode
    }

    pub fn status(&self) -> (s: Status)
        ensures
            s == self@.status,
    {
        self.status
    }

    /// The destination other peers send to; empty while no session is open.
    pub fn local_destination(&self) -> (d: String)
        ensures
            d@ == match self@.session {
                Some(s) => s.1,
                None => Seq::empty(),
            },
    {
        match &self.session {
            Some(s) => s.1.clone(),
            None => String::new(),
        }
    }

    /// The mode a start goes by: `Auto` becomes `Local` when a local bridge
    /// answers (`router_running`), else `Embedded`.
    pub fn effective_mode(&self, router_running: bool) -> (m: Mode)
        ensures
            m == (match self@.mode {
                Mode::Auto => if router_running {
                    Mode::Local
                } else {
                    Mode::Embedded
                },
                other => other,
            }),
    {
        match self.mode {
            Mode::Auto => if router_running {
                Mode::Local
            } else {
                Mode::Embedded
            },
            m => m,
        }
    }

    /// Where the session's full destination is kept, if there is a data
    /// directory.
    pub fn dest_file(&self) -> (p: Option<String>)
        ensures
            match self@.data_dir {
                Some(d) => p matches Some(f) && f@ == dest_path(d),
                None => p is None,
            },
    {
        match &self.data_dir {
            Some(d) => {
                let i2p = join_path(d.as_str(), "i2p");
                Some(join_path(i2p.as_str(), "dest.b64"))
            },
            None => None,
        }
    }

    /// The file that `full_dest` is to be written to, if any.
    pub fn persist_dest(&self, full_dest: &str) -> (p: Option<String>)
        ensures
            match persist_path(self@.data_dir, full_dest@) {
                Some(f) => p matches Some(q) && q@ == f,
                None => p is None,
            },
    {
        let file = self.dest_file();
        match file {
            Some(f) => {
                if full_dest.is_empty() || same_text(&full_dest.to_owned(), TRANSIENT) {
                    None
                } else {
                    Some(f)
                }
            },
            None => None,
        }
    }

    /// Where the embedded router keeps its files.
    pub fn embedded_dir(&self) -> (p: String)
        ensures
            p@ == embedded_path(self@.data_dir),
    {
        match &self.data_dir {
            Some(d) => join_path(d.as_str(), "emissary"),
            None => join_path(".", "emissary"),
        }
    }

    /// Drops the session and the embedded router and marks the client
    /// disconnected.
    pub fn stop(&mut self) -> (r: bool)
        ensures
            r,
            final(self)@ == (ClientView {
                status: Status::Disconnected,
                session: None,
                active: None,
                embedded: None,
                last_probe_ms: None,
                phase: PhaseView::Idle,
                ..old(self)@
            }),
    {
        self.session = None;
        self.active = None;
        self.embedded = None;
        self.last_probe_ms = None;
        self.phase = StartPhase::Idle;
        self.status = Status::Disconnected;
        true
    }
}

impl Default for I2pClient {
    fn default() -> (c: Self)
        ensures
            c@ == default_client(),
    {
        I2pClient::new()
    }
}

} // verus!

verus! {

/// Whether a start in phase `p` waits for the event `e`.
pub open spec fn awaits_event(p: PhaseView, e: EventView) -> bool {
    match e {
        EventView::RouterProbed(_) => p is ResolvingMode || p is CheckingLocal,
        EventView::EmbeddedStarted(_) => p is StartingEmbedded,
        EventView::DestinationRead(_) => p is ReadingDestination,
        EventView::SessionOpened(_) => p is OpeningSession,
    }
}

/// Whether a switch of backend in phase `p` waits for the event `e`.
pub open spec fn switch_awaits(p: PhaseView, e: EventView) -> bool {
    match e {
        EventView::RouterProbed(_) => p is SwitchProbing,
        EventView::EmbeddedStarted(_) => p is SwitchStartingEmbedded,
        EventView::DestinationRead(_) => false,
        EventView::SessionOpened(_) => p is SwitchOpening,
    }
}

/// A start that ends without a session, leaving status `s`.
pub open spec fn abandon(c: ClientView, s: Status) -> (ClientView, ActionView) {
    (ClientView { status: s, phase: PhaseView::Idle, ..c }, ActionView::Finish(false, None))
}

/// The step once the bridge's addresses are known: read the destination file
/// if there is a data directory, else open a transient session.
pub open spec fn with_bridge(c: ClientView, tcp: Seq<char>, udp: Seq<char>, b: Backend) -> (
    ClientView,
    ActionView,
) {
    match c.data_dir {
        Some(d) => (
            ClientView { phase: PhaseView::ReadingDestination(tcp, udp, b), ..c },
            ActionView::ReadDestination(dest_path(d)),
        ),
        None => (
            ClientView { phase: PhaseView::OpeningSession(tcp, udp, b), ..c },
            ActionView::OpenSession(tcp, udp, c.nickname, TRANSIENT@, c.session_timeout_secs),
        ),
    }
}

/// The step of a start that needs the embedded router: the running one, if
/// there is one, else a new one.
pub open spec fn with_embedded(c: ClientView) -> (ClientView, ActionView) {
    match c.embedded {
        Some(a) => with_bridge(c, a.0, a.1, Backend::Embedded),
        None => (
            ClientView { phase: PhaseView::StartingEmbedded, ..c },
            ActionView::StartEmbeddedRouter(embedded_path(c.data_dir)),
        ),
    }
}

/// The first step of a start: mark the client connecting and ask for what
/// the mode needs first.
pub open spec fn start_begin_spec(c: ClientView) -> (ClientView, ActionView) {
    let c1 = ClientView { status: Status::Connecting, ..c };
    match c.mode {
        Mode::Auto => (
            ClientView { phase: PhaseView::ResolvingMode, ..c1 },
            ActionView::ProbeLocalRouter,
        ),
        Mode::Local => (
            ClientView { phase: PhaseView::CheckingLocal, ..c1 },
            ActionView::ProbeLocalRouter,
        ),
        Mode::Embedded => with_embedded(c1),
    }
}

/// Every later step of a start: from the client and what the last action
/// produced, the client after the step and the next action.
pub open spec fn start_step_spec(c: ClientView, e: EventView) -> (ClientView, ActionView) {
    match e {
        EventView::RouterProbed(running) => if c.phase is ResolvingMode {
            if running {
                (ClientView { phase: PhaseView::CheckingLocal, ..c }, ActionView::ProbeLocalRouter)
            } else {
                with_embedded(c)
            }
        } else if running {
            with_bridge(c, socket_addr(c.host, c.sam_port), DEFAULT_SAM_UDP@, Backend::Local)
        } else {
            abandon(c, Status::Disconnected)
        },
        EventView::EmbeddedStarted(r) => match r {
            Ok(a) => with_bridge(ClientView { embedded: Some(a), ..c }, a.0, a.1, Backend::Embedded),
            Err(_) => abandon(c, Status::Error),
        },
        EventView::DestinationRead(content) => match c.phase {
            PhaseView::ReadingDestination(tcp, udp, b) => (
                ClientView { phase: PhaseView::OpeningSession(tcp, udp, b), ..c },
                ActionView::OpenSession(
                    tcp,
                    udp,
                    c.nickname,
                    chosen_destination(content),
                    c.session_timeout_secs,
                ),
            ),
            _ => (c, ActionView::Finish(false, None)),
        },
        EventView::SessionOpened(r) => match r {
            Ok(s) => (
                ClientView {
                    status: Status::Connected,
                    session: Some(s),
                    active: match c.phase {
                        PhaseView::OpeningSession(_, _, b) => Some(b),
                        _ => c.active,
                    },
                    phase: PhaseView::Idle,
                    ..c
                },
                ActionView::Finish(
                    true,
                    match persist_path(c.data_dir, s.0) {
                        Some(f) => Some((f, s.0)),
                        None => None,
                    },
                ),
            ),
            Err(_) => abandon(c, Status::Error),
        },
    }
}

/// How long a send waits, after probing the local bridge, before it probes
/// again, in milliseconds.
pub const LOCAL_REPROBE_INTERVAL_MS: u64 = 30000;

/// Whether a send at `now_ms` probes the local bridge again, given when it
/// last did.
pub open spec fn reprobe_due(last_ms: Option<u64>, now_ms: u64) -> bool {
    match last_ms {
        Some(t) => t <= now_ms && now_ms - t >= LOCAL_REPROBE_INTERVAL_MS,
        None => true,
    }
}

/// The full destination a replacement session is opened on: the current
/// session's, so that the node keeps its address.
pub open spec fn current_dest(c: ClientView) -> Seq<char> {
    match c.session {
        Some(s) => s.0,
        None => TRANSIENT@,
    }
}

/// The step of a switch that opens a session on backend `b` at `tcp`/`udp`.
pub open spec fn switch_open(c: ClientView, tcp: Seq<char>, udp: Seq<char>, b: Backend) -> (
    ClientView,
    SendActionView,
) {
    (
        ClientView { phase: PhaseView::SwitchOpening(tcp, udp, b), ..c },
        SendActionView::OpenSession(tcp, udp, c.nickname, current_dest(c), c.session_timeout_secs),
    )
}

/// A switch that ends keeping the open session.
pub open spec fn switch_keep(c: ClientView) -> (ClientView, SendActionView) {
    (ClientView { phase: PhaseView::Idle, ..c }, SendActionView::Proceed(false))
}

/// The first step before a send at `now_ms`: in `Auto` mode, with a session
/// open and no start under way, probe the local bridge when the last probe
/// is at least `LOCAL_REPROBE_INTERVAL_MS` old; else send as things are.
pub open spec fn send_begin_spec(c: ClientView, now_ms: u64) -> (ClientView, SendActionView) {
    if c.mode == Mode::Auto && c.active is Some && c.phase is Idle && reprobe_due(
        c.last_probe_ms,
        now_ms,
    ) {
        (
            ClientView { last_probe_ms: Some(now_ms), phase: PhaseView::SwitchProbing, ..c },
            SendActionView::ProbeLocalRouter,
        )
    } else {
        (c, SendActionView::Proceed(false))
    }
}

/// Every later step before a send. A session on the local router whose
/// bridge is gone moves to the embedded router (started only when none is
/// running); a session on the embedded router moves back when the local
/// bridge answers again. A new session carries the current full destination;
/// a switch that fails keeps the session and the status as they were.
pub open spec fn send_step_spec(c: ClientView, e: EventView) -> (ClientView, SendActionView) {
    match e {
        EventView::RouterProbed(running) => if c.active == Some(Backend::Local) && !running {
            match c.embedded {
                Some(a) => switch_open(c, a.0, a.1, Backend::Embedded),
                None => (
                    ClientView { phase: PhaseView::SwitchStartingEmbedded, ..c },
                    SendActionView::StartEmbeddedRouter(embedded_path(c.data_dir)),
                ),
            }
        } else if c.active == Some(Backend::Embedded) && running {
            switch_open(c, socket_addr(c.host, c.sam_port), DEFAULT_SAM_UDP@, Backend::Local)
        } else {
            switch_keep(c)
        },
        EventView::EmbeddedStarted(r) => match r {
            Ok(a) => switch_open(ClientView { embedded: Some(a), ..c }, a.0, a.1, Backend::Embedded),
            Err(_) => switch_keep(c),
        },
        EventView::DestinationRead(_) => switch_keep(c),
        EventView::SessionOpened(r) => match r {
            Ok(s) => match c.phase {
                PhaseView::SwitchOpening(_, _, b) => (
                    ClientView { session: Some(s), active: Some(b), phase: PhaseView::Idle, ..c },
                    SendActionView::Proceed(true),
                ),
                _ => switch_keep(c),
            },
            Err(_) => switch_keep(c),
        },
    }
}

impl I2pClient {
    /// Whether the start under way waits for `e`.
    pub fn awaits(&self, e: &StartEvent) -> (b: bool)
        ensures
            b == awaits_event(self@.phase, e@),
    {
        match e {
            StartEvent::RouterProbed(_) => match self.phase {
                StartPhase::ResolvingMode => true,
                StartPhase::CheckingLocal => true,
                _ => false,
            },
            StartEvent::EmbeddedStarted(_) => match self.phase {
                StartPhase::StartingEmbedded => true,
                _ => false,
            },
            StartEvent::DestinationRead(_) => match self.phase {
                StartPhase::ReadingDestination { .. } => true,
                _ => false,
            },
            StartEvent::SessionOpened(_) => match self.phase {
                StartPhase::OpeningSession { .. } => true,
                _ => false,
            },
        }
    }

    /// Whether the switch of backend under way waits for `e`.
    pub fn switch_awaits(&self, e: &StartEvent) -> (b: bool)
        ensures
            b == switch_awaits(self@.phase, e@),
    {
        match e {
            StartEvent::RouterProbed(_) => match self.phase {
                StartPhase::SwitchProbing => true,
                _ => false,
            },
            StartEvent::EmbeddedStarted(_) => match self.phase {
                StartPhase::SwitchStartingEmbedded => true,
                _ => false,
            },
            StartEvent::DestinationRead(_) => false,
            StartEvent::SessionOpened(_) => match self.phase {
                StartPhase::SwitchOpening { .. } => true,
                _ => false,
            },
        }
    }

    /// The step once the bridge's addresses are known.
    fn bridge_found(&mut self, sam_tcp: String, sam_udp: String, backend: Backend) -> (a:
        StartAction)
        ensures
            (final(self)@, a@) == with_bridge(old(self)@, sam_tcp@, sam_udp@, backend),
    {
        match self.dest_file() {
            Some(path) => {
                self.phase = StartPhase::ReadingDestination { sam_tcp, sam_udp, backend };
                StartAction::ReadDestination { path }
            },
            None => {
                let nickname = self.nickname.clone();
                self.phase = StartPhase::OpeningSession {
                    sam_tcp: sam_tcp.clone(),
                    sam_udp: sam_udp.clone(),
                    backend,
                };
                StartAction::OpenSession {
                    sam_tcp,
                    sam_udp,
                    nickname,
                    destination: TRANSIENT.to_owned(),
                    timeout_secs: self.session_timeout_secs,
                }
            },
        }
    }

    /// The step that needs the embedded router: the running one, if any.
    fn embedded_needed(&mut self) -> (a: StartAction)
        ensures
            (final(self)@, a@) == with_embedded(old(self)@),
    {
        match &self.embedded {
            Some(addrs) => {
                let tcp = addrs.0.clone();
                let udp = addrs.1.clone();
                self.bridge_found(tcp, udp, Backend::Embedded)
            },
            None => {
                let base_dir = self.embedded_dir();
                self.phase = StartPhase::StartingEmbedded;
                StartAction::StartEmbeddedRouter { base_dir }
            },
        }
    }

    /// Begins a start: marks the client connecting and returns the first
    /// action.
    pub fn start_begin(&mut self) -> (a: StartAction)
        ensures
            (final(self)@, a@) == start_begin_spec(old(self)@),
    {
        self.status = Status::Connecting;
        match self.mode {
            Mode::Auto => {
                self.phase = StartPhase::ResolvingMode;
                StartAction::ProbeLocalRouter
            },
            Mode::Local => {
                self.phase = StartPhase::CheckingLocal;
                StartAction::ProbeLocalRouter
            },
            Mode::Embedded => self.embedded_needed(),
        }
    }

    /// Takes the outcome of the last action and returns the next one.
    pub fn start_step(&mut self, event: StartEvent) -> (a: StartAction)
        requires
            awaits_event(old(self)@.phase, event@),
        ensures
            (final(self)@, a@) == start_step_spec(old(self)@, event@),
    {
        match event {
            StartEvent::RouterProbed(running) => {
                let resolving = match self.phase {
                    StartPhase::ResolvingMode => true,
                    _ => false,
                };
                if resolving {
                    if running {
                        self.phase = StartPhase::CheckingLocal;
                        StartAction::ProbeLocalRouter
                    } else {
                        self.embedded_needed()
                    }
                } else if running {
                    let tcp = self.detector.sam_tcp_addr();
                    self.bridge_found(tcp, DEFAULT_SAM_UDP.to_owned(), Backend::Local)
                } else {
                    self.status = Status::Disconnected;
                    self.phase = StartPhase::Idle;
                    StartAction::Finish { started: false, persist: None }
                }
            },
            StartEvent::EmbeddedStarted(r) => match r {
                Ok(addrs) => {
                    self.embedded = Some((addrs.0.clone(), addrs.1.clone()));
                    self.bridge_found(addrs.0, addrs.1, Backend::Embedded)
                },
                Err(_) => {
                    self.status = Status::Error;
                    self.phase = StartPhase::Idle;
                    StartAction::Finish { started: false, persist: None }
                },
            },
            StartEvent::DestinationRead(content) => {
                let (sam_tcp, sam_udp, backend) = match &self.phase {
                    StartPhase::ReadingDestination { sam_tcp, sam_udp, backend } => (
                        sam_tcp.clone(),
                        sam_udp.clone(),
                        *backend,
                    ),
                    _ => {
                        assert(false);
                        (String::new(), String::new(), Backend::Local)
                    },
                };
                let destination = match &content {
                    Some(s) => reuse_or_transient(Some(s.as_str())),
                    None => reuse_or_transient(None),
                };
                let nickname = self.nickname.clone();
                self.phase = StartPhase::OpeningSession {
                    sam_tcp: sam_tcp.clone(),
                    sam_udp: sam_udp.clone(),
                    backend,
                };
                StartAction::OpenSession {
                    sam_tcp,
                    sam_udp,
                    nickname,
                    destination,
                    timeout_secs: self.session_timeout_secs,
                }
            },
            StartEvent::SessionOpened(r) => match r {
                Ok(s) => {
                    let backend = match &self.phase {
                        StartPhase::OpeningSession { backend, .. } => *backend,
                        _ => {
                            assert(false);
                            Backend::Local
                        },
                    };
                    let persist = match self.persist_dest(s.0.as_str()) {
                        Some(f) => Some((f, s.0.clone())),
                        None => None,
                    };
                    self.session = Some(s);
                    self.active = Some(backend);
                    self.status = Status::Connected;
                    self.phase = StartPhase::Idle;
                    StartAction::Finish { started: true, persist }
                },
                Err(_) => {
                    self.status = Status::Error;
                    self.phase = StartPhase::Idle;
                    StartAction::Finish { started: false, persist: None }
                },
            },
        }
    }

    /// The full destination of the open session, or `TRANSIENT`.
    fn current_dest(&self) -> (d: String)
        ensures
            d@ == current_dest(self@),
    {
        match &self.session {
            Some(s) => s.0.clone(),
            None => TRANSIENT.to_owned(),
        }
    }

    /// The switch step that opens a session on `backend`.
    fn open_switch(&mut self, sam_tcp: String, sam_udp: String, backend: Backend) -> (a:
        SendAction)
        ensures
            (final(self)@, a@) == switch_open(old(self)@, sam_tcp@, sam_udp@, backend),
    {
        let destination = self.current_dest();
        let nickname = self.nickname.clone();
        self.phase = StartPhase::SwitchOpening {
            sam_tcp: sam_tcp.clone(),
            sam_udp: sam_udp.clone(),
            backend,
        };
        SendAction::OpenSession {
            sam_tcp,
            sam_udp,
            nickname,
            destination,
            timeout_secs: self.session_timeout_secs,
        }
    }

    /// The switch step that keeps the open session.
    fn keep_session(&mut self) -> (a: SendAction)
        ensures
            (final(self)@, a@) == switch_keep(old(self)@),
    {
        self.phase = StartPhase::Idle;
        SendAction::Proceed { replaced: false }
    }

    /// Begins a send at time `now_ms` (milliseconds): in `Auto` mode it may
    /// first ask to probe the local bridge, to move the session to the
    /// backend that is there.
    pub fn send_begin(&mut self, now_ms: u64) -> (a: SendAction)
        ensures
            (final(self)@, a@) == send_begin_spec(old(self)@, now_ms),
    {
        let idle = match self.phase {
            StartPhase::Idle => true,
            _ => false,
        };
        let due = match self.last_probe_ms {
            Some(t) => t <= now_ms && now_ms - t >= LOCAL_REPROBE_INTERVAL_MS,
            None => true,
        };
        if self.mode == Mode::Auto && self.active.is_some() && idle && due {
            self.last_probe_ms = Some(now_ms);
            self.phase = StartPhase::SwitchProbing;
            SendAction::ProbeLocalRouter
        } else {
            SendAction::Proceed { replaced: false }
        }
    }

    /// Takes the outcome of the last action before a send and returns the
    /// next one.
    pub fn send_step(&mut self, event: StartEvent) -> (a: SendAction)
        requires
            switch_awaits(old(self)@.phase, event@),
        ensures
            (final(self)@, a@) == send_step_spec(old(self)@, event@),
    {
        match event {
            StartEvent::RouterProbed(running) => {
                if self.active == Some(Backend::Local) && !running {
                    match &self.embedded {
                        Some(addrs) => {
                            let tcp = addrs.0.clone();
                            let udp = addrs.1.clone();
                            self.open_switch(tcp, udp, Backend::Embedded)
                        },
                        None => {
                            let base_dir = self.embedded_dir();
                            self.phase = StartPhase::SwitchStartingEmbedded;
                            SendAction::StartEmbeddedRouter { base_dir }
                        },
                    }
                } else if self.active == Some(Backend::Embedded) && running {
                    let tcp = self.detector.sam_tcp_addr();
                    self.open_switch(tcp, DEFAULT_SAM_UDP.to_owned(), Backend::Local)
                } else {
                    self.keep_session()
                }
            },
            StartEvent::EmbeddedStarted(r) => match r {
                Ok(addrs) => {
                    self.embedded = Some((addrs.0.clone(), addrs.1.clone()));
                    self.open_switch(addrs.0, addrs.1, Backend::Embedded)
                },
                Err(_) => self.keep_session(),
            },
            StartEvent::DestinationRead(_) => self.keep_session(),
            StartEvent::SessionOpened(r) => match r {
                Ok(s) => {
                    let backend = match &self.phase {
                        StartPhase::SwitchOpening { backend, .. } => *backend,
                        _ => {
                            assert(false);
                            Backend::Local
                        },
                    };
                    self.session = Some(s);
                    self.active = Some(backend);
                    self.phase = StartPhase::Idle;
                    SendAction::Proceed { replaced: true }
                },
                Err(_) => self.keep_session(),
            },
        }
    }
}

} // verus!

verus! {

/// A message to route over I2P: headers, an addressee, and the payload.
#[derive(Debug)]
pub struct Envelope {
    pub headers: StringMap,
    pub to: String,
    pub payload: Vec<u8>,
}

impl Envelope {
    pub fn new(to: &str, payload: Vec<u8>) -> (e: Envelope)
        ensures
            e.headers@ == Map::<Seq<char>, Seq<char>>::empty(),
            e.to@ == to@,
            e.payload@ == payload@,
    {
        Envelope { headers: StringMap::new(), to: to.to_owned(), payload }
    }

    /// Records why the envelope could not be sent, under the header `error`.
    pub fn record_error(&mut self, message: String)
        ensures
            final(self).headers@ == old(self).headers@.insert("error"@, message@),
            final(self).to@ == old(self).to@,
            final(self).payload@ == old(self).payload@,
    {
        self.headers.insert("error".to_owned(), message);
    }
}

/// The destination an envelope goes to: its `destination` header, else its
/// addressee; empty ones do not count.
pub open spec fn send_destination(headers: Map<Seq<char>, Seq<char>>, to: Seq<char>) -> Option<
    Seq<char>,
> {
    if headers.dom().contains("destination"@) && headers["destination"@].len() > 0 {
        Some(headers["destination"@])
    } else if to.len() > 0 {
        Some(to)
    } else {
        None
    }
}

/// The text recorded on an envelope without a destination.
pub open spec fn no_destination_error() -> Seq<char> {
    "no I2P destination"@
}

/// The text recorded on an envelope sent while no session is open.
pub open spec fn no_session_error() -> Seq<char> {
    "I2P session not started"@
}

impl I2pClient {
    /// The datagram that sends `envelope.payload` to the envelope's
    /// destination through the open session. Without a destination, or
    /// without a session, there is none, and the reason is recorded on the
    /// envelope.
    pub fn outbound_datagram(&self, envelope: &mut Envelope) -> (p: Option<Vec<u8>>)
        ensures
            final(envelope).to@ == old(envelope).to@,
            final(envelope).payload@ == old(envelope).payload@,
            match send_destination(old(envelope).headers@, old(envelope).to@) {
                None => p is None && final(envelope).headers@ == old(envelope).headers@.insert(
                    "error"@,
                    no_destination_error(),
                ),
                Some(dest) => if self@.session is None {
                    p is None && final(envelope).headers@ == old(envelope).headers@.insert(
                        "error"@,
                        no_session_error(),
                    )
                } else {
                    p matches Some(packet) && packet@ == encode_utf8(
                        "3.3 "@ + self@.nickname + " "@ + dest + "\n"@,
                    ) + old(envelope).payload@ && final(envelope).headers@ == old(
                        envelope,
                    ).headers@
                },
            },
    {
        let header = envelope.headers.get("destination");
        let dest = match header {
            Some(d) if !d.as_str().is_empty() => Some(d.clone()),
            _ => if !envelope.to.as_str().is_empty() {
                Some(envelope.to.clone())
            } else {
                None
            },
        };
        match dest {
            None => {
                envelope.record_error("no I2P destination".to_owned());
                None
            },
            Some(d) => if self.session.is_none() {
                envelope.record_error("I2P session not started".to_owned());
                None
            } else {
                Some(datagram_packet(self.nickname.as_str(), d.as_str(), envelope.payload.as_slice()))
            },
        }
    }

    /// What `send` returns once the datagram went out (`Ok`) or failed with
    /// the given error text, which is then recorded on the envelope.
    pub fn send_outcome(envelope: &mut Envelope, result: Result<(), String>) -> (sent: bool)
        ensures
            sent == result is Ok,
            final(envelope).to@ == old(envelope).to@,
            final(envelope).payload@ == old(envelope).payload@,
            match result {
                Ok(()) => final(envelope).headers@ == old(envelope).headers@,
                Err(msg) => final(envelope).headers@ == old(envelope).headers@.insert(
                    "error"@,
                    msg@,
                ),
            },
    {
        match result {
            Ok(()) => true,
            Err(msg) => {
                envelope.record_error(msg);
                false
            },
        }
    }
}

} // verus!

verus! {

/// How far a phase is from the end of a start or a switch.
pub open spec fn phase_rank(p: PhaseView) -> nat {
    match p {
        PhaseView::Idle => 0,
        PhaseView::OpeningSession(..) => 1,
        PhaseView::ReadingDestination(..) => 2,
        PhaseView::StartingEmbedded => 3,
        PhaseView::CheckingLocal => 4,
        PhaseView::ResolvingMode => 5,
        PhaseView::SwitchOpening(..) => 1,
        PhaseView::SwitchStartingEmbedded => 2,
        PhaseView::SwitchProbing => 3,
    }
}

/// Whether the phase `p` is the one that waits for the outcome of `a`.
pub open spec fn waits_for(p: PhaseView, a: ActionView) -> bool {
    match a {
        ActionView::ProbeLocalRouter => p is ResolvingMode || p is CheckingLocal,
        ActionView::StartEmbeddedRouter(_) => p is StartingEmbedded,
        ActionView::ReadDestination(_) => p is ReadingDestination,
        ActionView::OpenSession(_, _, _, _, _) => p is OpeningSession,
        ActionView::Finish(_, _) => p is Idle,
    }
}

/// Whether the phase `p` is the one that waits for the outcome of the switch
/// action `a`.
pub open spec fn switch_waits_for(p: PhaseView, a: SendActionView) -> bool {
    match a {
        SendActionView::ProbeLocalRouter => p is SwitchProbing,
        SendActionView::StartEmbeddedRouter(_) => p is SwitchStartingEmbedded,
        SendActionView::OpenSession(_, _, _, _, _) => p is SwitchOpening,
        SendActionView::Proceed(_) => p is Idle,
    }
}

/// The configuration of `c2` is that of `c`.
pub open spec fn same_config(c: ClientView, c2: ClientView) -> bool {
    &&& c2.host == c.host
    &&& c2.sam_port == c.sam_port
    &&& c2.probe_timeout_ms == c.probe_timeout_ms
    &&& c2.mode == c.mode
    &&& c2.nickname == c.nickname
    &&& c2.data_dir == c.data_dir
    &&& c2.session_timeout_secs == c.session_timeout_secs
}

/// A session is open exactly when the backend it runs on is known.
pub open spec fn session_tracked(c: ClientView) -> bool {
    c.session is Some <==> c.active is Some
}

/// What a finished start promises: it returns `true` exactly when the client
/// is connected with a session; otherwise the client is disconnected or in
/// error and keeps the session it had.
pub open spec fn finish_agrees(c: ClientView, c2: ClientView, a: ActionView) -> bool {
    a matches ActionView::Finish(started, _) ==> {
        &&& started <==> c2.status == Status::Connected
        &&& started ==> c2.session is Some
        &&& !started ==> (c2.status == Status::Disconnected || c2.status == Status::Error)
            && c2.session == c.session && c2.active == c.active
    }
}

/// A start begins by marking the client connecting and asking for outside
/// work, never by finishing; with an embedded router running it asks for no
/// second one.
pub proof fn start_begin_law(c: ClientView)
    ensures
        ({
            let (c2, a) = start_begin_spec(c);
            &&& c2.status == Status::Connecting
            &&& c2.session == c.session
            &&& c2.active == c.active
            &&& same_config(c, c2)
            &&& waits_for(c2.phase, a)
            &&& a !is Finish
            &&& c.embedded is Some ==> a !is StartEmbeddedRouter
            &&& (session_tracked(c) ==> session_tracked(c2))
        }),
{
}

/// Every step of a start moves it closer to its end, so that a start
/// finishes within five steps; it leaves the configuration alone, asks for
/// exactly the work that its new phase waits for, changes the status and
/// the session only when it finishes, sets a session only when one opened,
/// asks for no second embedded router while one runs, keeps the open
/// session tracked by its backend, and finishes as `finish_agrees` says.
pub proof fn start_step_law(c: ClientView, e: EventView)
    requires
        awaits_event(c.phase, e),
    ensures
        ({
            let (c2, a) = start_step_spec(c, e);
            &&& phase_rank(c2.phase) < phase_rank(c.phase)
            &&& same_config(c, c2)
            &&& waits_for(c2.phase, a)
            &&& a !is Finish ==> c2.status == c.status && c2.session == c.session
            &&& c2.session != c.session ==> (e matches EventView::SessionOpened(Ok(s))
                && c2.session == Some(s))
            &&& finish_agrees(c, c2, a)
            &&& c.embedded is Some ==> a !is StartEmbeddedRouter
            &&& !(e is EmbeddedStarted) ==> c2.embedded == c.embedded
            &&& (session_tracked(c) ==> session_tracked(c2))
        }),
{
}

/// A send asks to probe the local bridge only in `Auto` mode, with a session
/// open and no start under way, and at most once in any
/// `LOCAL_REPROBE_INTERVAL_MS`: the probe is stamped with its time, and a
/// send less than the interval after that stamp asks for none. Asking
/// changes nothing else.
pub proof fn send_begin_law(c: ClientView, now_ms: u64)
    ensures
        ({
            let (c2, a) = send_begin_spec(c, now_ms);
            &&& a is ProbeLocalRouter ==> {
                &&& c.mode == Mode::Auto && c.active is Some && c.phase is Idle
                &&& c2.last_probe_ms == Some(now_ms)
                &&& c2 == ClientView { last_probe_ms: Some(now_ms), phase: PhaseView::SwitchProbing, ..c }
            }
            &&& a !is ProbeLocalRouter ==> a == SendActionView::Proceed(false) && c2 == c
            &&& (c.last_probe_ms matches Some(t) && t <= now_ms && now_ms - t < LOCAL_REPROBE_INTERVAL_MS)
                ==> a == SendActionView::Proceed(false)
        }),
{
}

/// Every step before a send moves the switch closer to its end (at most
/// three steps), leaves the configuration and the status alone, and asks
/// for exactly the work its new phase waits for. A session on the local
/// router whose bridge is gone moves to the embedded router, at the running
/// one's addresses when one runs; a session on the embedded router moves
/// back to a local bridge that answers again. Every new session is opened on
/// the current full destination. The session changes only when the new one
/// opened, and then runs on the backend it was opened on; a failed switch
/// keeps the session, its backend and the status.
pub proof fn send_step_law(c: ClientView, e: EventView)
    requires
        switch_awaits(c.phase, e),
    ensures
        ({
            let (c2, a) = send_step_spec(c, e);
            &&& phase_rank(c2.phase) < phase_rank(c.phase)
            &&& same_config(c, c2)
            &&& c2.status == c.status
            &&& switch_waits_for(c2.phase, a)
            &&& (a matches SendActionView::OpenSession(_, _, _, d, _) ==> d == current_dest(c))
            &&& (e == EventView::RouterProbed(false) && c.active == Some(Backend::Local)) ==> (
            match c.embedded {
                Some(x) => a == SendActionView::OpenSession(
                    x.0,
                    x.1,
                    c.nickname,
                    current_dest(c),
                    c.session_timeout_secs,
                ) && c2.phase == PhaseView::SwitchOpening(x.0, x.1, Backend::Embedded),
                None => a == SendActionView::StartEmbeddedRouter(embedded_path(c.data_dir)),
            })
            &&& (e == EventView::RouterProbed(true) && c.active == Some(Backend::Embedded)) ==> (a
                == SendActionView::OpenSession(
                socket_addr(c.host, c.sam_port),
                DEFAULT_SAM_UDP@,
                c.nickname,
                current_dest(c),
                c.session_timeout_secs,
            ) && c2.phase == PhaseView::SwitchOpening(
                socket_addr(c.host, c.sam_port),
                DEFAULT_SAM_UDP@,
                Backend::Local,
            ))
            &&& (e matches EventView::EmbeddedStarted(Ok(x)) ==> c2.embedded == Some(x)
                && a == SendActionView::OpenSession(
                x.0,
                x.1,
                c.nickname,
                current_dest(c),
                c.session_timeout_secs,
            ))
            &&& c2.session != c.session ==> (e matches EventView::SessionOpened(Ok(s))
                && c2.session == Some(s) && a == SendActionView::Proceed(true))
            &&& (e matches EventView::SessionOpened(Ok(_)) ==> (c.phase matches PhaseView::SwitchOpening(
                _,
                _,
                b,
            ) && c2.active == Some(b)))
            &&& (e matches EventView::SessionOpened(Err(_)) ==> c2.session == c.session
                && c2.active == c.active && a == SendActionView::Proceed(false))
            &&& (session_tracked(c) ==> session_tracked(c2))
        }),
{
}

/// A destination that a successful start writes is read back, unchanged,
/// from the same file by the next start (base64 destinations carry no
/// surrounding white space).
pub proof fn persisted_destination_is_reused(data_dir: Seq<char>, full_dest: Seq<char>)
    requires
        persist_path(Some(data_dir), full_dest) is Some,
        trim(full_dest) == full_dest,
    ensures
        persist_path(Some(data_dir), full_dest) == Some(dest_path(data_dir)),
        chosen_destination(Some(full_dest)) == full_dest,
{
}

/// Neither an empty nor a transient destination is ever written.
pub proof fn transient_destination_is_not_persisted(data_dir: Option<Seq<char>>)
    ensures
        persist_path(data_dir, TRANSIENT@) is None,
        persist_path(data_dir, Seq::empty()) is None,
{
}

/// Mode names are read regardless of ASCII case and surrounding white space.
pub proof fn mode_ignores_case_and_padding(s: Seq<char>)
    ensures
        mode_of(s) == mode_of(ascii_lowercase(trim(s))),
{
    crate::text::lemma_lower_trim(s);
}

/// A port written in decimal under `ra.i2p.samPort` is the port the client
/// probes and attaches to.
pub proof fn configured_port_is_used(m: Map<Seq<char>, Seq<char>>, port: u16)
    requires
        m.dom().contains("ra.i2p.samPort"@),
        m["ra.i2p.samPort"@] == decimal(port as nat),
    ensures
        client_from_config(m).sam_port == port,
{
    crate::text::decimal_parses_back(port as nat, 65535);
}

/// A timeout written in decimal under `ra.i2p.sessionTimeoutSecs` is the
/// session timeout the client uses.
pub proof fn configured_timeout_is_used(m: Map<Seq<char>, Seq<char>>, secs: u64)
    requires
        m.dom().contains("ra.i2p.sessionTimeoutSecs"@),
        m["ra.i2p.sessionTimeoutSecs"@] == decimal(secs as nat),
    ensures
        client_from_config(m).session_timeout_secs == secs,
{
    crate::text::decimal_parses_back(secs as nat, u64::MAX as nat);
}

/// A client has no destination until a start succeeds.
pub proof fn fresh_client_has_no_session(m: Map<Seq<char>, Seq<char>>)
    ensures
        default_client().session is None,
        client_from_config(m).session is None,
        client_from_config(m).status == Status::Disconnected,
        session_tracked(default_client()),
        session_tracked(client_from_config(m)),
        client_from_config(m).embedded is None,
{
}

/// After a start that opened the session `(full, short)`, the client's own
/// destination is `short`, the one that the session's lookup of `ME` gave.
pub proof fn started_session_gives_local_destination(c: ClientView, full: Seq<char>, short: Seq<char>)
    requires
        c.phase is OpeningSession,
    ensures
        start_step_spec(c, EventView::SessionOpened(Ok((full, short)))).0.session == Some(
            (full, short),
        ),
{
}

} // verus!

verus! {

/// An envelope goes to its non-empty `destination` header whatever its
/// addressee holds; without such a header, to its addressee when that is
/// non-empty; else nowhere.
pub proof fn destination_header_comes_first(
    headers: Map<Seq<char>, Seq<char>>,
    to: Seq<char>,
)
    ensures
        headers.dom().contains("destination"@) && headers["destination"@].len() > 0
            ==> send_destination(headers, to) == Some(headers["destination"@]),
        !(headers.dom().contains("destination"@) && headers["destination"@].len() > 0) ==> (
        if to.len() > 0 {
            send_destination(headers, to) == Some(to)
        } else {
            send_destination(headers, to) is None
        }),
{
}

/// A start that opens its session with a data directory writes the session's
/// full destination to the destination file, on either backend, unless that
/// destination is empty or transient; without a data directory it writes
/// nothing.
pub proof fn successful_start_persists_destination(
    c: ClientView,
    full: Seq<char>,
    short: Seq<char>,
)
    requires
        c.phase is OpeningSession,
    ensures
        ({
            let (c2, a) = start_step_spec(c, EventView::SessionOpened(Ok((full, short))));
            &&& c2.status == Status::Connected
            &&& c2.session == Some((full, short))
            &&& match c.data_dir {
                Some(d) => if full.len() > 0 && full != TRANSIENT@ {
                    a == ActionView::Finish(true, Some((dest_path(d), full)))
                } else {
                    a == ActionView::Finish(true, None)
                },
                None => a == ActionView::Finish(true, None),
            }
        }),
{
}

/// `ra.i2p.samHost` alone decides the host: its value when the key is there,
/// whatever else the configuration holds, and `127.0.0.1` otherwise.
pub proof fn configured_host_is_used(m: Map<Seq<char>, Seq<char>>)
    ensures
        m.dom().contains("ra.i2p.samHost"@) ==> client_from_config(m).host == m["ra.i2p.samHost"@],
        !m.dom().contains("ra.i2p.samHost"@) ==> client_from_config(m).host == DEFAULT_SAM_HOST@,
{
}

/// A probe before a send moves the session only when its backend must
/// change: off the local router when the local bridge is gone, back to it
/// when it answers again. In every other case (a session on the embedded
/// router with still no local bridge, or on the local router whose bridge
/// still answers) the send goes on over the session it has, and nothing
/// changes but the end of the switch.
pub proof fn probe_moves_session_only_when_backend_must_change(c: ClientView, running: bool)
    requires
        c.phase is SwitchProbing,
    ensures
        ({
            let (c2, a) = send_step_spec(c, EventView::RouterProbed(running));
            let must_move = (c.active == Some(Backend::Local) && !running) || (c.active == Some(
                Backend::Embedded,
            ) && running);
            &&& !must_move ==> a == SendActionView::Proceed(false) && c2 == ClientView {
                phase: PhaseView::Idle,
                ..c
            }
            &&& must_move ==> (a is OpenSession || a is StartEmbeddedRouter)
            &&& c.active == Some(Backend::Embedded) ==> a !is StartEmbeddedRouter
            &&& c2.session == c.session && c2.active == c.active && c2.embedded == c.embedded
        }),
{
}

} // verus!

verus! {

/// Each configuration key decides its own setting, whatever the others hold:
/// `ra.i2p.mode` the mode (`Auto` without it), `ra.i2p.nickname` the session
/// nickname (`1m5` without it), `ra.i2p.dataDir` the data directory (none
/// without it); without `ra.i2p.samPort` the port is 7656 and without
/// `ra.i2p.sessionTimeoutSecs` the timeout is 180 seconds. A configured client
/// is disconnected, with no session and no embedded router.
pub proof fn each_config_key_decides_its_setting(m: Map<Seq<char>, Seq<char>>)
    ensures
        ({
            let c = client_from_config(m);
            &&& c.mode == (if m.dom().contains("ra.i2p.mode"@) {
                mode_of(m["ra.i2p.mode"@])
            } else {
                Mode::Auto
            })
            &&& c.nickname == (if m.dom().contains("ra.i2p.nickname"@) {
                m["ra.i2p.nickname"@]
            } else {
                "1m5"@
            })
            &&& c.data_dir == (if m.dom().contains("ra.i2p.dataDir"@) {
                Some(m["ra.i2p.dataDir"@])
            } else {
                None
            })
            &&& !m.dom().contains("ra.i2p.samPort"@) ==> c.sam_port == 7656
            &&& !m.dom().contains("ra.i2p.sessionTimeoutSecs"@) ==> c.session_timeout_secs == 180
            &&& c.status == Status::Disconnected && c.session is None && c.embedded is None
            &&& c.phase is Idle
        }),
{
}

/// A start first probes the local bridge in `Auto` and `Local` mode; in
/// `Embedded` mode it starts the embedded router, or, when one already runs,
/// goes straight on to its addresses. When the local bridge answers, the
/// session is opened on it, at `host:port` and the default UDP address.
pub proof fn start_goes_to_the_router_the_mode_names(c: ClientView)
    ensures
        ({
            let (c2, a) = start_begin_spec(c);
            &&& (c.mode == Mode::Auto || c.mode == Mode::Local) ==> a == ActionView::ProbeLocalRouter
            &&& (c.mode == Mode::Embedded && c.embedded is None) ==> a
                == ActionView::StartEmbeddedRouter(embedded_path(c.data_dir))
            &&& (c.mode == Mode::Embedded && c.embedded is Some) ==> (a is ReadDestination
                || a is OpenSession)
        }),
        c.phase is CheckingLocal ==> ({
            let (c2, a) = start_step_spec(c, EventView::RouterProbed(true));
            match c.data_dir {
                Some(d) => a == ActionView::ReadDestination(dest_path(d)) && c2.phase
                    == PhaseView::ReadingDestination(
                    socket_addr(c.host, c.sam_port),
                    DEFAULT_SAM_UDP@,
                    Backend::Local,
                ),
                None => a == ActionView::OpenSession(
                    socket_addr(c.host, c.sam_port),
                    DEFAULT_SAM_UDP@,
                    c.nickname,
                    TRANSIENT@,
                    c.session_timeout_secs,
                ),
            }
        }),
{
}

} // verus!
