//! The SAMv3 line protocol: reply parsing, result codes, the commands this
//! client sends, and the framing of repliable datagrams.

use vstd::prelude::*;

use crate::map::StringMap;
use crate::text::{
    chars_of, decimal, is_white, is_whitespace, push_char, push_decimal, string_of_range,
    same_text, strip_char, strip_end, strip_start, trim, trim_bounds, trim_end, trim_end_bound,
};
use vstd::utf8::{
    decode_utf8, encode_utf8, encode_utf8_decode_utf8, encode_utf8_valid_utf8, is_ascii_chars,
    is_ascii_chars_encode_utf8, valid_utf8,
};

verus! {

/// The white-space separated words of `s`, as `str::split_whitespace` gives
/// them; `cur` is a word already begun.
pub open spec fn words_from(s: Seq<char>, cur: Seq<char>) -> Seq<Seq<char>>
    decreases s.len(),
{
    if s.len() == 0 {
        if cur.len() > 0 {
            seq![cur]
        } else {
            seq![]
        }
    } else if is_white(s[0]) {
        (if cur.len() > 0 {
            seq![cur]
        } else {
            seq![]
        }) + words_from(s.drop_first(), seq![])
    } else {
        words_from(s.drop_first(), cur.push(s[0]))
    }
}

pub open spec fn words(s: Seq<char>) -> Seq<Seq<char>> {
    words_from(s, seq![])
}

/// The index of the first occurrence of `x` in `s`.
pub open spec fn first_index<T>(s: Seq<T>, x: T) -> Option<nat>
    decreases s.len(),
{
    if s.len() == 0 {
        None
    } else if s[0] == x {
        Some(0)
    } else {
        match first_index(s.drop_first(), x) {
            Some(p) => Some(p + 1),
            None => None,
        }
    }
}

/// The `KEY=VALUE` pair a reply token stands for: split at the first `=`,
/// with double quotes stripped from both ends of the value. `None` for a bare
/// token.
pub open spec fn reply_pair(tok: Seq<char>) -> Option<(Seq<char>, Seq<char>)> {
    match first_index(tok, '=') {
        Some(p) => Some((tok.take(p as int), strip_char(tok.skip(p as int + 1), '"'))),
        None => None,
    }
}

/// The map that the tokens `toks` of a reply line build, a later key
/// replacing an earlier one.
pub open spec fn reply_map(toks: Seq<Seq<char>>) -> Map<Seq<char>, Seq<char>>
    decreases toks.len(),
{
    if toks.len() == 0 {
        Map::empty()
    } else {
        let m = reply_map(toks.drop_last());
        match reply_pair(toks.last()) {
            Some(kv) => m.insert(kv.0, kv.1),
            None => m,
        }
    }
}

proof fn lemma_first_index<T>(s: Seq<T>, x: T, p: int)
    requires
        0 <= p <= s.len(),
        forall|q: int| 0 <= q < p ==> s[q] != x,
        p < s.len() ==> s[p] == x,
    ensures
        first_index(s, x) == (if p < s.len() {
            Some(p as nat)
        } else {
            None::<nat>
        }),
    decreases p,
{
    if p > 0 {
        let t = s.drop_first();
        assert forall|q: int| 0 <= q < p - 1 implies t[q] != x by {
            assert(t[q] == s[q + 1]);
        }
        lemma_first_index(t, x, p - 1);
    }
}

proof fn lemma_strip_start_skip(s: Seq<char>, q: char, i: int)
    requires
        0 <= i < s.len(),
        s[i] == q,
    ensures
        strip_start(s.skip(i), q) == strip_start(s.skip(i + 1), q),
{
    assert(s.skip(i).drop_first() =~= s.skip(i + 1));
}

proof fn lemma_strip_end_take(s: Seq<char>, q: char, j: int)
    requires
        0 < j <= s.len(),
        s[j - 1] == q,
    ensures
        strip_end(s.take(j), q) == strip_end(s.take(j - 1), q),
{
    assert(s.take(j).drop_last() =~= s.take(j - 1));
}

/// The bounds `(a, b)` such that `v[a..b]` is `v[from..to]` with every
/// leading and trailing `q` removed.
fn strip_bounds(v: &Vec<char>, from: usize, to: usize, q: char) -> (r: (usize, usize))
    requires
        from <= to <= v@.len(),
    ensures
        from <= r.0 <= r.1 <= to,
        v@.subrange(r.0 as int, r.1 as int) == strip_char(v@.subrange(from as int, to as int), q),
{
    let ghost s = v@.subrange(from as int, to as int);
    let mut i = from;
    assert(s.skip(0) =~= s);
    while i < to && v[i] == q
        invariant
            from <= i <= to <= v@.len(),
            s == v@.subrange(from as int, to as int),
            strip_start(s, q) == strip_start(s.skip(i - from), q),
        decreases to - i,
    {
        proof {
            lemma_strip_start_skip(s, q, i - from);
        }
        i = i + 1;
    }
    assert(strip_start(s, q) == s.skip(i - from));
    let ghost u = s.skip(i - from);
    let mut j = to;
    assert(u.take(to - i) =~= u);
    while j > i && v[j - 1] == q
        invariant
            from <= i <= j <= to <= v@.len(),
            s == v@.subrange(from as int, to as int),
            u == s.skip(i - from),
            strip_end(u, q) == strip_end(u.take(j - i), q),
        decreases j,
    {
        proof {
            assert(u[j - i - 1] == v@[j - 1]);
            lemma_strip_end_take(u, q, j - i);
        }
        j = j - 1;
    }
    assert(strip_end(u.take(j - i), q) == u.take(j - i));
    assert(u.take(j - i) =~= v@.subrange(i as int, j as int));
    (i, j)
}

/// The pair that the token `v[from..to]` stands for, if any.
fn token_pair(v: &Vec<char>, from: usize, to: usize) -> (r: Option<(String, String)>)
    requires
        from <= to <= v@.len(),
    ensures
        match reply_pair(v@.subrange(from as int, to as int)) {
            Some(kv) => r matches Some(p) && p.0@ == kv.0 && p.1@ == kv.1,
            None => r is None,
        },
{
    let ghost tok = v@.subrange(from as int, to as int);
    let mut p = from;
    while p < to && v[p] != '='
        invariant
            from <= p <= to <= v@.len(),
            tok == v@.subrange(from as int, to as int),
            forall|q: int| 0 <= q < p - from ==> tok[q] != '=',
        decreases to - p,
    {
        p = p + 1;
    }
    proof {
        lemma_first_index(tok, '=', p - from);
    }
    if p == to {
        return None;
    }
    let key = string_of_range(v, from, p);
    let (a, b) = strip_bounds(v, p + 1, to, '"');
    let value = string_of_range(v, a, b);
    assert(tok.take(p - from) =~= v@.subrange(from as int, p as int));
    assert(tok.skip(p - from + 1) =~= v@.subrange(p + 1, to as int));
    Some((key, value))
}

/// Parses a SAM reply line such as `HELLO REPLY RESULT=OK VERSION=3.3` into
/// its `KEY=VALUE` pairs; bare tokens (the command echo) are skipped.
pub fn parse_reply(line: &str) -> (m: StringMap)
    ensures
        m@ == reply_map(words(line@)),
{
    let v = chars_of(line);
    let n = v.len();
    let mut m = StringMap::new();
    let mut start: usize = 0;
    let mut i: usize = 0;
    let ghost mut done: Seq<Seq<char>> = seq![];
    assert(v@.skip(0) =~= v@);
    assert(v@.subrange(0, 0) =~= Seq::<char>::empty());
    while i < n
        invariant
            start <= i <= n == v@.len(),
            v@ == line@,
            words(v@) == done + words_from(v@.skip(i as int), v@.subrange(start as int, i as int)),
            m@ == reply_map(done),
        decreases n - i,
    {
        let ghost cur = v@.subrange(start as int, i as int);
        let ghost rest = v@.skip(i as int);
        assert(rest.drop_first() =~= v@.skip(i + 1));
        assert(rest[0] == v@[i as int]);
        if is_whitespace(v[i]) {
            if start < i {
                let pair = token_pair(&v, start, i);
                proof {
                    let d2 = done.push(cur);
                    assert(d2.drop_last() =~= done);
                    assert(d2.last() == cur);
                }
                match pair {
                    Some(kv) => {
                        m.insert(kv.0, kv.1);
                    },
                    None => {},
                }
                proof {
                    assert(done + words_from(rest, cur) =~= done.push(cur) + words_from(
                        v@.skip(i + 1),
                        seq![],
                    ));
                    done = done.push(cur);
                }
            } else {
                assert(done + words_from(rest, cur) =~= done + words_from(v@.skip(i + 1), seq![]));
            }
            start = i + 1;
            assert(v@.subrange(start as int, start as int) =~= Seq::<char>::empty());
        } else {
            assert(cur.push(v@[i as int]) =~= v@.subrange(start as int, i + 1));
        }
        i = i + 1;
    }
    let ghost cur = v@.subrange(start as int, n as int);
    assert(v@.skip(n as int) =~= Seq::<char>::empty());
    if start < n {
        let pair = token_pair(&v, start, n);
        proof {
            let d2 = done.push(cur);
            assert(d2.drop_last() =~= done);
            assert(d2.last() == cur);
        }
        match pair {
            Some(kv) => {
                m.insert(kv.0, kv.1);
            },
            None => {},
        }
        assert(done + seq![cur] =~= done.push(cur));
    } else {
        assert(done + Seq::<Seq<char>>::empty() =~= done);
    }
    m
}

} // verus!

verus! {

/// Where a local router's SAM bridge listens for control connections.
pub const DEFAULT_SAM_TCP: &'static str = "127.0.0.1:7656";

/// Where a local router's SAM bridge takes repliable datagrams to forward.
pub const DEFAULT_SAM_UDP: &'static str = "127.0.0.1:7655";

/// The lowest SAM version this client asks for.
pub const MIN_VERSION: &'static str = "3.1";

/// The highest SAM version this client asks for.
pub const MAX_VERSION: &'static str = "3.3";

/// How a SAM bridge's refusal is classified, after the `std::io::ErrorKind`
/// that each result code corresponds to.
#[derive(Clone, Copy, Debug, PartialEq, Eq, Structural)]
pub enum SamErrorKind {
    NotFound,
    AlreadyExists,
    InvalidInput,
    TimedOut,
    Unsupported,
    Other,
}

/// An error reported by, or found in a reply of, a SAM bridge.
#[derive(Clone, Debug)]
pub struct SamError {
    pub kind: SamErrorKind,
    pub message: String,
}

impl SamError {
    pub fn kind(&self) -> (k: SamErrorKind)
        ensures
            k == self.kind,
    {
        self.kind
    }
}

/// What `key` maps to in `m`, or `default` when it maps to nothing.
pub open spec fn get_or(m: Map<Seq<char>, Seq<char>>, key: Seq<char>, default: Seq<char>) -> Seq<char> {
    if m.dom().contains(key) {
        m[key]
    } else {
        default
    }
}

/// The `RESULT` code of a reply; a reply without one counts as `OK`.
pub open spec fn result_code(m: Map<Seq<char>, Seq<char>>) -> Seq<char> {
    get_or(m, "RESULT"@, "OK"@)
}

/// The `MESSAGE` of a reply, empty when there is none.
pub open spec fn reply_message(m: Map<Seq<char>, Seq<char>>) -> Seq<char> {
    get_or(m, "MESSAGE"@, Seq::empty())
}

/// The kind of error that a result code signals; `None` for `OK`.
pub open spec fn code_error_kind(code: Seq<char>) -> Option<SamErrorKind> {
    if code == "OK"@ {
        None
    } else if code == "CANT_REACH_PEER"@ || code == "KEY_NOT_FOUND"@ || code == "PEER_NOT_FOUND"@ {
        Some(SamErrorKind::NotFound)
    } else if code == "DUPLICATED_DEST"@ || code == "DUPLICATED_ID"@ {
        Some(SamErrorKind::AlreadyExists)
    } else if code == "INVALID_KEY"@ || code == "INVALID_ID"@ {
        Some(SamErrorKind::InvalidInput)
    } else if code == "TIMEOUT"@ {
        Some(SamErrorKind::TimedOut)
    } else {
        Some(SamErrorKind::Other)
    }
}

/// The text of the error that a failing result code gives: the bridge's
/// message, prefixed with the code itself for codes without a kind.
pub open spec fn code_error_message(code: Seq<char>, message: Seq<char>) -> Seq<char> {
    if code_error_kind(code) == Some(SamErrorKind::Other) {
        "SAM error "@ + code + ": "@ + message
    } else {
        message
    }
}

/// The `MESSAGE` of a reply, or an empty string.
pub fn message(m: &StringMap) -> (s: String)
    ensures
        s@ == reply_message(m@),
{
    match m.get("MESSAGE") {
        Some(s) => s.clone(),
        None => String::new(),
    }
}

/// Maps a reply's `RESULT` code to success or to an error of its kind.
pub fn check_result(m: &StringMap) -> (r: Result<(), SamError>)
    ensures
        match code_error_kind(result_code(m@)) {
            None => r is Ok,
            Some(k) => r matches Err(e) && e.kind == k && e.message@ == code_error_message(
                result_code(m@),
                reply_message(m@),
            ),
        },
{
    let code = match m.get("RESULT") {
        Some(c) => c.clone(),
        None => "OK".to_owned(),
    };
    if same_text(&code, "OK") {
        return Ok(());
    }
    let kind = if same_text(&code, "CANT_REACH_PEER") || same_text(&code, "KEY_NOT_FOUND")
        || same_text(&code, "PEER_NOT_FOUND") {
        SamErrorKind::NotFound
    } else if same_text(&code, "DUPLICATED_DEST") || same_text(&code, "DUPLICATED_ID") {
        SamErrorKind::AlreadyExists
    } else if same_text(&code, "INVALID_KEY") || same_text(&code, "INVALID_ID") {
        SamErrorKind::InvalidInput
    } else if same_text(&code, "TIMEOUT") {
        SamErrorKind::TimedOut
    } else {
        SamErrorKind::Other
    };
    let msg = message(m);
    match kind {
        SamErrorKind::Other => {
            let mut text = String::new();
            text.append("SAM error ");
            text.append(code.as_str());
            text.append(": ");
            text.append(msg.as_str());
            Err(SamError { kind, message: text })
        },
        _ => Err(SamError { kind, message: msg }),
    }
}

} // verus!

verus! {

/// Parses a reply line and maps its result code, as a SAM control
/// connection does for every line it reads back.
pub fn interpret_reply(line: &str) -> (r: Result<StringMap, SamError>)
    ensures
        match code_error_kind(result_code(reply_map(words(line@)))) {
            None => r matches Ok(m) && m@ == reply_map(words(line@)),
            Some(k) => r matches Err(e) && e.kind == k && e.message@ == code_error_message(
                result_code(reply_map(words(line@))),
                reply_message(reply_map(words(line@))),
            ),
        },
{
    let m = parse_reply(line);
    match check_result(&m) {
        Ok(()) => Ok(m),
        Err(e) => Err(e),
    }
}

/// A command line as it goes on the wire: without trailing white space,
/// ended by one newline.
pub fn frame_line(line: &str) -> (s: String)
    ensures
        s@ == trim_end(line@).push('\n'),
{
    let v = chars_of(line);
    let j = trim_end_bound(&v);
    let mut s = string_of_range(&v, 0, j);
    push_char(&mut s, '\n');
    s
}

/// The handshake that opens every control connection.
pub fn hello_command() -> (s: String)
    ensures
        s@ == "HELLO VERSION MIN="@ + MIN_VERSION@ + " MAX="@ + MAX_VERSION@,
{
    let mut s = String::new();
    s.append("HELLO VERSION MIN=");
    s.append(MIN_VERSION);
    s.append(" MAX=");
    s.append(MAX_VERSION);
    s
}

/// Whether a reply says that the bridge supports no version asked for.
pub open spec fn is_noversion(m: Map<Seq<char>, Seq<char>>) -> bool {
    m.dom().contains("RESULT"@) && m["RESULT"@] == "NOVERSION"@
}

/// The outcome of the handshake, given a reply whose result code passed.
pub fn hello_outcome(reply: &StringMap) -> (r: Result<(), SamError>)
    ensures
        if is_noversion(reply@) {
            r matches Err(e) && e.kind == SamErrorKind::Unsupported && e.message@
                == "SAM bridge supports no compatible version"@
        } else {
            r is Ok
        },
{
    match reply.get("RESULT") {
        Some(code) => {
            if same_text(code, "NOVERSION") {
                return Err(
                    SamError {
                        kind: SamErrorKind::Unsupported,
                        message: "SAM bridge supports no compatible version".to_owned(),
                    },
                );
            }
            Ok(())
        },
        None => Ok(()),
    }
}

/// The command that resolves `name` (`ME` for the session's own
/// destination) to a full destination.
pub fn naming_lookup_command(name: &str) -> (s: String)
    ensures
        s@ == "NAMING LOOKUP NAME="@ + name@,
{
    let mut s = String::new();
    s.append("NAMING LOOKUP NAME=");
    s.append(name);
    s
}

/// The destination that a `NAMING REPLY` carries in its `VALUE`.
pub fn naming_lookup_value(reply: &StringMap) -> (r: Result<String, SamError>)
    ensures
        if reply@.dom().contains("VALUE"@) {
            r matches Ok(v) && v@ == reply@["VALUE"@]
        } else {
            r matches Err(e) && e.kind == SamErrorKind::Other && e.message@
                == "NAMING REPLY without VALUE"@
        },
{
    match reply.get("VALUE") {
        Some(v) => Ok(v.clone()),
        None => Err(
            SamError { kind: SamErrorKind::Other, message: "NAMING REPLY without VALUE".to_owned() },
        ),
    }
}

/// Signature type for generated destinations. Ed25519 is the current default.
#[derive(Clone, Copy, Debug, PartialEq, Eq, Structural)]
pub enum SigType {
    EdDsaSha512Ed25519,
    RedDsaSha512Ed25519,
    DsaSha1,
}

/// The name SAM gives each signature type.
pub open spec fn sig_type_name(sig: SigType) -> Seq<char> {
    match sig {
        SigType::EdDsaSha512Ed25519 => "EdDSA_SHA512_Ed25519"@,
        SigType::RedDsaSha512Ed25519 => "RedDSA_SHA512_Ed25519"@,
        SigType::DsaSha1 => "DSA_SHA1"@,
    }
}

impl SigType {
    pub fn as_str(&self) -> (s: &'static str)
        ensures
            s@ == sig_type_name(*self),
    {
        match self {
            SigType::EdDsaSha512Ed25519 => "EdDSA_SHA512_Ed25519",
            SigType::RedDsaSha512Ed25519 => "RedDSA_SHA512_Ed25519",
            SigType::DsaSha1 => "DSA_SHA1",
        }
    }
}

/// The command that asks the bridge for a fresh destination keypair.
pub fn generate_dest_command(sig: SigType) -> (s: String)
    ensures
        s@ == "DEST GENERATE SIGNATURE_TYPE="@ + sig_type_name(sig),
{
    let mut s = String::new();
    s.append("DEST GENERATE SIGNATURE_TYPE=");
    s.append(sig.as_str());
    s
}

/// The `(public destination, private key)` pair of a `DEST REPLY`.
pub fn generated_keys(reply: &StringMap) -> (r: Result<(String, String), SamError>)
    ensures
        if reply@.dom().contains("PUB"@) && reply@.dom().contains("PRIV"@) {
            r matches Ok(p) && p.0@ == reply@["PUB"@] && p.1@ == reply@["PRIV"@]
        } else {
            r matches Err(e) && e.kind == SamErrorKind::Other && e.message@
                == "DEST REPLY missing PUB/PRIV"@
        },
{
    match (reply.get("PUB"), reply.get("PRIV")) {
        (Some(p), Some(s)) => Ok((p.clone(), s.clone())),
        _ => Err(
            SamError {
                kind: SamErrorKind::Other,
                message: "DEST REPLY missing PUB/PRIV".to_owned(),
            },
        ),
    }
}

/// The command that opens a repliable-datagram session named `nickname` on
/// `destination` (`TRANSIENT` or a full private destination), forwarding
/// inbound datagrams to UDP port `udp_port` on the loopback address.
pub fn session_create_command(nickname: &str, destination: &str, udp_port: u16) -> (s: String)
    ensures
        s@ == "SESSION CREATE STYLE=DATAGRAM ID="@ + nickname@ + " DESTINATION="@ + destination@
            + " HOST=127.0.0.1 PORT="@ + decimal(udp_port as nat),
{
    let mut s = String::new();
    s.append("SESSION CREATE STYLE=DATAGRAM ID=");
    s.append(nickname);
    s.append(" DESTINATION=");
    s.append(destination);
    s.append(" HOST=127.0.0.1 PORT=");
    push_decimal(&mut s, udp_port as u64);
    s
}

/// The full destination of a new session: what the bridge's reply names, or
/// the one that was asked for.
pub fn session_destination(reply: &StringMap, requested: &str) -> (s: String)
    ensures
        s@ == get_or(reply@, "DESTINATION"@, requested@),
{
    match reply.get("DESTINATION") {
        Some(d) => d.clone(),
        None => requested.to_owned(),
    }
}

} // verus!

verus! {

/// What `String::from_utf8_lossy` makes of `bytes`.
pub uninterp spec fn utf8_lossy(bytes: Seq<u8>) -> Seq<char>;

/// Calls `String::from_utf8_lossy`. Claimed: the result is `utf8_lossy` of
/// the bytes, and, as the documentation of that function says, valid UTF-8
/// is decoded unchanged. What it puts in place of invalid sequences is left
/// unstated.
#[verifier::external_body]
fn decode_lossy(bytes: &[u8]) -> (s: String)
    ensures
        s@ == utf8_lossy(bytes@),
        valid_utf8(bytes@) ==> s@ == decode_utf8(bytes@),
{
    String::from_utf8_lossy(bytes).into_owned()
}

/// The bytes `b[from..to]`, copied.
fn copy_range(b: &[u8], from: usize, to: usize) -> (v: Vec<u8>)
    requires
        from <= to <= b@.len(),
    ensures
        v@ == b@.subrange(from as int, to as int),
{
    let mut v: Vec<u8> = Vec::new();
    let mut i = from;
    while i < to
        invariant
            from <= i <= to <= b@.len(),
            v@ == b@.subrange(from as int, i as int),
        decreases to - i,
    {
        v.push(b[i]);
        assert(v@ =~= b@.subrange(from as int, i + 1));
        i = i + 1;
    }
    v
}

/// The header line that addresses a repliable datagram to `dest` from the
/// session `nickname`.
pub fn datagram_header(nickname: &str, dest: &str) -> (s: String)
    ensures
        s@ == "3.3 "@ + nickname@ + " "@ + dest@ + "\n"@,
{
    let mut s = String::new();
    s.append("3.3 ");
    s.append(nickname);
    s.append(" ");
    s.append(dest);
    s.append("\n");
    s
}

/// The UDP packet that sends `payload` to `dest` through the bridge: the
/// UTF-8 header line, then the payload unchanged.
pub fn datagram_packet(nickname: &str, dest: &str, payload: &[u8]) -> (p: Vec<u8>)
    ensures
        p@ == encode_utf8("3.3 "@ + nickname@ + " "@ + dest@ + "\n"@) + payload@,
{
    let header = datagram_header(nickname, dest);
    let hb = header.as_str().as_bytes();
    let mut p = copy_range(hb, 0, hb.len());
    let mut i: usize = 0;
    assert(hb@.subrange(0, hb@.len() as int) =~= hb@);
    let ghost start = p@;
    while i < payload.len()
        invariant
            i <= payload@.len(),
            p@ == start + payload@.subrange(0, i as int),
        decreases payload@.len() - i,
    {
        p.push(payload[i]);
        assert(p@ =~= start + payload@.subrange(0, i + 1));
        i = i + 1;
    }
    assert(payload@.subrange(0, payload@.len() as int) =~= payload@);
    p
}

} // verus!

verus! {

/// The text that bytes stand for as `String::from_utf8_lossy` reads them:
/// valid UTF-8 decoded unchanged, anything else as that function makes it.
pub open spec fn lenient_text(b: Seq<u8>) -> Seq<char> {
    if valid_utf8(b) {
        decode_utf8(b)
    } else {
        utf8_lossy(b)
    }
}

/// Where the header line of a forwarded datagram ends: at its first newline,
/// or at 0 when it has none.
pub open spec fn datagram_split(b: Seq<u8>) -> nat {
    match first_index(b, 10u8) {
        Some(p) => p,
        None => 0,
    }
}

/// Splits a datagram forwarded by the bridge, `<from_destination>\n<payload>`,
/// into the sender (decoded leniently and trimmed) and the payload.
pub fn parse_datagram(buf: &[u8]) -> (r: (String, Vec<u8>))
    requires
        buf@.len() > 0,
    ensures
        r.0@ == trim(lenient_text(buf@.take(datagram_split(buf@) as int))),
        r.1@ == buf@.skip(datagram_split(buf@) as int + 1),
{
    let n = buf.len();
    let mut p: usize = 0;
    while p < n && buf[p] != 10u8
        invariant
            p <= n == buf@.len(),
            forall|q: int| 0 <= q < p ==> buf@[q] != 10u8,
        decreases n - p,
    {
        p = p + 1;
    }
    proof {
        lemma_first_index(buf@, 10u8, p as int);
    }
    let split = if p < n {
        p
    } else {
        0
    };
    let head = copy_range(buf, 0, split);
    let from_text = decode_lossy(head.as_slice());
    let fv = chars_of(from_text.as_str());
    let (a, b) = trim_bounds(&fv);
    let from = string_of_range(&fv, a, b);
    let payload = copy_range(buf, split + 1, n);
    assert(buf@.take(split as int) =~= buf@.subrange(0, split as int));
    assert(buf@.skip(split + 1) =~= buf@.subrange(split + 1, n as int));
    (from, payload)
}

} // verus!

verus! {

/// A datagram that the bridge forwards, `<from>\n<payload>`, parts into the
/// sender and the payload, whatever bytes the payload holds, for a sender
/// written in ASCII without a newline (as base64 destinations are).
pub proof fn forwarded_datagram_parts(from: Seq<char>, payload: Seq<u8>)
    requires
        is_ascii_chars(from),
        !from.contains('\n'),
    ensures
        ({
            let b = encode_utf8(from) + seq![10u8] + payload;
            let k = datagram_split(b);
            &&& k == from.len()
            &&& lenient_text(b.take(k as int)) == from
            &&& b.skip(k as int + 1) == payload
        }),
{
    let e = encode_utf8(from);
    let b = e + seq![10u8] + payload;
    is_ascii_chars_encode_utf8(from);
    assert forall|q: int| 0 <= q < from.len() implies b[q] != 10u8 by {
        assert(b[q] == e[q]);
        assert(from[q] as u8 == e[q]);
        assert('\0' <= from[q] <= '\u{7f}');
        if b[q] == 10u8 {
            assert(from[q] == '\n');
            assert(from.contains('\n'));
        }
    }
    assert(b[from.len() as int] == 10u8);
    lemma_first_index(b, 10u8, from.len() as int);
    assert(b.take(from.len() as int) =~= e);
    assert(b.skip(from.len() as int + 1) =~= payload);
    encode_utf8_valid_utf8(from);
    encode_utf8_decode_utf8(from);
}

/// A reply without a `RESULT` code counts as success.
pub proof fn reply_without_result_passes(m: Map<Seq<char>, Seq<char>>)
    requires
        !m.dom().contains("RESULT"@),
    ensures
        code_error_kind(result_code(m)) is None,
{
}

} // verus!

verus! {

/// The handshake is refused exactly when the reply's `RESULT` is
/// `NOVERSION`: the `VERSION` a reply names never matters, and a reply whose
/// `RESULT` is `OK`, or that has none, is accepted.
pub proof fn hello_refused_only_on_noversion(m: Map<Seq<char>, Seq<char>>, v: Seq<char>)
    ensures
        is_noversion(m) <==> (m.dom().contains("RESULT"@) && m["RESULT"@] == "NOVERSION"@),
        is_noversion(m.insert("VERSION"@, v)) == is_noversion(m),
        is_noversion(m.remove("VERSION"@)) == is_noversion(m),
        !m.dom().contains("RESULT"@) ==> !is_noversion(m),
        m.dom().contains("RESULT"@) && m["RESULT"@] == "OK"@ ==> !is_noversion(m),
{
    reveal_strlit("VERSION");
    reveal_strlit("RESULT");
    reveal_strlit("OK");
    reveal_strlit("NOVERSION");
    assert("VERSION"@ != "RESULT"@) by {
        assert("VERSION"@[0] != "RESULT"@[0]);
    }
    assert("OK"@ != "NOVERSION"@) by {
        assert("OK"@.len() != "NOVERSION"@.len());
    }
}

} // verus!

verus! {

/// A reply passes exactly when its `RESULT` is `OK` or missing; every other
/// code is an error.
pub proof fn reply_passes_exactly_on_ok(m: Map<Seq<char>, Seq<char>>)
    ensures
        (code_error_kind(result_code(m)) is None) <==> (!m.dom().contains("RESULT"@) || m["RESULT"@]
            == "OK"@),
{
}

} // verus!
