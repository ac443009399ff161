//! The browser preview pane, driven through the `agent-browser` daemon: its
//! state, where the daemon's files live, the start-up poll, the request ids
//! and the stream port file. Processes, sockets and files are the caller's
//! part.
use vstd::prelude::*;
use crate::text::{decimal, join_path, path_join, push_decimal, trim_bounds, trimmed};
use crate::socket::opt_view;

verus! {

/// Preview pane state tracked by the browser manager.
#[derive(Debug, Clone, PartialEq, Eq)]
pub enum PreviewState {
    Empty,
    Loading,
    Connected,
    Streaming,
    Error(String),
}

/// How many times the start-up of the daemon is polled before giving up.
pub const DAEMON_POLL_LIMIT: u32 = 50;
/// The pause before each poll of the daemon's socket, in milliseconds.
pub const DAEMON_POLL_INTERVAL_MS: u64 = 200;

/// The browser manager's own state: the daemon session it talks to (one
/// daemon per cmux instance) and the preview pane state.
#[derive(Debug)]
pub struct BrowserManager {
    pub session_name: String,
    pub preview_state: PreviewState,
}

/// What a poll of the starting daemon decided.
#[derive(Debug, Clone, Copy, PartialEq, Eq, Structural)]
pub enum DaemonPoll {
    /// The daemon answers; the preview is connected.
    Ready,
    /// Not yet; sleep and poll again.
    KeepWaiting,
    /// The last allowed poll failed: the daemon did not start in time.
    TimedOut,
}

/// The daemon's socket directory, given the values of
/// `AGENT_BROWSER_SOCKET_DIR`, `XDG_RUNTIME_DIR` and `HOME` (`None` when
/// unset) and the system's temporary directory: the first variable when set
/// and not empty, else `agent-browser` under the second when set and not
/// empty, else `.agent-browser` under the home directory when set, else
/// `agent-browser` under the temporary directory.
pub open spec fn socket_dir_for(
    socket_dir: Option<Seq<char>>,
    runtime_dir: Option<Seq<char>>,
    home: Option<Seq<char>>,
    temp_dir: Seq<char>,
) -> Seq<char> {
    if socket_dir is Some && socket_dir->0.len() > 0 {
        socket_dir->0
    } else if runtime_dir is Some && runtime_dir->0.len() > 0 {
        join_path(runtime_dir->0, "agent-browser"@)
    } else if home is Some {
        join_path(home->0, ".agent-browser"@)
    } else {
        join_path(temp_dir, "agent-browser"@)
    }
}

/// The daemon's socket directory (see `socket_dir_for`).
pub fn agent_browser_socket_dir(
    socket_dir: Option<&str>,
    runtime_dir: Option<&str>,
    home: Option<&str>,
    temp_dir: &str,
) -> (dir: String)
    ensures
        dir@ == socket_dir_for(opt_view(socket_dir), opt_view(runtime_dir), opt_view(home), temp_dir@),
{
    if let Some(d) = socket_dir {
        if d.unicode_len() > 0 {
            return String::from_str(d);
        }
    }
    if let Some(d) = runtime_dir {
        if d.unicode_len() > 0 {
            return path_join(d, "agent-browser");
        }
    }
    if let Some(h) = home {
        return path_join(h, ".agent-browser");
    }
    path_join(temp_dir, "agent-browser")
}

impl BrowserManager {
    /// A manager for the `cmux` daemon session with an empty preview.
    pub fn new() -> (m: Self)
        ensures
            m.session_name@ == "cmux"@,
            m.preview_state == PreviewState::Empty,
    {
        BrowserManager { session_name: String::from_str("cmux"), preview_state: PreviewState::Empty }
    }

    /// The daemon's socket, `<session>.sock` in the socket directory `dir`.
    pub fn daemon_socket_path(&self, dir: &str) -> (path: String)
        ensures
            path@ == join_path(dir@, self.session_name@ + ".sock"@),
    {
        let mut file = self.session_name.clone();
        file.append(".sock");
        path_join(dir, file.as_str())
    }

    /// The file holding the daemon's stream port, `<session>.stream` in the
    /// socket directory `dir`.
    pub fn stream_port_path(&self, dir: &str) -> (path: String)
        ensures
            path@ == join_path(dir@, self.session_name@ + ".stream"@),
    {
        let mut file = self.session_name.clone();
        file.append(".stream");
        path_join(dir, file.as_str())
    }

    /// Records poll number `poll` (from 1) of a starting daemon, after a
    /// pause of `DAEMON_POLL_INTERVAL_MS`: when the daemon answers the
    /// preview becomes connected; otherwise the caller polls again, until
    /// `DAEMON_POLL_LIMIT` polls have failed.
    pub fn record_daemon_poll(&mut self, poll: u32, ready: bool) -> (r: DaemonPoll)
        requires
            1 <= poll <= DAEMON_POLL_LIMIT,
        ensures
            final(self).session_name == old(self).session_name,
            ready ==> r == DaemonPoll::Ready && final(self).preview_state == PreviewState::Connected,
            !ready ==> final(self).preview_state == old(self).preview_state,
            !ready && poll < DAEMON_POLL_LIMIT ==> r == DaemonPoll::KeepWaiting,
            !ready && poll == DAEMON_POLL_LIMIT ==> r == DaemonPoll::TimedOut,
    {
        if ready {
            self.preview_state = PreviewState::Connected;
            DaemonPoll::Ready
        } else if poll < DAEMON_POLL_LIMIT {
            DaemonPoll::KeepWaiting
        } else {
            DaemonPoll::TimedOut
        }
    }
}

/// The id of request number `n`: "cmux-n".
pub fn request_id(n: u64) -> (id: String)
    ensures
        id@ == "cmux-"@ + decimal(n as nat),
{
    let mut id = String::from_str("cmux-");
    push_decimal(&mut id, n);
    id
}

/// Why a text is not a `u16`: the kinds `str::parse::<u16>` reports.
#[derive(Debug, Clone, Copy, PartialEq, Eq, Structural)]
pub enum PortParseError {
    /// The text is empty.
    Empty,
    /// A character is not a decimal digit.
    InvalidDigit,
    /// The number is above 65535.
    PosOverflow,
}

/// The message `ParseIntError` displays for each kind.
pub open spec fn parse_error_message(e: PortParseError) -> Seq<char> {
    match e {
        PortParseError::Empty => "cannot parse integer from empty string"@,
        PortParseError::InvalidDigit => "invalid digit found in string"@,
        PortParseError::PosOverflow => "number too large to fit in target type"@,
    }
}

/// Whether `c` is a decimal digit.
pub open spec fn is_decimal_digit(c: char) -> bool {
    '0' <= c && c <= '9'
}

/// Reads the digits `s` left to right onto `acc`: the first non-digit gives
/// `InvalidDigit`, and passing 65535 gives `PosOverflow`, whichever comes
/// first.
pub open spec fn read_digits(s: Seq<char>, acc: nat) -> Result<nat, PortParseError>
    decreases s.len(),
{
    if s.len() == 0 {
        Ok(acc)
    } else if !is_decimal_digit(s[0]) {
        Err(PortParseError::InvalidDigit)
    } else {
        let v = acc * 10 + (s[0] as u32 - '0' as u32);
        if v > u16::MAX {
            Err(PortParseError::PosOverflow)
        } else {
            read_digits(s.drop_first(), v as nat)
        }
    }
}

/// What `str::parse::<u16>` gives for `s`: empty text is an error, a
/// single leading '+' is allowed before at least one more character, and
/// the rest must be decimal digits whose value fits.
pub open spec fn parse_u16(s: Seq<char>) -> Result<nat, PortParseError> {
    if s.len() == 0 {
        Err(PortParseError::Empty)
    } else if s.len() == 1 && (s[0] == '+' || s[0] == '-') {
        Err(PortParseError::InvalidDigit)
    } else if s[0] == '+' {
        read_digits(s.drop_first(), 0)
    } else {
        read_digits(s, 0)
    }
}

/// Parses `text` as `str::parse::<u16>` does.
pub fn parse_port(text: &str) -> (r: Result<u16, PortParseError>)
    ensures
        match r {
            Ok(v) => parse_u16(text@) == Ok::<nat, PortParseError>(v as nat),
            Err(e) => parse_u16(text@) == Err::<nat, PortParseError>(e),
        },
{
    let n = text.unicode_len();
    if n == 0 {
        return Err(PortParseError::Empty);
    }
    let first = text.get_char(0);
    if n == 1 && (first == '+' || first == '-') {
        return Err(PortParseError::InvalidDigit);
    }
    let mut i: usize = if first == '+' { 1 } else { 0 };
    let ghost digits = text@.subrange(i as int, n as int);
    proof {
        if first == '+' {
            assert(digits =~= text@.drop_first());
        } else {
            assert(digits =~= text@);
        }
        assert(parse_u16(text@) == read_digits(digits, 0));
        assert(text@.subrange(i as int, n as int) == digits);
    }
    let mut acc: u32 = 0;
    while i < n
        invariant
            n == text@.len(),
            i <= n,
            acc <= u16::MAX,
            parse_u16(text@) == read_digits(digits, 0),
            read_digits(digits, 0) == read_digits(text@.subrange(i as int, n as int), acc as nat),
        decreases n - i,
    {
        let c = text.get_char(i);
        assert(text@.subrange(i as int, n as int)[0] == c);
        assert(text@.subrange(i as int, n as int).drop_first() =~= text@.subrange(i + 1, n as int));
        if !('0' <= c && c <= '9') {
            return Err(PortParseError::InvalidDigit);
        }
        let v = acc * 10 + (c as u32 - '0' as u32);
        if v > 65535 {
            return Err(PortParseError::PosOverflow);
        }
        acc = v;
        i = i + 1;
    }
    assert(text@.subrange(n as int, n as int).len() == 0);
    Ok(acc as u16)
}

/// The stream port written in the port file `content`: the trimmed text
/// parsed as a `u16`, or the message "Failed to parse stream port
/// '<trimmed text>': <reason>".
pub fn stream_port_from_text(content: &str) -> (r: Result<u16, String>)
    ensures
        match parse_u16(trimmed(content@)) {
            Ok(v) => r == Ok::<u16, String>(v as u16),
            Err(e) => r is Err && r->Err_0@ == "Failed to parse stream port '"@ + trimmed(content@)
                + "': "@ + parse_error_message(e),
        },
{
    let (start, end) = trim_bounds(content);
    let text = content.substring_char(start, end);
    match parse_port(text) {
        Ok(port) => Ok(port),
        Err(e) => {
            let mut msg = String::from_str("Failed to parse stream port '");
            msg.append(text);
            msg.append("': ");
            let reason = match e {
                PortParseError::Empty => "cannot parse integer from empty string",
                PortParseError::InvalidDigit => "invalid digit found in string",
                PortParseError::PosOverflow => "number too large to fit in target type",
            };
            msg.append(reason);
            Err(msg)
        },
    }
}

/// The pieces of `s` between ':' separators, in order (what
/// `str::split(':')` yields; empty pieces included).
pub open spec fn colon_pieces(s: Seq<char>) -> Seq<Seq<char>>
    decreases s.len(),
{
    if s.len() == 0 {
        seq![Seq::<char>::empty()]
    } else {
        let rest = colon_pieces(s.drop_last());
        if s.last() == ':' {
            rest.push(Seq::<char>::empty())
        } else {
            rest.update(rest.len() - 1, rest.last().push(s.last()))
        }
    }
}

proof fn lemma_colon_pieces_nonempty(s: Seq<char>)
    ensures
        colon_pieces(s).len() >= 1,
    decreases s.len(),
{
    if s.len() > 0 {
        lemma_colon_pieces_nonempty(s.drop_last());
    }
}

/// Where an `agent-browser` binary is looked for along `$PATH`: the file
/// `agent-browser` in each directory of `path_var`, in order.
pub fn agent_browser_candidates(path_var: &str) -> (c: Vec<String>)
    ensures
        c@.len() == colon_pieces(path_var@).len(),
        forall|k: int|
            0 <= k < c@.len() ==> (#[trigger] c@[k])@ == join_path(
                colon_pieces(path_var@)[k],
                "agent-browser"@,
            ),
{
    let n = path_var.unicode_len();
    let mut pieces: Vec<String> = Vec::new();
    let mut current = String::new();
    let mut i: usize = 0;
    assert(path_var@.subrange(0, 0) =~= Seq::<char>::empty());
    while i < n
        invariant
            n == path_var@.len(),
            i <= n,
            colon_pieces(path_var@.subrange(0, i as int)).len() == pieces@.len() + 1,
            forall|k: int|
                0 <= k < pieces@.len() ==> (#[trigger] pieces@[k])@ == colon_pieces(
                    path_var@.subrange(0, i as int),
                )[k],
            current@ == colon_pieces(path_var@.subrange(0, i as int)).last(),
        decreases n - i,
    {
        let c = path_var.get_char(i);
        let ghost prefix = path_var@.subrange(0, i + 1);
        proof {
            assert(prefix.drop_last() =~= path_var@.subrange(0, i as int));
            assert(prefix.last() == c);
            lemma_colon_pieces_nonempty(prefix.drop_last());
        }
        if c == ':' {
            let done = current;
            pieces.push(done);
            current = String::new();
        } else {
            current.append(path_var.substring_char(i, i + 1));
            assert(path_var@.subrange(i as int, i + 1) =~= seq![c]);
        }
        i = i + 1;
    }
    assert(path_var@.subrange(0, n as int) =~= path_var@);
    pieces.push(current);
    let mut out: Vec<String> = Vec::new();
    let mut k: usize = 0;
    while k < pieces.len()
        invariant
            k <= pieces@.len(),
            pieces@.len() == colon_pieces(path_var@).len(),
            forall|j: int| 0 <= j < pieces@.len() ==> (#[trigger] pieces@[j])@ == colon_pieces(path_var@)[j],
            out@.len() == k,
            forall|j: int|
                0 <= j < k ==> (#[trigger] out@[j])@ == join_path(colon_pieces(path_var@)[j], "agent-browser"@),
        decreases pieces@.len() - k,
    {
        out.push(path_join(pieces[k].as_str(), "agent-browser"));
        k = k + 1;
    }
    out
}

} // verus!
