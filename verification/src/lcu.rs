//! League Client (LCU) lockfile parsing and game-flow phases.
use crate::text::{
    chars_of, parse_unsigned, parse_unsigned_exec, push_decimal, split_at_char, split_char,
    string_from_chars, trim, trimmed, char_views, owned, decimal,
};
use crate::payments::commands::push_signed_i64;
use crate::recording::integration_backend::signed_decimal;
use crate::text::push_all;
use vstd::prelude::*;

verus! {

/// Errors of the League client connection.
#[derive(Debug)]
pub enum LcuError {
    /// League client not found.
    ClientNotFound,
    /// Connection error.
    Connection(String),
    /// API error.
    Api(String),
    /// IO error (its message).
    Io(String),
    /// Invalid lockfile format.
    InvalidLockfile,
}

/// Lockfile data parsed from the League client lockfile.
#[derive(Debug)]
pub struct LockfileData {
    pub process_name: String,
    pub pid: u32,
    pub port: u16,
    pub password: String,
    pub protocol: String,
}

/// The fields of a lockfile `ProcessName:PID:PORT:PASSWORD:PROTOCOL`, surrounding
/// whitespace removed: five `:`-separated parts, PID a `u32`, PORT a `u16`.
pub open spec fn parse_lockfile(content: Seq<char>) -> Option<
    (Seq<char>, nat, nat, Seq<char>, Seq<char>),
> {
    let parts = split_char(trim(content), ':');
    if parts.len() != 5 {
        None
    } else {
        match (parse_unsigned(parts[1], 0xffff_ffff), parse_unsigned(parts[2], 0xffff)) {
            (Some(pid), Some(port)) => Some((parts[0], pid, port, parts[3], parts[4])),
            _ => None,
        }
    }
}

impl LockfileData {
    /// Parse lockfile format: ProcessName:PID:PORT:PASSWORD:PROTOCOL
    pub fn parse(content: &str) -> (r: Result<Self, LcuError>)
        ensures
            match parse_lockfile(content@) {
                Some((name, pid, port, password, protocol)) => r matches Ok(d) && d.process_name@
                    == name && d.pid == pid && d.port == port && d.password@ == password
                    && d.protocol@ == protocol,
                None => r matches Err(LcuError::InvalidLockfile),
            },
    {
        let chars = chars_of(content);
        let t = trimmed(chars.as_slice());
        let parts = split_at_char(t.as_slice(), ':');
        proof {
            assert(char_views(parts@).len() == parts@.len());
        }
        if parts.len() != 5 {
            return Err(LcuError::InvalidLockfile);
        }
        proof {
            assert(char_views(parts@)[1] == parts@[1]@);
            assert(char_views(parts@)[2] == parts@[2]@);
            assert(char_views(parts@)[0] == parts@[0]@);
            assert(char_views(parts@)[3] == parts@[3]@);
            assert(char_views(parts@)[4] == parts@[4]@);
        }
        let pid = match parse_unsigned_exec(parts[1].as_slice(), 0xffff_ffff) {
            Some(v) => v as u32,
            None => return Err(LcuError::InvalidLockfile),
        };
        let port = match parse_unsigned_exec(parts[2].as_slice(), 0xffff) {
            Some(v) => v as u16,
            None => return Err(LcuError::InvalidLockfile),
        };
        Ok(LockfileData {
            process_name: string_from_chars(parts[0].as_slice()),
            pid,
            port,
            password: string_from_chars(parts[3].as_slice()),
            protocol: string_from_chars(parts[4].as_slice()),
        })
    }

    /// Base URL of the client API: `https://127.0.0.1:<port>`.
    pub fn base_url(&self) -> (r: String)
        ensures
            r@ == "https://127.0.0.1:"@ + decimal(self.port as nat),
    {
        let mut s = owned("https://127.0.0.1:");
        push_decimal(&mut s, self.port as u64);
        s
    }
}

/// Game flow phase from the LCU API.
#[derive(Debug, Clone, Copy, PartialEq, Eq, Structural)]
pub enum GameFlowPhase {
    /// The client reports no game flow ("None").
    NoPhase,
    Lobby,
    Matchmaking,
    CheckedIntoTournament,
    ReadyCheck,
    ChampSelect,
    GameStart,
    FailedToLaunch,
    InProgress,
    Reconnect,
    WaitingForStats,
    PreEndOfGame,
    EndOfGame,
    TerminatedInError,
}

impl GameFlowPhase {
    /// A game is running in this phase (in progress or reconnecting).
    pub open spec fn is_in_game_spec(self) -> bool {
        self == GameFlowPhase::InProgress || self == GameFlowPhase::Reconnect
    }

    /// Whether a game is running in this phase.
    pub fn is_in_game(&self) -> (r: bool)
        ensures
            r == self.is_in_game_spec(),
    {
        match self {
            GameFlowPhase::InProgress | GameFlowPhase::Reconnect => true,
            _ => false,
        }
    }
}


// ============================================================================
// Locating the client
// ============================================================================

/// A bare Windows drive such as `C:`.
pub open spec fn is_bare_drive(p: Seq<char>) -> bool {
    p.len() == 2 && p[1] == ':' && (('a' <= p[0] && p[0] <= 'z') || ('A' <= p[0] && p[0] <= 'Z'))
}

/// `PathBuf::join` on Windows for a relative part: a `\` goes between them
/// unless the base is empty, ends in a separator, or is a bare drive.
pub open spec fn windows_join(base: Seq<char>, part: Seq<char>) -> Seq<char> {
    if base.len() == 0 || base.last() == '\\' || base.last() == '/' || is_bare_drive(base) {
        base + part
    } else {
        base + "\\"@ + part
    }
}

/// The places the client's lockfile is looked for, in order: the standard
/// install folders, then the one under the local application data folder.
pub open spec fn lockfile_candidate_paths(local_app_data: Option<Seq<char>>) -> Seq<Seq<char>> {
    let fixed = seq![
        "C:\\Riot Games\\League of Legends\\lockfile"@,
        "C:\\Program Files\\Riot Games\\League of Legends\\lockfile"@,
        "C:\\Program Files (x86)\\Riot Games\\League of Legends\\lockfile"@,
    ];
    match local_app_data {
        Some(l) => fixed.push(
            windows_join(windows_join(windows_join(l, "Riot Games"@), "League of Legends"@), "lockfile"@),
        ),
        None => fixed,
    }
}

fn push_windows_part(base: &mut String, part: &str)
    ensures
        final(base)@ == windows_join(old(base)@, part@),
{
    let c = chars_of(base.as_str());
    let n = c.len();
    let bare_drive = n == 2 && c[1] == ':' && (('a' <= c[0] && c[0] <= 'z') || ('A' <= c[0]
        && c[0] <= 'Z'));
    if !(n == 0 || c[n - 1] == '\\' || c[n - 1] == '/' || bare_drive) {
        push_all(base, "\\");
    }
    push_all(base, part);
}

/// The lockfile paths to try, given the local application data folder if the
/// environment names one.
pub fn lockfile_candidates(local_app_data: Option<&str>) -> (r: Vec<String>)
    ensures
        r@.map_values(|p: String| p@) == lockfile_candidate_paths(
            match local_app_data {
                Some(l) => Some(l@),
                None => None,
            },
        ),
{
    let mut v: Vec<String> = Vec::new();
    v.push(owned("C:\\Riot Games\\League of Legends\\lockfile"));
    v.push(owned("C:\\Program Files\\Riot Games\\League of Legends\\lockfile"));
    v.push(owned("C:\\Program Files (x86)\\Riot Games\\League of Legends\\lockfile"));
    match local_app_data {
        Some(l) => {
            let mut p = owned(l);
            push_windows_part(&mut p, "Riot Games");
            push_windows_part(&mut p, "League of Legends");
            push_windows_part(&mut p, "lockfile");
            v.push(p);
        },
        None => {},
    }
    assert(v@.map_values(|p: String| p@) =~= lockfile_candidate_paths(
        match local_app_data {
            Some(l) => Some(l@),
            None => None,
        },
    ));
    v
}

// ============================================================================
// Game sessions
// ============================================================================

/// Game data of a session. The game time is in milliseconds.
#[derive(Debug)]
pub struct GameData {
    pub game_id: i64,
    pub game_mode: String,
    pub game_time_ms: u64,
}

/// The session the client reports: its phase and, in a game, the game's data.
#[derive(Debug)]
pub struct GameSession {
    pub phase: GameFlowPhase,
    pub game_data: Option<GameData>,
}

/// The game being played. The game time is in milliseconds.
#[derive(Debug)]
pub struct GameInfo {
    pub game_id: String,
    pub champion: String,
    pub game_mode: String,
    pub game_time_ms: u64,
}

/// Connection to the League client: the lockfile read and whether an HTTP
/// client was built for it.
pub struct LcuClient {
    lockfile_data: Option<LockfileData>,
    has_http_client: bool,
}

impl LcuClient {
    /// The lockfile data, when connected.
    pub closed spec fn lockfile(self) -> Option<LockfileData> {
        self.lockfile_data
    }

    /// A client that is not connected.
    pub fn new() -> (r: Self)
        ensures
            r.lockfile() is None,
            !r.connected(),
    {
        LcuClient { lockfile_data: None, has_http_client: false }
    }

    /// Both the lockfile and an HTTP client are present.
    pub closed spec fn connected(self) -> bool {
        self.lockfile_data is Some && self.has_http_client
    }

    /// Whether the client is connected.
    pub fn is_connected(&self) -> (r: bool)
        ensures
            r == self.connected(),
    {
        self.lockfile_data.is_some() && self.has_http_client
    }

    /// Records a connection made with this lockfile and a fresh HTTP client.
    pub fn attach(&mut self, lockfile: LockfileData)
        ensures
            final(self).lockfile() == Some(lockfile),
            final(self).connected(),
    {
        self.lockfile_data = Some(lockfile);
        self.has_http_client = true;
    }

    /// Base URL of the client's API, from the lockfile's port.
    pub fn get_base_url(&self) -> (r: Result<String, LcuError>)
        ensures
            match self.lockfile() {
                Some(l) => (r matches Ok(u) && u@ == "https://127.0.0.1:"@ + decimal(l.port as nat)),
                None => (r matches Err(LcuError::Connection(m)) && m@ == "Not connected"@),
            },
    {
        match &self.lockfile_data {
            Some(l) => Ok(l.base_url()),
            None => Err(LcuError::Connection(owned("Not connected"))),
        }
    }

    /// The game in a session: present while a game is in progress or being
    /// reconnected to and the session carries its data; the champion is not
    /// known from the session.
    pub fn current_game(session: GameSession) -> (r: Option<GameInfo>)
        ensures
            match session.game_data {
                Some(d) => if session.phase.is_in_game_spec() {
                    r matches Some(g) && g.game_id@ == signed_decimal(d.game_id as int)
                        && g.champion@ == "Unknown"@ && g.game_mode == d.game_mode
                        && g.game_time_ms == d.game_time_ms
                } else {
                    r is None
                },
                None => r is None,
            },
    {
        if !session.phase.is_in_game() {
            return None;
        }
        match session.game_data {
            Some(d) => {
                let mut id = String::new();
                push_signed_i64(&mut id, d.game_id);
                Some(
                    GameInfo {
                        game_id: id,
                        champion: owned("Unknown"),
                        game_mode: d.game_mode,
                        game_time_ms: d.game_time_ms,
                    },
                )
            },
            None => None,
        }
    }
}

} // verus!
