//! The supervisor itself: it plans the launch of the server, tracks the
//! child process handle, fixes the port, and decides what a stop must
//! kill.
//!
//! Spawning and killing the child are outside work. The application asks
//! [`ServerManager::prepare_start`] for a launch command, performs the
//! spawn, reports its outcome to [`ServerManager::start`], and on
//! shutdown kills whatever process id [`ServerManager::stop`] hands back.

use vstd::prelude::*;
use crate::urls::{dec_digits, url_chars, decimal_string, loopback_url};

verus! {

/// The port the launched server is told to bind.
pub const DEFAULT_PORT: u16 = 3000;

/// The first port of the allocator's probe range.
pub const PORT_RANGE_START: u16 = 3456;

/// The number of ports the allocator probes.
pub const PORT_RANGE_LEN: usize = 100;

/// How long the application waits after a spawn before handing control
/// back, to absorb early-exit failures, in milliseconds.
pub const LAUNCH_GRACE_MS: u64 = 2000;

/// The running child process, as the supervisor tracks it: only its
/// process id is kept; the operating-system handle stays with the
/// application.
pub struct ProcessHandle {
    pub pid: u32,
}

/// Why a start was refused.
#[derive(Debug)]
pub enum StartError {
    /// No runtime executable could be located.
    ExecutableNotFound,
    /// The chosen directory does not contain the entry file; the field
    /// holds that directory.
    EntryFileMissing(String),
    /// The operating system refused to spawn the process; the field
    /// holds its reason.
    SpawnFailure(String),
    /// A server is already running under this supervisor.
    AlreadyRunning,
}

impl StartError {
    /// A human-readable description of the failure.
    pub fn message(&self) -> (r: String)
        ensures
            match self {
                StartError::ExecutableNotFound => r@
                    == "Node.js executable not found. Please ensure Node.js is installed."@,
                StartError::EntryFileMissing(dir) => r@ == "server.js not found at "@ + dir@,
                StartError::SpawnFailure(cause) => r@ == "Failed to start server: "@ + cause@,
                StartError::AlreadyRunning => r@ == "Server is already running"@,
            },
    {
        match self {
            StartError::ExecutableNotFound => String::from_str(
                "Node.js executable not found. Please ensure Node.js is installed.",
            ),
            StartError::EntryFileMissing(dir) => {
                let mut s = String::from_str("server.js not found at ");
                s.append(dir.as_str());
                s
            },
            StartError::SpawnFailure(cause) => {
                let mut s = String::from_str("Failed to start server: ");
                s.append(cause.as_str());
                s
            },
            StartError::AlreadyRunning => String::from_str("Server is already running"),
        }
    }
}

/// Everything the application needs to spawn the server: the program to
/// run, its argument, the working directory, the two environment
/// variables to inject, and the port the server is told to use.
#[derive(Debug)]
pub struct LaunchCommand {
    pub program: String,
    pub entry_arg: String,
    pub working_dir: String,
    pub port_env: String,
    pub hostname_env: String,
    pub port: u16,
}

/// Manages the embedded server process.
pub struct ServerManager {
    pub process: Option<ProcessHandle>,
    pub port: u16,
}

/// What `prepare_start` answers, as a relation between the supervisor's
/// state, the facts handed in, and the result.
pub open spec fn prepare_transition(
    m: ServerManager,
    server_path: Seq<char>,
    executable: Option<String>,
    entry_file_present: bool,
    r: Result<LaunchCommand, StartError>,
) -> bool {
    if m.process is Some {
        r == Err::<LaunchCommand, StartError>(StartError::AlreadyRunning)
    } else if executable is None {
        r == Err::<LaunchCommand, StartError>(StartError::ExecutableNotFound)
    } else if !entry_file_present {
        match r {
            Err(StartError::EntryFileMissing(dir)) => dir@ == server_path,
            _ => false,
        }
    } else {
        match r {
            Ok(cmd) => {
                &&& cmd.program == executable->0
                &&& cmd.entry_arg@ == "server.js"@
                &&& cmd.working_dir@ == server_path
                &&& cmd.port_env@ == dec_digits(DEFAULT_PORT as nat)
                &&& cmd.hostname_env@ == "127.0.0.1"@
                &&& cmd.port == DEFAULT_PORT
            },
            Err(_) => false,
        }
    }
}

/// What `start` does to the supervisor, as a relation between the state
/// before, the state after, the spawn outcome, and the result.
pub open spec fn start_transition(
    pre: ServerManager,
    post: ServerManager,
    cmd: LaunchCommand,
    spawn_outcome: Result<u32, String>,
    r: Result<u16, StartError>,
) -> bool {
    if pre.process is Some {
        post == pre && r == Err::<u16, StartError>(StartError::AlreadyRunning)
    } else {
        match spawn_outcome {
            Ok(pid) => {
                &&& post.process == Some(ProcessHandle { pid })
                &&& post.port == cmd.port
                &&& r == Ok::<u16, StartError>(cmd.port)
            },
            Err(cause) => {
                &&& post == pre
                &&& r == Err::<u16, StartError>(StartError::SpawnFailure(cause))
            },
        }
    }
}

/// What `stop` does: the slot is left empty, the port is kept, and the
/// process id to kill — the stored one, if any — is handed back.
pub open spec fn stop_transition(pre: ServerManager, post: ServerManager, r: Option<u32>) -> bool {
    &&& post.process is None
    &&& post.port == pre.port
    &&& r == (match pre.process {
        Some(h) => Some(h.pid),
        None => None::<u32>,
    })
}

impl ServerManager {
    /// Creates a supervisor with no running server.
    pub fn new() -> (r: Self)
        ensures
            r.process is None,
            r.port == 0,
    {
        ServerManager { process: None, port: 0 }
    }

    /// Picks the first free port of the probe range. `reachable[i]`
    /// answers whether a TCP connection to port `PORT_RANGE_START + i`
    /// succeeded — a reachable port is occupied. Returns the first port
    /// whose probe failed, or an exhaustion failure when every port of
    /// the range is occupied.
    pub fn find_available_port(reachable: &Vec<bool>) -> (r: Result<u16, String>)
        requires
            reachable@.len() == PORT_RANGE_LEN,
        ensures
            match r {
                Ok(p) => {
                    &&& PORT_RANGE_START <= p < PORT_RANGE_START + PORT_RANGE_LEN
                    &&& !reachable@[p - PORT_RANGE_START]
                    &&& forall|j: int| 0 <= j < p - PORT_RANGE_START ==> reachable@[j]
                },
                Err(m) => {
                    &&& forall|j: int| 0 <= j < reachable@.len() ==> reachable@[j]
                    &&& m@ == "No available ports found"@
                },
            },
    {
        let mut i: usize = 0;
        while i < PORT_RANGE_LEN
            invariant
                reachable@.len() == PORT_RANGE_LEN,
                i <= PORT_RANGE_LEN,
                forall|j: int| 0 <= j < i ==> reachable@[j],
            decreases PORT_RANGE_LEN - i,
        {
            if !reachable[i] {
                return Ok(PORT_RANGE_START + (i as u16));
            }
            i = i + 1;
        }
        Err(String::from_str("No available ports found"))
    }

    /// Plans a launch. Refuses when a server is already running, when no
    /// executable was located, or when `server_path` does not contain
    /// the entry file (`entry_file_present` answers that); otherwise the
    /// command fixes the program, the entry argument, the working
    /// directory, the injected environment, and the policy port.
    pub fn prepare_start(
        &self,
        server_path: &str,
        executable: Option<String>,
        entry_file_present: bool,
    ) -> (r: Result<LaunchCommand, StartError>)
        ensures
            prepare_transition(*self, server_path@, executable, entry_file_present, r),
    {
        if self.process.is_some() {
            return Err(StartError::AlreadyRunning);
        }
        let program = match executable {
            Some(p) => p,
            None => {
                return Err(StartError::ExecutableNotFound);
            },
        };
        if !entry_file_present {
            return Err(StartError::EntryFileMissing(server_path.to_owned()));
        }
        Ok(
            LaunchCommand {
                program,
                entry_arg: String::from_str("server.js"),
                working_dir: server_path.to_owned(),
                port_env: decimal_string(DEFAULT_PORT),
                hostname_env: String::from_str("127.0.0.1"),
                port: DEFAULT_PORT,
            },
        )
    }

    /// Completes a start: the application spawned `cmd` and reports the
    /// outcome, the child's process id or the spawn failure. On success
    /// the handle is stored and the port returned; on failure nothing is
    /// stored; a start while a server runs is refused.
    pub fn start(&mut self, cmd: &LaunchCommand, spawn_outcome: Result<u32, String>) -> (r: Result<
        u16,
        StartError,
    >)
        ensures
            start_transition(*old(self), *final(self), *cmd, spawn_outcome, r),
    {
        if self.process.is_some() {
            return Err(StartError::AlreadyRunning);
        }
        match spawn_outcome {
            Ok(pid) => {
                self.process = Some(ProcessHandle { pid });
                self.port = cmd.port;
                Ok(cmd.port)
            },
            Err(cause) => Err(StartError::SpawnFailure(cause)),
        }
    }

    /// The server URL, valid after a successful start.
    pub fn get_url(&self) -> (r: String)
        ensures
            r@ == url_chars(self.port),
    {
        loopback_url(self.port)
    }

    /// Stops the server: empties the slot and hands back the process id
    /// the application must kill, or `None` when no server was running.
    pub fn stop(&mut self) -> (r: Option<u32>)
        ensures
            stop_transition(*old(self), *final(self), r),
    {
        match self.process.take() {
            Some(h) => Some(h.pid),
            None => None,
        }
    }
}

/// A launch is refused while the entry file is missing: whatever
/// directory was chosen, `prepare_start` answers an entry-file failure
/// naming it — and hands out no launch command, so nothing is spawned
/// and the slot stays as it was.
pub proof fn lemma_missing_entry_refused(
    m: ServerManager,
    server_path: Seq<char>,
    executable: Option<String>,
    r: Result<LaunchCommand, StartError>,
)
    requires
        m.process is None,
        executable is Some,
        prepare_transition(m, server_path, executable, false, r),
    ensures
        r matches Err(e) && e matches StartError::EntryFileMissing(dir) && dir@ == server_path,
{
}

/// `stop` is idempotent: a second stop, with no start in between, kills
/// nothing further and leaves the supervisor exactly as the first stop
/// left it. In particular a stop before any start kills nothing.
pub proof fn lemma_stop_idempotent(
    s0: ServerManager,
    s1: ServerManager,
    s2: ServerManager,
    r1: Option<u32>,
    r2: Option<u32>,
)
    requires
        stop_transition(s0, s1, r1),
        stop_transition(s1, s2, r2),
    ensures
        r2 is None,
        s2 == s1,
{
}

/// After a successful start the URL is pinned: the port the start
/// returned is the port the supervisor keeps, and `get_url` renders
/// exactly `http://127.0.0.1:` followed by that port in decimal.
pub proof fn lemma_url_after_start(
    pre: ServerManager,
    post: ServerManager,
    cmd: LaunchCommand,
    spawn_outcome: Result<u32, String>,
    r: Result<u16, StartError>,
    p: u16,
)
    requires
        start_transition(pre, post, cmd, spawn_outcome, r),
        r == Ok::<u16, StartError>(p),
    ensures
        post.port == p,
        url_chars(post.port) == "http://127.0.0.1:"@ + dec_digits(p as nat),
{
}

} // verus!
