//! A local process supervisor: it selects the directory holding a bundled
//! server, locates a runtime executable, plans the launch of the server as a
//! child process, tracks the process handle, relays the child's output into
//! log records, and decides when the server is ready to answer HTTP requests.
//!
//! All I/O (spawning processes, checking files, TCP probes, HTTP requests)
//! is performed by the embedding application; this crate holds the verified
//! decision logic, working on plain values the application hands in.

pub mod dirs;
pub mod locate;
pub mod probe;
pub mod relay;
pub mod scan;
pub mod manager;
pub mod urls;
