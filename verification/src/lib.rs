//! Supervision of a bundled web server by a desktop shell: where to find the
//! interpreter, how to launch the server, how long to wait for it, and who
//! owns the child process until shutdown.

pub mod decimal;
pub mod launch;
pub mod node;
pub mod readiness;
pub mod search_path;
pub mod supervisor;
