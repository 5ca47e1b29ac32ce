//! Verified core of a small interactive shell.
//!
//! The library models the command execution engine: assembling logical
//! lines, collecting here-documents, planning the file-descriptor wiring
//! of a pipeline, choosing how each stage is dispatched, and deriving the
//! exit status of a whole pipeline.  The surrounding process — terminal
//! and file input, forking, descriptor duplication, signal installation —
//! lives outside the library and consumes the plans and decisions
//! produced here.

pub mod assemble;
pub mod dispatch;
pub mod heredoc;
pub mod pipeline;
pub mod session;
pub mod status;
pub mod text;
pub mod token;
