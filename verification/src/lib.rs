//! Single-writer state-dispatch runtime: an append-only source chain, a pure
//! reducer applied by one dispatch loop, observer tick notifications, a
//! cooperative future-bridging executor, and a scheduled retry pass for
//! pending validation work.

pub mod action;
pub mod bridge;
pub mod capability;
pub mod channels;
pub mod context;
pub mod dispatch;
pub mod reducer;
pub mod scheduled_jobs;
pub mod state;
pub mod state_dump;
pub mod store;
pub mod sync;
pub mod types;
