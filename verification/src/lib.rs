//! A multi-party transaction-authorization engine.
//!
//! A group of designated owners jointly controls a shared authority: any
//! action taken under that authority needs a quorum of owner approvals and,
//! optionally, a minimum waiting period before it can take effect. The
//! library holds the records (`state`), the group-management operations
//! (`group`), the proposal/approval/execution state machine (`proposal`),
//! the record-sizing arithmetic (`space`), and the proved laws that tie the
//! operations together (`laws`). The host runtime that persists records,
//! authenticates callers, supplies the clock and dispatches the approved
//! actions sits outside this crate and hands every operation plain values.

pub mod group;
pub mod laws;
pub mod proposal;
pub mod space;
pub mod state;
