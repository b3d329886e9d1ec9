//! Decision logic of an interactive client for a game server's RPC endpoint:
//! the list of RPC names offered to the operator, the JSON payload templates,
//! the payload editor's accept-or-retry rule, the request that is sent, the
//! handling of the response, and the session's stage machine.

pub mod text;
pub mod json;
pub mod templates;
pub mod editor;
pub mod selector;
pub mod dispatch;
pub mod session;
