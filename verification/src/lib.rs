//! The logic of an NTS key establishment (NTS-KE) server connection.
//!
//! A connection carries a TLS session. The client sends a request over it, and the server answers
//! one good request, with the cookies and the port that the client needs to ask for the time. This
//! library decides what happens to a connection, and builds the response. Moving bytes between the
//! TLS session and a socket is left to its user.

pub mod config;
pub mod connection;
pub mod framing;
pub mod laws;
pub mod poll;
pub mod read;
pub mod record;
pub mod request;
pub mod response;
pub mod schedule;
pub mod state;
pub mod tls;

pub use config::{server_config, ConfigError};
pub use connection::{KeServerConn, KeServerState};
pub use read::{ReadEvent, ReadOutcome};
pub use record::{serialize_record, NtsKeRecord, NtsKeType};
pub use request::{is_good_request, take_request};
pub use response::{assemble_response, response, MasterKey, NTSKeys};
pub use schedule::{ReadyStep, Registration};
pub use state::KeServerConnState;
