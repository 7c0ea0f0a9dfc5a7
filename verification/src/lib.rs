//! A scripted command/response driver for devices reachable over a serial
//! link or a TCP socket.  Scenario files describe ordered commands; an
//! executor replays them against a transport-owning runner over a typed
//! message bus, with bounded waits and a single failure-escalation path.

pub mod connection;
pub mod interaction;
pub mod threads;
