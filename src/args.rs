use vstd::prelude::*;

verus! {

/// Settings of a block replay run.
pub struct Args {
    /// Substrate rpc websocket endpoint.
    pub node_uri: String,
    /// The block number to start to replay at.
    pub start_at: u32,
    /// Bind address for the local HTTP server.
    pub bind_addr: String,
    /// The PostgreSQL database to store the events in; empty for none.
    pub persist_events_to: String,
    /// Take this many blocks as finalized.
    pub assume_finalized: u32,
    /// Blocks between two checkpoints; 0 disables checkpoints.
    pub checkpoint_interval: u32,
    /// The checkpoint file to restore from; by default the latest checkpoint.
    pub restore_from: Option<String>,
}

impl Default for Args {
    fn default() -> (r: Args)
        ensures
            r.node_uri@ == "ws://localhost:9944"@,
            r.start_at == 413895,
            r.bind_addr@ == "127.0.0.1:8080"@,
            r.persist_events_to@ == ""@,
            r.assume_finalized == 0,
            r.checkpoint_interval == 100000,
            r.restore_from is None,
    {
        Args {
            node_uri: "ws://localhost:9944".to_owned(),
            start_at: 413895,
            bind_addr: "127.0.0.1:8080".to_owned(),
            persist_events_to: "".to_owned(),
            assume_finalized: 0,
            checkpoint_interval: 100000,
            restore_from: None,
        }
    }
}

} // verus!
