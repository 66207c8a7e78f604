//! The command layer's decisions: a display snapshot of the
//! configuration, and the rule that every operation demands a live
//! client before any request may be issued.
//!
//! The surrounding application keeps the optional client handle behind
//! a mutual-exclusion lock.  It calls `acquire_client` on the guarded
//! contents, holding the lock only for that cheap copy, and performs
//! I/O only when a client was handed out — so with no client present
//! every operation stops here, with `NotInitialized`, before any
//! network call exists to be made.

use vstd::prelude::*;
use crate::client::ProxmoxClient;
use crate::error::ApiError;

verus! {

/// The informational configuration snapshot shown to the caller; not
/// re-validated against the live client.
pub struct ProxmoxConfig {
    pub host: String,
    pub node: String,
}

/// Mathematical model of the display snapshot.
pub ghost struct ConfigModel {
    pub host: Seq<char>,
    pub node: Seq<char>,
}

impl View for ProxmoxConfig {
    type V = ConfigModel;

    open spec fn view(&self) -> ConfigModel {
        ConfigModel { host: self.host@, node: self.node@ }
    }
}

/// The command layer's state: at most one initialized client, absent
/// if construction failed, and the immutable display snapshot.
pub struct CommandState {
    pub client: Option<ProxmoxClient>,
    pub config: ProxmoxConfig,
}

impl CommandState {
    /// Returns the display snapshot; always succeeds and performs no
    /// I/O.
    pub fn get_config(&self) -> (r: ProxmoxConfig)
        ensures
            r@ == self.config@,
    {
        ProxmoxConfig { host: self.config.host.clone(), node: self.config.node.clone() }
    }

    /// Hands out a copy of the live client, or fails with
    /// `NotInitialized` when none is present.  Every container
    /// operation goes through this first; on failure the operation
    /// returns at once and no request is ever described or issued.
    pub fn acquire_client(&self) -> (r: Result<ProxmoxClient, ApiError>)
        ensures
            match self.client {
                Some(c) => r matches Ok(d) && d@ == c@,
                None => r == Err::<ProxmoxClient, ApiError>(ApiError::NotInitialized),
            },
    {
        match &self.client {
            Some(c) => Ok(c.duplicate()),
            None => Err(ApiError::NotInitialized),
        }
    }
}

} // verus!
