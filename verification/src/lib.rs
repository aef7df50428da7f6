//! A light-client state machine for Tendermint chains.
//!
//! A host chain keeps one trust anchor per client: the last header of the
//! foreign chain that it accepted, with the validator set that must back the
//! next one. `init_client` sets an anchor, `update_client` moves it forward.
//! Headers and validator sets travel as their JSON encodings; the
//! cryptographic checks are those of `tendermint_light_client`.

pub mod client;
mod clock;
pub mod error;
pub mod laws;
pub mod store;
pub mod threshold;
pub mod trust;
pub mod types;

pub use client::{init_client, init_client_at, update_client, update_client_at, Event};
pub use error::{Error, Rejection};
pub use store::ClientStore;
pub use threshold::TrustThresholdFraction;
pub use types::{
    ConsensusState, TMClientInfo, TMClientStorageWrapper, TMCreateClientPayload, TMHeader,
    TMUpdateClientPayload, TendermintClient, TrustedState,
};
