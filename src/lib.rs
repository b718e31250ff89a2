//! Tracking of cosmic signatures: the signature model, the parser for pasted
//! scanner text, the reconciliation of a new scan with what is already known,
//! and the per-system session state.

pub mod catalogue;
pub mod display;
pub mod laws;
pub mod paste;
pub mod reconcile;
pub mod signature;
pub mod state;
pub mod text;

pub use catalogue::{Config, SystemClassification, WormholeInfo};
pub use display::{highlight_for_system, popup_margin, Highlight};
pub use paste::{parse_paste, ClipboardItem};
pub use reconcile::{merge_signatures, merged_type};
pub use signature::{
    Signature, SignatureId, SignatureType, SignatureWormhole, WormholeLife, WormholeMass,
};
pub use state::{App, Key, KeyOutcome, SignatureTable, ViewMode};
