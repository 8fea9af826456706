//! Verified core of a multi-source song-catalog synchronizer.
//!
//! Each supported music service ("source") exposes a remote song list in its
//! own wire format.  This library holds everything about a synchronization
//! run that can be stated and proved: decoding source-specific sentinel
//! tokens, normalizing raw records into canonical songs, checking that the
//! declared category taxonomy matches the categories the songs actually use,
//! comparing a freshly built snapshot against the previously persisted one,
//! and reassembling concurrently fetched pages into a deterministic order.
//! Network and filesystem work lives outside the library and hands in plain
//! values.

pub mod chunithm;
pub mod extractors;
pub mod maimai;
pub mod ongeki;
pub mod orchestrator;
pub mod polarischord;
pub mod shared;
pub mod soundvoltex;
