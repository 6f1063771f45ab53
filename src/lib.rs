//! Extension manifest store: discovers grammars, languages and themes
//! contributed by extensions, keeps a canonical manifest of them, persists
//! it, and maps file-system changes back to the languages they affect.
//!
//! - `text`, `order`: code-point order on texts and a verified canonical sort.
//! - `manifest`: the manifest's entries, their views and canonical order.
//! - `document`: configuration documents as plain values, read through
//!   `toml` and `serde_json`.
//! - `scan`: a listing of the extensions directory turned into a manifest.
//! - `codec`: the persisted form of a manifest.
//! - `paths`, `watch`: where assets live, and which languages a change touches.
//! - `store`: the current manifest, loading and committing rebuilds.
//! - `palette`, `static_data`, `facepile`: sample UI data.

pub mod codec;
pub mod document;
pub mod facepile;
pub mod manifest;
pub mod order;
pub mod palette;
pub mod paths;
pub mod queries;
pub mod scan;
pub mod static_data;
pub mod store;
pub mod text;
pub mod watch;
