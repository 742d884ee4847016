//! Core of a code-formatting service: extracting fenced code blocks from
//! message text, resolving language tags to formatting endpoints, planning
//! and aggregating best-effort dispatches, and driving a per-language
//! formatting tool through a normalized error taxonomy.

pub mod adapter;
pub mod block;
pub mod dispatch;
pub mod error;
pub mod language;
pub mod registry;
pub mod text;
