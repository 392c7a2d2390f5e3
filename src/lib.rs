//! Building blocks of an inline-query bot that looks up Rust packages:
//! markdown escaping and message assembly, package-index paths, the
//! pacing gate for registry requests, and the rendering of a result card.

pub mod util;
pub mod index;
pub mod gate;
pub mod format;
pub mod search;
pub mod card;
