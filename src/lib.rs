//! Rewrites the lines of a crate's documentation into Markdown for a README:
//! code fences are tagged, hidden sample lines dropped and headings demoted.

pub mod extract;
pub mod laws;
pub mod transform;

pub use extract::{doc_comment_text, doc_lines};
pub use transform::{DocTransform, DocTransformer, Section};
