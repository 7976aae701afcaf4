//! Backing store of a single-document text editor: the document's path and
//! buffered contents, the policy that decides between disk access and the
//! in-memory buffer, and the laws that policy obeys.

pub mod file;
pub mod laws;
