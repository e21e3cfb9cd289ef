//! Client-side core of a record-store CRUD library.
//!
//! The verified core covers the request-orchestration logic: building the
//! request URLs, classifying decoded response envelopes, and planning the
//! composite operations (`list_all`, `delete_all`, `update_or_create`) that
//! sequence primitive REST calls. The HTTP transport itself lives outside
//! the library.

pub mod encode;
pub mod envelope;
pub mod numeral;
pub mod ops;
pub mod table;

pub use envelope::Envelope;
pub use envelope::Item;
pub use envelope::Verdict;
pub use ops::DeleteAllStep;
pub use ops::ListAllStep;
pub use ops::UpsertStep;
pub use table::Collection;
pub use table::Table;
