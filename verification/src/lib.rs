//! A fluent builder for composing SQL statement text from ordered fragments.
//!
//! Statement builders accumulate clause values, raw fragments and sub-queries,
//! and render them deterministically in single-line or multi-line form, with
//! an optional keyword colorization pass over the finished text.

pub mod behavior;
pub mod delete;
pub mod fmt;
pub mod insert;
pub mod select;
pub mod text;
pub mod update;
pub mod values;

pub use delete::DeleteBuilder;
pub use delete::DeleteClause;
pub use fmt::Format;
pub use insert::Insert;
pub use insert::InsertClause;
pub use select::SelectBuilder;
pub use select::SelectClause;
pub use update::Update;
pub use update::UpdateClause;
pub use values::Values;
pub use values::ValuesClause;
