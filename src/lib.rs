//! Build SQL statements (`SELECT`, `INSERT`, `UPDATE`, `DELETE`) as typed value trees and
//! render them to SQL text.
//!
//! Every value renders through [`render::Render`], whose contract states the exact text as a
//! specification function. Expressions are parenthesised by a precedence table; repeated
//! builder calls on one clause append, merge with `AND`, or replace, by the clause's kind.

pub mod clause;
pub mod expr;
pub mod grouping;
pub mod item;
pub mod ops;
pub mod render;
pub mod stmt;
pub mod value;

pub use stmt::delete::delete;
pub use stmt::insert::insert;
pub use stmt::select::select;
pub use stmt::update::update;
