//! The semantic core of an incremental source-code analysis engine: syntax
//! trees and stable pointers into them, the crate graph, the lowering of
//! function bodies to an arena of expressions and patterns, and the
//! per-module index of impl blocks.

pub mod syntax_kind;
pub mod text_range;
pub mod syntax;
pub mod tree_builder;
pub mod syntax_ptr;
pub mod fx;
pub mod input;
pub mod ast;
pub mod text;
pub mod name;
pub mod path;
pub mod type_ref;
pub mod ptr_map;
pub mod expr;
pub mod lower_spec;
pub mod lower;
pub mod body;
pub mod lower_laws;
pub mod completion;
pub mod complete_keyword;
pub mod ids;
pub mod impl_block;
pub mod nameres;
pub mod query_definitions;
pub mod adt;
pub mod conv;
