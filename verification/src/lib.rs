//! A primer in small verified pieces.
//!
//! The centre piece is [`cacher`], a memoizing cache around a computation,
//! with the laws that make it one. Around it stand the rules of a guessing
//! game, helpers for texts, lists and tables, and a number of short functions
//! on structs, enums, traits and references. Every function states what it
//! returns or changes, and the statement is proved. The one exception is the
//! draw of a random number in [`guessing_game`], which is taken on trust and
//! says so.
pub mod cacher;
pub mod closures;
pub mod control_flow;
pub mod control_flow_if_let;
pub mod data_types;
pub mod decimal;
pub mod defining_instantiating_structs;
pub mod error_handling2;
pub mod error_handling;
pub mod functions;
pub mod generic_data_types;
pub mod generic_types_traits_lifetimes_intro;
pub mod guessing_game;
pub mod hash_maps;
pub mod iterators;
pub mod match_operator;
pub mod match_option_t;
pub mod rectangles;
pub mod references_borrowing;
pub mod sequences;
pub mod slice_type;
pub mod strings;
pub mod struct_method_syntax;
pub mod text;
pub mod traits;
pub mod validating_references_with_lifetimes;
pub mod vectors;
pub mod what_is_ownership;
