//! Context questions for a JavaScript / TypeScript lexer.
//!
//! A lexer that finds token boundaries before it knows the grammar has to answer a few questions
//! from context: does this `/` start a regular expression or divide, does this `<` open a type list
//! or compare, how many `>` of a `>>` close one? This crate answers them on a lex in progress (see
//! [`cx::Cx`]), and every answer is specified: the pushdown walk is the state machine
//! [`state::State`], the local rules are the functions of [`rules`].
//!
//! What the answers are for is stated as laws: of the walk in [`strides`], [`bodies`],
//! [`annotations`], [`clauses`] and [`constructs`], of the rules in [`openers`] and [`readings`],
//! of lists of types in [`lists`] and [`spans`], of regular expressions in [`positions`], of
//! bounded walks in [`seeds`], [`starts`], [`alike`] and [`laws`], of bytes and words in
//! [`alphabet`].

pub mod alike;
pub mod alphabet;
pub mod anchor;
pub mod annotations;
pub mod approach;
pub mod bitmap;
pub mod bodies;
pub mod bytes;
pub mod clauses;
pub mod constructs;
pub mod cx;
pub mod delim;
pub mod entries;
pub mod frame;
pub mod laws;
pub mod leaf;
pub mod lists;
pub mod names;
pub mod openers;
pub mod operator;
pub mod ops;
pub mod plant;
pub mod positions;
pub mod query;
pub mod readings;
pub mod rules;
pub mod scans;
pub mod seed;
pub mod seeds;
pub mod seek;
pub mod session;
pub mod spans;
pub mod starts;
pub mod state;
pub mod step;
pub mod strides;
pub mod sweep;
pub mod tables;
pub mod token;
pub mod trail;
pub mod typelist;
pub mod walk;
pub mod words;
