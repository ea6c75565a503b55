//! The references of an ECMAScript module to other assets.
//!
//! [`module_references`](module_references::module_references) starts a search for them. The
//! search asks for what it cannot find out itself, one [`Action`](exchange::Action) at a time, and
//! goes on with each [`Reply`](exchange::Reply). What it comes to is stated in [`outcome`].
//! [`value_visitor`](value_visitor::value_visitor) works in the same way: it tells the linker of
//! values what is known of each value that it meets.
//!
//! What each operation is for is stated on its own, without the definitions that its contract uses:
//! of calls in [`call_laws`], of the walk over a module in [`walk_laws`], of the search in
//! [`search_laws`], of values in [`value_laws`], and of what contracts can tell apart in
//! [`view_laws`].
pub mod ast;
pub mod call;
pub mod call_laws;
pub mod diagnostic;
pub mod exchange;
pub mod module_references;
pub mod outcome;
pub mod reference;
pub mod search_laws;
pub mod static_analyser;
mod text;
pub mod value;
pub mod value_laws;
pub mod value_visitor;
pub mod vc;
pub mod view_laws;
pub mod visitor;
pub mod walk_laws;
