//! A staged-computation runtime: callers build an immutable description of a
//! sequential, possibly failing, possibly environment-dependent computation
//! out of small combinators, and a separate interpreter later drives that
//! description to a terminal outcome — a success value or a declared failure.
//!
//! The description is a tagged instruction tree ([`interpreter::Instr`]).
//! Continuations — functions from a produced value to the next instruction —
//! are first-order data: a code template closed over captured values
//! ([`kleisli::Kleisli`]), applied by instantiation. The interpreter runs a
//! trampolined loop over an explicit continuation stack and an explicit
//! environment stack, so execution depth never grows with chain length.
//!
//! Every construction and execution step is specified against a denotational
//! semantics (`interpreter::eval_instr`); the monad and environment laws of
//! the combinators are proved in [`laws`]; and [`typing`] states the
//! construction-time type discipline as a judgment over instruction trees
//! and proves it sound: a well-typed tree never violates an internal
//! invariant at run time.

pub mod envio;
pub mod interpreter;
pub mod kleisli;
pub mod laws;
pub mod typing;
pub mod value;
