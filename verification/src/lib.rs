//! Export directives on the methods of a class.
//!
//! A class marks the methods that a runtime may call with an export marker.
//! This library finds those methods, reads the directive on each marker,
//! checks that the signature can be exported, and describes the registration
//! of each method with the runtime's builder. Nothing stops the pass: what
//! is wrong with one method is reported at its place in the source and
//! leaves every other method as it is.
//!
//! The pass works on a model of the syntax ([`syntax`]) and runs in four
//! steps: [`directive`] reads a marker's payload, [`extract`] takes the
//! markers off the members of a class, [`validate`] checks and normalizes a
//! signature, and [`emit`] describes a registration. [`derive`] runs them
//! over a class, and [`laws`] states what holds of the whole.
//!
//! Every function says what it returns as a function of the models of its
//! arguments: a value's model is its `deep_view`, in which texts are
//! sequences of characters and lists are sequences.

pub mod derive;
pub mod diagnostic;
pub mod directive;
pub mod emit;
pub mod export;
pub mod extract;
pub mod laws;
pub mod lists;
pub mod rpc;
pub mod seqs;
pub mod syntax;
pub mod text;
pub mod validate;

pub use derive::{derive_methods, Derived};
pub use diagnostic::Diagnostic;
pub use emit::{Emitted, Registration};
pub use export::{ClassMethodExport, ExportArgs, ExportMethod};
pub use extract::impl_gdnative_expose;
pub use rpc::RpcMode;
