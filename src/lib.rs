//! Backend selection and dispatch for a training program that runs one
//! generic training routine over several differentiable backends.
//!
//! A build enables a set of backend variants ([`variant::Features`]). The
//! [`dispatch::Dispatcher`] turns that set into a fixed sequence of work: for
//! each enabled variant, in declaration order, construct its device handle and
//! invoke the training routine once, stopping at the first failure. The
//! dispatcher is a pure state machine; the program around it performs each
//! action it asks for and reports back what happened.
pub mod variant;
pub mod dispatch;
pub mod laws;
