//! Dependency-injection and AOP macros: component registration, injected
//! constructors, beans, aspects and method interception. Each macro's
//! input is read into a plain model; the generated code is token text.

pub mod args;
pub mod aspect;
pub mod component;
