//! Logic of a database extension that offers two functions: a scalar
//! `rusty_echo` that repeats its text argument, and a one-row table function
//! that greets the name it is given.
pub mod echo;
pub mod hello;
