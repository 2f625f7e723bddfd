//! Linear containers.
//!
//! The main one is [`list::List`], a singly linked list in which each node
//! owns its successor. It works as a stack: values are pushed and popped at
//! the head in constant time. Three cursors walk it from the head to the
//! tail: one takes the values out, one lends them, one lends them for
//! writing. The list is taken apart in a loop, so that a long list does not
//! need a deep call stack to be released.
//!
//! [`stack::Stack`] and [`queue::Queue`] are thin layers over a growable
//! array.
//!
//! Every container is described by a sequence of values, its view, and the
//! contract of each operation says what the operation returns and what it
//! makes of that sequence. [`model`] holds the functions on sequences that
//! the contracts of the list use, and [`laws`] holds what is proved of them.

pub mod laws;
pub mod list;
pub mod model;
pub mod queue;
pub mod stack;
