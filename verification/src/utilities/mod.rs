//! Small containers shared by the rest of the crate.

pub mod iterator_list;
