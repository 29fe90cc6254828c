//! Collections that need nothing but a heap.

pub mod linked_list;
