//! A verified singly-linked list with LIFO push/pop/peek and a forward
//! iterator that yields borrowed references in head-to-tail order.

pub mod iter;
pub mod laws;
pub mod list;

pub use iter::Filtered;
pub use iter::Iter;
pub use list::LinkedList;
pub use list::Node;
