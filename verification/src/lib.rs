//! The core of a desktop application launcher: the list of user-defined
//! shortcuts, the paginated grid that presents it, and the cursor that moves
//! over its pages.

pub mod input;
pub mod pages;
pub mod session;
pub mod shortcuts;
