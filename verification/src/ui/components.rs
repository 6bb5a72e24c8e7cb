//! The parts of the window: the navigation bar and the pages.

pub mod nav;
pub mod page;

pub use nav::Nav;
pub use page::{Page, PageContainer};
