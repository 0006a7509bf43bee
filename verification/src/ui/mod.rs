//! What the timer window shows and what its menu does.
pub mod context_menu;
pub mod timer_view;
