//! Framework-agnostic cores of a headless UI toolkit: the presence state
//! machine, the submenu grace-area geometry, keyboard shortcuts, class-name
//! composition and the small state hooks, each with a machine-checked contract.

pub mod animation;
pub mod checkbox;
pub mod classes;
pub mod collapsible;
pub mod controllable_state;
pub mod decimal;
pub mod dropdown_menu;
pub mod geometry;
pub mod id;
pub mod keypress;
pub mod menu;
pub mod popper;
pub mod presence;
pub mod previous;
pub mod remove_scroll;
pub mod separator;
pub mod sheet;
pub mod sidebar;
pub mod state_machine;
pub mod text;
pub mod touch;
