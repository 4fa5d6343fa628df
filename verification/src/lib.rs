//! The rules of "Turtle Goes to Tea": which screen the game is on, how the
//! menus are laid out and navigated, how the turtle's rhythm-based hops are
//! sized, and when the turtle has reached its tea.
//!
//! Everything here works on plain integers and enums; the engine that draws
//! the screens and feeds keyboard and mouse events lives outside the library.

pub mod screen;
pub mod menu;
pub mod rhythm;
pub mod collision;
