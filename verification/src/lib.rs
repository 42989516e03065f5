//! A fixed grid of coloured cells and the tooltip that follows the pointer over it.
//!
//! [`grid::Grid::build`] lays the cells out once; [`pointer::locate`] maps a pointer
//! position back to the cell under it and places the tooltip above that cell.
//! Everything here is pure computation on integers: drawing the cells and moving
//! the tooltip element is left to the caller.

pub mod category;
pub mod grid;
pub mod label;
pub mod layout;
pub mod pointer;
