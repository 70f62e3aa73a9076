//! Page-planning core of the my_design GUI: the page list that the scripting
//! side fills, the view state machine that key presses and clicks drive, the
//! commands sent back to the scripting side, and the row layout of the page list.

pub mod text;
pub mod json;
pub mod pages;
pub mod view;
pub mod layout;
pub mod laws;
