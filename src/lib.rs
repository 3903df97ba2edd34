//! Native side of a desktop application shell: the label of the host
//! platform that the front end asks for, and the window menu.
pub mod menu;
pub mod platform;
