//! A verified model of a desktop shell's menu-bar integration: the decision
//! logic that designates the submenu of the menu item titled "Window" as the
//! application's Windows menu, and the greeting the shell exposes to its
//! callers.
//!
//! The native toolkit itself is not touched here: an adapter samples the menu
//! bar into the plain values of [`configurator`], asks the verified logic for
//! the one action to take, and carries that action out.

pub mod configurator;
pub mod greeting;
