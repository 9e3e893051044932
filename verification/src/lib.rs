//! The core of a file browser: tabs that remember where they have been, a
//! selection that follows clicks, and a registry of actions that decides
//! which operations a set of entries allows. Nothing in here touches the
//! filesystem: the owner of a tab reads and writes, and hands over what it
//! found.

pub mod actions;
pub mod files;
pub mod paths;
pub mod search;
pub mod sorting;
pub mod tab;
pub mod tabviewer;
