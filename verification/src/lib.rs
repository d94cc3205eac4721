//! The decisions behind the Sidegate tray popup: the line protocol spoken with the VPN core, what
//! each page shows, what a click or a window message leads to, and the pixels of the tray icon.
//!
//! Nothing here opens a window or draws. Of the window system only numbers appear: `shell` and
//! `launch` take those of a few messages and of one error from `windows_sys`.
pub mod fonts;
pub mod icon;
pub mod launch;
pub mod pages;
pub mod protocol;
pub mod shell;
pub mod text;
pub mod utf16;
