//! Native backend for a desktop application shell: three front-end commands
//! (`greet`, `get_app_version`, `open_external_link`), a command dispatcher,
//! and a window-close hook.

pub mod commands;
pub mod dispatch;
pub mod events;
pub mod external_open;
