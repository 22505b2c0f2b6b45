//! Verified core of the OpenFang runtime pieces that deal with Codex OAuth,
//! shell-command lanes and tool-name compatibility.

pub mod text;
pub mod tool_compat;
pub mod json;
pub mod command_lane;
pub mod codex_oauth;
pub mod drivers;
