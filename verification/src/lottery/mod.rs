//! The two-player commit-reveal lottery programs, one module per program.
pub mod model;
pub mod claude_ps2;
pub mod claude_ps7;
pub mod claude_ps9;
pub mod copilot_ps1;
pub mod copilot_ps2;
pub mod copilot_ps3;
pub mod deepseek_ps2;
pub mod deepseek_ps7;
pub mod deepseek_ps9;
pub mod gpt_ps1;
pub mod gpt_ps2;
pub mod gpt_ps3;
