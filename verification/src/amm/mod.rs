//! The constant-product pool programs, one module per program.
pub mod model;
pub mod claude_ps2;
pub mod claude_ps7;
pub mod claude_ps9;
pub mod copilot_ps2;
pub mod copilot_ps9;
pub mod deepseek_ps1;
pub mod deepseek_ps3;
pub mod deepseek_ps7;
pub mod gpt_ps1;
pub mod gpt_ps2;
pub mod gpt_ps9;
