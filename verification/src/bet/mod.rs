//! The oracle-settled two-party bet programs, one module per program.
pub mod model;
pub mod claude_ps1_bet;
pub mod claude_ps2_bet;
pub mod claude_ps2;
pub mod claude_ps3_bet;
pub mod claude_ps7;
pub mod claude_ps9;
pub mod copilot_ps1_bet;
pub mod copilot_ps1;
pub mod copilot_ps2_bet;
pub mod copilot_ps3_bet;
pub mod copilot_ps3;
pub mod copilot_ps7;
pub mod deepseek_ps1_bet;
pub mod deepseek_ps2_bet;
pub mod deepseek_ps2;
pub mod deepseek_ps3_bet;
pub mod deepseek_ps3;
pub mod deepseek_ps7;
pub mod gpt_ps1_bet;
pub mod gpt_ps1;
pub mod gpt_ps2;
pub mod gpt_ps3_bet;
pub mod gpt_ps3;
