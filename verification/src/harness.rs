//! The VM test harness's text handling: the `.env` credentials file, the
//! guest's artifact hashes, PowerShell quoting and result markers, the RDP
//! connection file, the recorder's command line, the `vm` verbs and the
//! `test` verb's flags and fallbacks, and `ci`'s platform-neutral dependency
//! check.

pub mod key_values;
pub mod deploy;
pub mod dotenv;
pub mod powershell;
pub mod commands;
pub mod verbs;
pub mod guest;
pub mod ci;
