//! Plans and checks the commands that manage Hyper-V virtual machines
//! through a PowerShell process: which command to run, how to judge its exit
//! status, and how to read what it printed. Starting the process and reading
//! its streams is left to the caller.
pub mod error;
pub mod hyperv;
pub mod incompatibility;
pub mod process;
pub mod text;
pub mod vm;
