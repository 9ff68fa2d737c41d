//! Early-boot root transformation: boot-parameter parsing, partition
//! resolution, mount lookup, overlay attribute records, the boot state
//! machine and the optional vendor script runner, each with its contract.
//! Process spawning, file access and system calls are left to the caller.

use vstd::prelude::*;

pub mod bytes;
pub mod cmdline;
pub mod config;
pub mod init;
pub mod mount;
pub mod overlay;
pub mod params;
pub mod partition;
pub mod script;
