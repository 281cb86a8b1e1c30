//! Firmware resolution, scratch-state staging and emulator invocation for
//! booting a locally built OS image under legacy BIOS or UEFI firmware.
//!
//! Everything that touches the host (probing paths, creating directories,
//! copying files, spawning the emulator) is left to the caller; the library
//! decides what to do and with which paths and arguments.

pub mod paths;
pub mod firmware;
pub mod invocation;
pub mod session;
pub mod laws;

pub use paths::{join_path, joined};
pub use firmware::{
    code_candidate_paths, first_existing, first_existing_spec, system_ovmf_paths,
    target_ovmf_dir, vars_candidate_paths, writable_vars_name, writable_vars_path, Candidate,
    FirmwarePair, ResolveError,
};
pub use invocation::{build_invocation, bios_exit_code, uefi_exit_code, FirmwareMode, Invocation};
pub use session::{Action, Event, SetupError, Stage, UefiConfig, UefiLaunch};
