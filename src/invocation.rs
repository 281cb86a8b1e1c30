use vstd::prelude::*;
use vstd::string::*;
use crate::firmware::views;

verus! {

/// The emulator binary that every launcher runs.
pub open spec fn emulator_program() -> Seq<char> {
    "qemu-system-x86_64"@
}

/// How the emulator boots the OS image, with the files each mode mounts.
pub enum FirmwareMode {
    /// Legacy BIOS: the image is the only drive.
    Bios { image: String },
    /// UEFI: a read-only code image, a writable vars file, the ESP image,
    /// and a file that receives the firmware's debug console.
    Uefi { code: String, vars: String, image: String, debug_log: String },
}

/// A firmware mode with its paths as plain character sequences.
pub enum FirmwareModeView {
    Bios { image: Seq<char> },
    Uefi { code: Seq<char>, vars: Seq<char>, image: Seq<char>, debug_log: Seq<char> },
}

impl View for FirmwareMode {
    type V = FirmwareModeView;

    open spec fn view(&self) -> FirmwareModeView {
        match self {
            FirmwareMode::Bios { image } => FirmwareModeView::Bios { image: image@ },
            FirmwareMode::Uefi { code, vars, image, debug_log } => FirmwareModeView::Uefi {
                code: code@,
                vars: vars@,
                image: image@,
                debug_log: debug_log@,
            },
        }
    }
}

/// The emulator's argument list for a mode: serial output on the console,
/// then the drives. Under UEFI the code image sits read-only in the first
/// flash slot and the vars file writable in the second, and the firmware's
/// debug console is written to the log file.
pub open spec fn mode_args(m: FirmwareModeView) -> Seq<Seq<char>> {
    match m {
        FirmwareModeView::Bios { image } => seq![
            "-serial"@,
            "stdio"@,
            "-drive"@,
            "format=raw,file="@ + image,
        ],
        FirmwareModeView::Uefi { code, vars, image, debug_log } => seq![
            "-serial"@,
            "stdio"@,
            "-drive"@,
            "if=pflash,format=raw,unit=0,readonly=on,file="@ + code,
            "-drive"@,
            "if=pflash,format=raw,unit=1,file="@ + vars,
            "-drive"@,
            "format=raw,file="@ + image,
            "-global"@,
            "isa-debugcon.iobase=0x402"@,
            "-debugcon"@,
            "file:"@ + debug_log,
        ],
    }
}

/// A program to run and its arguments.
pub struct Invocation {
    pub program: String,
    pub args: Vec<String>,
}

/// An invocation as plain character sequences.
pub struct InvocationView {
    pub program: Seq<char>,
    pub args: Seq<Seq<char>>,
}

impl View for Invocation {
    type V = InvocationView;

    open spec fn view(&self) -> InvocationView {
        InvocationView { program: self.program@, args: views(self.args@) }
    }
}

/// The emulator invocation for a mode.
pub open spec fn invocation_spec(m: FirmwareModeView) -> InvocationView {
    InvocationView { program: emulator_program(), args: mode_args(m) }
}

fn push_str(v: &mut Vec<String>, s: &str)
    ensures
        views(final(v)@) == views(old(v)@).push(s@),
{
    v.push(String::from_str(s));
    assert(views(final(v)@) =~= views(old(v)@).push(s@));
}

fn push_prefixed(v: &mut Vec<String>, prefix: &str, value: &str)
    ensures
        views(final(v)@) == views(old(v)@).push(prefix@ + value@),
{
    let mut s = String::from_str(prefix);
    s.append(value);
    v.push(s);
    assert(views(final(v)@) =~= views(old(v)@).push(prefix@ + value@));
}

/// Builds the emulator invocation for a mode.
pub fn build_invocation(mode: &FirmwareMode) -> (r: Invocation)
    ensures
        r@ == invocation_spec(mode@),
{
    let mut args: Vec<String> = Vec::new();
    push_str(&mut args, "-serial");
    push_str(&mut args, "stdio");
    match mode {
        FirmwareMode::Bios { image } => {
            push_str(&mut args, "-drive");
            push_prefixed(&mut args, "format=raw,file=", image.as_str());
        },
        FirmwareMode::Uefi { code, vars, image, debug_log } => {
            push_str(&mut args, "-drive");
            push_prefixed(&mut args, "if=pflash,format=raw,unit=0,readonly=on,file=", code.as_str());
            push_str(&mut args, "-drive");
            push_prefixed(&mut args, "if=pflash,format=raw,unit=1,file=", vars.as_str());
            push_str(&mut args, "-drive");
            push_prefixed(&mut args, "format=raw,file=", image.as_str());
            push_str(&mut args, "-global");
            push_str(&mut args, "isa-debugcon.iobase=0x402");
            push_str(&mut args, "-debugcon");
            push_prefixed(&mut args, "file:", debug_log.as_str());
        },
    }
    let r = Invocation { program: String::from_str("qemu-system-x86_64"), args };
    assert(r@.args =~= mode_args(mode@));
    r
}

/// The status a UEFI launch ends with once the emulator has exited: its
/// own code, truncated to a byte, or 1 where it reported none.
pub open spec fn uefi_exit_spec(code: Option<i32>) -> u8 {
    match code {
        Some(c) => c as u8,
        None => 1,
    }
}

/// Maps the emulator's exit code to the UEFI launcher's status.
pub fn uefi_exit_code(code: Option<i32>) -> (r: u8)
    ensures
        r == uefi_exit_spec(code),
{
    match code {
        Some(c) => c as u8,
        None => 1,
    }
}

/// The status a BIOS launch ends with: the emulator's own code, or -1
/// where it reported none.
pub open spec fn bios_exit_spec(code: Option<i32>) -> i32 {
    match code {
        Some(c) => c,
        None => -1i32,
    }
}

/// Maps the emulator's exit code to the BIOS launcher's status.
pub fn bios_exit_code(code: Option<i32>) -> (r: i32)
    ensures
        r == bios_exit_spec(code),
{
    match code {
        Some(c) => c,
        None => -1,
    }
}

} // verus!
