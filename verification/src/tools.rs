//! The files of the machine and the command lines of the external programs.

use vstd::prelude::*;
use vstd::string::StringExecFns;
use crate::decimal::{as_chars, decimal_text, to_decimal_string};
use crate::lifecycle::Action;

verus! {

/// Where the disk image lies.
pub const DISK_PATH: &'static str = "vm/alpine_disk.img";

/// Where the marker lies.
pub const MARKER_PATH: &'static str = "vm/alpine.pid";

/// The program that allocates the disk image.
pub const ALLOCATOR: &'static str = "qemu-img";

/// The program that runs the virtual machine.
pub const EMULATOR: &'static str = "qemu-system-aarch64";

/// The program that lists a process by its id.
pub const PROCESS_TABLE: &'static str = "ps";

/// The program that delivers the termination signal.
pub const SIGNALLER: &'static str = "kill";

/// A command line: a program and the arguments to run it with.
#[derive(Debug, PartialEq, Eq)]
pub struct Invocation {
    pub program: String,
    pub arguments: Vec<String>,
}

impl View for Invocation {
    type V = Seq<Seq<char>>;

    /// The words of the command line: the program, then its arguments.
    open spec fn view(&self) -> Seq<Seq<char>> {
        seq![self.program@] + self.arguments.deep_view()
    }
}

/// The decimal notation of `n`, as characters.
pub open spec fn number(n: u32) -> Seq<char> {
    as_chars(decimal_text(n as nat))
}

/// The arguments with which the emulator boots the machine from the disk
/// image: an accelerated `virt` machine with the host's processor, 512 MiB
/// of memory and two cores, the installation medium, the disk image as a
/// virtio drive, a tap network device, kernel and initial ramdisks, and the
/// serial console on the standard streams.
pub open spec fn emulator_arguments() -> Seq<Seq<char>> {
    seq![
        "-machine"@,
        "virt,accel=kvm"@,
        "-cpu"@,
        "host"@,
        "-m"@,
        "512"@,
        "-smp"@,
        "2"@,
        "-bios"@,
        "/usr/share/qemu-efi-aarch64/QEMU_EFI.fd"@,
        "-cdrom"@,
        "vm-images/alpine.iso"@,
        "-drive"@,
        "file="@ + DISK_PATH@ + ",if=virtio,format=qcow2"@,
        "-netdev"@,
        "tap,id=net0,ifname=tap0,script=no,downscript=no"@,
        "-device"@,
        "virtio-net-device,netdev=net0"@,
        "-initrd"@,
        "vm-images/custom-initramfs.gz"@,
        "-kernel"@,
        "vm-images/vmlinuz-lts"@,
        "-initrd"@,
        "vm-images/initramfs-lts"@,
        "-append"@,
        "console=ttyAMA0,115200 console=ttyS0"@,
        "-nographic"@,
        "-serial"@,
        "mon:stdio"@,
        "-monitor"@,
        "none"@,
    ]
}

/// The words of the command line that carries out `action`, for the actions
/// that an external program carries out.
pub open spec fn command_line(action: Action) -> Option<Seq<Seq<char>>> {
    match action {
        Action::AllocateImage { size_gb } => Some(
            seq![ALLOCATOR@, "create"@, "-f"@, "qcow2"@, DISK_PATH@, number(size_gb) + "G"@],
        ),
        Action::SpawnEmulator => Some(seq![EMULATOR@] + emulator_arguments()),
        Action::QueryProcess { pid } => Some(seq![PROCESS_TABLE@, "-p"@, number(pid)]),
        Action::Terminate { pid } => Some(seq![SIGNALLER@, number(pid)]),
        _ => None,
    }
}

fn push_word(words: &mut Vec<String>, word: &str)
    ensures
        final(words).deep_view() == old(words).deep_view().push(word@),
{
    words.push(String::from_str(word));
    assert(words.deep_view() =~= old(words).deep_view().push(word@));
}

fn emulator_words() -> (words: Vec<String>)
    ensures
        words.deep_view() == emulator_arguments(),
{
    let mut words: Vec<String> = Vec::new();
    push_word(&mut words, "-machine");
    push_word(&mut words, "virt,accel=kvm");
    push_word(&mut words, "-cpu");
    push_word(&mut words, "host");
    push_word(&mut words, "-m");
    push_word(&mut words, "512");
    push_word(&mut words, "-smp");
    push_word(&mut words, "2");
    push_word(&mut words, "-bios");
    push_word(&mut words, "/usr/share/qemu-efi-aarch64/QEMU_EFI.fd");
    push_word(&mut words, "-cdrom");
    push_word(&mut words, "vm-images/alpine.iso");
    push_word(&mut words, "-drive");
    let drive = String::from_str("file=").concat(DISK_PATH).concat(",if=virtio,format=qcow2");
    push_word(&mut words, drive.as_str());
    push_word(&mut words, "-netdev");
    push_word(&mut words, "tap,id=net0,ifname=tap0,script=no,downscript=no");
    push_word(&mut words, "-device");
    push_word(&mut words, "virtio-net-device,netdev=net0");
    push_word(&mut words, "-initrd");
    push_word(&mut words, "vm-images/custom-initramfs.gz");
    push_word(&mut words, "-kernel");
    push_word(&mut words, "vm-images/vmlinuz-lts");
    push_word(&mut words, "-initrd");
    push_word(&mut words, "vm-images/initramfs-lts");
    push_word(&mut words, "-append");
    push_word(&mut words, "console=ttyAMA0,115200 console=ttyS0");
    push_word(&mut words, "-nographic");
    push_word(&mut words, "-serial");
    push_word(&mut words, "mon:stdio");
    push_word(&mut words, "-monitor");
    push_word(&mut words, "none");
    assert(words.deep_view() =~= emulator_arguments());
    words
}

/// The command line that carries out `action`, or `None` if no external
/// program does.
pub fn invocation(action: Action) -> (line: Option<Invocation>)
    ensures
        match line {
            Some(line) => command_line(action) == Some(line@),
            None => command_line(action) is None,
        },
{
    match action {
        Action::AllocateImage { size_gb } => {
            let mut arguments: Vec<String> = Vec::new();
            push_word(&mut arguments, "create");
            push_word(&mut arguments, "-f");
            push_word(&mut arguments, "qcow2");
            push_word(&mut arguments, DISK_PATH);
            let size = to_decimal_string(size_gb).concat("G");
            push_word(&mut arguments, size.as_str());
            let line = Invocation { program: String::from_str(ALLOCATOR), arguments };
            assert(line@ =~= command_line(action)->0);
            Some(line)
        },
        Action::SpawnEmulator => {
            let line = Invocation {
                program: String::from_str(EMULATOR),
                arguments: emulator_words(),
            };
            Some(line)
        },
        Action::QueryProcess { pid } => {
            let mut arguments: Vec<String> = Vec::new();
            push_word(&mut arguments, "-p");
            push_word(&mut arguments, to_decimal_string(pid).as_str());
            let line = Invocation { program: String::from_str(PROCESS_TABLE), arguments };
            assert(line@ =~= command_line(action)->0);
            Some(line)
        },
        Action::Terminate { pid } => {
            let mut arguments: Vec<String> = Vec::new();
            push_word(&mut arguments, to_decimal_string(pid).as_str());
            let line = Invocation { program: String::from_str(SIGNALLER), arguments };
            assert(line@ =~= command_line(action)->0);
            Some(line)
        },
        _ => None,
    }
}

} // verus!
