//! What the daemon sets up on the machine when it runs as the first
//! process, and the layout of the container image it writes of itself.
use vstd::prelude::*;
use crate::text::{path_join, spec_path_join, views_of};

verus! {

/// The mount flags used when booting.
#[derive(Debug, Clone, Copy, PartialEq, Eq, Structural)]
pub struct BootMountFlags {
    pub nodev: bool,
    pub noexec: bool,
    pub nosuid: bool,
    pub noatime: bool,
    pub relatime: bool,
}

/// `nodev`, `noexec` and `nosuid`: the flags of the kernel's virtual
/// filesystems.
pub open spec fn common_flags() -> BootMountFlags {
    BootMountFlags { nodev: true, noexec: true, nosuid: true, noatime: false, relatime: false }
}

/// The common flags and `relatime`: the flags of the cgroup filesystem.
pub open spec fn cgroup_flags() -> BootMountFlags {
    BootMountFlags { nodev: true, noexec: true, nosuid: true, noatime: false, relatime: true }
}

/// One step of booting.
#[derive(Debug, Clone)]
pub enum BootStep {
    /// Make a directory with the given permission bits.
    MakeDir { path: String, mode: u32 },
    /// Mount a filesystem.
    Mount { source: String, target: String, fstype: String, flags: BootMountFlags, data: Option<String> },
    /// Make a symbolic link at `link` pointing to `target`.
    Symlink { target: String, link: String },
}

/// Whether a step is the mount with the given parts.
pub open spec fn is_boot_mount(s: BootStep, source: Seq<char>, target: Seq<char>, fstype: Seq<char>, flags: BootMountFlags, data: Option<Seq<char>>) -> bool {
    s matches BootStep::Mount { source: so, target: t, fstype: f, flags: fl, data: d } && so@ == source && t@ == target
        && f@ == fstype && fl == flags && (match d {
        Some(x) => data == Some(x@),
        None => data is None,
    })
}

/// Whether a step is the symbolic link with the given parts.
pub open spec fn is_symlink(s: BootStep, target: Seq<char>, link: Seq<char>) -> bool {
    s matches BootStep::Symlink { target: t, link: l } && t@ == target && l@ == link
}

fn boot_mount(source: &str, target: &str, fstype: &str, flags: BootMountFlags, data: Option<&str>) -> (r: BootStep)
    ensures
        is_boot_mount(r, source@, target@, fstype@, flags, match data { Some(d) => Some(d@), None => None }),
{
    BootStep::Mount {
        source: String::from_str(source),
        target: String::from_str(target),
        fstype: String::from_str(fstype),
        flags,
        data: match data {
            Some(d) => Some(String::from_str(d)),
            None => None,
        },
    }
}

fn symlink(target: &str, link: &str) -> (r: BootStep)
    ensures
        is_symlink(r, target@, link@),
{
    BootStep::Symlink { target: String::from_str(target), link: String::from_str(link) }
}

/// The filesystem the first process sets up, in order: `/dev/pts`
/// (made with mode 0755, then `devpts` mounted on it), `sysfs` on `/sys`,
/// `proc` on `/proc`, a `tmpfs` on `/run`, the links `/dev/fd`,
/// `/dev/stdin`, `/dev/stdout`, `/dev/stderr` into `/proc/self/fd`, the
/// cgroup v2 filesystem on `/sys/fs/cgroup` and `debugfs` on
/// `/sys/kernel/debug`.
pub fn pid1_filesystem_plan() -> (r: Vec<BootStep>)
    ensures
        r@.len() == 11,
        r@[0] matches BootStep::MakeDir { path: p, mode: m } && p@ == "/dev/pts"@ && m == 0o755,
        is_boot_mount(r@[1], "devpts"@, "/dev/pts"@, "devpts"@,
            BootMountFlags { nodev: false, noexec: true, nosuid: true, noatime: true, relatime: false },
            Some("mode=0620,gid=5,ptmxmode=666"@)),
        is_boot_mount(r@[2], "sysfs"@, "/sys"@, "sysfs"@, common_flags(), None),
        is_boot_mount(r@[3], "proc"@, "/proc"@, "proc"@, common_flags(), None),
        is_boot_mount(r@[4], "run"@, "/run"@, "tmpfs"@,
            BootMountFlags { nodev: true, noexec: false, nosuid: true, noatime: false, relatime: false },
            Some("mode=0755"@)),
        is_symlink(r@[5], "/proc/self/fd"@, "/dev/fd"@),
        is_symlink(r@[6], "/proc/self/fd/0"@, "/dev/stdin"@),
        is_symlink(r@[7], "/proc/self/fd/1"@, "/dev/stdout"@),
        is_symlink(r@[8], "/proc/self/fd/2"@, "/dev/stderr"@),
        is_boot_mount(r@[9], "cgroup2"@, "/sys/fs/cgroup"@, "cgroup2"@, cgroup_flags(), None),
        is_boot_mount(r@[10], "debugfs"@, "/sys/kernel/debug"@, "debugfs"@, common_flags(), None),
{
    let common = BootMountFlags { nodev: true, noexec: true, nosuid: true, noatime: false, relatime: false };
    let mut v: Vec<BootStep> = Vec::new();
    v.push(BootStep::MakeDir { path: String::from_str("/dev/pts"), mode: 0o755 });
    v.push(boot_mount("devpts", "/dev/pts", "devpts",
        BootMountFlags { nodev: false, noexec: true, nosuid: true, noatime: true, relatime: false },
        Some("mode=0620,gid=5,ptmxmode=666")));
    v.push(boot_mount("sysfs", "/sys", "sysfs", common, None));
    v.push(boot_mount("proc", "/proc", "proc", common, None));
    v.push(boot_mount("run", "/run", "tmpfs",
        BootMountFlags { nodev: true, noexec: false, nosuid: true, noatime: false, relatime: false },
        Some("mode=0755")));
    v.push(symlink("/proc/self/fd", "/dev/fd"));
    v.push(symlink("/proc/self/fd/0", "/dev/stdin"));
    v.push(symlink("/proc/self/fd/1", "/dev/stdout"));
    v.push(symlink("/proc/self/fd/2", "/dev/stderr"));
    v.push(boot_mount("cgroup2", "/sys/fs/cgroup", "cgroup2",
        BootMountFlags { nodev: true, noexec: true, nosuid: true, noatime: false, relatime: true }, None));
    v.push(boot_mount("debugfs", "/sys/kernel/debug", "debugfs", common, None));
    v
}

/// The network interface the first process configures.
#[derive(Debug, Clone)]
pub struct NetworkConfig {
    pub device: String,
    pub address: String,
    pub gateway: String,
    pub subnet: String,
}

/// The first process brings up `eth0` with the link-local address
/// `fe80::2/64` and the gateway `fe80::1`.
pub fn pid1_network_config() -> (r: NetworkConfig)
    ensures
        r.device@ == "eth0"@,
        r.address@ == "fe80::2"@,
        r.gateway@ == "fe80::1"@,
        r.subnet@ == "/64"@,
{
    NetworkConfig {
        device: String::from_str("eth0"),
        address: String::from_str("fe80::2"),
        gateway: String::from_str("fe80::1"),
        subnet: String::from_str("/64"),
    }
}

/// The input device of the power button.
pub open spec fn power_button_device() -> Seq<char> {
    "/dev/input/event0"@
}

/// The input device of the power button.
pub fn power_button_device_path() -> (r: String)
    ensures
        r@ == power_button_device(),
{
    String::from_str("/dev/input/event0")
}

/// The files of the container image the daemon writes of itself under an
/// output directory.
#[derive(Debug, Clone)]
pub struct OciLayout {
    /// The runtime configuration, `config.json`.
    pub config: String,
    /// The directories of the root filesystem, made in order.
    pub dirs: Vec<String>,
    /// Where the daemon binary goes, with mode 0755.
    pub binary: String,
    /// The hard link that makes the binary the image's init.
    pub init_link: String,
}

/// The directories of the image's root filesystem under `output`.
pub open spec fn oci_dirs(output: Seq<char>) -> Seq<Seq<char>> {
    seq![
        spec_path_join(output, "rootfs"@),
        spec_path_join(output, "rootfs/bin"@),
        spec_path_join(output, "rootfs/sys"@),
        spec_path_join(output, "rootfs/dev"@),
        spec_path_join(output, "rootfs/mnt"@),
        spec_path_join(output, "rootfs/proc"@),
    ]
}

/// The layout of the image under `output`: `config.json`, the root
/// filesystem's `bin`, `sys`, `dev`, `mnt` and `proc`, the binary as
/// `rootfs/bin/auraed` and its link `rootfs/bin/init`.
pub fn oci_layout(output: &str) -> (r: OciLayout)
    ensures
        r.config@ == spec_path_join(output@, "config.json"@),
        views_of(r.dirs@) == oci_dirs(output@),
        r.binary@ == spec_path_join(output@, "rootfs/bin/auraed"@),
        r.init_link@ == spec_path_join(output@, "rootfs/bin/init"@),
{
    let mut dirs: Vec<String> = Vec::new();
    dirs.push(path_join(output, "rootfs"));
    dirs.push(path_join(output, "rootfs/bin"));
    dirs.push(path_join(output, "rootfs/sys"));
    dirs.push(path_join(output, "rootfs/dev"));
    dirs.push(path_join(output, "rootfs/mnt"));
    dirs.push(path_join(output, "rootfs/proc"));
    proof {
        assert(views_of(dirs@) =~= oci_dirs(output@));
    }
    OciLayout {
        config: path_join(output, "config.json"),
        dirs,
        binary: path_join(output, "rootfs/bin/auraed"),
        init_link: path_join(output, "rootfs/bin/init"),
    }
}

/// The permission bits of the daemon binary in the image.
pub const OCI_BINARY_MODE: u32 = 0o755;

} // verus!
