//! Composition of the hypervisor command line from independent configuration
//! fragments, and the supervisor's decision logic: pidfile parsing, liveness
//! classification and the graceful-then-forced stop protocol.
//!
//! The composition order is fixed: run mode (monitor socket, serial socket,
//! daemonize with pidfile, headless display), then virtualization mode
//! (machine type, cpu model, acceleration), then device configuration
//! (drives, mounted filesystems, firmware, RNG device, name, memory, cores,
//! network device).  Within a fragment, items keep their input order.

use vstd::prelude::*;
use vstd::string::StringExecFns;
use crate::addr::dec_str;
use crate::addr::u64_to_dec_string;
use crate::network::TapUser;
use crate::shell::ShellError;
use crate::serial::utf8_to_str;
use vstd::utf8::valid_utf8;
use vstd::pervasive::unreached;

verus! {

/// The hypervisor binary the supervisor spawns.
pub const QEMU_BINARY: &'static str = "qemu-system-x86_64";

/// Turns a flag into an optional unit, `Some` exactly on `true`.
pub fn bool_option(b: bool) -> (r: Option<()>)
    ensures
        r is Some <==> b,
{
    if b {
        Some(())
    } else {
        None
    }
}

/// A firmware blob injected into the guest: a name the guest firmware
/// interface exposes and the file that backs it.
#[derive(Debug)]
pub struct QemuFirmwareConfig {
    pub name: String,
    pub path: String,
}

impl QemuFirmwareConfig {
    /// The `-fw_cfg` fragment for this blob.
    pub open spec fn spec_args(self) -> Seq<Seq<char>> {
        seq!["-fw_cfg"@, "name="@ + self.name@ + ",file="@ + self.path@]
    }

    /// Renders the `-fw_cfg` fragment.
    pub fn as_args(&self) -> (r: Vec<String>)
        ensures
            r.deep_view() == self.spec_args(),
    {
        let mut r: Vec<String> = Vec::new();
        r.push("-fw_cfg".to_owned());
        let mut v = "name=".to_owned();
        v.append(self.name.as_str());
        v.append(",file=");
        v.append(self.path.as_str());
        r.push(v);
        proof {
            assert(r.deep_view() =~~= self.spec_args());
        }
        r
    }
}

/// A host directory exported to the guest over virtio-9p under a mount tag.
pub struct MountedFilesystem {
    pub mount_tag: String,
    pub readonly: bool,
    pub path: String,
}

impl MountedFilesystem {
    /// The `-fsdev`/`-device` fragment, with `id` naming the fsdev node.
    pub open spec fn spec_args(self, id: nat) -> Seq<Seq<char>> {
        seq![
            "-fsdev"@,
            "local,id=f"@ + dec_str(id) + ",security_model=none,readonly="@ + (if self.readonly {
                "on"@
            } else {
                "off"@
            }) + ",path="@ + self.path@,
            "-device"@,
            "virtio-9p-pci,fsdev=f"@ + dec_str(id) + ",mount_tag="@ + self.mount_tag@,
        ]
    }

    /// Renders the fragment for a given fsdev node id.  The id only has to
    /// tell fsdev nodes of one command line apart; callers draw it at
    /// random.
    pub fn as_args(&self, id: u64) -> (r: Vec<String>)
        ensures
            r.deep_view() == self.spec_args(id as nat),
    {
        let id_text = u64_to_dec_string(id);
        let mut r: Vec<String> = Vec::new();
        r.push("-fsdev".to_owned());
        let mut v = "local,id=f".to_owned();
        v.append(id_text.as_str());
        v.append(",security_model=none,readonly=");
        if self.readonly {
            v.append("on");
        } else {
            v.append("off");
        }
        v.append(",path=");
        v.append(self.path.as_str());
        r.push(v);
        r.push("-device".to_owned());
        let mut w = "virtio-9p-pci,fsdev=f".to_owned();
        w.append(id_text.as_str());
        w.append(",mount_tag=");
        w.append(self.mount_tag.as_str());
        r.push(w);
        proof {
            assert(r.deep_view() =~~= self.spec_args(id as nat));
        }
        r
    }
}

/// The machine types the composer knows.
pub enum MachineType {
    Q35,
}

impl MachineType {
    /// The text the machine type renders to.
    pub open spec fn spec_text(self) -> Seq<char> {
        "q35"@
    }

    /// Renders the machine type.
    pub fn machine_text(&self) -> (r: String)
        ensures
            r@ == self.spec_text(),
    {
        "q35".to_owned()
    }
}

/// The monitor control socket of one guest.
pub struct QemuMonitor {
    pub monitor_socket_path: String,
}

impl QemuMonitor {
    /// The `-monitor` fragment.
    pub open spec fn spec_args(self) -> Seq<Seq<char>> {
        seq!["-monitor"@, "unix:"@ + self.monitor_socket_path@ + ",server,nowait"@]
    }

    /// Renders the `-monitor` fragment.
    pub fn as_args(&self) -> (r: Vec<String>)
        ensures
            r.deep_view() == self.spec_args(),
    {
        let mut r: Vec<String> = Vec::new();
        r.push("-monitor".to_owned());
        let mut v = "unix:".to_owned();
        v.append(self.monitor_socket_path.as_str());
        v.append(",server,nowait");
        r.push(v);
        proof {
            assert(r.deep_view() =~~= self.spec_args());
        }
        r
    }
}

/// The serial console socket of one guest.
pub struct QemuSerial {
    pub serial_socket_path: String,
}

impl QemuSerial {
    /// The `-serial` fragment.
    pub open spec fn spec_args(self) -> Seq<Seq<char>> {
        seq!["-serial"@, "unix:"@ + self.serial_socket_path@ + ",server,nowait"@]
    }

    /// Renders the `-serial` fragment.
    pub fn as_args(&self) -> (r: Vec<String>)
        ensures
            r.deep_view() == self.spec_args(),
    {
        let mut r: Vec<String> = Vec::new();
        r.push("-serial".to_owned());
        let mut v = "unix:".to_owned();
        v.append(self.serial_socket_path.as_str());
        v.append(",server,nowait");
        r.push(v);
        proof {
            assert(r.deep_view() =~~= self.spec_args());
        }
        r
    }
}

/// How the hypervisor process is run: control sockets, daemonization and
/// display.
pub struct QemuRunMode {
    pub monitor: Option<QemuMonitor>,
    pub serial: Option<QemuSerial>,
    pub display: bool,
    pub daemonize_pidfile: Option<String>,
}

impl QemuRunMode {
    /// Monitor, serial, daemonize and display fragments, in that order.
    pub open spec fn spec_args(self) -> Seq<Seq<char>> {
        (if self.monitor is Some {
            self.monitor.unwrap().spec_args()
        } else {
            Seq::empty()
        }) + (if self.serial is Some {
            self.serial.unwrap().spec_args()
        } else {
            Seq::empty()
        }) + (if self.daemonize_pidfile is Some {
            seq!["-daemonize"@, "-pidfile"@, self.daemonize_pidfile.unwrap()@]
        } else {
            Seq::empty()
        }) + (if !self.display {
            seq!["-display"@, "none"@, "-vga"@, "none"@]
        } else {
            Seq::empty()
        })
    }

    /// Renders the run-mode fragments.
    pub fn as_args(&self) -> (r: Vec<String>)
        ensures
            r.deep_view() == self.spec_args(),
    {
        let mut r: Vec<String> = Vec::new();
        if let Some(monitor) = &self.monitor {
            let mut part = monitor.as_args();
            r.append(&mut part);
        }
        if let Some(serial) = &self.serial {
            let mut part = serial.as_args();
            r.append(&mut part);
        }
        if let Some(pid_file) = &self.daemonize_pidfile {
            r.push("-daemonize".to_owned());
            r.push("-pidfile".to_owned());
            r.push(pid_file.clone());
        }
        if !self.display {
            r.push("-display".to_owned());
            r.push("none".to_owned());
            r.push("-vga".to_owned());
            r.push("none".to_owned());
        }
        proof {
            assert(r.deep_view() =~~= self.spec_args());
        }
        r
    }
}

/// Machine type, cpu model and acceleration.
pub struct QemuVirtualizationMode {
    pub machine: Option<MachineType>,
    pub cpu: Option<String>,
    pub accel: Option<String>,
}

impl QemuVirtualizationMode {
    /// Machine, cpu (defaulting to the host model) and acceleration
    /// fragments.  Only kvm acceleration is composable.
    pub open spec fn spec_args(self) -> Seq<Seq<char>> {
        (if self.machine is Some {
            seq!["-machine"@, self.machine.unwrap().spec_text()]
        } else {
            Seq::empty()
        }) + (if self.cpu is Some {
            seq!["-cpu"@, self.cpu.unwrap()@]
        } else {
            seq!["-cpu"@, "host"@]
        }) + (if self.accel is Some {
            seq!["-enable-kvm"@, "-machine"@, "accel=kvm"@]
        } else {
            Seq::empty()
        })
    }

    /// Renders the virtualization-mode fragments.
    pub fn as_args(&self) -> (r: Vec<String>)
        requires
            self.accel is Some ==> self.accel.unwrap()@ == "kvm"@,
        ensures
            r.deep_view() == self.spec_args(),
    {
        let mut r: Vec<String> = Vec::new();
        if let Some(machine_type) = &self.machine {
            r.push("-machine".to_owned());
            r.push(machine_type.machine_text());
        }
        if let Some(cpu) = &self.cpu {
            r.push("-cpu".to_owned());
            r.push(cpu.clone());
        } else {
            r.push("-cpu".to_owned());
            r.push("host".to_owned());
        }
        if self.accel.is_some() {
            r.push("-enable-kvm".to_owned());
            r.push("-machine".to_owned());
            r.push("accel=kvm".to_owned());
        }
        proof {
            assert(r.deep_view() =~~= self.spec_args());
        }
        r
    }
}

/// Relies on `rand::random` of the rand crate; nothing is assumed about the
/// drawn value.
#[verifier::external_body]
pub(crate) fn random_u64() -> u64 {
    rand::random()
}

/// The `-drive` fragments for a list of image paths, in input order.
pub open spec fn drives_args_spec(paths: Seq<Seq<char>>) -> Seq<Seq<char>>
    decreases paths.len(),
{
    if paths.len() == 0 {
        Seq::empty()
    } else {
        seq!["-drive"@, "if=virtio,file="@ + paths[0]] + drives_args_spec(paths.skip(1))
    }
}

proof fn lemma_drives_args_push(paths: Seq<Seq<char>>, p: Seq<char>)
    ensures
        drives_args_spec(paths.push(p)) == drives_args_spec(paths) + seq![
            "-drive"@,
            "if=virtio,file="@ + p,
        ],
    decreases paths.len(),
{
    reveal_with_fuel(drives_args_spec, 3);
    if paths.len() == 0 {
        assert(paths.push(p).skip(1) =~= Seq::<Seq<char>>::empty());
        assert(drives_args_spec(paths.push(p)) =~= drives_args_spec(paths) + seq![
            "-drive"@,
            "if=virtio,file="@ + p,
        ]);
    } else {
        assert(paths.push(p).skip(1) =~= paths.skip(1).push(p));
        lemma_drives_args_push(paths.skip(1), p);
        assert(drives_args_spec(paths.push(p)) =~= drives_args_spec(paths) + seq![
            "-drive"@,
            "if=virtio,file="@ + p,
        ]);
    }
}

/// The firmware fragments for a list of blobs, in input order.
pub open spec fn firmware_args_spec(fws: Seq<QemuFirmwareConfig>) -> Seq<Seq<char>>
    decreases fws.len(),
{
    if fws.len() == 0 {
        Seq::empty()
    } else {
        fws[0].spec_args() + firmware_args_spec(fws.skip(1))
    }
}

proof fn lemma_firmware_args_push(fws: Seq<QemuFirmwareConfig>, fw: QemuFirmwareConfig)
    ensures
        firmware_args_spec(fws.push(fw)) == firmware_args_spec(fws) + fw.spec_args(),
    decreases fws.len(),
{
    reveal_with_fuel(firmware_args_spec, 3);
    if fws.len() == 0 {
        assert(fws.push(fw).skip(1) =~= Seq::<QemuFirmwareConfig>::empty());
        assert(firmware_args_spec(fws.push(fw)) =~= firmware_args_spec(fws) + fw.spec_args());
    } else {
        assert(fws.push(fw).skip(1) =~= fws.skip(1).push(fw));
        lemma_firmware_args_push(fws.skip(1), fw);
        assert(firmware_args_spec(fws.push(fw)) =~= firmware_args_spec(fws) + fw.spec_args());
    }
}

/// The mounted-filesystem fragments, the i-th one using the i-th fsdev id.
pub open spec fn mounted_args_spec(fss: Seq<MountedFilesystem>, ids: Seq<nat>) -> Seq<Seq<char>>
    decreases fss.len(),
{
    if fss.len() == 0 {
        Seq::empty()
    } else {
        fss[0].spec_args(ids[0]) + mounted_args_spec(fss.skip(1), ids.skip(1))
    }
}

proof fn lemma_mounted_args_push(
    fss: Seq<MountedFilesystem>,
    ids: Seq<nat>,
    fs: MountedFilesystem,
    id: nat,
)
    requires
        fss.len() == ids.len(),
    ensures
        mounted_args_spec(fss.push(fs), ids.push(id)) == mounted_args_spec(fss, ids)
            + fs.spec_args(id),
    decreases fss.len(),
{
    reveal_with_fuel(mounted_args_spec, 3);
    if fss.len() == 0 {
        assert(fss.push(fs).skip(1) =~= Seq::<MountedFilesystem>::empty());
        assert(ids.push(id).skip(1) =~= Seq::<nat>::empty());
        assert(mounted_args_spec(fss.push(fs), ids.push(id)) =~= mounted_args_spec(fss, ids)
            + fs.spec_args(id));
    } else {
        assert(fss.push(fs).skip(1) =~= fss.skip(1).push(fs));
        assert(ids.push(id).skip(1) =~= ids.skip(1).push(id));
        lemma_mounted_args_push(fss.skip(1), ids.skip(1), fs, id);
        assert(mounted_args_spec(fss.push(fs), ids.push(id)) =~= mounted_args_spec(fss, ids)
            + fs.spec_args(id));
    }
}

/// The guest's device configuration: drives, exported filesystems, firmware,
/// entropy, sizing and the network device bound to the leased TAP.
pub struct QemuConfig {
    pub name: Option<String>,
    pub memory_in_megabytes: Option<u64>,
    pub number_of_cores: Option<u64>,
    pub rng_device: bool,
    pub tap: Option<TapUser>,
    pub firmware: Vec<QemuFirmwareConfig>,
    pub virtio_drives: Vec<String>,
    pub mounted_filesystems: Vec<MountedFilesystem>,
}

impl QemuConfig {
    /// Drives, filesystems, firmware, RNG, name, memory, cores and network
    /// fragments, in that order; `ids` are the fsdev node ids.
    pub open spec fn spec_args(self, ids: Seq<nat>) -> Seq<Seq<char>> {
        drives_args_spec(self.virtio_drives.deep_view()) + mounted_args_spec(
            self.mounted_filesystems@,
            ids,
        ) + firmware_args_spec(self.firmware@) + (if self.rng_device {
            seq![
                "-object"@,
                "rng-random,filename=/dev/urandom,id=rng0"@,
                "-device"@,
                "virtio-rng-pci,rng=rng0"@,
            ]
        } else {
            Seq::empty()
        }) + (if self.name is Some {
            seq!["-name"@, self.name.unwrap()@]
        } else {
            Seq::empty()
        }) + (if self.memory_in_megabytes is Some {
            seq!["-m"@, dec_str(self.memory_in_megabytes.unwrap() as nat) + "m"@]
        } else {
            Seq::empty()
        }) + (if self.number_of_cores is Some {
            seq!["-smp"@, dec_str(self.number_of_cores.unwrap() as nat)]
        } else {
            Seq::empty()
        }) + (if self.tap is Some {
            seq![
                "-netdev"@,
                "tap,id=eth0,ifname="@ + self.tap.unwrap().device_name@
                    + ",script=no,downscript=no"@,
                "-device"@,
                "virtio-net-pci,netdev=eth0,mac="@ + crate::addr::mac_str(
                    self.tap.unwrap().mac_addr.bytes@,
                ),
            ]
        } else {
            Seq::empty()
        })
    }

    /// Renders the device-configuration fragments.  Each exported filesystem
    /// gets a randomly drawn fsdev node id.
    pub fn as_args(&self) -> (r: Vec<String>)
        ensures
            exists|ids: Seq<nat>|
                ids.len() == self.mounted_filesystems@.len() && r.deep_view() == self.spec_args(
                    ids,
                ),
    {
        let mut r: Vec<String> = Vec::new();
        let mut i: usize = 0;
        while i < self.virtio_drives.len()
            invariant
                0 <= i <= self.virtio_drives@.len(),
                r.deep_view() =~= drives_args_spec(self.virtio_drives.deep_view().take(i as int)),
            decreases self.virtio_drives@.len() - i,
        {
            let ghost prefix = self.virtio_drives.deep_view().take(i as int);
            r.push("-drive".to_owned());
            let mut v = "if=virtio,file=".to_owned();
            v.append(self.virtio_drives[i].as_str());
            r.push(v);
            proof {
                lemma_drives_args_push(prefix, self.virtio_drives.deep_view()[i as int]);
                assert(self.virtio_drives.deep_view().take(i as int + 1) =~= prefix.push(
                    self.virtio_drives.deep_view()[i as int],
                ));
                assert(r.deep_view() =~= drives_args_spec(
                    self.virtio_drives.deep_view().take(i as int + 1),
                ));
            }
            i = i + 1;
        }
        proof {
            assert(self.virtio_drives.deep_view().take(self.virtio_drives@.len() as int)
                =~= self.virtio_drives.deep_view());
        }
        let ghost drives_part = r.deep_view();
        let ghost mut ids: Seq<nat> = Seq::empty();
        let mut j: usize = 0;
        while j < self.mounted_filesystems.len()
            invariant
                0 <= j <= self.mounted_filesystems@.len(),
                ids.len() == j,
                drives_part == drives_args_spec(self.virtio_drives.deep_view()),
                r.deep_view() =~= drives_part + mounted_args_spec(
                    self.mounted_filesystems@.take(j as int),
                    ids,
                ),
            decreases self.mounted_filesystems@.len() - j,
        {
            let ghost prev_ids = ids;
            let ghost prefix = self.mounted_filesystems@.take(j as int);
            let id: u64 = random_u64();
            let mut part = self.mounted_filesystems[j].as_args(id);
            let ghost part_view = part.deep_view();
            let ghost r_view = r.deep_view();
            r.append(&mut part);
            proof {
                assert(r.deep_view() =~= r_view + part_view);
                ids = ids.push(id as nat);
                lemma_mounted_args_push(
                    prefix,
                    prev_ids,
                    self.mounted_filesystems@[j as int],
                    id as nat,
                );
                assert(self.mounted_filesystems@.take(j as int + 1) =~= prefix.push(
                    self.mounted_filesystems@[j as int],
                ));
                assert(r.deep_view() =~= drives_part + mounted_args_spec(
                    self.mounted_filesystems@.take(j as int + 1),
                    ids,
                ));
            }
            j = j + 1;
        }
        proof {
            assert(self.mounted_filesystems@.take(self.mounted_filesystems@.len() as int)
                =~= self.mounted_filesystems@);
        }
        let ghost mounted_part = r.deep_view();
        let mut k: usize = 0;
        while k < self.firmware.len()
            invariant
                0 <= k <= self.firmware@.len(),
                mounted_part == drives_args_spec(self.virtio_drives.deep_view())
                    + mounted_args_spec(self.mounted_filesystems@, ids),
                r.deep_view() =~= mounted_part + firmware_args_spec(self.firmware@.take(k as int)),
            decreases self.firmware@.len() - k,
        {
            let ghost prefix = self.firmware@.take(k as int);
            let mut part = self.firmware[k].as_args();
            let ghost part_view = part.deep_view();
            let ghost r_view = r.deep_view();
            r.append(&mut part);
            proof {
                assert(r.deep_view() =~= r_view + part_view);
                lemma_firmware_args_push(prefix, self.firmware@[k as int]);
                assert(self.firmware@.take(k as int + 1) =~= prefix.push(
                    self.firmware@[k as int],
                ));
                assert(r.deep_view() =~= mounted_part + firmware_args_spec(
                    self.firmware@.take(k as int + 1),
                ));
            }
            k = k + 1;
        }
        proof {
            assert(self.firmware@.take(self.firmware@.len() as int) =~= self.firmware@);
        }
        if self.rng_device {
            r.push("-object".to_owned());
            r.push("rng-random,filename=/dev/urandom,id=rng0".to_owned());
            r.push("-device".to_owned());
            r.push("virtio-rng-pci,rng=rng0".to_owned());
        }
        if let Some(n) = &self.name {
            r.push("-name".to_owned());
            r.push(n.clone());
        }
        if let Some(m) = &self.memory_in_megabytes {
            r.push("-m".to_owned());
            let mut v = u64_to_dec_string(*m);
            v.append("m");
            r.push(v);
        }
        if let Some(c) = &self.number_of_cores {
            r.push("-smp".to_owned());
            r.push(u64_to_dec_string(*c));
        }
        if let Some(t) = &self.tap {
            r.push("-netdev".to_owned());
            let mut v = "tap,id=eth0,ifname=".to_owned();
            v.append(t.device_name.as_str());
            v.append(",script=no,downscript=no");
            r.push(v);
            r.push("-device".to_owned());
            let mut w = "virtio-net-pci,netdev=eth0,mac=".to_owned();
            w.append(t.mac_addr.to_hex_string().as_str());
            r.push(w);
        }
        proof {
            assert(r.deep_view() =~~= self.spec_args(ids));
        }
        r
    }
}

/// The bundle of inputs needed to start one guest: the TAP lease, the boot
/// image, the private temporary directory that holds the monitor socket, the
/// serial socket, the pidfile and any firmware blobs, and optional sizing
/// overrides.
#[derive(Debug)]
pub struct LaunchConfiguration {
    pub tap: TapUser,
    pub image_path: String,
    pub temp_dir: String,
    pub firmware: Vec<QemuFirmwareConfig>,
    pub num_cores: Option<u64>,
    pub memory_in_mega_bytes: Option<u64>,
}

/// The number of cores a guest gets when the configuration does not say.
pub const DEFAULT_CORES: u64 = 8;

/// The memory in MiB a guest gets when the configuration does not say:
/// 16 GiB.
pub const DEFAULT_MEMORY_MEGABYTES: u64 = 16384;

impl QemuFirmwareConfig {
    /// A field-by-field copy.
    pub fn duplicate(&self) -> (r: QemuFirmwareConfig)
        ensures
            r == *self,
    {
        QemuFirmwareConfig { name: self.name.clone(), path: self.path.clone() }
    }
}

/// A field-by-field copy of a firmware list.
pub fn duplicate_firmware(v: &Vec<QemuFirmwareConfig>) -> (r: Vec<QemuFirmwareConfig>)
    ensures
        r@ == v@,
{
    let mut r: Vec<QemuFirmwareConfig> = Vec::new();
    let mut i: usize = 0;
    while i < v.len()
        invariant
            0 <= i <= v@.len(),
            r@ =~= v@.take(i as int),
        decreases v@.len() - i,
    {
        r.push(v[i].duplicate());
        proof {
            assert(r@ =~= v@.take(i as int + 1));
        }
        i = i + 1;
    }
    proof {
        assert(v@.take(v@.len() as int) =~= v@);
    }
    r
}

/// `dir` and `name` joined by the path separator.
pub fn join_path(dir: &str, name: &str) -> (r: String)
    ensures
        r@ == dir@ + "/"@ + name@,
{
    let mut s = dir.to_owned();
    s.append("/");
    s.append(name);
    s
}

/// The complete hypervisor command line for a launch configuration, with
/// `fs_id` naming the fsdev node of the exported temporary directory:
/// run mode, then virtualization mode, then device configuration.
pub open spec fn spec_qemu_arguments(lc: LaunchConfiguration, fs_id: nat) -> Seq<Seq<char>> {
    seq![
        "-monitor"@,
        "unix:"@ + lc.temp_dir@ + "/"@ + "monitor.socket"@ + ",server,nowait"@,
        "-serial"@,
        "unix:"@ + lc.temp_dir@ + "/"@ + "serial.socket"@ + ",server,nowait"@,
        "-daemonize"@,
        "-pidfile"@,
        lc.temp_dir@ + "/"@ + "pidfile"@,
        "-display"@,
        "none"@,
        "-vga"@,
        "none"@,
        "-machine"@,
        "q35"@,
        "-cpu"@,
        "host"@,
        "-enable-kvm"@,
        "-machine"@,
        "accel=kvm"@,
        "-drive"@,
        "if=virtio,file="@ + lc.image_path@,
        "-fsdev"@,
        "local,id=f"@ + dec_str(fs_id) + ",security_model=none,readonly="@ + "on"@ + ",path="@
            + lc.temp_dir@,
        "-device"@,
        "virtio-9p-pci,fsdev=f"@ + dec_str(fs_id) + ",mount_tag="@ + "config-2"@,
    ] + firmware_args_spec(lc.firmware@) + seq![
        "-object"@,
        "rng-random,filename=/dev/urandom,id=rng0"@,
        "-device"@,
        "virtio-rng-pci,rng=rng0"@,
        "-m"@,
        dec_str(
            (if lc.memory_in_mega_bytes is Some {
                lc.memory_in_mega_bytes.unwrap()
            } else {
                DEFAULT_MEMORY_MEGABYTES
            }) as nat,
        ) + "m"@,
        "-smp"@,
        dec_str(
            (if lc.num_cores is Some {
                lc.num_cores.unwrap()
            } else {
                DEFAULT_CORES
            }) as nat,
        ),
        "-netdev"@,
        "tap,id=eth0,ifname="@ + lc.tap.device_name@ + ",script=no,downscript=no"@,
        "-device"@,
        "virtio-net-pci,netdev=eth0,mac="@ + crate::addr::mac_str(lc.tap.mac_addr.bytes@),
    ]
}

/// Renders the full command line for one guest: monitor, serial and pidfile
/// under the configuration's temporary directory, headless display, a q35
/// machine with host cpu and kvm acceleration, the image as a virtio drive,
/// the temporary directory exported read-only under the `config-2` tag, the
/// firmware blobs, an RNG device, memory and core sizing with their
/// defaults, and the network device bound to the leased TAP.
pub fn create_qemu_arguments(lc: &LaunchConfiguration) -> (r: Vec<String>)
    ensures
        exists|fs_id: nat| r.deep_view() == spec_qemu_arguments(*lc, fs_id),
{
    let qr = QemuRunMode {
        monitor: Some(
            QemuMonitor { monitor_socket_path: join_path(lc.temp_dir.as_str(), "monitor.socket") },
        ),
        serial: Some(
            QemuSerial { serial_socket_path: join_path(lc.temp_dir.as_str(), "serial.socket") },
        ),
        display: false,
        daemonize_pidfile: Some(join_path(lc.temp_dir.as_str(), "pidfile")),
    };
    let qv = QemuVirtualizationMode {
        machine: Some(MachineType::Q35),
        cpu: None,
        accel: Some("kvm".to_owned()),
    };
    let memory = match &lc.memory_in_mega_bytes {
        Some(m) => *m,
        None => DEFAULT_MEMORY_MEGABYTES,
    };
    let cores = match &lc.num_cores {
        Some(c) => *c,
        None => DEFAULT_CORES,
    };
    let mut drives: Vec<String> = Vec::new();
    drives.push(lc.image_path.clone());
    let mut mounted: Vec<MountedFilesystem> = Vec::new();
    mounted.push(
        MountedFilesystem {
            mount_tag: "config-2".to_owned(),
            readonly: true,
            path: lc.temp_dir.clone(),
        },
    );
    let qc = QemuConfig {
        name: None,
        memory_in_megabytes: Some(memory),
        number_of_cores: Some(cores),
        rng_device: true,
        tap: Some(lc.tap.duplicate()),
        firmware: duplicate_firmware(&lc.firmware),
        virtio_drives: drives,
        mounted_filesystems: mounted,
    };
    let mut r = qr.as_args();
    let mut part2 = qv.as_args();
    let ghost part2_view = part2.deep_view();
    r.append(&mut part2);
    let ghost r12_view = r.deep_view();
    proof {
        assert(r12_view =~= qr.spec_args() + part2_view);
    }
    let mut part3 = qc.as_args();
    let ghost part3_view = part3.deep_view();
    r.append(&mut part3);
    proof {
        assert(r.deep_view() =~= r12_view + part3_view);
        let ids = choose|ids: Seq<nat>|
            ids.len() == qc.mounted_filesystems@.len() && part3_view == qc.spec_args(ids);
        reveal_with_fuel(mounted_args_spec, 3);
        assert(qc.mounted_filesystems@.skip(1) =~= Seq::<MountedFilesystem>::empty());
        assert(qc.mounted_filesystems@[0].spec_args(ids[0]) == mounted_args_spec(
            qc.mounted_filesystems@,
            ids,
        ));
        reveal_with_fuel(drives_args_spec, 3);
        assert(qc.virtio_drives.deep_view().skip(1) =~= Seq::<Seq<char>>::empty());
        assert(qc.firmware@ == lc.firmware@);
        assert(r.deep_view() =~~= spec_qemu_arguments(*lc, ids[0]));
    }
    r
}

/// Why starting, watching or stopping a guest failed.
#[derive(Debug)]
pub enum QemuError {
    /// Spawning or probing through the external command runner failed.
    Shell(ShellError),
    /// The guest is not running: its pidfile does not exist.
    NotRunning,
    /// An input/output failure, with its text and what was being done.
    IO(String, String),
    /// The pidfile does not hold UTF-8 text.
    PidFileNonUtf,
    /// The pidfile does not hold a decimal pid.
    PidFileNonNumeric,
    /// The forced kill itself failed; the supervisor has no further
    /// fallback.
    CouldNotKill,
}

/// The monitor-protocol text that requests graceful shutdown.
pub const QUIT_COMMAND: &'static str = "q\n";

/// The graceful-stop budget, in seconds: how long the supervisor waits for
/// the guest to exit after the quit command before it forces a kill.
pub const STOP_TIMEOUT_SECONDS: u64 = 2;

/// An ASCII decimal digit.
pub open spec fn is_ascii_digit(b: u8) -> bool {
    48 <= b <= 57
}

/// Every byte is an ASCII decimal digit.
pub open spec fn all_digits(s: Seq<u8>) -> bool {
    forall|i: int| 0 <= i < s.len() ==> is_ascii_digit(#[trigger] s[i])
}

/// The number the digit bytes spell in decimal.
pub open spec fn dec_value(s: Seq<u8>) -> int
    decreases s.len(),
{
    if s.len() == 0 {
        0
    } else {
        dec_value(s.take(s.len() - 1)) * 10 + (s[s.len() - 1] - 48)
    }
}

proof fn lemma_dec_value_nonneg(s: Seq<u8>)
    requires
        all_digits(s),
    ensures
        dec_value(s) >= 0,
    decreases s.len(),
{
    if s.len() > 0 {
        assert forall|i: int| 0 <= i < s.len() - 1 implies is_ascii_digit(
            #[trigger] s.take(s.len() - 1)[i],
        ) by {
            assert(is_ascii_digit(s[i]));
        }
        lemma_dec_value_nonneg(s.take(s.len() - 1));
    }
}

/// ASCII digits are valid UTF-8 text.
proof fn lemma_ascii_digits_valid_utf8(s: Seq<u8>)
    requires
        all_digits(s),
    ensures
        vstd::utf8::valid_utf8(s),
{
    assert(s.subrange(0, 0) =~= Seq::<u8>::empty());
    assert(vstd::utf8::partial_valid_utf8(s, 0));
    assert forall|i: int| 0 <= 0 <= i < s.len() <= s.len() implies vstd::utf8::is_leading_byte_width_1(
        s[i],
    ) by {
        assert(is_ascii_digit(s[i]));
    }
    vstd::utf8::partial_valid_utf8_extend_ascii_block(s, 0, s.len() as int);
    assert(s.subrange(0, s.len() as int) =~= s);
}

/// A longer digit prefix spells at least as large a number.
proof fn lemma_dec_value_monotone(s: Seq<u8>, i: int, j: int)
    requires
        all_digits(s),
        0 <= i <= j <= s.len(),
    ensures
        dec_value(s.take(i)) <= dec_value(s.take(j)),
    decreases j - i,
{
    if i < j {
        lemma_dec_value_monotone(s, i, j - 1);
        let t = s.take(j);
        assert forall|k: int| 0 <= k < t.len() implies is_ascii_digit(#[trigger] t[k]) by {
            assert(is_ascii_digit(s[k]));
        }
        assert(t.take(j - 1) =~= s.take(j - 1));
        lemma_dec_value_nonneg(s.take(j - 1));
        assert(dec_value(t) == dec_value(s.take(j - 1)) * 10 + (s[j - 1] - 48));
    }
}

/// Parses the pidfile's content: `read_len` bytes were read, of which the
/// last is the terminating newline; the rest must be the pid in ASCII
/// decimal.  Content that is not UTF-8 text and content that is not a
/// decimal number are told apart, in that order; an empty file has no
/// digits and is not a decimal number.
pub fn parse_pid_bytes(buf: &Vec<u8>, read_len: usize) -> (r: Result<u64, QemuError>)
    requires
        read_len <= buf@.len(),
    ensures
        ({
            let digits = if read_len == 0 {
                Seq::<u8>::empty()
            } else {
                buf@.take(read_len - 1)
            };
            &&& r is Ok ==> digits.len() > 0 && all_digits(digits) && dec_value(digits)
                <= u64::MAX && r->Ok_0 == dec_value(digits)
            &&& (digits.len() > 0 && all_digits(digits) && dec_value(digits) <= u64::MAX) ==> r
                is Ok
            &&& !valid_utf8(digits) ==> r == Err::<u64, QemuError>(QemuError::PidFileNonUtf)
            &&& (valid_utf8(digits) && !(digits.len() > 0 && all_digits(digits) && dec_value(
                digits,
            ) <= u64::MAX)) ==> r == Err::<u64, QemuError>(QemuError::PidFileNonNumeric)
        }),
{
    let n = if read_len == 0 {
        0
    } else {
        read_len - 1
    };
    let ghost digits = buf@.take(n as int);
    proof {
        if read_len == 0 {
            assert(digits =~= Seq::<u8>::empty());
        }
    }
    let slice = vstd::slice::slice_subrange(buf.as_slice(), 0, n);
    proof {
        assert(slice@ =~= digits);
    }
    if utf8_to_str(slice).is_none() {
        proof {
            if all_digits(digits) {
                lemma_ascii_digits_valid_utf8(digits);
            }
        }
        return Err(QemuError::PidFileNonUtf);
    }
    if n == 0 {
        return Err(QemuError::PidFileNonNumeric);
    }
    let mut value: u64 = 0;
    let mut i: usize = 0;
    while i < n
        invariant
            n == read_len - 1 <= buf@.len(),
            digits == buf@.take(n as int),
            valid_utf8(digits),
            0 < n,
            0 <= i <= n,
            all_digits(digits.take(i as int)),
            value == dec_value(digits.take(i as int)),
        decreases n - i,
    {
        let b = buf[i];
        if b < 48 || b > 57 {
            proof {
                assert(!is_ascii_digit(digits[i as int]));
            }
            return Err(QemuError::PidFileNonNumeric);
        }
        let d = (b - 48) as u64;
        if value > (u64::MAX - d) / 10 {
            proof {
                assert(digits.take(i as int + 1).take(i as int) =~= digits.take(i as int));
                assert(dec_value(digits.take(i as int + 1)) == value * 10 + d);
                assert(value * 10 + d > u64::MAX) by (nonlinear_arith)
                    requires
                        value > (u64::MAX - d) / 10,
                        d <= 9,
                ;
                if all_digits(digits) {
                    lemma_dec_value_monotone(digits, i as int + 1, n as int);
                    assert(digits.take(n as int) =~= digits);
                }
            }
            return Err(QemuError::PidFileNonNumeric);
        }
        proof {
            assert(digits.take(i as int + 1).take(i as int) =~= digits.take(i as int));
            assert(value * 10 + d <= u64::MAX) by (nonlinear_arith)
                requires
                    value <= (u64::MAX - d) / 10,
                    d <= 9,
            ;
        }
        value = value * 10 + d;
        i = i + 1;
    }
    proof {
        assert(digits.take(n as int) =~= digits);
    }
    Ok(value)
}

/// What the supervisor decides to do once it knows whether the guest runs.
pub enum StopPlan {
    /// The guest is not running: report success without contacting the
    /// monitor socket.
    AlreadyStopped,
    /// The guest runs: send the quit command on the monitor socket, then
    /// wait for it to exit.
    SendQuit,
    /// The running check itself failed.
    Fail(QemuError),
}

/// After the graceful budget, either the guest exited or a kill follows.
pub enum ShutdownStep {
    /// The guest exited within the budget.
    Finished,
    /// The budget expired: force a kill.
    ForceKill,
}

/// The liveness classification: a pid read from the pidfile calls for an
/// operating-system probe of that pid; a missing pidfile means the guest is
/// not running, without a probe; any other failure propagates.
pub open spec fn spec_classify_liveness(pid: Result<u64, QemuError>) -> Result<
    Option<u64>,
    QemuError,
> {
    match pid {
        Ok(p) => Ok(Some(p)),
        Err(QemuError::NotRunning) => Ok(None),
        Err(e) => Err(e),
    }
}

/// Applies the liveness classification to a pidfile-read outcome.
pub fn classify_liveness(pid: Result<u64, QemuError>) -> (r: Result<Option<u64>, QemuError>)
    ensures
        r == spec_classify_liveness(pid),
{
    match pid {
        Ok(p) => Ok(Some(p)),
        Err(QemuError::NotRunning) => Ok(None),
        Err(e) => Err(e),
    }
}

/// The stop decision: nothing to do unless the guest runs.
pub open spec fn spec_plan_stop(running: Result<bool, QemuError>) -> StopPlan {
    match running {
        Ok(true) => StopPlan::SendQuit,
        Ok(false) => StopPlan::AlreadyStopped,
        Err(e) => StopPlan::Fail(e),
    }
}

/// Applies the stop decision to a running check's outcome.
pub fn plan_stop(running: Result<bool, QemuError>) -> (r: StopPlan)
    ensures
        r == spec_plan_stop(running),
{
    match running {
        Ok(true) => StopPlan::SendQuit,
        Ok(false) => StopPlan::AlreadyStopped,
        Err(e) => StopPlan::Fail(e),
    }
}

/// What follows the graceful wait: exit within the budget finishes the
/// stop, a probe failure propagates, an expired budget forces a kill.
pub open spec fn spec_after_graceful_wait(wait: Option<Result<(), ShellError>>) -> Result<
    ShutdownStep,
    QemuError,
> {
    match wait {
        Some(Ok(())) => Ok(ShutdownStep::Finished),
        Some(Err(e)) => Err(QemuError::Shell(e)),
        None => Ok(ShutdownStep::ForceKill),
    }
}

/// Applies the escalation decision to the graceful wait's outcome
/// (`None` when the budget expired before the guest exited).
pub fn after_graceful_wait(wait: Option<Result<(), ShellError>>) -> (r: Result<
    ShutdownStep,
    QemuError,
>)
    ensures
        r == spec_after_graceful_wait(wait),
{
    match wait {
        Some(Ok(())) => Ok(ShutdownStep::Finished),
        Some(Err(e)) => Err(QemuError::Shell(e)),
        None => Ok(ShutdownStep::ForceKill),
    }
}

/// The end of the forced kill: only a kill that reported success ends the
/// stop well; a kill that failed is fatal.
pub open spec fn spec_classify_kill(killed: Result<bool, ShellError>) -> Result<(), QemuError> {
    match killed {
        Ok(true) => Ok(()),
        Ok(false) => Err(QemuError::CouldNotKill),
        Err(e) => Err(QemuError::Shell(e)),
    }
}

/// Applies the kill classification to the kill command's outcome.
pub fn classify_kill(killed: Result<bool, ShellError>) -> (r: Result<(), QemuError>)
    ensures
        r == spec_classify_kill(killed),
{
    match killed {
        Ok(true) => Ok(()),
        Ok(false) => Err(QemuError::CouldNotKill),
        Err(e) => Err(QemuError::Shell(e)),
    }
}

/// Law: a stop on a handle whose pidfile does not exist reports success
/// without contacting the monitor socket.  Reading the pidfile yields the
/// not-running error; the liveness classification turns it into "not
/// running" without an operating-system probe; and the stop plan for a
/// guest that is not running is to do nothing.
pub proof fn lemma_stop_missing_pidfile_is_noop()
    ensures
        spec_classify_liveness(Err(QemuError::NotRunning)) == Ok::<Option<u64>, QemuError>(None),
        spec_plan_stop(Ok(false)) == StopPlan::AlreadyStopped,
{
}

/// A supervised guest: the handle owns the launch configuration while the
/// guest may be running, and gives it up when the guest is stopped.  Whether
/// the handle has a configuration is distinct from whether the guest process
/// is alive, which the pidfile and a liveness probe decide.
#[derive(Debug)]
pub struct QemuProcessHandle {
    pub lc: Option<LaunchConfiguration>,
}

impl QemuProcessHandle {
    /// A handle owning the given configuration.
    pub fn new(lc: LaunchConfiguration) -> (r: QemuProcessHandle)
        ensures
            r.lc == Some(lc),
    {
        QemuProcessHandle { lc: Some(lc) }
    }

    /// The monitor socket's path under the configuration's directory.
    pub fn monitor_path(&self) -> (r: String)
        requires
            self.lc is Some,
        ensures
            r@ == self.lc.unwrap().temp_dir@ + "/"@ + "monitor.socket"@,
    {
        match &self.lc {
            Some(lc) => join_path(lc.temp_dir.as_str(), "monitor.socket"),
            None => "".to_owned(),
        }
    }

    /// The serial socket's path under the configuration's directory.
    pub fn serial_path(&self) -> (r: String)
        requires
            self.lc is Some,
        ensures
            r@ == self.lc.unwrap().temp_dir@ + "/"@ + "serial.socket"@,
    {
        match &self.lc {
            Some(lc) => join_path(lc.temp_dir.as_str(), "serial.socket"),
            None => "".to_owned(),
        }
    }

    /// The pidfile's path under the configuration's directory.
    pub fn pid_file_path(&self) -> (r: String)
        requires
            self.lc is Some,
        ensures
            r@ == self.lc.unwrap().temp_dir@ + "/"@ + "pidfile"@,
    {
        match &self.lc {
            Some(lc) => join_path(lc.temp_dir.as_str(), "pidfile"),
            None => "".to_owned(),
        }
    }

    /// One line naming the guest's TAP device and IP address.
    pub fn status_line(&self) -> (r: String)
        requires
            self.lc is Some,
        ensures
            r@ == "TapDevice: "@ + self.lc.unwrap().tap.device_name@ + ", Ip: "@
                + crate::addr::ipv4_str(self.lc.unwrap().tap.ip_addr.value),
    {
        match &self.lc {
            Some(lc) => {
                let mut s = "TapDevice: ".to_owned();
                s.append(lc.tap.device_name.as_str());
                s.append(", Ip: ");
                s.append(lc.tap.ip_addr.to_dec_string().as_str());
                s
            },
            None => "".to_owned(),
        }
    }

    /// Gives up the configuration, for a restart or a teardown.
    pub fn take_configuration(&mut self) -> (r: LaunchConfiguration)
        requires
            old(self).lc is Some,
        ensures
            final(self).lc is None,
            r == old(self).lc.unwrap(),
    {
        let taken = self.lc.take();
        match taken {
            Some(lc) => lc,
            None => unreached(),
        }
    }
}

} // verus!
