//! Launch preparation for Flatcar guests: the ignition input configuration
//! assembled from the rendered guest texts, and the launch configuration
//! that injects the transpiled ignition blob as firmware.  Rendering the
//! texts, transpiling them and copying the image are outside work; the
//! exact structure, paths and names they are wired into are fixed here.

use vstd::prelude::*;
use vstd::string::StringExecFns;
use crate::network::TapUser;
use crate::qemu::LaunchConfiguration;
use crate::qemu::QemuFirmwareConfig;
use crate::qemu::join_path;

verus! {

/// Inline file contents.
#[derive(Debug)]
pub struct Content {
    pub inline: String,
}

/// One file the guest's initial filesystem gets.
#[derive(Debug)]
pub struct FlatcarStorageFileConfig {
    pub path: String,
    pub contents: Content,
}

/// The files of the guest's initial filesystem.
#[derive(Debug)]
pub struct FlatcarStorageConfig {
    pub files: Vec<FlatcarStorageFileConfig>,
}

/// One systemd unit the guest enables.
#[derive(Debug)]
pub struct FlatcarSystemdUnitConfig {
    pub name: String,
    pub enabled: bool,
    pub contents: String,
}

/// The systemd units of the guest.
#[derive(Debug)]
pub struct FlatcarSystemdConfig {
    pub units: Vec<FlatcarSystemdUnitConfig>,
}

/// The transpiler's input configuration for one Flatcar guest.
#[derive(Debug)]
pub struct FlatcarConfig {
    pub variant: String,
    pub version: String,
    pub systemd: FlatcarSystemdConfig,
    pub storage: FlatcarStorageConfig,
}

/// What a Flatcar launch needs from the caller: the fresh image to copy and
/// an optional core count.
#[derive(Debug)]
pub struct Args {
    pub flatcar_fresh_image: String,
    pub number_of_cores: Option<u64>,
}

/// Assembles the transpiler input for one worker from the four rendered
/// guest texts: the worker service unit, enabled; and the guest's network
/// configuration, worker configuration and docker daemon configuration
/// files, at their fixed paths, in that order.
pub fn create_configuration(
    docker_unit: String,
    network_config: String,
    worker_config: String,
    docker_daemon: String,
) -> (r: FlatcarConfig)
    ensures
        r.variant@ == "flatcar"@,
        r.version@ == "1.0.0"@,
        r.systemd.units@.len() == 1,
        r.systemd.units@[0].name@ == "nesWorker.service"@,
        r.systemd.units@[0].enabled,
        r.systemd.units@[0].contents@ == docker_unit@,
        r.storage.files@.len() == 3,
        r.storage.files@[0].path@ == "/etc/systemd/network/00-eth0.network"@,
        r.storage.files@[0].contents.inline@ == network_config@,
        r.storage.files@[1].path@ == "/config/worker_config.yaml"@,
        r.storage.files@[1].contents.inline@ == worker_config@,
        r.storage.files@[2].path@ == "/etc/docker/daemon.json"@,
        r.storage.files@[2].contents.inline@ == docker_daemon@,
{
    let mut units: Vec<FlatcarSystemdUnitConfig> = Vec::new();
    units.push(
        FlatcarSystemdUnitConfig {
            name: "nesWorker.service".to_owned(),
            enabled: true,
            contents: docker_unit,
        },
    );
    let mut files: Vec<FlatcarStorageFileConfig> = Vec::new();
    files.push(
        FlatcarStorageFileConfig {
            path: "/etc/systemd/network/00-eth0.network".to_owned(),
            contents: Content { inline: network_config },
        },
    );
    files.push(
        FlatcarStorageFileConfig {
            path: "/config/worker_config.yaml".to_owned(),
            contents: Content { inline: worker_config },
        },
    );
    files.push(
        FlatcarStorageFileConfig {
            path: "/etc/docker/daemon.json".to_owned(),
            contents: Content { inline: docker_daemon },
        },
    );
    FlatcarConfig {
        version: "1.0.0".to_owned(),
        variant: "flatcar".to_owned(),
        systemd: FlatcarSystemdConfig { units },
        storage: FlatcarStorageConfig { files },
    }
}

/// Assembles the launch configuration of a Flatcar guest once its files are
/// prepared: the copied image and the transpiled ignition blob live in the
/// guest's temporary directory, and the blob is injected under the firmware
/// name the guest's ignition reads.
pub fn assemble_launch_configuration(tap: TapUser, temp_dir: String, args: &Args) -> (r:
    LaunchConfiguration)
    ensures
        r.tap == tap,
        r.temp_dir@ == temp_dir@,
        r.image_path@ == temp_dir@ + "/"@ + "flatcar_fresh.iso"@,
        r.firmware@.len() == 1,
        r.firmware@[0].name@ == "opt/org.flatcar-linux/config"@,
        r.firmware@[0].path@ == temp_dir@ + "/"@ + "ignition.json"@,
        r.num_cores == args.number_of_cores,
        r.memory_in_mega_bytes is None,
{
    let image_path = join_path(temp_dir.as_str(), "flatcar_fresh.iso");
    let ignition_path = join_path(temp_dir.as_str(), "ignition.json");
    let mut firmware: Vec<QemuFirmwareConfig> = Vec::new();
    firmware.push(
        QemuFirmwareConfig { name: "opt/org.flatcar-linux/config".to_owned(), path: ignition_path },
    );
    let num_cores = match &args.number_of_cores {
        Some(c) => Some(*c),
        None => None,
    };
    LaunchConfiguration {
        tap,
        image_path,
        firmware,
        num_cores,
        memory_in_mega_bytes: None,
        temp_dir,
    }
}

} // verus!
