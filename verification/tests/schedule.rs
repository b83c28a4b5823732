use std::collections::HashMap;
use system76_firmware_daemon::cache::{StoreReply, StoreRequest};
use system76_firmware_daemon::error::{Error, ErrorKind};
use system76_firmware_daemon::host::{
    HostReply, HostRequest, ARMED_PATH, BOOT_ENVIRONMENT, FIRMWARE_DIR, SCRATCH_PARENT,
    SCRATCH_PREFIX,
};
use system76_firmware_daemon::identity::firmware_id;
use system76_firmware_daemon::release::{firmware_file, UPDATER_FILE};
use system76_firmware_daemon::schedule::Schedule;

fn digest(data: &[u8]) -> String {
    buildchain::Sha384::new(data).unwrap().to_base32()
}

fn tar_of(members: &[(&str, &[u8])]) -> Vec<u8> {
    let mut builder = tar::Builder::new(Vec::new());
    for (path, data) in members {
        let mut header = tar::Header::new_gnu();
        header.as_old_mut().name[..path.len()].copy_from_slice(path.as_bytes());
        header.set_size(data.len() as u64);
        header.set_mode(0o644);
        header.set_entry_type(tar::EntryType::Regular);
        header.set_cksum();
        builder.append(&header, *data).unwrap();
    }
    builder.into_inner().unwrap()
}

fn xz(data: &[u8]) -> Vec<u8> {
    lzma::compress(data, 6).unwrap()
}

fn manifest(files: &[(&str, &str)]) -> Vec<u8> {
    let mut map = serde_json::Map::new();
    for (name, digest) in files {
        map.insert(name.to_string(), serde_json::Value::String(digest.to_string()));
    }
    let mut document = serde_json::Map::new();
    document.insert("time".to_string(), serde_json::Value::from(1u64));
    document.insert("files".to_string(), serde_json::Value::Object(map));
    serde_json::to_vec(&serde_json::Value::Object(document)).unwrap()
}

/// A host in memory: a directory is the list of the streams unpacked in it.
struct Host {
    boot_environment: bool,
    bios_model: Result<String, String>,
    ec_project: Option<String>,
    boot_flag: bool,
    armed: Option<Vec<(String, Vec<u8>)>>,
    scratch: Option<Vec<(String, Vec<u8>)>>,
    cache: HashMap<String, Vec<u8>>,
    fail: Option<&'static str>,
    log: Vec<String>,
}

impl Host {
    fn new() -> Host {
        Host {
            boot_environment: true,
            bios_model: Ok("galp3-b".to_string()),
            ec_project: Some("N130ZU".to_string()),
            boot_flag: true,
            armed: Some(vec![("old".to_string(), Vec::new())]),
            scratch: None,
            cache: HashMap::new(),
            fail: None,
            log: Vec::new(),
        }
    }

    fn firmware_file(&self) -> String {
        firmware_file(&firmware_id(self.bios_model.clone(), self.ec_project.clone()).unwrap())
    }

    /// Files a release in the cache and returns the digest of its manifest.
    fn release(&mut self, updater: &[u8], firmware: &[u8]) -> String {
        let name = self.firmware_file();
        let document = manifest(&[(UPDATER_FILE, &digest(updater)), (&name, &digest(firmware))]);
        self.cache.insert(digest(updater), updater.to_vec());
        self.cache.insert(digest(firmware), firmware.to_vec());
        self.cache.insert(digest(&document), document.clone());
        digest(&document)
    }

    fn done(&mut self, what: &'static str) -> Result<(), String> {
        self.log.push(what.to_string());
        if self.fail == Some(what) {
            Err(format!("{} refused", what))
        } else {
            Ok(())
        }
    }

    fn perform(&mut self, request: HostRequest) -> HostReply {
        match request {
            HostRequest::CheckBootEnvironment => {
                self.log.push("check".to_string());
                HostReply::BootEnvironment(self.boot_environment)
            },
            HostRequest::ReadIdentity => {
                self.log.push("identity".to_string());
                HostReply::Identity {
                    bios_model: self.bios_model.clone(),
                    ec_project: self.ec_project.clone(),
                }
            },
            HostRequest::FetchRootPointer => panic!("staging asks for no root pointer"),
            HostRequest::UnsetBootFlag => {
                let r = self.done("unset");
                if r.is_ok() {
                    self.boot_flag = false;
                }
                HostReply::Done(r)
            },
            HostRequest::RemoveArmed => {
                let r = self.done("remove");
                if r.is_ok() {
                    self.armed = None;
                }
                HostReply::Done(r)
            },
            HostRequest::CreateScratch => {
                let r = self.done("scratch");
                if r.is_ok() {
                    self.scratch = Some(Vec::new());
                }
                HostReply::Scratch(r.map(|()| "/boot/efi/system76-firmware-update.Xy12".to_string()))
            },
            HostRequest::Store(StoreRequest::Read { digest }) => {
                self.log.push("read".to_string());
                HostReply::Store(StoreReply::Read(self.cache.get(digest).cloned()))
            },
            HostRequest::Store(_) => panic!("staging reads local storage only"),
            HostRequest::UnpackUpdater { tar, into } => {
                assert_eq!(into, "/boot/efi/system76-firmware-update.Xy12");
                let r = self.done("updater");
                if r.is_ok() {
                    self.scratch.as_mut().unwrap().push((String::new(), tar.to_vec()));
                }
                HostReply::Done(r)
            },
            HostRequest::UnpackFirmware { tar, into } => {
                assert_eq!(into, "/boot/efi/system76-firmware-update.Xy12/firmware");
                let r = self.done("firmware");
                if r.is_ok() {
                    self.scratch.as_mut().unwrap().push((FIRMWARE_DIR.to_string(), tar.to_vec()));
                }
                HostReply::Done(r)
            },
            HostRequest::Commit { scratch } => {
                assert_eq!(scratch, "/boot/efi/system76-firmware-update.Xy12");
                let r = self.done("commit");
                if r.is_ok() {
                    assert!(self.armed.is_none());
                    self.armed = self.scratch.take();
                }
                HostReply::Done(r)
            },
            HostRequest::RemoveScratch { scratch } => {
                assert_eq!(scratch, "/boot/efi/system76-firmware-update.Xy12");
                let r = self.done("abandon");
                if r.is_ok() {
                    self.scratch = None;
                }
                HostReply::Done(r)
            },
            HostRequest::SetBootFlag => {
                let r = self.done("set");
                if r.is_ok() {
                    self.boot_flag = true;
                }
                HostReply::Done(r)
            },
        }
    }

    fn schedule(&mut self, digest: &str) -> Result<(), Error> {
        let mut schedule = Schedule::begin(digest.to_string());
        loop {
            schedule = match schedule.outcome() {
                Ok(answer) => return answer,
                Err(schedule) => schedule,
            };
            let reply = self.perform(schedule.pending().unwrap());
            schedule = schedule.step(reply);
        }
    }
}

#[test]
fn fixed_names_are_those_of_the_boot_volume() {
    assert_eq!(ARMED_PATH, "/boot/efi/system76-firmware-update");
    assert_eq!(SCRATCH_PARENT, "/boot/efi");
    assert_eq!(SCRATCH_PREFIX, "system76-firmware-update");
    assert_eq!(FIRMWARE_DIR, "firmware");
    assert_eq!(BOOT_ENVIRONMENT, "/sys/firmware/efi");
}

#[test]
fn schedule_stages_both_payloads_and_arms() {
    let updater = tar_of(&[("boot.efi", b"efi")]);
    let firmware = tar_of(&[("./firmware.rom", b"rom"), ("./changelog.json", b"{}")]);
    let mut host = Host::new();
    let root = host.release(&xz(&updater), &xz(&firmware));
    host.schedule(&root).unwrap();
    assert!(host.boot_flag);
    assert!(host.scratch.is_none());
    assert_eq!(
        host.armed,
        Some(vec![(String::new(), updater), ("firmware".to_string(), firmware)])
    );
    assert_eq!(
        host.log,
        vec![
            "check", "identity", "unset", "remove", "scratch", "read", "read", "read", "updater",
            "firmware", "commit", "set"
        ]
    );
}

#[test]
fn schedule_without_boot_environment_touches_nothing() {
    let mut host = Host::new();
    let root = host.release(&xz(&tar_of(&[("a", b"1")])), &xz(&tar_of(&[("b", b"2")])));
    host.boot_environment = false;
    host.bios_model = Err("unreadable".to_string());
    let err = host.schedule(&root).unwrap_err();
    assert_eq!(err.kind, ErrorKind::Precondition);
    assert_eq!(err.message(), "must be run using UEFI boot");
    assert_eq!(host.log, vec!["check"]);
    assert!(host.boot_flag);
    assert_eq!(host.armed, Some(vec![("old".to_string(), Vec::new())]));
}

#[test]
fn schedule_without_identity_touches_nothing() {
    let mut host = Host::new();
    let root = host.release(&xz(&tar_of(&[("a", b"1")])), &xz(&tar_of(&[("b", b"2")])));
    host.bios_model = Err("failed to read product_version".to_string());
    let err = host.schedule(&root).unwrap_err();
    assert_eq!(err.kind, ErrorKind::Identity);
    assert_eq!(err.message(), "failed to read product_version");
    assert_eq!(host.log, vec!["check", "identity"]);
    assert!(host.boot_flag);
    assert!(host.armed.is_some());
}

#[test]
fn schedule_stops_when_the_flag_cannot_be_unset() {
    let mut host = Host::new();
    let root = host.release(&xz(&tar_of(&[("a", b"1")])), &xz(&tar_of(&[("b", b"2")])));
    host.fail = Some("unset");
    let err = host.schedule(&root).unwrap_err();
    assert_eq!(err.kind, ErrorKind::Filesystem);
    assert_eq!(err.message(), "unset refused");
    assert_eq!(host.log, vec!["check", "identity", "unset"]);
    assert!(host.armed.is_some());
}

#[test]
fn schedule_stops_when_the_old_update_cannot_be_removed() {
    let mut host = Host::new();
    let root = host.release(&xz(&tar_of(&[("a", b"1")])), &xz(&tar_of(&[("b", b"2")])));
    host.fail = Some("remove");
    let err = host.schedule(&root).unwrap_err();
    assert_eq!(err.kind, ErrorKind::Filesystem);
    assert_eq!(
        err.message(),
        "failed to remove /boot/efi/system76-firmware-update: remove refused"
    );
    assert_eq!(host.log, vec!["check", "identity", "unset", "remove"]);
    assert!(!host.boot_flag);
}

#[test]
fn schedule_stops_without_scratch_directory() {
    let mut host = Host::new();
    let root = host.release(&xz(&tar_of(&[("a", b"1")])), &xz(&tar_of(&[("b", b"2")])));
    host.fail = Some("scratch");
    let err = host.schedule(&root).unwrap_err();
    assert_eq!(err.kind, ErrorKind::Filesystem);
    assert_eq!(err.message(), "failed to create temporary directory: scratch refused");
    assert_eq!(host.log, vec!["check", "identity", "unset", "remove", "scratch"]);
    assert!(!host.boot_flag);
    assert!(host.armed.is_none());
}

#[test]
fn schedule_of_unknown_release_abandons_the_scratch_directory() {
    let mut host = Host::new();
    let err = host.schedule("NOSUCHDIGEST").unwrap_err();
    assert_eq!(err.kind, ErrorKind::Integrity);
    assert_eq!(err.message(), "NOSUCHDIGEST not found in cache");
    assert_eq!(
        host.log,
        vec!["check", "identity", "unset", "remove", "scratch", "read", "abandon"]
    );
    assert!(!host.boot_flag);
    assert!(host.armed.is_none());
    assert!(host.scratch.is_none());
}

#[test]
fn schedule_for_a_machine_the_release_lacks_names_the_file() {
    let mut host = Host::new();
    let root = host.release(&xz(&tar_of(&[("a", b"1")])), &xz(&tar_of(&[("b", b"2")])));
    host.ec_project = None;
    let err = host.schedule(&root).unwrap_err();
    assert_eq!(err.kind, ErrorKind::Manifest);
    assert_eq!(
        err.message(),
        "galp3-b_140bedbf9c3f6d56a9846d2ba7088798683f4da0c248231336e6a05679e4fdfe.tar.xz not found"
    );
    assert!(host.armed.is_none());
    assert!(host.scratch.is_none());
    assert!(!host.boot_flag);
}

#[test]
fn schedule_with_firmware_that_cannot_be_extracted_leaves_nothing() {
    let updater = tar_of(&[("boot.efi", b"efi")]);
    let mut host = Host::new();
    let mut damaged = xz(&tar_of(&[("./firmware.rom", b"rom rom rom rom")]));
    let middle = damaged.len() / 2;
    damaged[middle] ^= 0x55;
    let root = host.release(&xz(&updater), &damaged);
    let err = host.schedule(&root).unwrap_err();
    assert_eq!(err.kind, ErrorKind::Extraction);
    let prefix = format!(
        "failed to extract {} to /boot/efi/system76-firmware-update.Xy12/firmware: ",
        host.firmware_file()
    );
    assert!(err.message().starts_with(&prefix), "{}", err.message());
    assert!(err.message().len() > prefix.len());
    assert_eq!(
        host.log,
        vec![
            "check", "identity", "unset", "remove", "scratch", "read", "read", "read", "updater",
            "abandon"
        ]
    );
    assert!(host.armed.is_none());
    assert!(host.scratch.is_none());
    assert!(!host.boot_flag);
}

#[test]
fn schedule_with_firmware_that_leaves_the_destination_leaves_nothing() {
    let mut host = Host::new();
    let root = host.release(
        &xz(&tar_of(&[("boot.efi", b"efi")])),
        &xz(&tar_of(&[("../../EFI/BOOT/BOOTX64.EFI", b"evil")])),
    );
    let err = host.schedule(&root).unwrap_err();
    assert_eq!(err.kind, ErrorKind::Extraction);
    assert_eq!(
        err.message(),
        format!(
            "failed to extract {} to /boot/efi/system76-firmware-update.Xy12/firmware: archive member leaves the destination",
            host.firmware_file()
        )
    );
    assert!(host.armed.is_none());
    assert!(!host.boot_flag);
    assert_eq!(host.log.last().unwrap(), "abandon");
}

#[test]
fn schedule_with_updater_that_leaves_the_destination_unpacks_nothing() {
    let mut host = Host::new();
    let root = host.release(
        &xz(&tar_of(&[("/boot/efi/EFI/BOOT/BOOTX64.EFI", b"evil")])),
        &xz(&tar_of(&[("a", b"1")])),
    );
    let err = host.schedule(&root).unwrap_err();
    assert_eq!(
        err.message(),
        "failed to extract system76-firmware-update.tar.xz to /boot/efi/system76-firmware-update.Xy12: archive member leaves the destination"
    );
    assert!(!host.log.contains(&"updater".to_string()));
    assert!(host.armed.is_none());
    assert!(host.scratch.is_none());
}

#[test]
fn schedule_when_unpacking_fails_leaves_nothing() {
    for (what, file, dir) in [
        ("updater", "system76-firmware-update.tar.xz".to_string(), ""),
        ("firmware", Host::new().firmware_file(), "/firmware"),
    ] {
        let mut host = Host::new();
        let root = host.release(&xz(&tar_of(&[("a", b"1")])), &xz(&tar_of(&[("b", b"2")])));
        host.fail = Some(what);
        let err = host.schedule(&root).unwrap_err();
        assert_eq!(err.kind, ErrorKind::Extraction);
        assert_eq!(
            err.message(),
            format!(
                "failed to extract {} to /boot/efi/system76-firmware-update.Xy12{}: {} refused",
                file, dir, what
            )
        );
        assert_eq!(host.log.last().unwrap(), "abandon");
        assert!(host.armed.is_none());
        assert!(host.scratch.is_none());
        assert!(!host.boot_flag);
    }
}

#[test]
fn schedule_when_the_rename_fails_removes_the_scratch_directory() {
    let mut host = Host::new();
    let root = host.release(&xz(&tar_of(&[("a", b"1")])), &xz(&tar_of(&[("b", b"2")])));
    host.fail = Some("commit");
    let err = host.schedule(&root).unwrap_err();
    assert_eq!(err.kind, ErrorKind::Filesystem);
    assert_eq!(
        err.message(),
        "failed to move /boot/efi/system76-firmware-update.Xy12 to /boot/efi/system76-firmware-update: commit refused"
    );
    assert_eq!(&host.log[host.log.len() - 2..], ["commit", "abandon"]);
    assert!(host.armed.is_none());
    assert!(host.scratch.is_none());
    assert!(!host.boot_flag);
}

#[test]
fn schedule_reports_the_failure_even_if_the_scratch_directory_stays() {
    let mut host = Host::new();
    host.fail = Some("abandon");
    let err = host.schedule("NOSUCHDIGEST").unwrap_err();
    assert_eq!(err.message(), "NOSUCHDIGEST not found in cache");
    assert!(host.scratch.is_some());
    assert!(host.armed.is_none());
}

#[test]
fn schedule_when_the_flag_cannot_be_set_reports_it() {
    let mut host = Host::new();
    let root = host.release(&xz(&tar_of(&[("a", b"1")])), &xz(&tar_of(&[("b", b"2")])));
    host.fail = Some("set");
    let err = host.schedule(&root).unwrap_err();
    assert_eq!(err.kind, ErrorKind::Filesystem);
    assert_eq!(err.message(), "set refused");
    assert!(host.armed.is_some());
    assert!(!host.boot_flag);
}

#[test]
fn schedule_with_a_corrupt_cache_stages_nothing() {
    let mut host = Host::new();
    let updater = xz(&tar_of(&[("a", b"1")]));
    let root = host.release(&updater, &xz(&tar_of(&[("b", b"2")])));
    host.cache.insert(digest(&updater), b"garbage".to_vec());
    let err = host.schedule(&root).unwrap_err();
    assert_eq!(err.kind, ErrorKind::Integrity);
    assert_eq!(err.message(), format!("{} does not match its content", digest(&updater)));
    assert!(host.armed.is_none());
    assert!(!host.boot_flag);
}

#[test]
fn schedule_ignores_replies_to_what_it_did_not_ask() {
    let schedule = Schedule::begin("D".to_string())
        .step(HostReply::Done(Ok(())))
        .step(HostReply::Scratch(Ok("/x".to_string())))
        .step(HostReply::Store(StoreReply::Read(None)));
    assert!(matches!(schedule.pending(), Some(HostRequest::CheckBootEnvironment)));
    let schedule = schedule.step(HostReply::BootEnvironment(true)).step(HostReply::BootEnvironment(false));
    assert!(matches!(schedule.pending(), Some(HostRequest::ReadIdentity)));
}
