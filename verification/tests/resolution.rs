use proxmox_auto_installer::http::{FetchFromHTTP, FileStage, Stage};
use proxmox_auto_installer::protocol::{AnswerLocation, Event, FetchError, Request, Step};
use proxmox_auto_installer::utils::MountStage;

/// What the surroundings hold, for a resolution that is played through.
#[derive(Default)]
struct World {
    mounts: Option<String>,
    devices: Vec<String>,
    mount_fails: bool,
    fingerprint_file: Option<String>,
    fingerprint_unreadable: bool,
    leases: Option<String>,
    resolv_conf: Option<String>,
    records: Vec<(String, String)>,
    mounted: bool,
    reasons: Vec<FetchError>,
}

impl World {
    fn answer(&mut self, request: &Request) -> Event {
        match request {
            Request::ReadFile { path } => {
                let contents = match path.as_str() {
                    "/proc/mounts" => self.mounts.clone(),
                    "/mnt/answer/cert_fingerprint.txt" if self.mounted && !self.fingerprint_unreadable => {
                        self.fingerprint_file.clone()
                    }
                    "/var/lib/dhcp/dhclient.leases" => self.leases.clone(),
                    "/etc/resolv.conf" => self.resolv_conf.clone(),
                    _ => None,
                };
                match contents {
                    Some(text) => Event::Contents(text),
                    None => Event::Failed("No such file or directory (os error 2)".to_string()),
                }
            }
            Request::ProbePath { path } => {
                let there = self.devices.contains(path)
                    || (self.mounted
                        && self.fingerprint_file.is_some()
                        && path == "/mnt/answer/cert_fingerprint.txt");
                if there {
                    Event::Found
                } else {
                    Event::Absent
                }
            }
            Request::CreateDir { .. } => Event::Done,
            Request::MountReadOnly { .. } => {
                self.mounted = !self.mount_fails;
                Event::Exited {
                    success: !self.mount_fails,
                    stdout: Vec::new(),
                    stderr: if self.mount_fails { b"mount: failed\n".to_vec() } else { Vec::new() },
                }
            }
            Request::QueryTxt { name } => match self.records.iter().find(|(n, _)| n == name) {
                Some((_, text)) => Event::Exited {
                    success: true,
                    stdout: format!("\"{}\"\n", text).into_bytes(),
                    stderr: Vec::new(),
                },
                None => Event::Exited { success: true, stdout: Vec::new(), stderr: Vec::new() },
            },
            Request::WriteFile { .. } => Event::Done,
        }
    }
}

/// Plays a resolution through and gives its end and the requests it made.
fn resolve(world: &mut World) -> (Result<AnswerLocation, FetchError>, Vec<Request>) {
    let mut requests = Vec::new();
    let mut step = answer(Stage::Start, Event::Started);
    for _ in 0..32 {
        match step {
            Step::Perform(stage, request) => {
                let event = world.answer(&request);
                requests.push(request);
                let (next, reason) = FetchFromHTTP::get_answer(stage, event);
                world.reasons.extend(reason);
                step = next;
            }
            Step::Ready(location) => return (Ok(location), requests),
            Step::Failed(error) => return (Err(error), requests),
        }
    }
    panic!("the resolution does not end");
}

fn answer(stage: Stage, event: Event) -> Step<Stage, AnswerLocation> {
    FetchFromHTTP::get_answer(stage, event).0
}

fn queries(requests: &[Request]) -> usize {
    requests.iter().filter(|r| matches!(r, Request::QueryTxt { .. })).count()
}

fn mounts(requests: &[Request]) -> usize {
    requests.iter().filter(|r| matches!(r, Request::MountReadOnly { .. })).count()
}

fn read(path: &str) -> Request {
    Request::ReadFile { path: path.to_string() }
}

fn probe(path: &str) -> Request {
    Request::ProbePath { path: path.to_string() }
}

fn query(name: &str) -> Request {
    Request::QueryTxt { name: name.to_string() }
}

fn write(contents: &str) -> Request {
    Request::WriteFile { path: "/tmp/cert_fingerprint".to_string(), contents: contents.to_string() }
}

#[test]
fn nothing_available_fails_the_resolution() {
    let mut world = World::default();
    let (end, requests) = resolve(&mut world);
    assert!(end.is_err());
    assert_eq!(
        end,
        Err(FetchError::Unreadable { detail: "No such file or directory (os error 2)".to_string() })
    );
    assert_eq!(
        requests,
        vec![
            read("/proc/mounts"),
            probe("/dev/disk/by-label/PROXMOXINST"),
            probe("/dev/disk/by-label/proxmoxinst"),
            read("/var/lib/dhcp/dhclient.leases"),
            read("/etc/resolv.conf"),
        ]
    );
}

#[test]
fn no_url_anywhere_fails_the_resolution() {
    let mut world = World {
        mounts: Some("/dev/sdb1 /mnt/answer vfat ro 0 0\n".to_string()),
        mounted: true,
        fingerprint_file: Some("AA:BB:CC\n".to_string()),
        leases: Some("lease {\n  option proxmoxinst-fp \"dd:ee\";\n}\n".to_string()),
        resolv_conf: Some("search example.com\n".to_string()),
        records: vec![("proxmoxinst-fp.example.com".to_string(), "11:22".to_string())],
        ..World::default()
    };
    let (end, requests) = resolve(&mut world);
    assert_eq!(end, Err(FetchError::EmptyResponse));
    assert_eq!(queries(&requests), 1);
    assert!(!requests.iter().any(|r| matches!(r, Request::WriteFile { .. })));
}

#[test]
fn fingerprint_of_the_file_comes_before_that_of_dhcp() {
    let mut world = World {
        mounts: Some("proc /proc proc rw 0 0\n".to_string()),
        devices: vec![
            "/dev/disk/by-label/PROXMOXINST".to_string(),
            "/dev/disk/by-label/proxmoxinst".to_string(),
        ],
        fingerprint_file: Some("  AA:BB:CC\n".to_string()),
        leases: Some(
            "option proxmoxinst-url \"http://10.0.0.5/answer.toml\";\noption proxmoxinst-fp \"dd:ee:ff\";\n"
                .to_string(),
        ),
        ..World::default()
    };
    let (end, requests) = resolve(&mut world);
    assert_eq!(
        end,
        Ok(AnswerLocation {
            url: "http://10.0.0.5/answer.toml".to_string(),
            fingerprint: Some("AA:BB:CC".to_string()),
        })
    );
    assert_eq!(
        requests,
        vec![
            read("/proc/mounts"),
            probe("/dev/disk/by-label/PROXMOXINST"),
            Request::CreateDir { path: "/mnt/answer".to_string() },
            Request::MountReadOnly {
                device: "/dev/disk/by-label/PROXMOXINST".to_string(),
                target: "/mnt/answer".to_string(),
            },
            probe("/mnt/answer/cert_fingerprint.txt"),
            read("/mnt/answer/cert_fingerprint.txt"),
            read("/var/lib/dhcp/dhclient.leases"),
            write("AA:BB:CC"),
        ]
    );
}

#[test]
fn url_of_dhcp_ends_the_resolution_without_a_query() {
    let mut world = World {
        leases: Some("option proxmoxinst-url \"http://10.0.0.5/answer.toml\";".to_string()),
        resolv_conf: Some("search example.com\n".to_string()),
        records: vec![
            ("proxmoxinst.example.com".to_string(), "http://cfg.example.com/a.toml".to_string()),
            ("proxmoxinst-fp.example.com".to_string(), "11:22".to_string()),
        ],
        ..World::default()
    };
    let (end, requests) = resolve(&mut world);
    assert_eq!(
        end,
        Ok(AnswerLocation { url: "http://10.0.0.5/answer.toml".to_string(), fingerprint: None })
    );
    assert_eq!(queries(&requests), 0);
    assert_eq!(requests.last(), Some(&read("/var/lib/dhcp/dhclient.leases")));
}

#[test]
fn fingerprint_of_dhcp_is_written_out() {
    let mut world = World {
        leases: Some(
            "option proxmoxinst-fp \"dd:ee:ff\";\noption proxmoxinst-url \"http://10.0.0.5/answer.toml\";\n"
                .to_string(),
        ),
        ..World::default()
    };
    let (end, requests) = resolve(&mut world);
    assert_eq!(
        end,
        Ok(AnswerLocation {
            url: "http://10.0.0.5/answer.toml".to_string(),
            fingerprint: Some("dd:ee:ff".to_string()),
        })
    );
    assert_eq!(requests.last(), Some(&write("dd:ee:ff")));
    assert_eq!(queries(&requests), 0);
}

#[test]
fn name_service_gives_the_url_when_there_is_no_lease_file() {
    let mut world = World {
        resolv_conf: Some("nameserver 10.0.0.1\nsearch example.com\n".to_string()),
        records: vec![(
            "proxmoxinst.example.com".to_string(),
            "http://cfg.example.com/a.toml".to_string(),
        )],
        ..World::default()
    };
    let (end, requests) = resolve(&mut world);
    assert_eq!(
        end,
        Ok(AnswerLocation { url: "http://cfg.example.com/a.toml".to_string(), fingerprint: None })
    );
    assert_eq!(
        requests[3..].to_vec(),
        vec![
            read("/var/lib/dhcp/dhclient.leases"),
            read("/etc/resolv.conf"),
            query("proxmoxinst.example.com"),
            query("proxmoxinst-fp.example.com"),
        ]
    );
}

#[test]
fn name_service_gives_the_url_when_the_lease_names_none() {
    let mut world = World {
        leases: Some("lease {\n  option routers 10.0.0.1;\n}\n".to_string()),
        resolv_conf: Some("search example.com\n".to_string()),
        records: vec![
            ("proxmoxinst.example.com".to_string(), "http://cfg.example.com/a.toml".to_string()),
            ("proxmoxinst-fp.example.com".to_string(), "11:22:33".to_string()),
        ],
        ..World::default()
    };
    let (end, requests) = resolve(&mut world);
    assert_eq!(
        end,
        Ok(AnswerLocation {
            url: "http://cfg.example.com/a.toml".to_string(),
            fingerprint: Some("11:22:33".to_string()),
        })
    );
    assert_eq!(queries(&requests), 2);
    assert_eq!(requests.last(), Some(&write("11:22:33")));
}

#[test]
fn fingerprint_of_the_file_comes_before_that_of_the_name_service() {
    let mut world = World {
        mounts: Some("/dev/sdb1 /mnt/answer vfat ro 0 0\n".to_string()),
        mounted: true,
        fingerprint_file: Some("AA:BB:CC".to_string()),
        resolv_conf: Some("search example.com\n".to_string()),
        records: vec![
            ("proxmoxinst.example.com".to_string(), "http://cfg.example.com/a.toml".to_string()),
            ("proxmoxinst-fp.example.com".to_string(), "11:22:33".to_string()),
        ],
        ..World::default()
    };
    let (end, requests) = resolve(&mut world);
    assert_eq!(
        end,
        Ok(AnswerLocation {
            url: "http://cfg.example.com/a.toml".to_string(),
            fingerprint: Some("AA:BB:CC".to_string()),
        })
    );
    assert_eq!(queries(&requests), 1);
    assert_eq!(mounts(&requests), 0);
}

#[test]
fn mounted_partition_is_not_mounted_again() {
    let mut world = World {
        mounts: Some("proc /proc proc rw 0 0\n/dev/sdb1 /mnt/answer vfat ro 0 0\n".to_string()),
        mounted: true,
        fingerprint_file: Some("AA:BB:CC\n".to_string()),
        leases: Some("option proxmoxinst-url \"http://10.0.0.5/answer.toml\";".to_string()),
        ..World::default()
    };
    let (end, requests) = resolve(&mut world);
    assert!(end.is_ok());
    assert_eq!(mounts(&requests), 0);
    assert_eq!(
        requests[..3].to_vec(),
        vec![
            read("/proc/mounts"),
            probe("/mnt/answer/cert_fingerprint.txt"),
            read("/mnt/answer/cert_fingerprint.txt"),
        ]
    );
}

#[test]
fn failed_mount_leaves_the_fingerprint_unset() {
    let mut world = World {
        devices: vec!["/dev/disk/by-label/proxmoxinst".to_string()],
        mount_fails: true,
        fingerprint_file: Some("AA:BB:CC".to_string()),
        leases: Some("option proxmoxinst-url \"http://10.0.0.5/answer.toml\";".to_string()),
        ..World::default()
    };
    let (end, requests) = resolve(&mut world);
    assert_eq!(
        end,
        Ok(AnswerLocation { url: "http://10.0.0.5/answer.toml".to_string(), fingerprint: None })
    );
    assert_eq!(mounts(&requests), 1);
    assert!(requests.contains(&probe("/mnt/answer/cert_fingerprint.txt")));
    assert!(!requests.contains(&read("/mnt/answer/cert_fingerprint.txt")));
}

#[test]
fn longest_resolution_makes_twelve_requests() {
    let mut world = World {
        mounts: Some("proc /proc proc rw 0 0\n".to_string()),
        devices: vec!["/dev/disk/by-label/proxmoxinst".to_string()],
        fingerprint_file: Some("AA:BB:CC".to_string()),
        fingerprint_unreadable: true,
        leases: Some("lease {\n}\n".to_string()),
        resolv_conf: Some("search example.com\n".to_string()),
        records: vec![
            ("proxmoxinst.example.com".to_string(), "http://cfg.example.com/a.toml".to_string()),
            ("proxmoxinst-fp.example.com".to_string(), "11:22:33".to_string()),
        ],
        ..World::default()
    };
    let (end, requests) = resolve(&mut world);
    assert_eq!(
        end,
        Ok(AnswerLocation {
            url: "http://cfg.example.com/a.toml".to_string(),
            fingerprint: Some("11:22:33".to_string()),
        })
    );
    assert_eq!(
        requests,
        vec![
            read("/proc/mounts"),
            probe("/dev/disk/by-label/PROXMOXINST"),
            probe("/dev/disk/by-label/proxmoxinst"),
            Request::CreateDir { path: "/mnt/answer".to_string() },
            Request::MountReadOnly {
                device: "/dev/disk/by-label/proxmoxinst".to_string(),
                target: "/mnt/answer".to_string(),
            },
            probe("/mnt/answer/cert_fingerprint.txt"),
            read("/mnt/answer/cert_fingerprint.txt"),
            read("/var/lib/dhcp/dhclient.leases"),
            read("/etc/resolv.conf"),
            query("proxmoxinst.example.com"),
            query("proxmoxinst-fp.example.com"),
            write("11:22:33"),
        ]
    );
}

#[test]
fn fingerprint_file_yields_its_trimmed_contents() {
    let step = FetchFromHTTP::get_cert_fingerprint_from_file(
        FileStage::Read,
        Event::Contents("\n  AA:BB:CC \r\n".to_string()),
    );
    assert_eq!(step, Step::Ready("AA:BB:CC".to_string()));
}

#[test]
fn fingerprint_file_is_probed_below_the_mount_point() {
    let step = FetchFromHTTP::get_cert_fingerprint_from_file(
        FileStage::Mount(MountStage::Table),
        Event::Contents("/dev/sdb1 /mnt/answer vfat ro 0 0\n".to_string()),
    );
    let path = "/mnt/answer/cert_fingerprint.txt".to_string();
    assert_eq!(step, Step::Perform(FileStage::Probe { path: path.clone() }, Request::ProbePath { path }));
}

#[test]
fn fingerprint_file_that_is_missing_is_named_in_the_error() {
    let path = "/mnt/answer/cert_fingerprint.txt".to_string();
    for event in [Event::Absent, Event::Failed("stale file handle".to_string())] {
        let step = FetchFromHTTP::get_cert_fingerprint_from_file(FileStage::Probe { path: path.clone() }, event);
        let error = FetchError::FingerprintFileMissing { path: path.clone() };
        assert_eq!(
            error.message(),
            "could not find cert fingerprint file expected at: /mnt/answer/cert_fingerprint.txt"
        );
        assert_eq!(step, Step::Failed(error));
    }
}

#[test]
fn fingerprint_file_that_cannot_be_read_fails_the_source() {
    let step = FetchFromHTTP::get_cert_fingerprint_from_file(
        FileStage::Read,
        Event::Failed("stream did not contain valid UTF-8".to_string()),
    );
    assert_eq!(
        step,
        Step::Failed(FetchError::Unreadable { detail: "stream did not contain valid UTF-8".to_string() })
    );
}

#[test]
fn resolution_ends_whether_the_fingerprint_was_written_or_not() {
    let location = AnswerLocation { url: "http://u".to_string(), fingerprint: Some("aa".to_string()) };
    for event in [Event::Done, Event::Failed("read-only file system".to_string())] {
        let step = answer(Stage::Persist { location: location.clone() }, event);
        assert_eq!(step, Step::Ready(location.clone()));
    }
}

#[test]
fn resolution_begins_with_the_mount_table() {
    assert_eq!(
        answer(Stage::Start, Event::Started),
        Step::Perform(
            Stage::File(FileStage::Mount(MountStage::Table)),
            read("/proc/mounts")
        )
    );
    assert_eq!(
        answer(Stage::Start, Event::Done),
        Step::Failed(FetchError::UnexpectedEvent)
    );
    assert_eq!(FetchError::UnexpectedEvent.message(), "The event does not answer the request.");
}

#[test]
fn lease_file_that_was_not_read_leads_to_the_name_service() {
    for event in [Event::Failed("No such file or directory".to_string()), Event::Found] {
        assert_eq!(
            answer(Stage::Dhcp { fingerprint: Some("AA".to_string()) }, event),
            Step::Perform(
                Stage::Dns {
                    fingerprint: Some("AA".to_string()),
                    stage: proxmox_auto_installer::dns::DnsStage::Config
                },
                read("/etc/resolv.conf")
            )
        );
    }
}

#[test]
fn lease_with_a_value_that_is_not_quoted_leads_to_the_name_service() {
    let event = Event::Contents("option proxmoxinst-url http://x/y;\n".to_string());
    assert_eq!(
        answer(Stage::Dhcp { fingerprint: None }, event),
        Step::Perform(
            Stage::Dns { fingerprint: None, stage: proxmox_auto_installer::dns::DnsStage::Config },
            read("/etc/resolv.conf")
        )
    );
    assert_eq!(FetchError::MalformedOption.message(), "DHCP option value is not quoted.");
}

#[test]
fn reasons_of_the_sources_that_gave_nothing_are_handed_out() {
    let mut world = World::default();
    let (end, _) = resolve(&mut world);
    let missing = "No such file or directory (os error 2)".to_string();
    assert_eq!(end, Err(FetchError::Unreadable { detail: missing.clone() }));
    assert_eq!(
        world.reasons,
        vec![
            FetchError::LabelNotFound { label: "proxmoxinst".to_string() },
            FetchError::Unreadable { detail: missing },
        ]
    );
}

#[test]
fn reason_of_a_missing_fingerprint_record_is_handed_out_with_the_result() {
    let mut world = World {
        mounts: Some("/dev/sdb1 /mnt/answer vfat ro 0 0\n".to_string()),
        mounted: true,
        leases: Some("lease {\n}\n".to_string()),
        resolv_conf: Some("search\texample.com\n".to_string()),
        records: vec![(
            "proxmoxinst.example.com".to_string(),
            "http://cfg.example.com/a.toml".to_string(),
        )],
        ..World::default()
    };
    let (end, _) = resolve(&mut world);
    assert_eq!(
        end,
        Ok(AnswerLocation { url: "http://cfg.example.com/a.toml".to_string(), fingerprint: None })
    );
    assert_eq!(
        world.reasons,
        vec![
            FetchError::FingerprintFileMissing {
                path: "/mnt/answer/cert_fingerprint.txt".to_string()
            },
            FetchError::NoUrlOption,
            FetchError::EmptyResponse,
        ]
    );
}

#[test]
fn no_reason_is_handed_out_when_every_source_answers() {
    let mut world = World {
        mounts: Some("/dev/sdb1 /mnt/answer vfat ro 0 0\n".to_string()),
        mounted: true,
        fingerprint_file: Some("AA:BB:CC\n".to_string()),
        leases: Some("option proxmoxinst-url \"http://10.0.0.5/answer.toml\";".to_string()),
        ..World::default()
    };
    let (end, _) = resolve(&mut world);
    assert!(end.is_ok());
    assert_eq!(world.reasons, Vec::<FetchError>::new());
}

#[test]
fn reason_of_a_lease_that_is_not_quoted_is_handed_out() {
    let event = Event::Contents("option proxmoxinst-url http://x/y;\n".to_string());
    let (_, reason) = FetchFromHTTP::get_answer(Stage::Dhcp { fingerprint: None }, event);
    assert_eq!(reason, Some(FetchError::MalformedOption));
    let event = Event::Contents("option proxmoxinst-url \"http://x/y\";\n".to_string());
    let (_, reason) = FetchFromHTTP::get_answer(Stage::Dhcp { fingerprint: None }, event);
    assert_eq!(reason, None);
}
