use susfs::cli::{ShowType, SuSFSSubCommands};
use susfs::command::{Command, RecordKind};
use susfs::encode::{
    encode, external_dir, flag, open_redirect, read_shown_values, spoof_cmdline, sus_kstat,
    sus_kstat_statically, sus_map, sus_path, uname, update_sus_kstat, update_sus_kstat_full_clone,
    Found, InputError, KstatField,
};
use susfs::record::{
    copy_metadata_to_sus_kstat, to_i64_field, to_u32_field, ExternalDir, Record,
    SusfsAvcLogSpoofing, SusfsHideSusMnts, SusfsLog, SusfsOpenRedirect, SusfsSusKstat,
    SusfsSusMap, SusfsSusPath, SusfsUname,
};
use susfs::stat::FileStat;

fn stat() -> FileStat {
    FileStat {
        ino: 1234,
        dev: 0xfd00,
        nlink: 2,
        uid: 2000,
        size: 4096,
        atime: 1_700_000_001,
        atime_nsec: 11,
        mtime: 1_700_000_002,
        mtime_nsec: 22,
        ctime: 1_700_000_003,
        ctime_nsec: 33,
        blksize: 512,
        blocks: 8,
    }
}

fn s(text: &str) -> String {
    String::from(text)
}

fn padded<const N: usize>(text: &[u8]) -> [u8; N] {
    let mut a = [0u8; N];
    a[..text.len()].copy_from_slice(text);
    a
}

fn statically(values: [&str; 12]) -> SuSFSSubCommands {
    SuSFSSubCommands::AddSusKstatStatically {
        path: s("/system/bin/sh"),
        ino: s(values[0]),
        dev: s(values[1]),
        nlink: s(values[2]),
        size: s(values[3]),
        atime: s(values[4]),
        atime_nsec: s(values[5]),
        mtime: s(values[6]),
        mtime_nsec: s(values[7]),
        ctime: s(values[8]),
        ctime_nsec: s(values[9]),
        blocks: s(values[10]),
        blksize: s(values[11]),
    }
}

#[test]
fn fresh_records_are_all_zero() {
    let p = SusfsSusPath::default();
    assert_eq!((p.target_ino, p.target_pathname, p.i_uid, p.err), (0, [0u8; 256], 0, 0));
    let d = ExternalDir::default();
    assert_eq!((d.target_pathname, d.is_inited, d.cmd, d.err), ([0u8; 256], false, 0, 0));
    assert_eq!(SusfsHideSusMnts::default(), SusfsHideSusMnts { enabled: false, err: 0 });
    assert_eq!(SusfsLog::default(), SusfsLog { enabled: false, err: 0 });
    assert_eq!(SusfsAvcLogSpoofing::default(), SusfsAvcLogSpoofing { enabled: false, err: 0 });
    let k = SusfsSusKstat::default();
    assert_eq!(
        k,
        SusfsSusKstat {
            is_statically: false,
            target_ino: 0,
            target_pathname: [0; 256],
            spoofed_ino: 0,
            spoofed_dev: 0,
            spoofed_nlink: 0,
            spoofed_size: 0,
            spoofed_atime_tv_sec: 0,
            spoofed_mtime_tv_sec: 0,
            spoofed_ctime_tv_sec: 0,
            spoofed_atime_tv_nsec: 0,
            spoofed_mtime_tv_nsec: 0,
            spoofed_ctime_tv_nsec: 0,
            spoofed_blksize: 0,
            spoofed_blocks: 0,
            err: 0,
        }
    );
    assert_eq!(SusfsUname::default(), SusfsUname { release: [0; 65], version: [0; 65], err: 0 });
    assert_eq!(
        SusfsOpenRedirect::default(),
        SusfsOpenRedirect {
            target_ino: 0,
            target_pathname: [0; 256],
            redirected_pathname: [0; 256],
            err: 0
        }
    );
    assert_eq!(SusfsSusMap::default(), SusfsSusMap { target_pathname: [0; 256], err: 0 });
}

#[test]
fn switch_takes_zero_and_one_only() {
    assert_eq!(flag(0), Ok(false));
    assert_eq!(flag(1), Ok(true));
    assert_eq!(flag(2), Err(InputError::InvalidFlag));
    assert_eq!(flag(255), Err(InputError::InvalidFlag));
}

#[test]
fn numbers_are_cut_to_their_fields() {
    assert_eq!(to_u32_field(5), 5);
    assert_eq!(to_u32_field(0xffff_ffff), 0xffff_ffff);
    assert_eq!(to_u32_field(0x1_0000_0005), 5);
    assert_eq!(to_u32_field(u64::MAX), 0xffff_ffff);
    assert_eq!(to_i64_field(0), 0);
    assert_eq!(to_i64_field(i64::MAX as u64), i64::MAX);
    assert_eq!(to_i64_field(0x8000_0000_0000_0000), i64::MIN);
    assert_eq!(to_i64_field(u64::MAX), -1);
}

#[test]
fn metadata_is_copied_into_the_spoofed_fields() {
    let mut info = SusfsSusKstat::default();
    info.target_ino = 77;
    info.err = 126;
    let mut md = stat();
    md.nlink = 0x2_0000_0003;
    md.size = u64::MAX - 1;
    copy_metadata_to_sus_kstat(&mut info, &md);
    assert_eq!(info.spoofed_ino, 1234);
    assert_eq!(info.spoofed_dev, 0xfd00);
    assert_eq!(info.spoofed_nlink, 3);
    assert_eq!(info.spoofed_size, -2);
    assert_eq!(info.spoofed_atime_tv_sec, 1_700_000_001);
    assert_eq!(info.spoofed_mtime_tv_sec, 1_700_000_002);
    assert_eq!(info.spoofed_ctime_tv_sec, 1_700_000_003);
    assert_eq!(info.spoofed_atime_tv_nsec, 11);
    assert_eq!(info.spoofed_mtime_tv_nsec, 22);
    assert_eq!(info.spoofed_ctime_tv_nsec, 33);
    assert_eq!(info.spoofed_blksize, 512);
    assert_eq!(info.spoofed_blocks, 8);
    assert_eq!((info.target_ino, info.err, info.is_statically), (77, 126, false));
    assert_eq!(info.target_pathname, [0u8; 256]);
}

#[test]
fn spoof_uname_scenario() {
    let cmd = SuSFSSubCommands::SetUname { release: s("5.10.1-test"), version: s("#1 SMP") };
    let req = encode(&cmd, &Found::Nothing).unwrap();
    assert_eq!(req.command, Command::SetUname);
    assert_eq!(req.command.id(), 0x55590);
    match req.record {
        Record::Uname(r) => {
            assert_eq!(r.release, padded::<65>(b"5.10.1-test"));
            assert_eq!(&r.release[..12], b"5.10.1-test\0");
            assert!(r.release[12..].iter().all(|&b| b == 0));
            assert_eq!(r.version, padded::<65>(b"#1 SMP"));
            assert_eq!(&r.version[..7], b"#1 SMP\0");
            assert!(r.version[7..].iter().all(|&b| b == 0));
            assert_eq!(r.err, 126);
        }
        _ => panic!("wrong kind of record"),
    }
}

#[test]
fn uname_longer_than_64_bytes_is_cut() {
    let long = "r".repeat(100);
    let r = uname(&long, "v");
    assert!(r.release[..64].iter().all(|&b| b == b'r'));
    assert_eq!(r.release[64], 0);
    assert_eq!(r.version, padded::<65>(b"v"));
}

#[test]
fn sus_path_record() {
    let r = sus_path("/data/adb/modules", &stat());
    assert_eq!(
        r,
        SusfsSusPath {
            target_ino: 1234,
            target_pathname: padded::<256>(b"/data/adb/modules"),
            i_uid: 2000,
            err: 126,
        }
    );
    for cmd in [
        SuSFSSubCommands::AddSusPath { path: s("/data/adb/modules") },
        SuSFSSubCommands::AddSusPathLoop { path: s("/data/adb/modules") },
    ] {
        let req = encode(&cmd, &Found::Stat(stat())).unwrap();
        assert_eq!(req.command, cmd.command());
        assert_eq!(req.record, Record::SusPath(sus_path("/data/adb/modules", &stat())));
    }
}

#[test]
fn external_dir_record_carries_its_command() {
    let r = external_dir("/sdcard/Android/data", Command::SetAndroidDataRootPath);
    assert_eq!(
        r,
        ExternalDir {
            target_pathname: padded::<256>(b"/sdcard/Android/data"),
            is_inited: false,
            cmd: 0x55551,
            err: 126,
        }
    );
    let cmd = SuSFSSubCommands::SetSdcardRootPath { path: s("/sdcard") };
    let req = encode(&cmd, &Found::Nothing).unwrap();
    assert_eq!(req.command, Command::SetSdcardRootPath);
    match req.record {
        Record::ExternalDir(r) => {
            assert_eq!(r.cmd, 0x55552);
            assert_eq!(r.target_pathname, padded::<256>(b"/sdcard"));
            assert_eq!(r.err, 126);
        }
        _ => panic!("wrong kind of record"),
    }
}

#[test]
fn switches_are_encoded() {
    let req = encode(&SuSFSSubCommands::HideSusMntsForNonSuProcs { enabled: 1 }, &Found::Nothing);
    assert_eq!(
        req.unwrap().record,
        Record::HideSusMnts(SusfsHideSusMnts { enabled: true, err: 126 })
    );
    let req = encode(&SuSFSSubCommands::EnableLog { enabled: 0 }, &Found::Nothing);
    assert_eq!(req.unwrap().record, Record::Log(SusfsLog { enabled: false, err: 126 }));
    let req = encode(&SuSFSSubCommands::EnableAvcLogSpoofing { enabled: 1 }, &Found::Nothing);
    assert_eq!(
        req.unwrap().record,
        Record::AvcLogSpoofing(SusfsAvcLogSpoofing { enabled: true, err: 126 })
    );
}

#[test]
fn switch_outside_zero_and_one_is_refused() {
    for enabled in [2u8, 3, 128, 255] {
        assert_eq!(
            encode(&SuSFSSubCommands::HideSusMntsForNonSuProcs { enabled }, &Found::Nothing),
            Err(InputError::InvalidFlag)
        );
        assert_eq!(
            encode(&SuSFSSubCommands::EnableLog { enabled }, &Found::Stat(stat())),
            Err(InputError::InvalidFlag)
        );
        assert_eq!(
            encode(&SuSFSSubCommands::EnableAvcLogSpoofing { enabled }, &Found::Nothing),
            Err(InputError::InvalidFlag)
        );
    }
}

#[test]
fn kstat_records() {
    let md = stat();
    let keep = sus_kstat("/system/bin/sh", &md);
    assert_eq!(
        keep,
        SusfsSusKstat {
            is_statically: false,
            target_ino: 1234,
            target_pathname: padded::<256>(b"/system/bin/sh"),
            spoofed_ino: 1234,
            spoofed_dev: 0xfd00,
            spoofed_nlink: 2,
            spoofed_size: 4096,
            spoofed_atime_tv_sec: 1_700_000_001,
            spoofed_mtime_tv_sec: 1_700_000_002,
            spoofed_ctime_tv_sec: 1_700_000_003,
            spoofed_atime_tv_nsec: 11,
            spoofed_mtime_tv_nsec: 22,
            spoofed_ctime_tv_nsec: 33,
            spoofed_blksize: 512,
            spoofed_blocks: 8,
            err: 126,
        }
    );
    let mut update = SusfsSusKstat::default();
    update.target_ino = 1234;
    update.target_pathname = padded::<256>(b"/system/bin/sh");
    update.spoofed_size = 4096;
    update.spoofed_blocks = 8;
    update.err = 126;
    assert_eq!(update_sus_kstat("/system/bin/sh", &md), update);
    let mut clone = SusfsSusKstat::default();
    clone.target_ino = 1234;
    clone.target_pathname = padded::<256>(b"/system/bin/sh");
    clone.err = 126;
    assert_eq!(update_sus_kstat_full_clone("/system/bin/sh", &md), clone);

    let found = Found::Stat(md);
    let req = encode(&SuSFSSubCommands::AddSusKstat { path: s("/system/bin/sh") }, &found).unwrap();
    assert_eq!((req.command.id(), req.record), (0x55570, Record::SusKstat(keep)));
    let req =
        encode(&SuSFSSubCommands::UpdateSusKstat { path: s("/system/bin/sh") }, &found).unwrap();
    assert_eq!((req.command.id(), req.record), (0x55571, Record::SusKstat(update)));
    let req = encode(
        &SuSFSSubCommands::UpdateSusKstatFullClone { path: s("/system/bin/sh") },
        &found,
    )
    .unwrap();
    assert_eq!((req.command.id(), req.record), (0x55571, Record::SusKstat(clone)));
}

#[test]
fn missing_metadata_is_a_local_error() {
    let needing: Vec<SuSFSSubCommands> = vec![
        SuSFSSubCommands::AddSusPath { path: s("/a") },
        SuSFSSubCommands::AddSusPathLoop { path: s("/a") },
        SuSFSSubCommands::AddSusKstat { path: s("/a") },
        SuSFSSubCommands::UpdateSusKstat { path: s("/a") },
        SuSFSSubCommands::UpdateSusKstatFullClone { path: s("/a") },
        SuSFSSubCommands::AddOpenRedirect { target_path: s("/a"), redirected_path: s("/b") },
        SuSFSSubCommands::SetCmdlineOrBootconfig { path: s("/a") },
        statically(["default"; 12]),
        statically(["x"; 12]),
    ];
    for cmd in needing {
        assert_eq!(encode(&cmd, &Found::Nothing), Err(InputError::PathUnavailable));
    }
    assert_eq!(
        encode(&SuSFSSubCommands::AddSusPath { path: s("/a") }, &Found::Payload(vec![1])),
        Err(InputError::PathUnavailable)
    );
    assert_eq!(
        encode(
            &SuSFSSubCommands::AddOpenRedirect { target_path: s("/a"), redirected_path: s("/b") },
            &Found::Stat(stat())
        ),
        Err(InputError::PathUnavailable)
    );
    assert_eq!(
        encode(&SuSFSSubCommands::SetCmdlineOrBootconfig { path: s("/a") }, &Found::Stat(stat())),
        Err(InputError::PathUnavailable)
    );
}

#[test]
fn payload_that_fits_is_carried_whole() {
    let content = b"console=ttyS0 androidboot.mode=normal\n".to_vec();
    let r = spoof_cmdline(&content).unwrap();
    assert_eq!(r.fake_cmdline_or_bootconfig, padded::<8192>(&content));
    assert_eq!(r.err, 126);
    let cmd = SuSFSSubCommands::SetCmdlineOrBootconfig { path: s("/data/cmdline") };
    let req = encode(&cmd, &Found::Payload(content.clone())).unwrap();
    assert_eq!(req.command.id(), 0x555b0);
    assert_eq!(req.record, Record::SpoofCmdline(spoof_cmdline(&content).unwrap()));
}

#[test]
fn payload_may_hold_zero_bytes_and_be_empty() {
    let r = spoof_cmdline(&[1, 0, 2]).unwrap();
    assert_eq!(r.fake_cmdline_or_bootconfig, padded::<8192>(&[1, 0, 2]));
    let r = spoof_cmdline(&[]).unwrap();
    assert_eq!(r.fake_cmdline_or_bootconfig, [0u8; 8192]);
}

#[test]
fn largest_payload_leaves_one_zero_byte() {
    let content = vec![b'x'; 8191];
    let r = spoof_cmdline(&content).unwrap();
    assert!(r.fake_cmdline_or_bootconfig[..8191].iter().all(|&b| b == b'x'));
    assert_eq!(r.fake_cmdline_or_bootconfig[8191], 0);
}

#[test]
fn payload_of_capacity_or_more_is_refused() {
    let cmd = SuSFSSubCommands::SetCmdlineOrBootconfig { path: s("/data/cmdline") };
    for len in [8192usize, 8193, 20000] {
        let content = vec![b'x'; len];
        assert_eq!(spoof_cmdline(&content), Err(InputError::PayloadTooLarge));
        assert_eq!(encode(&cmd, &Found::Payload(content)), Err(InputError::PayloadTooLarge));
    }
}

#[test]
fn open_redirect_uses_the_absolute_paths() {
    let cmd = SuSFSSubCommands::AddOpenRedirect {
        target_path: s("hosts"),
        redirected_path: s("../my_hosts"),
    };
    let found = Found::Redirect {
        target: s("/system/etc/hosts"),
        redirected: s("/data/adb/my_hosts"),
        stat: stat(),
    };
    let req = encode(&cmd, &found).unwrap();
    assert_eq!(req.command.id(), 0x555c0);
    let expected = SusfsOpenRedirect {
        target_ino: 1234,
        target_pathname: padded::<256>(b"/system/etc/hosts"),
        redirected_pathname: padded::<256>(b"/data/adb/my_hosts"),
        err: 126,
    };
    assert_eq!(open_redirect("/system/etc/hosts", "/data/adb/my_hosts", &stat()), expected);
    assert_eq!(req.record, Record::OpenRedirect(expected));
}

#[test]
fn sus_map_record() {
    let expected =
        SusfsSusMap { target_pathname: padded::<256>(b"/data/adb/lib.so"), err: 126 };
    assert_eq!(sus_map("/data/adb/lib.so"), expected);
    let req = encode(&SuSFSSubCommands::AddSusMap { path: s("/data/adb/lib.so") }, &Found::Nothing);
    let req = req.unwrap();
    assert_eq!((req.command.id(), req.record), (0x60020, Record::SusMap(expected)));
}

#[test]
fn queries_go_out_with_empty_buffers() {
    for (info_type, kind, id) in [
        (ShowType::Version, RecordKind::Version, 0x555e1u64),
        (ShowType::EnabledFeatures, RecordKind::EnabledFeatures, 0x555e2),
        (ShowType::Variant, RecordKind::Variant, 0x555e3),
    ] {
        let req = encode(&SuSFSSubCommands::Show { info_type }, &Found::Nothing).unwrap();
        assert_eq!(req.command.id(), id);
        assert_eq!(req.record.kind(), kind);
        assert_eq!(req.record.err(), 126);
        let bytes = req.record.to_bytes();
        assert!(bytes[..kind.answer_capacity()].iter().all(|&b| b == 0));
    }
}

#[test]
fn every_request_carries_the_sentinel() {
    let requests: Vec<(SuSFSSubCommands, Found)> = vec![
        (SuSFSSubCommands::AddSusPath { path: s("/a") }, Found::Stat(stat())),
        (SuSFSSubCommands::AddSusPathLoop { path: s("/a") }, Found::Stat(stat())),
        (SuSFSSubCommands::SetAndroidDataRootPath { path: s("/a") }, Found::Nothing),
        (SuSFSSubCommands::SetSdcardRootPath { path: s("/a") }, Found::Nothing),
        (SuSFSSubCommands::HideSusMntsForNonSuProcs { enabled: 1 }, Found::Nothing),
        (SuSFSSubCommands::AddSusKstat { path: s("/a") }, Found::Stat(stat())),
        (SuSFSSubCommands::UpdateSusKstat { path: s("/a") }, Found::Stat(stat())),
        (SuSFSSubCommands::UpdateSusKstatFullClone { path: s("/a") }, Found::Stat(stat())),
        (SuSFSSubCommands::SetUname { release: s("r"), version: s("v") }, Found::Nothing),
        (SuSFSSubCommands::EnableLog { enabled: 0 }, Found::Nothing),
        (SuSFSSubCommands::SetCmdlineOrBootconfig { path: s("/a") }, Found::Payload(vec![b'a'])),
        (
            SuSFSSubCommands::AddOpenRedirect { target_path: s("/a"), redirected_path: s("/b") },
            Found::Redirect { target: s("/a"), redirected: s("/b"), stat: stat() },
        ),
        (SuSFSSubCommands::AddSusMap { path: s("/a") }, Found::Nothing),
        (SuSFSSubCommands::EnableAvcLogSpoofing { enabled: 1 }, Found::Nothing),
        (SuSFSSubCommands::Show { info_type: ShowType::Version }, Found::Nothing),
        (SuSFSSubCommands::Show { info_type: ShowType::EnabledFeatures }, Found::Nothing),
        (SuSFSSubCommands::Show { info_type: ShowType::Variant }, Found::Nothing),
        (statically(["default"; 12]), Found::Stat(stat())),
    ];
    for (cmd, found) in requests {
        let req = encode(&cmd, &found).unwrap();
        assert_eq!(req.command, cmd.command());
        assert_eq!(req.record.kind(), req.command.record_kind());
        assert_eq!(req.record.err(), 126);
    }
}

#[test]
fn static_kstat_with_defaults_shows_the_real_values() {
    let md = stat();
    let req = encode(&statically(["default"; 12]), &Found::Stat(md)).unwrap();
    assert_eq!(req.command.id(), 0x55572);
    let mut expected = sus_kstat("/system/bin/sh", &md);
    expected.is_statically = true;
    assert_eq!(req.record, Record::SusKstat(expected));
}

#[test]
fn static_kstat_default_equals_the_value_written_out() {
    let md = stat();
    let with_defaults = encode(&statically(["default"; 12]), &Found::Stat(md)).unwrap();
    let written = statically([
        "1234",
        "64768",
        "2",
        "4096",
        "1700000001",
        "11",
        "1700000002",
        "22",
        "1700000003",
        "33",
        "8",
        "512",
    ]);
    assert_eq!(encode(&written, &Found::Stat(md)).unwrap(), with_defaults);
    let mut other = md;
    other.dev = 1;
    other.blocks = 99;
    other.ctime = -5;
    let at_other = encode(&written, &Found::Stat(other)).unwrap();
    assert_eq!(at_other, with_defaults);
}

#[test]
fn static_kstat_takes_each_value_from_its_own_place() {
    let md = stat();
    let cmd = statically(["1", "2", "3", "4", "-5", "6", "-7", "8", "-9", "10", "11", "12"]);
    let req = encode(&cmd, &Found::Stat(md)).unwrap();
    assert_eq!(
        req.record,
        Record::SusKstat(SusfsSusKstat {
            is_statically: true,
            target_ino: 1234,
            target_pathname: padded::<256>(b"/system/bin/sh"),
            spoofed_ino: 1,
            spoofed_dev: 2,
            spoofed_nlink: 3,
            spoofed_size: 4,
            spoofed_atime_tv_sec: -5,
            spoofed_atime_tv_nsec: 6,
            spoofed_mtime_tv_sec: -7,
            spoofed_mtime_tv_nsec: 8,
            spoofed_ctime_tv_sec: -9,
            spoofed_ctime_tv_nsec: 10,
            spoofed_blocks: 11,
            spoofed_blksize: 12,
            err: 126,
        })
    );
    let shown = read_shown_values(
        &md, "1", "2", "3", "4", "-5", "6", "-7", "8", "-9", "10", "11", "12",
    )
    .unwrap();
    assert_eq!(sus_kstat_statically("/system/bin/sh", &md, &shown), match req.record {
        Record::SusKstat(r) => r,
        _ => panic!("wrong kind of record"),
    });
}

#[test]
fn static_kstat_wraps_values_wider_than_their_fields() {
    let md = stat();
    let mut values = ["default"; 12];
    values[2] = "4294967298";
    values[3] = "18446744073709551615";
    match encode(&statically(values), &Found::Stat(md)).unwrap().record {
        Record::SusKstat(r) => {
            assert_eq!(r.spoofed_nlink, 2);
            assert_eq!(r.spoofed_size, -1);
        }
        _ => panic!("wrong kind of record"),
    }
}

#[test]
fn static_kstat_names_the_first_bad_number() {
    let fields = [
        KstatField::Ino,
        KstatField::Dev,
        KstatField::Nlink,
        KstatField::Size,
        KstatField::Atime,
        KstatField::AtimeNsec,
        KstatField::Mtime,
        KstatField::MtimeNsec,
        KstatField::Ctime,
        KstatField::CtimeNsec,
        KstatField::Blocks,
        KstatField::Blksize,
    ];
    for (i, field) in fields.iter().enumerate() {
        let mut values = ["default"; 12];
        values[i] = "12abc";
        assert_eq!(
            encode(&statically(values), &Found::Stat(stat())),
            Err(InputError::InvalidNumber(*field))
        );
        for later in values.iter_mut().skip(i + 1) {
            *later = "also bad";
        }
        assert_eq!(
            encode(&statically(values), &Found::Stat(stat())),
            Err(InputError::InvalidNumber(*field))
        );
    }
}

#[test]
fn static_kstat_signs_go_with_the_type_of_the_value() {
    let mut values = ["default"; 12];
    values[0] = "-1";
    assert_eq!(
        encode(&statically(values), &Found::Stat(stat())),
        Err(InputError::InvalidNumber(KstatField::Ino))
    );
    let mut values = ["default"; 12];
    values[4] = "-1";
    assert!(encode(&statically(values), &Found::Stat(stat())).is_ok());
    let mut values = ["default"; 12];
    values[4] = "9223372036854775808";
    assert_eq!(
        encode(&statically(values), &Found::Stat(stat())),
        Err(InputError::InvalidNumber(KstatField::Atime))
    );
}
