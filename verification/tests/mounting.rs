use bcachefs_core::key::{
    ask_for_key, check_for_key, key_added, key_for_mount, key_magic, key_name, key_name_for,
    prepare_key,
    wait_for_key, KeyError, KeyLoc, KeyLocation, KeyStep, WaitStep,
};
use bcachefs_core::log::{level_for, max_level, set_verbose_level, Verbosity, DEBUG, ERROR, INFO, MUTE};
use bcachefs_core::mount::{
    mount, parse_device_spec, parse_fstab_uuid, parse_mount_options, DeviceSpec, InvalidUuid,
    MS_DIRSYNC, MS_LAZYTIME, MS_MANDLOCK, MS_NOATIME, MS_NODEV, MS_NODIRATIME, MS_NOEXEC,
    MS_NOSUID, MS_RDONLY, MS_RELATIME, MS_REMOUNT, MS_STRICTATIME, MS_SYNCHRONOUS,
};

#[test]
fn each_kernel_option_sets_its_flag() {
    let all = [
        ("dirsync", 128u64),
        ("lazytime", 1 << 25),
        ("mand", 64),
        ("noatime", 1024),
        ("nodev", 4),
        ("nodiratime", 2048),
        ("noexec", 8),
        ("nosuid", 2),
        ("relatime", 1 << 21),
        ("remount", 32),
        ("ro", 1),
        ("rw", 0),
        ("strictatime", 1 << 24),
        ("sync", 16),
        ("", 0),
    ];
    for (name, flag) in all.iter() {
        assert_eq!(parse_mount_options(name), (None, *flag));
    }
}

#[test]
fn the_flags_are_those_of_the_kernel() {
    assert_eq!(MS_RDONLY, libc::MS_RDONLY as u64);
    assert_eq!(MS_NOSUID, libc::MS_NOSUID as u64);
    assert_eq!(MS_NODEV, libc::MS_NODEV as u64);
    assert_eq!(MS_NOEXEC, libc::MS_NOEXEC as u64);
    assert_eq!(MS_SYNCHRONOUS, libc::MS_SYNCHRONOUS as u64);
    assert_eq!(MS_REMOUNT, libc::MS_REMOUNT as u64);
    assert_eq!(MS_MANDLOCK, libc::MS_MANDLOCK as u64);
    assert_eq!(MS_DIRSYNC, libc::MS_DIRSYNC as u64);
    assert_eq!(MS_NOATIME, libc::MS_NOATIME as u64);
    assert_eq!(MS_NODIRATIME, libc::MS_NODIRATIME as u64);
    assert_eq!(MS_RELATIME, libc::MS_RELATIME as u64);
    assert_eq!(MS_STRICTATIME, libc::MS_STRICTATIME as u64);
    assert_eq!(MS_LAZYTIME, 1 << 25);
}

#[test]
fn flags_are_taken_together() {
    assert_eq!(parse_mount_options("ro,noatime,nodev"), (None, 1 | 1024 | 4));
    assert_eq!(parse_mount_options("ro,ro,rw,,ro"), (None, 1));
}

#[test]
fn other_options_are_handed_on_in_their_order() {
    assert_eq!(
        parse_mount_options("ro,foo=bar,noatime,,compression=lz4,degraded"),
        (Some(String::from("foo=bar,compression=lz4,degraded")), 1 | 1024)
    );
    assert_eq!(parse_mount_options("verbose"), (Some(String::from("verbose")), 0));
    assert_eq!(parse_mount_options("a,b"), (Some(String::from("a,b")), 0));
    assert_eq!(parse_mount_options("RO, ro"), (Some(String::from("RO, ro")), 0));
}

#[test]
fn a_mount_is_made_ready() {
    let m = mount(String::from("/dev/sda:/dev/sdb"), String::from("/mnt"), "ro,fsck");
    assert_eq!(m.src, "/dev/sda:/dev/sdb");
    assert_eq!(m.target, "/mnt");
    assert_eq!(m.fstype, "bcachefs");
    assert_eq!(m.mountflags, 1);
    assert_eq!(m.data, Some(String::from("fsck")));
}

#[test]
fn an_identifier_is_read_with_or_without_its_prefix() {
    let want = 0x550e8400e29b41d4a716446655440000u128;
    assert_eq!(parse_fstab_uuid("550e8400-e29b-41d4-a716-446655440000"), Ok(want));
    assert_eq!(parse_fstab_uuid("UUID=550e8400-e29b-41d4-a716-446655440000"), Ok(want));
    assert_eq!(parse_fstab_uuid("550e8400e29b41d4a716446655440000"), Ok(want));
    assert_eq!(
        parse_fstab_uuid("a1a2a3a4-b1b2-c1c2-d1d2-d3d4d5d6d7d8"),
        Ok(0xa1a2a3a4b1b2c1c2d1d2d3d4d5d6d7d8)
    );
}

#[test]
fn a_text_that_is_no_identifier_is_invalid() {
    assert_eq!(parse_fstab_uuid(""), Err(InvalidUuid));
    assert_eq!(parse_fstab_uuid("UUID="), Err(InvalidUuid));
    assert_eq!(parse_fstab_uuid("UUID=UUID=550e8400-e29b-41d4-a716-446655440000"), Err(InvalidUuid));
    assert_eq!(parse_fstab_uuid("uuid=550e8400-e29b-41d4-a716-446655440000"), Err(InvalidUuid));
    assert_eq!(parse_fstab_uuid("550e8400-e29b-41d4-a716"), Err(InvalidUuid));
    assert_eq!(parse_fstab_uuid("/dev/sda"), Err(InvalidUuid));
}

#[test]
fn what_to_mount_is_an_identifier_or_devices() {
    match parse_device_spec("UUID=550e8400-e29b-41d4-a716-446655440000") {
        Ok(DeviceSpec::Uuid(u)) => assert_eq!(u, 0x550e8400e29b41d4a716446655440000),
        _ => panic!("no identifier"),
    }
    assert!(parse_device_spec("UUID=nothing").is_err());
    match parse_device_spec("/dev/sda:/dev/sdb:/dev/sdc") {
        Ok(DeviceSpec::Devices(d)) => assert_eq!(d, vec!["/dev/sda", "/dev/sdb", "/dev/sdc"]),
        _ => panic!("no devices"),
    }
    match parse_device_spec("/dev/sda") {
        Ok(DeviceSpec::Devices(d)) => assert_eq!(d, vec!["/dev/sda"]),
        _ => panic!("no devices"),
    }
    match parse_device_spec("") {
        Ok(DeviceSpec::Devices(d)) => assert_eq!(d, vec![""]),
        _ => panic!("no devices"),
    }
    match parse_device_spec("a::b:") {
        Ok(DeviceSpec::Devices(d)) => assert_eq!(d, vec!["a", "", "b", ""]),
        _ => panic!("no devices"),
    }
}

#[test]
fn where_a_key_comes_from_is_read() {
    assert_eq!(KeyLoc::from_str(""), Ok(KeyLoc(None)));
    assert_eq!(KeyLoc::from_str("fail"), Ok(KeyLoc(Some(KeyLocation::Fail))));
    assert_eq!(KeyLoc::from_str("wait"), Ok(KeyLoc(Some(KeyLocation::Wait))));
    assert_eq!(KeyLoc::from_str("ask"), Ok(KeyLoc(Some(KeyLocation::Ask))));
    assert_eq!(KeyLoc::from_str("Ask"), Err(KeyError::InvalidPasswordOption));
    assert_eq!(KeyLoc::from_str("asks"), Err(KeyError::InvalidPasswordOption));
    assert_eq!(KeyLoc::from_str(" "), Err(KeyError::InvalidPasswordOption));
}

#[test]
fn an_encrypted_filesystem_needs_a_word_on_its_key() {
    assert_eq!(key_for_mount(false, KeyLoc(None)), Ok(None));
    assert_eq!(key_for_mount(false, KeyLoc(Some(KeyLocation::Ask))), Ok(None));
    assert_eq!(key_for_mount(true, KeyLoc(None)), Err(KeyError::NoKeyOption));
    assert_eq!(key_for_mount(true, KeyLoc(Some(KeyLocation::Wait))), Ok(Some(KeyLocation::Wait)));
}

#[test]
fn a_key_is_waited_for_asked_for_or_given_up() {
    assert_eq!(prepare_key(KeyLocation::Fail), Err(KeyError::NoKeyAvailable));
    assert_eq!(prepare_key(KeyLocation::Wait), Ok(KeyStep::Wait));
    assert_eq!(prepare_key(KeyLocation::Ask), Ok(KeyStep::Ask));
}

#[test]
fn a_search_of_the_keyring_is_judged() {
    let enokey = libc::ENOKEY;
    assert_eq!(check_for_key(1, 0, enokey), Ok(true));
    assert_eq!(check_for_key(123456, enokey, enokey), Ok(true));
    assert_eq!(check_for_key(0, enokey, enokey), Ok(false));
    assert_eq!(check_for_key(-1, enokey, enokey), Ok(false));
    assert_eq!(check_for_key(-1, libc::EACCES, enokey), Err(KeyError::Os(libc::EACCES)));
    assert_eq!(check_for_key(0, 0, enokey), Err(KeyError::Os(0)));
}

#[test]
fn waiting_sleeps_a_second_between_searches() {
    assert_eq!(wait_for_key(true), WaitStep::Done);
    assert_eq!(wait_for_key(false), WaitStep::Sleep(1));
}

#[test]
fn the_key_magic_is_the_word_read_least_significant_first() {
    assert_eq!(key_magic(), u64::from_le_bytes(*b"bch**key"));
    assert_eq!(key_magic(), 0x79656b2a2a686362);
}

#[test]
fn a_decrypted_key_is_judged() {
    let magic = key_magic();
    assert_eq!(ask_for_key(0, magic), Ok(()));
    assert_eq!(ask_for_key(0, magic ^ 1), Err(KeyError::WrongPassword));
    assert_eq!(ask_for_key(0, magic.swap_bytes()), Err(KeyError::WrongPassword));
    assert_eq!(ask_for_key(-1, magic), Err(KeyError::DecryptionFailure));
    assert_eq!(ask_for_key(7, 0), Err(KeyError::DecryptionFailure));
}

#[test]
fn adding_a_key_fails_on_minus_one() {
    assert_eq!(key_added(-1, 13), Err(KeyError::AddKeyFailed(13)));
    assert_eq!(key_added(0, 13), Ok(()));
    assert_eq!(key_added(99, 0), Ok(()));
}

#[test]
fn a_key_is_kept_under_the_name_of_its_filesystem() {
    assert_eq!(
        key_name(0x550e8400e29b41d4a716446655440000),
        "bcachefs:550e8400-e29b-41d4-a716-446655440000"
    );
    assert_eq!(key_name(0), "bcachefs:00000000-0000-0000-0000-000000000000");
    assert_eq!(key_name_for("abc"), "bcachefs:abc");
    assert_eq!(key_name_for(""), "bcachefs:");
}

#[test]
fn key_failures_are_put_into_words() {
    assert_eq!(KeyError::InvalidPasswordOption.message(), "invalid password option");
    assert_eq!(KeyError::NoKeyOption.message(), "no keyoption specified for locked filesystem");
    assert_eq!(KeyError::NoKeyAvailable.message(), "no key available");
    assert_eq!(KeyError::DecryptionFailure.message(), "chacha decryption failure");
    assert_eq!(KeyError::WrongPassword.message(), "failed to verify the password");
    assert_eq!(KeyError::AddKeyFailed(1).message(), "failed to add key to keyring");
    assert_eq!(KeyError::Os(1).message(), "keyring search failed");
}

#[test]
fn the_level_of_verbosity_is_set_and_read() {
    let mut v = Verbosity::new();
    assert_eq!(max_level(&v), ERROR);
    assert!(v.enabled(MUTE));
    assert!(v.enabled(ERROR));
    assert!(!v.enabled(INFO));
    set_verbose_level(&mut v, DEBUG);
    assert_eq!(max_level(&v), 3);
    assert!(v.enabled(INFO));
    assert!(v.enabled(DEBUG));
    assert!(!v.enabled(4));
    set_verbose_level(&mut v, MUTE);
    assert!(!v.enabled(ERROR));
}

#[test]
fn each_request_for_more_raises_the_level_by_one() {
    assert_eq!(level_for(0), ERROR);
    assert_eq!(level_for(1), INFO);
    assert_eq!(level_for(2), DEBUG);
    assert_eq!(level_for(254), 255);
    assert_eq!(level_for(255), 255);
}

#[test]
fn key_locations_parse_through_the_trait_too() {
    assert_eq!("wait".parse::<KeyLoc>(), Ok(KeyLoc(Some(KeyLocation::Wait))));
    assert_eq!("later".parse::<KeyLoc>(), Err(KeyError::InvalidPasswordOption));
}
