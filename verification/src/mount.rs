//! What a mount is asked with: the options that the kernel takes as flags,
//! the options that it hands on to the filesystem, and the identifier of the
//! filesystem to mount.

use crate::text::{chars_of, fields, find_char, spells};
use itertools::Itertools;
use vstd::prelude::*;
use vstd::string::*;

verus! {

/// Mount read-only: `ro`.
pub const MS_RDONLY: u64 = 0x01;

/// Ignore set-user-id bits: `nosuid`.
pub const MS_NOSUID: u64 = 0x02;

/// Disallow access to device files: `nodev`.
pub const MS_NODEV: u64 = 0x04;

/// Disallow running programs: `noexec`.
pub const MS_NOEXEC: u64 = 0x08;

/// Write at once: `sync`.
pub const MS_SYNCHRONOUS: u64 = 0x10;

/// Change a mount that exists: `remount`.
pub const MS_REMOUNT: u64 = 0x20;

/// Allow mandatory locks: `mand`.
pub const MS_MANDLOCK: u64 = 0x40;

/// Write directory changes at once: `dirsync`.
pub const MS_DIRSYNC: u64 = 0x80;

/// Do not update access times: `noatime`.
pub const MS_NOATIME: u64 = 0x400;

/// Do not update the access times of directories: `nodiratime`.
pub const MS_NODIRATIME: u64 = 0x800;

/// Update access times relative to change times: `relatime`.
pub const MS_RELATIME: u64 = 0x20_0000;

/// Always update access times: `strictatime`.
pub const MS_STRICTATIME: u64 = 0x100_0000;

/// Keep time updates in memory: `lazytime`.
pub const MS_LAZYTIME: u64 = 1 << 25;

/// The mount flags as the C library has them.
pub struct MountFlags {
    pub rdonly: u64,
    pub nosuid: u64,
    pub nodev: u64,
    pub noexec: u64,
    pub synchronous: u64,
    pub remount: u64,
    pub mandlock: u64,
    pub dirsync: u64,
    pub noatime: u64,
    pub nodiratime: u64,
    pub relatime: u64,
    pub strictatime: u64,
}

/// Reads the mount flags `MS_RDONLY`, `MS_NOSUID`, `MS_NODEV`, `MS_NOEXEC`,
/// `MS_SYNCHRONOUS`, `MS_REMOUNT`, `MS_MANDLOCK`, `MS_DIRSYNC`, `MS_NOATIME`,
/// `MS_NODIRATIME`, `MS_RELATIME` and `MS_STRICTATIME` of the crate `libc`.
/// Not proved: that each has the value that this module gives it.
#[verifier::external_body]
fn libc_mount_flags() -> (t: MountFlags)
    ensures
        t.rdonly == MS_RDONLY,
        t.nosuid == MS_NOSUID,
        t.nodev == MS_NODEV,
        t.noexec == MS_NOEXEC,
        t.synchronous == MS_SYNCHRONOUS,
        t.remount == MS_REMOUNT,
        t.mandlock == MS_MANDLOCK,
        t.dirsync == MS_DIRSYNC,
        t.noatime == MS_NOATIME,
        t.nodiratime == MS_NODIRATIME,
        t.relatime == MS_RELATIME,
        t.strictatime == MS_STRICTATIME,
{
    MountFlags {
        rdonly: libc::MS_RDONLY as u64,
        nosuid: libc::MS_NOSUID as u64,
        nodev: libc::MS_NODEV as u64,
        noexec: libc::MS_NOEXEC as u64,
        synchronous: libc::MS_SYNCHRONOUS as u64,
        remount: libc::MS_REMOUNT as u64,
        mandlock: libc::MS_MANDLOCK as u64,
        dirsync: libc::MS_DIRSYNC as u64,
        noatime: libc::MS_NOATIME as u64,
        nodiratime: libc::MS_NODIRATIME as u64,
        relatime: libc::MS_RELATIME as u64,
        strictatime: libc::MS_STRICTATIME as u64,
    }
}

/// `parts` with `sep` between each two.
pub open spec fn joined(parts: Seq<Seq<char>>, sep: Seq<char>) -> Seq<char>
    decreases parts.len(),
{
    if parts.len() == 0 {
        Seq::<char>::empty()
    } else if parts.len() == 1 {
        parts[0]
    } else {
        joined(parts.drop_last(), sep) + sep + parts.last()
    }
}

/// The texts that `parts` hold.
pub open spec fn texts(parts: Seq<&str>) -> Seq<Seq<char>> {
    Seq::new(parts.len(), |i: int| parts[i]@)
}

/// Calls `Itertools::join` of the crate `itertools` on the items of `parts`.
/// Not proved: that the result is the items in their order with `sep`
/// between each two, and empty where there is no item.
#[verifier::external_body]
fn join(parts: &Vec<&str>, sep: &str) -> (r: String)
    ensures
        r@ == joined(texts(parts@), sep@),
{
    parts.iter().join(sep)
}

/// The flag that the option `o` sets, 0 for an option that sets none, or
/// `None` where the option is not one of the kernel's.
pub open spec fn flag_of(o: Seq<char>) -> Option<u64> {
    if o == "dirsync"@ {
        Some(MS_DIRSYNC)
    } else if o == "lazytime"@ {
        Some(MS_LAZYTIME)
    } else if o == "mand"@ {
        Some(MS_MANDLOCK)
    } else if o == "noatime"@ {
        Some(MS_NOATIME)
    } else if o == "nodev"@ {
        Some(MS_NODEV)
    } else if o == "nodiratime"@ {
        Some(MS_NODIRATIME)
    } else if o == "noexec"@ {
        Some(MS_NOEXEC)
    } else if o == "nosuid"@ {
        Some(MS_NOSUID)
    } else if o == "relatime"@ {
        Some(MS_RELATIME)
    } else if o == "remount"@ {
        Some(MS_REMOUNT)
    } else if o == "ro"@ {
        Some(MS_RDONLY)
    } else if o == "rw"@ {
        Some(0u64)
    } else if o == "strictatime"@ {
        Some(MS_STRICTATIME)
    } else if o == "sync"@ {
        Some(MS_SYNCHRONOUS)
    } else if o == ""@ {
        Some(0u64)
    } else {
        None
    }
}

/// The flags that the options `os` set, taken together.
pub open spec fn flags_of(os: Seq<Seq<char>>) -> u64
    decreases os.len(),
{
    if os.len() == 0 {
        0
    } else {
        match flag_of(os.last()) {
            Some(f) => flags_of(os.drop_last()) | f,
            None => flags_of(os.drop_last()),
        }
    }
}

/// The options among `os` that are not the kernel's, in their order.
pub open spec fn others(os: Seq<Seq<char>>) -> Seq<Seq<char>>
    decreases os.len(),
{
    if os.len() == 0 {
        Seq::<Seq<char>>::empty()
    } else if flag_of(os.last()) is None {
        others(os.drop_last()).push(os.last())
    } else {
        others(os.drop_last())
    }
}

/// What the options `s` hand on to the filesystem: those that are not the
/// kernel's, with commas between, or `None` where there is none.
pub open spec fn data_of(s: Seq<char>) -> Option<Seq<char>> {
    let rest = others(fields(s, ','));
    if rest.len() == 0 {
        None
    } else {
        Some(joined(rest, ","@))
    }
}

/// The flag that the option in `v` from `from` to `to` sets.
fn flag_for(v: &Vec<char>, from: usize, to: usize, t: &MountFlags) -> (r: Option<u64>)
    requires
        from <= to <= v.len(),
        t.rdonly == MS_RDONLY,
        t.nosuid == MS_NOSUID,
        t.nodev == MS_NODEV,
        t.noexec == MS_NOEXEC,
        t.synchronous == MS_SYNCHRONOUS,
        t.remount == MS_REMOUNT,
        t.mandlock == MS_MANDLOCK,
        t.dirsync == MS_DIRSYNC,
        t.noatime == MS_NOATIME,
        t.nodiratime == MS_NODIRATIME,
        t.relatime == MS_RELATIME,
        t.strictatime == MS_STRICTATIME,
    ensures
        r == flag_of(v@.subrange(from as int, to as int)),
{
    if spells(v, from, to, "dirsync") {
        Some(t.dirsync)
    } else if spells(v, from, to, "lazytime") {
        Some(MS_LAZYTIME)
    } else if spells(v, from, to, "mand") {
        Some(t.mandlock)
    } else if spells(v, from, to, "noatime") {
        Some(t.noatime)
    } else if spells(v, from, to, "nodev") {
        Some(t.nodev)
    } else if spells(v, from, to, "nodiratime") {
        Some(t.nodiratime)
    } else if spells(v, from, to, "noexec") {
        Some(t.noexec)
    } else if spells(v, from, to, "nosuid") {
        Some(t.nosuid)
    } else if spells(v, from, to, "relatime") {
        Some(t.relatime)
    } else if spells(v, from, to, "remount") {
        Some(t.remount)
    } else if spells(v, from, to, "ro") {
        Some(t.rdonly)
    } else if spells(v, from, to, "rw") {
        Some(0)
    } else if spells(v, from, to, "strictatime") {
        Some(t.strictatime)
    } else if spells(v, from, to, "sync") {
        Some(t.synchronous)
    } else if spells(v, from, to, "") {
        Some(0)
    } else {
        None
    }
}

/// Splits mount options, which have commas between, into what the kernel
/// takes as flags and what it hands on to the filesystem.
pub fn parse_mount_options(options: &str) -> (r: (Option<String>, u64))
    ensures
        r.1 == flags_of(fields(options@, ',')),
        match data_of(options@) {
            Some(d) => r.0 matches Some(s) && s@ == d,
            None => r.0 is None,
        },
{
    let table = libc_mount_flags();
    let v = chars_of(options);
    let n = v.len();
    let mut opts: Vec<&str> = Vec::new();
    let mut flags: u64 = 0;
    let mut from: usize = 0;
    let ghost mut done: Seq<Seq<char>> = Seq::empty();
    assert(v@.skip(0) =~= options@);
    loop
        invariant_except_break
            v@ == options@,
            n == v@.len(),
            from <= n,
            fields(options@, ',') == done + fields(v@.skip(from as int), ','),
            flags == flags_of(done),
            texts(opts@) == others(done),
            table.rdonly == MS_RDONLY,
            table.nosuid == MS_NOSUID,
            table.nodev == MS_NODEV,
            table.noexec == MS_NOEXEC,
            table.synchronous == MS_SYNCHRONOUS,
            table.remount == MS_REMOUNT,
            table.mandlock == MS_MANDLOCK,
            table.dirsync == MS_DIRSYNC,
            table.noatime == MS_NOATIME,
            table.nodiratime == MS_NODIRATIME,
            table.relatime == MS_RELATIME,
            table.strictatime == MS_STRICTATIME,
        ensures
            flags == flags_of(fields(options@, ',')),
            texts(opts@) == others(fields(options@, ',')),
        decreases n - from,
    {
        let to = find_char(&v, from, ',');
        let ghost tail = v@.skip(from as int);
        let ghost field = v@.subrange(from as int, to as int);
        let ghost before = done;
        proof {
            assert(tail.take(to - from) =~= field);
            done = done.push(field);
            assert(done.drop_last() =~= before);
            assert(done.last() == field);
        }
        match flag_for(&v, from, to, &table) {
            Some(f) => {
                flags = flags | f;
            },
            None => {
                let ghost had = opts@;
                let o = options.substring_char(from, to);
                opts.push(o);
                assert(texts(opts@) =~= texts(had).push(field));
            },
        }
        if to >= n {
            proof {
                assert(tail =~= field);
                assert(fields(options@, ',') =~= done);
            }
            break ;
        }
        proof {
            assert(tail.skip(to - from + 1) =~= v@.skip(to + 1));
            assert(fields(options@, ',') =~= done + fields(v@.skip(to + 1), ','));
        }
        from = to + 1;
    }
    let data = if opts.len() == 0 {
        None
    } else {
        Some(join(&opts, ","))
    };
    (data, flags)
}

/// What the crate `uuid` fails to parse a text with.
#[verifier::external_type_specification]
#[verifier::external_body]
pub struct ExUuidError(uuid::Error);

/// The identifier that the crate `uuid` reads `s` as, as a number of 128
/// bits whose most significant byte is the identifier's first, or `None`
/// where it reads none.
pub uninterp spec fn uuid_of_text(s: Seq<char>) -> Option<u128>;

/// Calls `Uuid::parse_str` of the crate `uuid`, and `Uuid::as_u128` on what
/// it gives. Not proved: that the outcome is a function of the text alone,
/// which is the one named `uuid_of_text`.
#[verifier::external_body]
fn uuid_parse_str(s: &str) -> (r: Result<u128, uuid::Error>)
    ensures
        r is Ok <==> uuid_of_text(s@) is Some,
        r matches Ok(v) ==> uuid_of_text(s@) == Some(v),
{
    uuid::Uuid::parse_str(s).map(|u| u.as_u128())
}

/// The text that the crate `uuid` writes the identifier `u` as.
pub uninterp spec fn uuid_text(u: u128) -> Seq<char>;

/// Calls `Uuid::from_u128` of the crate `uuid`, and `to_string` on what it
/// gives: the identifier in the form that the crate writes by default. Not
/// proved: that the text is a function of the identifier alone, which is the
/// one named `uuid_text`.
#[verifier::external_body]
pub(crate) fn uuid_to_string(u: u128) -> (r: String)
    ensures
        r@ == uuid_text(u),
{
    uuid::Uuid::from_u128(u).to_string()
}

/// A text that is not an identifier.
#[derive(Clone, Copy, Debug, PartialEq, Eq, Structural)]
pub struct InvalidUuid;

/// `s` without the `UUID=` that it may start with.
pub open spec fn without_uuid_prefix(s: Seq<char>) -> Seq<char> {
    if s.len() >= 5 && s.take(5) == "UUID="@ {
        s.skip(5)
    } else {
        s
    }
}

/// The identifier that `uuid_raw` gives, as it is or behind `UUID=`.
pub fn parse_fstab_uuid(uuid_raw: &str) -> (r: Result<u128, InvalidUuid>)
    ensures
        match uuid_of_text(without_uuid_prefix(uuid_raw@)) {
            Some(u) => r == Ok::<u128, InvalidUuid>(u),
            None => r is Err,
        },
{
    let v = chars_of(uuid_raw);
    let n = v.len();
    let parsed = if n >= 5 && spells(&v, 0, 5, "UUID=") {
        assert(v@.subrange(0, 5) =~= uuid_raw@.take(5));
        assert(uuid_raw@.subrange(5, n as int) =~= uuid_raw@.skip(5));
        uuid_parse_str(uuid_raw.substring_char(5, n))
    } else {
        proof {
            if n >= 5 {
                assert(v@.subrange(0, 5) =~= uuid_raw@.take(5));
            }
        }
        uuid_parse_str(uuid_raw)
    };
    match parsed {
        Ok(u) => Ok(u),
        Err(_) => Err(InvalidUuid),
    }
}

/// What is to be mounted: the filesystem with a given identifier, or the
/// filesystem on given devices.
#[derive(Clone, Debug, PartialEq, Eq)]
pub enum DeviceSpec {
    Uuid(u128),
    Devices(Vec<String>),
}

/// What `dev` asks to mount: behind `UUID=` an identifier, else the paths of
/// devices with colons between.
pub fn parse_device_spec(dev: &str) -> (r: Result<DeviceSpec, InvalidUuid>)
    ensures
        dev@.len() >= 5 && dev@.take(5) == "UUID="@ ==> match uuid_of_text(dev@.skip(5)) {
            Some(u) => r matches Ok(DeviceSpec::Uuid(x)) && x == u,
            None => r is Err,
        },
        !(dev@.len() >= 5 && dev@.take(5) == "UUID="@) ==> (r matches Ok(DeviceSpec::Devices(ds))
            && texts_of(ds@) == fields(dev@, ':')),
{
    let v = chars_of(dev);
    let n = v.len();
    if n >= 5 && spells(&v, 0, 5, "UUID=") {
        assert(v@.subrange(0, 5) =~= dev@.take(5));
        assert(dev@.subrange(5, n as int) =~= dev@.skip(5));
        return match uuid_parse_str(dev.substring_char(5, n)) {
            Ok(u) => Ok(DeviceSpec::Uuid(u)),
            Err(_) => Err(InvalidUuid),
        };
    }
    proof {
        if n >= 5 {
            assert(v@.subrange(0, 5) =~= dev@.take(5));
        }
    }
    let mut devices: Vec<String> = Vec::new();
    let mut from: usize = 0;
    let ghost mut done: Seq<Seq<char>> = Seq::empty();
    assert(v@.skip(0) =~= dev@);
    loop
        invariant_except_break
            v@ == dev@,
            n == v@.len(),
            from <= n,
            fields(dev@, ':') == done + fields(v@.skip(from as int), ':'),
            texts_of(devices@) == done,
        ensures
            texts_of(devices@) == fields(dev@, ':'),
        decreases n - from,
    {
        let to = find_char(&v, from, ':');
        let ghost tail = v@.skip(from as int);
        let ghost field = v@.subrange(from as int, to as int);
        let ghost had = devices@;
        proof {
            assert(tail.take(to - from) =~= field);
            done = done.push(field);
        }
        devices.push(String::from_str(dev.substring_char(from, to)));
        assert(texts_of(devices@) =~= texts_of(had).push(field));
        if to >= n {
            proof {
                assert(tail =~= field);
                assert(fields(dev@, ':') =~= done);
            }
            break ;
        }
        proof {
            assert(tail.skip(to - from + 1) =~= v@.skip(to + 1));
            assert(fields(dev@, ':') =~= done + fields(v@.skip(to + 1), ':'));
        }
        from = to + 1;
    }
    Ok(DeviceSpec::Devices(devices))
}

/// The texts that `parts` hold.
pub open spec fn texts_of(parts: Seq<String>) -> Seq<Seq<char>> {
    Seq::new(parts.len(), |i: int| parts[i]@)
}

/// A mount, ready to be asked of the kernel.
#[derive(Clone, Debug, PartialEq, Eq)]
pub struct MountRequest {
    /// What is mounted: the devices.
    pub src: String,
    /// Where it is mounted.
    pub target: String,
    /// The type of the filesystem.
    pub fstype: String,
    /// The options that the kernel takes as flags.
    pub mountflags: u64,
    /// The options that the kernel hands on to the filesystem.
    pub data: Option<String>,
}

/// The mount of `device` at `target` with `options`.
pub fn mount(device: String, target: String, options: &str) -> (r: MountRequest)
    ensures
        r.src@ == device@,
        r.target@ == target@,
        r.fstype@ == "bcachefs"@,
        r.mountflags == flags_of(fields(options@, ',')),
        match data_of(options@) {
            Some(d) => r.data matches Some(s) && s@ == d,
            None => r.data is None,
        },
{
    let (data, mountflags) = parse_mount_options(options);
    MountRequest {
        src: device,
        target,
        fstype: String::from_str("bcachefs"),
        mountflags,
        data,
    }
}

} // verus!
