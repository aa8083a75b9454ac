//! Keys of encrypted filesystems: where a key is to come from, how the key
//! that a passphrase gives is judged, and what the steps of getting one are.

use crate::mount::{uuid_text, uuid_to_string};
use crate::superblock::le64;
use crate::text::{chars_of, spells};
use byteorder::{LittleEndian, ReadBytesExt};
use vstd::prelude::*;
use vstd::string::*;

verus! {

/// What to do where a filesystem is encrypted and its key is not at hand.
#[derive(Clone, Copy, Debug, PartialEq, Eq, Structural)]
pub enum KeyLocation {
    /// Give up.
    Fail,
    /// Wait until the key is there.
    Wait,
    /// Ask for the passphrase.
    Ask,
}

/// Where a key is to come from, `None` where nothing was said.
#[derive(Clone, Copy, Debug, PartialEq, Eq, Structural)]
pub struct KeyLoc(pub Option<KeyLocation>);

/// Why no key was got.
#[derive(Clone, Copy, Debug, PartialEq, Eq, Structural)]
pub enum KeyError {
    /// The text does not say where a key is to come from.
    InvalidPasswordOption,
    /// The filesystem is encrypted and nothing was said of its key.
    NoKeyOption,
    /// The key is not at hand and is not to be got.
    NoKeyAvailable,
    /// The stored key could not be decrypted.
    DecryptionFailure,
    /// The passphrase is not the filesystem's.
    WrongPassword,
    /// The key could not be put on the keyring; the operating system's error
    /// number says why.
    AddKeyFailed(i32),
    /// The keyring could not be searched; the operating system's error
    /// number says why.
    Os(i32),
}

/// Where the key is to come from, as `s` says it.
pub open spec fn key_loc_of(s: Seq<char>) -> Option<KeyLoc> {
    if s == ""@ {
        Some(KeyLoc(None))
    } else if s == "fail"@ {
        Some(KeyLoc(Some(KeyLocation::Fail)))
    } else if s == "wait"@ {
        Some(KeyLoc(Some(KeyLocation::Wait)))
    } else if s == "ask"@ {
        Some(KeyLoc(Some(KeyLocation::Ask)))
    } else {
        None
    }
}

impl KeyLoc {
    /// Where the key is to come from, as `s` says it: `fail`, `wait`, `ask`,
    /// or nothing.
    pub fn from_str(s: &str) -> (r: Result<KeyLoc, KeyError>)
        ensures
            match key_loc_of(s@) {
                Some(k) => r == Ok::<KeyLoc, KeyError>(k),
                None => r == Err::<KeyLoc, KeyError>(KeyError::InvalidPasswordOption),
            },
    {
        let v = chars_of(s);
        let n = v.len();
        assert(v@.subrange(0, n as int) =~= s@);
        if spells(&v, 0, n, "") {
            Ok(KeyLoc(None))
        } else if spells(&v, 0, n, "fail") {
            Ok(KeyLoc(Some(KeyLocation::Fail)))
        } else if spells(&v, 0, n, "wait") {
            Ok(KeyLoc(Some(KeyLocation::Wait)))
        } else if spells(&v, 0, n, "ask") {
            Ok(KeyLoc(Some(KeyLocation::Ask)))
        } else {
            Err(KeyError::InvalidPasswordOption)
        }
    }
}

impl std::str::FromStr for KeyLoc {
    type Err = KeyError;

    /// Where the key is to come from: what `KeyLoc::from_str` gives.
    fn from_str(s: &str) -> (r: Result<KeyLoc, KeyError>)
        ensures
            match key_loc_of(s@) {
                Some(k) => r == Ok::<KeyLoc, KeyError>(k),
                None => r == Err::<KeyLoc, KeyError>(KeyError::InvalidPasswordOption),
            },
    {
        KeyLoc::from_str(s)
    }
}

/// How a key is got.
#[derive(Clone, Copy, Debug, PartialEq, Eq, Structural)]
pub enum KeyStep {
    /// Look for the key once a second until it is there.
    Wait,
    /// Ask for the passphrase and make the key from it.
    Ask,
}

/// What is to be done for the key of a filesystem, encrypted or not, before
/// it is mounted: nothing where it is not encrypted; else what `location`
/// names, which has to name something.
pub fn key_for_mount(encrypted: bool, location: KeyLoc) -> (r: Result<Option<KeyLocation>, KeyError>)
    ensures
        !encrypted ==> r == Ok::<Option<KeyLocation>, KeyError>(None),
        encrypted ==> match location.0 {
            Some(l) => r == Ok::<Option<KeyLocation>, KeyError>(Some(l)),
            None => r == Err::<Option<KeyLocation>, KeyError>(KeyError::NoKeyOption),
        },
{
    if !encrypted {
        return Ok(None);
    }
    match location.0 {
        Some(l) => Ok(Some(l)),
        None => Err(KeyError::NoKeyOption),
    }
}

/// How the key is got where it is to come from `password`.
pub fn prepare_key(password: KeyLocation) -> (r: Result<KeyStep, KeyError>)
    ensures
        r == match password {
            KeyLocation::Fail => Err::<KeyStep, KeyError>(KeyError::NoKeyAvailable),
            KeyLocation::Wait => Ok::<KeyStep, KeyError>(KeyStep::Wait),
            KeyLocation::Ask => Ok::<KeyStep, KeyError>(KeyStep::Ask),
        },
{
    match password {
        KeyLocation::Fail => Err(KeyError::NoKeyAvailable),
        KeyLocation::Wait => Ok(KeyStep::Wait),
        KeyLocation::Ask => Ok(KeyStep::Ask),
    }
}

/// The name under which the key of a filesystem is kept, where `uuid` is
/// the filesystem's identifier as text.
pub fn key_name_for(uuid: &str) -> (r: String)
    ensures
        r@ == "bcachefs:"@ + uuid@,
{
    let mut s = String::from_str("bcachefs:");
    s.append(uuid);
    s
}

/// The name under which the key of the filesystem `uuid` is kept.
pub fn key_name(uuid: u128) -> (r: String)
    ensures
        r@ == "bcachefs:"@ + uuid_text(uuid),
{
    let t = uuid_to_string(uuid);
    key_name_for(t.as_str())
}

/// What a search of the keyring says: it handed back `key_id` and left the
/// error number `errno`; `enokey` is the error number for a key that is not
/// there. The key is there where `key_id` is positive; it is not there where
/// the error number says so; any other error number is a failure.
pub fn check_for_key(key_id: i64, errno: i32, enokey: i32) -> (r: Result<bool, KeyError>)
    ensures
        key_id > 0 ==> r == Ok::<bool, KeyError>(true),
        key_id <= 0 && errno != enokey ==> r == Err::<bool, KeyError>(KeyError::Os(errno)),
        key_id <= 0 && errno == enokey ==> r == Ok::<bool, KeyError>(false),
{
    if key_id > 0 {
        Ok(true)
    } else if errno != enokey {
        Err(KeyError::Os(errno))
    } else {
        Ok(false)
    }
}

/// What comes after a search of the keyring while waiting for a key.
#[derive(Clone, Copy, Debug, PartialEq, Eq, Structural)]
pub enum WaitStep {
    /// The key is there.
    Done,
    /// Sleep for so many seconds, then search again.
    Sleep(u64),
}

/// What comes after a search of the keyring while waiting for a key: the
/// end where the key was found, else a second's sleep and another search.
pub fn wait_for_key(found: bool) -> (r: WaitStep)
    ensures
        r == if found {
            WaitStep::Done
        } else {
            WaitStep::Sleep(1)
        },
{
    if found {
        WaitStep::Done
    } else {
        WaitStep::Sleep(1)
    }
}

/// Calls `ReadBytesExt::read_u64` of the crate `byteorder`, for the byte
/// order `LittleEndian`, on a reader over `bytes`. Not proved: that it gives
/// the number that the first eight bytes are, least significant first, and
/// nothing where there are fewer.
#[verifier::external_body]
fn read_u64_le(bytes: &[u8]) -> (r: Option<u64>)
    ensures
        bytes@.len() >= 8 ==> r == Some(le64(bytes@, 0)),
        bytes@.len() < 8 ==> r is None,
{
    let mut reader: &[u8] = bytes;
    reader.read_u64::<LittleEndian>().ok()
}

/// The eight bytes that a decrypted key starts with: `bch**key`.
pub open spec fn key_magic_bytes() -> Seq<u8> {
    seq![0x62u8, 0x63u8, 0x68u8, 0x2au8, 0x2au8, 0x6bu8, 0x65u8, 0x79u8]
}

/// The number that a decrypted key starts with.
pub fn key_magic() -> (m: u64)
    ensures
        m == le64(key_magic_bytes(), 0),
{
    let mut bytes: Vec<u8> = Vec::new();
    bytes.push(0x62);
    bytes.push(0x63);
    bytes.push(0x68);
    bytes.push(0x2a);
    bytes.push(0x2a);
    bytes.push(0x6b);
    bytes.push(0x65);
    bytes.push(0x79);
    assert(bytes@ =~= key_magic_bytes());
    match read_u64_le(bytes.as_slice()) {
        Some(m) => m,
        None => 0,
    }
}

/// Judges the key that a passphrase gave: decrypting the stored key with it
/// handed back `ret`, and the decrypted key starts with `magic`. The
/// passphrase is the filesystem's where decrypting went well and the key
/// starts as every key does.
pub fn ask_for_key(ret: i32, magic: u64) -> (r: Result<(), KeyError>)
    ensures
        ret != 0 ==> r == Err::<(), KeyError>(KeyError::DecryptionFailure),
        ret == 0 && magic != le64(key_magic_bytes(), 0) ==> r == Err::<(), KeyError>(
            KeyError::WrongPassword,
        ),
        ret == 0 && magic == le64(key_magic_bytes(), 0) ==> r == Ok::<(), KeyError>(()),
{
    if ret != 0 {
        Err(KeyError::DecryptionFailure)
    } else if magic != key_magic() {
        Err(KeyError::WrongPassword)
    } else {
        Ok(())
    }
}

/// What came of putting the key on the keyring: that handed back `ret` and
/// left the error number `errno`. It failed where `ret` is -1.
pub fn key_added(ret: i64, errno: i32) -> (r: Result<(), KeyError>)
    ensures
        ret == -1 ==> r == Err::<(), KeyError>(KeyError::AddKeyFailed(errno)),
        ret != -1 ==> r == Ok::<(), KeyError>(()),
{
    if ret == -1 {
        Err(KeyError::AddKeyFailed(errno))
    } else {
        Ok(())
    }
}

impl KeyError {
    /// The failure in words. An error number is left to the caller to put
    /// into words.
    pub fn message(&self) -> (r: &'static str)
        ensures
            r@ == match *self {
                KeyError::InvalidPasswordOption => "invalid password option"@,
                KeyError::NoKeyOption => "no keyoption specified for locked filesystem"@,
                KeyError::NoKeyAvailable => "no key available"@,
                KeyError::DecryptionFailure => "chacha decryption failure"@,
                KeyError::WrongPassword => "failed to verify the password"@,
                KeyError::AddKeyFailed(_) => "failed to add key to keyring"@,
                KeyError::Os(_) => "keyring search failed"@,
            },
    {
        match self {
            KeyError::InvalidPasswordOption => "invalid password option",
            KeyError::NoKeyOption => "no keyoption specified for locked filesystem",
            KeyError::NoKeyAvailable => "no key available",
            KeyError::DecryptionFailure => "chacha decryption failure",
            KeyError::WrongPassword => "failed to verify the password",
            KeyError::AddKeyFailed(_) => "failed to add key to keyring",
            KeyError::Os(_) => "keyring search failed",
        }
    }
}

} // verus!
