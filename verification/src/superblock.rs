//! Reading a superblock: the header's layout, the checks that a header must
//! pass, and the protocol that reads, checks, grows the buffer once and reads
//! again.
//!
//! The protocol does no input or output itself. It says what to read, is told
//! what was read, and says what comes next: another read, a checksum to
//! compute, or the end.

use crate::errcode::{
    EIO, ENOMEM, ERR_INVALID_SB_CSUM, ERR_INVALID_SB_CSUM_TYPE, ERR_INVALID_SB_MAGIC,
    ERR_INVALID_SB_TOO_BIG, ERR_INVALID_SB_VERSION,
};
use crate::text::{dec_text, int_text, push_decimal, push_signed};
use vstd::arithmetic::power2::*;
use vstd::prelude::*;
use vstd::string::*;

verus! {

/// Where the stored checksum stands in a header: 16 bytes.
pub const SB_CSUM_OFFSET: usize = 0;

/// Where the version stands: 2 bytes.
pub const SB_VERSION_OFFSET: usize = 16;

/// Where the oldest version needed to read the filesystem stands: 2 bytes.
pub const SB_VERSION_MIN_OFFSET: usize = 18;

/// Where the magic stands: 16 bytes.
pub const SB_MAGIC_OFFSET: usize = 24;

/// Where the identifier of the filesystem stands: 16 bytes.
pub const SB_UUID_OFFSET: usize = 40;

/// Where the sequence number stands: 8 bytes.
pub const SB_SEQ_OFFSET: usize = 112;

/// Where the length of the variable part stands, in units of 8 bytes: 4 bytes.
pub const SB_U64S_OFFSET: usize = 124;

/// Where the first word of flags stands. Its bits 2 to 7 name the checksum
/// algorithm.
pub const SB_FLAGS_OFFSET: usize = 144;

/// Where the layout's cap on the header's size stands: 1 byte.
pub const SB_MAX_SIZE_BITS_OFFSET: usize = 257;

/// The length of the fixed part of a header.
pub const SB_FIXED_BYTES: usize = 752;

/// The magic of the filesystem's predecessor, as the 16 bytes read least
/// significant first.
pub const BCACHE_MAGIC: u128 = 0x816dba487ff56582ca451a4ef67385c6;

/// The magic of the filesystem, read the same way.
pub const BCHFS_MAGIC: u128 = 0xeff73d80cf606ad9a990ce66f67385c6;

/// The oldest version that is read.
pub const METADATA_VERSION_MIN: u32 = 9;

/// The first version whose header carries the oldest version needed.
pub const METADATA_VERSION_BKEY_RENUMBER: u32 = 10;

/// The first version that is too new to be read.
pub const METADATA_VERSION_MAX: u32 = 26;

/// The number of checksum algorithms.
pub const CSUM_NR: u64 = 8;

/// The number of bytes that the units of the layout's cap hold.
pub const SECTOR_BYTES: u64 = 512;

/// The number at `at` in `b`, two bytes, least significant first.
pub open spec fn le16(b: Seq<u8>, at: int) -> u16 {
    (b[at] as int + b[at + 1] as int * 0x100) as u16
}

/// The number at `at` in `b`, four bytes, least significant first.
pub open spec fn le32(b: Seq<u8>, at: int) -> u32 {
    (le16(b, at) as int + le16(b, at + 2) as int * 0x1_0000) as u32
}

/// The number at `at` in `b`, eight bytes, least significant first.
pub open spec fn le64(b: Seq<u8>, at: int) -> u64 {
    (le32(b, at) as int + le32(b, at + 4) as int * 0x1_0000_0000) as u64
}

/// The number at `at` in `b`, sixteen bytes, least significant first.
pub open spec fn le128(b: Seq<u8>, at: int) -> u128 {
    (le64(b, at) as int + le64(b, at + 8) as int * 0x1_0000_0000_0000_0000) as u128
}

/// The number at `at` in `b`, two bytes, most significant first.
pub open spec fn be16(b: Seq<u8>, at: int) -> u16 {
    (b[at] as int * 0x100 + b[at + 1] as int) as u16
}

/// The number at `at` in `b`, four bytes, most significant first.
pub open spec fn be32(b: Seq<u8>, at: int) -> u32 {
    (be16(b, at) as int * 0x1_0000 + be16(b, at + 2) as int) as u32
}

/// The number at `at` in `b`, eight bytes, most significant first.
pub open spec fn be64(b: Seq<u8>, at: int) -> u64 {
    (be32(b, at) as int * 0x1_0000_0000 + be32(b, at + 4) as int) as u64
}

/// The number at `at` in `b`, sixteen bytes, most significant first.
pub open spec fn be128(b: Seq<u8>, at: int) -> u128 {
    (be64(b, at) as int * 0x1_0000_0000_0000_0000 + be64(b, at + 8) as int) as u128
}

/// A checksum of 128 bits.
#[derive(Clone, Copy, Debug, PartialEq, Eq, Structural)]
pub struct Csum {
    pub lo: u64,
    pub hi: u64,
}

/// The fields of a header that the read protocol looks at.
#[derive(Clone, Copy, Debug, PartialEq, Eq, Structural)]
pub struct SbHeader {
    pub csum: Csum,
    pub version: u16,
    pub version_min: u16,
    pub magic: u128,
    pub seq: u64,
    pub u64s: u32,
    pub csum_type: u8,
    pub sb_max_size_bits: u8,
}

/// The fields of the header that starts `b`, which holds at least the fixed
/// part.
pub open spec fn header_of(b: Seq<u8>) -> SbHeader {
    SbHeader {
        csum: Csum {
            lo: le64(b, SB_CSUM_OFFSET as int),
            hi: le64(b, SB_CSUM_OFFSET as int + 8),
        },
        version: le16(b, SB_VERSION_OFFSET as int),
        version_min: le16(b, SB_VERSION_MIN_OFFSET as int),
        magic: le128(b, SB_MAGIC_OFFSET as int),
        seq: le64(b, SB_SEQ_OFFSET as int),
        u64s: le32(b, SB_U64S_OFFSET as int),
        csum_type: b[SB_FLAGS_OFFSET as int] / 4,
        sb_max_size_bits: b[SB_MAX_SIZE_BITS_OFFSET as int],
    }
}

/// The length of a slice is a number that the machine can hold.
proof fn slice_len_fits(b: &[u8])
    ensures
        b@.len() <= usize::MAX,
{
    broadcast use vstd::slice::group_slice_axioms;

    assert(b@.len() == vstd::slice::spec_slice_len(b));
}

fn read_le16(b: &[u8], at: usize) -> (r: u16)
    requires
        at + 2 <= b@.len(),
    ensures
        r == le16(b@, at as int),
{
    b[at] as u16 + (b[at + 1] as u16) * 0x100
}

fn read_le32(b: &[u8], at: usize) -> (r: u32)
    requires
        at + 4 <= b@.len(),
    ensures
        r == le32(b@, at as int),
{
    proof {
        slice_len_fits(b);
    }
    read_le16(b, at) as u32 + (read_le16(b, at + 2) as u32) * 0x1_0000
}

fn read_le64(b: &[u8], at: usize) -> (r: u64)
    requires
        at + 8 <= b@.len(),
    ensures
        r == le64(b@, at as int),
{
    proof {
        slice_len_fits(b);
    }
    read_le32(b, at) as u64 + (read_le32(b, at + 4) as u64) * 0x1_0000_0000
}

fn read_le128(b: &[u8], at: usize) -> (r: u128)
    requires
        at + 16 <= b@.len(),
    ensures
        r == le128(b@, at as int),
{
    proof {
        slice_len_fits(b);
    }
    read_le64(b, at) as u128 + (read_le64(b, at + 8) as u128) * 0x1_0000_0000_0000_0000
}

fn read_be16(b: &[u8], at: usize) -> (r: u16)
    requires
        at + 2 <= b@.len(),
    ensures
        r == be16(b@, at as int),
{
    (b[at] as u16) * 0x100 + b[at + 1] as u16
}

fn read_be32(b: &[u8], at: usize) -> (r: u32)
    requires
        at + 4 <= b@.len(),
    ensures
        r == be32(b@, at as int),
{
    proof {
        slice_len_fits(b);
    }
    (read_be16(b, at) as u32) * 0x1_0000 + read_be16(b, at + 2) as u32
}

fn read_be64(b: &[u8], at: usize) -> (r: u64)
    requires
        at + 8 <= b@.len(),
    ensures
        r == be64(b@, at as int),
{
    proof {
        slice_len_fits(b);
    }
    (read_be32(b, at) as u64) * 0x1_0000_0000 + read_be32(b, at + 4) as u64
}

fn read_be128(b: &[u8], at: usize) -> (r: u128)
    requires
        at + 16 <= b@.len(),
    ensures
        r == be128(b@, at as int),
{
    proof {
        slice_len_fits(b);
    }
    (read_be64(b, at) as u128) * 0x1_0000_0000_0000_0000 + read_be64(b, at + 8) as u128
}

/// Reads the fields of the header that starts `b`.
pub fn decode_header(b: &[u8]) -> (h: SbHeader)
    requires
        b@.len() >= SB_FIXED_BYTES,
    ensures
        h == header_of(b@),
{
    SbHeader {
        csum: Csum { lo: read_le64(b, SB_CSUM_OFFSET), hi: read_le64(b, SB_CSUM_OFFSET + 8) },
        version: read_le16(b, SB_VERSION_OFFSET),
        version_min: read_le16(b, SB_VERSION_MIN_OFFSET),
        magic: read_le128(b, SB_MAGIC_OFFSET),
        seq: read_le64(b, SB_SEQ_OFFSET),
        u64s: read_le32(b, SB_U64S_OFFSET),
        csum_type: b[SB_FLAGS_OFFSET] / 4,
        sb_max_size_bits: b[SB_MAX_SIZE_BITS_OFFSET],
    }
}

/// Why a header was not accepted.
#[derive(Clone, Copy, Debug, PartialEq, Eq, Structural)]
pub enum ReadOneSuperErrorType {
    /// The version is too new, or the oldest version needed is too old.
    InvalidSuperBlockVersionError { version: u32, min_version: u32, max_version: u32 },
    /// The read itself failed.
    IOError,
    /// The magic is not one of the two that are known.
    NotABcachefsSuperBlockError,
    /// The header is longer than its layout allows.
    InvalidSuperBlockTooBigError { bytes: u64, max_size_bits: u8 },
    /// The buffer could not be made to hold the header.
    CannotReallocError,
    /// The header names a checksum algorithm that does not exist.
    InvalidSuperBlockCsumType(u64),
    /// The stored checksum is not the one computed.
    InvalidSuperBlockCsum,
}

/// A failed read: the reason, and the integer that reports it.
#[derive(Clone, Copy, Debug, PartialEq, Eq, Structural)]
pub struct ReadOneSuperError {
    pub return_code: i32,
    pub error: ReadOneSuperErrorType,
}

impl SbHeader {
    /// The oldest version needed to read the filesystem. A header older than
    /// `METADATA_VERSION_BKEY_RENUMBER` does not carry it: it is then the
    /// version itself.
    pub open spec fn spec_effective_version_min(&self) -> u16 {
        if self.version >= METADATA_VERSION_BKEY_RENUMBER {
            self.version_min
        } else {
            self.version
        }
    }

    /// The oldest version needed to read the filesystem.
    #[verifier::when_used_as_spec(spec_effective_version_min)]
    pub fn effective_version_min(&self) -> (v: u16)
        ensures
            v == self.spec_effective_version_min(),
    {
        if self.version as u32 >= METADATA_VERSION_BKEY_RENUMBER {
            self.version_min
        } else {
            self.version
        }
    }

    /// The length of the whole header in bytes: the fixed part and the
    /// variable part.
    pub open spec fn spec_bytes(&self) -> u64 {
        (SB_FIXED_BYTES + 8 * self.u64s) as u64
    }

    /// The length of the whole header in bytes.
    #[verifier::when_used_as_spec(spec_bytes)]
    pub fn bytes(&self) -> (n: u64)
        ensures
            n == self.spec_bytes(),
            n == SB_FIXED_BYTES + 8 * self.u64s,
    {
        SB_FIXED_BYTES as u64 + 8 * (self.u64s as u64)
    }

    /// The greatest length that the layout allows a header.
    pub open spec fn max_bytes(&self) -> nat {
        SECTOR_BYTES as nat * pow2(self.sb_max_size_bits as nat)
    }

    /// The magic is one of the two that are known.
    pub open spec fn magic_known(&self) -> bool {
        self.magic == BCACHE_MAGIC || self.magic == BCHFS_MAGIC
    }

    /// The version range is one that is read.
    pub open spec fn version_supported(&self) -> bool {
        self.version < METADATA_VERSION_MAX && self.spec_effective_version_min()
            >= METADATA_VERSION_MIN
    }

    /// The header is longer than its layout allows.
    pub open spec fn spec_too_big(&self) -> bool {
        self.spec_bytes() > self.max_bytes()
    }

    /// Whether the header is longer than its layout allows.
    #[verifier::when_used_as_spec(spec_too_big)]
    pub fn too_big(&self) -> (r: bool)
        ensures
            r == self.spec_too_big(),
            r ==> self.sb_max_size_bits < 27,
    {
        let bits = self.sb_max_size_bits;
        proof {
            lemma2_to64();
            if bits >= 27 {
                if bits > 27 {
                    lemma_pow2_strictly_increases(27, bits as nat);
                }
                assert(SECTOR_BYTES as nat * pow2(bits as nat) >= 512 * 0x800_0000) by (nonlinear_arith)
                    requires
                        pow2(bits as nat) >= 0x800_0000,
                        SECTOR_BYTES == 512,
                ;
            } else {
                if bits < 26 {
                    lemma_pow2_strictly_increases(bits as nat, 26);
                }
                assert(SECTOR_BYTES as nat * pow2(bits as nat) <= 512 * 0x400_0000) by (nonlinear_arith)
                    requires
                        pow2(bits as nat) <= 0x400_0000,
                        SECTOR_BYTES == 512,
                ;
                vstd::bits::lemma_u64_shl_is_mul(SECTOR_BYTES, bits as u64);
            }
        }
        bits < 27 && self.bytes() > (SECTOR_BYTES << (bits as u64))
    }
}

/// What the checks say of a header read into a buffer of a given capacity.
#[derive(Clone, Copy, Debug, PartialEq, Eq)]
pub enum HeaderCheck {
    /// The header is not accepted.
    Reject(ReadOneSuperError),
    /// The header is longer than the buffer: the buffer has to grow and the
    /// header has to be read again.
    Grow,
    /// Nothing is left to check but the checksum.
    Checksum,
}

/// The integer that reports the failure of magnitude `m`.
pub open spec fn negated(m: u16) -> i32 {
    (-(m as int)) as i32
}

/// The failure with the given reason and the integer that reports it. For a
/// failed read the integer is the one that the read handed back.
pub open spec fn rejection(error: ReadOneSuperErrorType, io_ret: i32) -> ReadOneSuperError {
    ReadOneSuperError {
        return_code: match error {
            ReadOneSuperErrorType::InvalidSuperBlockVersionError { .. } => negated(
                ERR_INVALID_SB_VERSION,
            ),
            ReadOneSuperErrorType::IOError => io_ret,
            ReadOneSuperErrorType::NotABcachefsSuperBlockError => negated(ERR_INVALID_SB_MAGIC),
            ReadOneSuperErrorType::InvalidSuperBlockTooBigError { .. } => negated(
                ERR_INVALID_SB_TOO_BIG,
            ),
            ReadOneSuperErrorType::CannotReallocError => negated(ENOMEM),
            ReadOneSuperErrorType::InvalidSuperBlockCsumType(_) => negated(
                ERR_INVALID_SB_CSUM_TYPE,
            ),
            ReadOneSuperErrorType::InvalidSuperBlockCsum => negated(ERR_INVALID_SB_CSUM),
        },
        error,
    }
}

/// The version failure that names the version seen and the range supported.
pub open spec fn version_error(h: SbHeader) -> ReadOneSuperErrorType {
    ReadOneSuperErrorType::InvalidSuperBlockVersionError {
        version: h.version as u32,
        min_version: METADATA_VERSION_MIN,
        max_version: METADATA_VERSION_MAX,
    }
}

/// The checks in their order: magic, version, length against the layout's
/// cap, length against the buffer, checksum algorithm. The first that fails
/// decides. A buffer that has grown once does not grow again.
pub open spec fn check(h: SbHeader, capacity: nat, resized: bool) -> HeaderCheck {
    if !h.magic_known() {
        HeaderCheck::Reject(rejection(ReadOneSuperErrorType::NotABcachefsSuperBlockError, 0))
    } else if !h.version_supported() {
        HeaderCheck::Reject(rejection(version_error(h), 0))
    } else if h.spec_too_big() {
        HeaderCheck::Reject(
            rejection(
                ReadOneSuperErrorType::InvalidSuperBlockTooBigError {
                    bytes: h.spec_bytes(),
                    max_size_bits: h.sb_max_size_bits,
                },
                0,
            ),
        )
    } else if h.spec_bytes() > capacity {
        if resized {
            HeaderCheck::Reject(rejection(ReadOneSuperErrorType::CannotReallocError, 0))
        } else {
            HeaderCheck::Grow
        }
    } else if h.csum_type >= CSUM_NR {
        HeaderCheck::Reject(
            rejection(ReadOneSuperErrorType::InvalidSuperBlockCsumType(h.csum_type as u64), 0),
        )
    } else {
        HeaderCheck::Checksum
    }
}

impl ReadOneSuperError {
    /// The failure with the given reason. `io_ret` is what a failed read
    /// handed back, and is looked at for that reason only.
    pub fn new(error: ReadOneSuperErrorType, io_ret: i32) -> (e: ReadOneSuperError)
        ensures
            e == rejection(error, io_ret),
    {
        let return_code: i32 = match error {
            ReadOneSuperErrorType::InvalidSuperBlockVersionError { .. } => -(
            ERR_INVALID_SB_VERSION as i32),
            ReadOneSuperErrorType::IOError => io_ret,
            ReadOneSuperErrorType::NotABcachefsSuperBlockError => -(ERR_INVALID_SB_MAGIC as i32),
            ReadOneSuperErrorType::InvalidSuperBlockTooBigError { .. } => -(
            ERR_INVALID_SB_TOO_BIG as i32),
            ReadOneSuperErrorType::CannotReallocError => -(ENOMEM as i32),
            ReadOneSuperErrorType::InvalidSuperBlockCsumType(_) => -(
            ERR_INVALID_SB_CSUM_TYPE as i32),
            ReadOneSuperErrorType::InvalidSuperBlockCsum => -(ERR_INVALID_SB_CSUM as i32),
        };
        ReadOneSuperError { return_code, error }
    }
}

/// Checks a header that was read into a buffer of `capacity` bytes, which
/// has grown before or not.
pub fn check_header(h: &SbHeader, capacity: usize, resized: bool) -> (c: HeaderCheck)
    ensures
        c == check(*h, capacity as nat, resized),
{
    if h.magic != BCACHE_MAGIC && h.magic != BCHFS_MAGIC {
        return HeaderCheck::Reject(
            ReadOneSuperError::new(ReadOneSuperErrorType::NotABcachefsSuperBlockError, 0),
        );
    }
    let version: u32 = h.version as u32;
    let version_min: u32 = h.effective_version_min() as u32;
    if version >= METADATA_VERSION_MAX || version_min < METADATA_VERSION_MIN {
        return HeaderCheck::Reject(
            ReadOneSuperError::new(
                ReadOneSuperErrorType::InvalidSuperBlockVersionError {
                    version,
                    min_version: METADATA_VERSION_MIN,
                    max_version: METADATA_VERSION_MAX,
                },
                0,
            ),
        );
    }
    let bytes: u64 = h.bytes();
    if h.too_big() {
        return HeaderCheck::Reject(
            ReadOneSuperError::new(
                ReadOneSuperErrorType::InvalidSuperBlockTooBigError {
                    bytes,
                    max_size_bits: h.sb_max_size_bits,
                },
                0,
            ),
        );
    }
    if bytes > capacity as u64 {
        if resized {
            return HeaderCheck::Reject(
                ReadOneSuperError::new(ReadOneSuperErrorType::CannotReallocError, 0),
            );
        }
        return HeaderCheck::Grow;
    }
    if h.csum_type as u64 >= CSUM_NR {
        return HeaderCheck::Reject(
            ReadOneSuperError::new(
                ReadOneSuperErrorType::InvalidSuperBlockCsumType(h.csum_type as u64),
                0,
            ),
        );
    }
    HeaderCheck::Checksum
}

/// A header that is longer than its layout allows has a cap of less than
/// 27 bits: no header is longer than 512 times 2 to the 27th bytes.
pub proof fn too_big_bounds_bits(h: SbHeader)
    requires
        h.spec_too_big(),
    ensures
        h.sb_max_size_bits < 27,
{
    lemma2_to64();
    if h.sb_max_size_bits > 27 {
        lemma_pow2_strictly_increases(27, h.sb_max_size_bits as nat);
    }
    if h.sb_max_size_bits >= 27 {
        assert(SECTOR_BYTES as nat * pow2(h.sb_max_size_bits as nat) >= 512 * 0x800_0000)
            by (nonlinear_arith)
            requires
                pow2(h.sb_max_size_bits as nat) >= 0x800_0000,
                SECTOR_BYTES == 512,
        ;
    }
}

/// `n` bytes of zero.
pub open spec fn zeros(n: nat) -> Seq<u8> {
    Seq::new(n, |i: int| 0u8)
}

/// What a superblock handle holds: the raw header buffer, whose length is
/// the buffer's capacity, the block device behind it, and the sequence number
/// of the last header that was accepted.
pub struct SbView {
    pub buffer: Seq<u8>,
    pub bdev: u64,
    pub seq: u64,
}

/// A superblock handle. Its buffer always holds at least the fixed part of
/// a header.
#[derive(Debug)]
pub struct SbHandle {
    sb: Vec<u8>,
    bdev: u64,
    seq: u64,
}

impl View for SbHandle {
    type V = SbView;

    closed spec fn view(&self) -> SbView {
        SbView { buffer: self.sb@, bdev: self.bdev, seq: self.seq }
    }
}

/// Appends zero bytes to `v` until it is `len` long.
fn push_zeros(v: &mut Vec<u8>, len: usize)
    requires
        old(v)@.len() <= len,
    ensures
        final(v)@ == old(v)@ + zeros((len - old(v)@.len()) as nat),
{
    let ghost before = v@;
    while v.len() < len
        invariant
            before.len() <= v@.len() <= len,
            v@ == before + zeros((v@.len() - before.len()) as nat),
        decreases len - v@.len(),
    {
        v.push(0u8);
        assert(v@ =~= before + zeros((v@.len() - before.len()) as nat));
    }
}

/// Makes `v` hold the bytes of `data`.
fn copy_into(v: &mut Vec<u8>, data: &[u8])
    ensures
        final(v)@ == data@,
{
    v.clear();
    let n = data.len();
    let mut i: usize = 0;
    while i < n
        invariant
            n == data@.len(),
            i <= n,
            v@ == data@.take(i as int),
        decreases n - i,
    {
        v.push(data[i]);
        i = i + 1;
        assert(v@ =~= data@.take(i as int));
    }
    assert(data@.take(n as int) =~= data@);
}

impl SbHandle {
    #[verifier::type_invariant]
    spec fn holds_fixed_part(&self) -> bool {
        self.sb@.len() >= SB_FIXED_BYTES
    }

    /// A handle on the device `bdev` with an empty buffer of `capacity`
    /// bytes, or of as many as the fixed part of a header takes where
    /// `capacity` is less.
    pub fn new(bdev: u64, capacity: usize) -> (h: SbHandle)
        ensures
            h@.bdev == bdev,
            h@.seq == 0,
            h@.buffer == zeros(
                if capacity >= SB_FIXED_BYTES {
                    capacity as nat
                } else {
                    SB_FIXED_BYTES as nat
                },
            ),
    {
        let len: usize = if capacity >= SB_FIXED_BYTES {
            capacity
        } else {
            SB_FIXED_BYTES
        };
        let mut sb: Vec<u8> = Vec::new();
        push_zeros(&mut sb, len);
        assert(sb@ =~= zeros(len as nat));
        SbHandle { sb, bdev, seq: 0 }
    }

    /// The capacity of the buffer, in bytes.
    pub fn buffer_size(&self) -> (n: usize)
        ensures
            n == self@.buffer.len(),
            n >= SB_FIXED_BYTES,
    {
        proof {
            use_type_invariant(self);
        }
        self.sb.len()
    }

    /// The raw header buffer.
    pub fn sb(&self) -> (b: &Vec<u8>)
        ensures
            b@ == self@.buffer,
    {
        &self.sb
    }

    /// The block device behind the handle.
    pub fn bdev(&self) -> (d: u64)
        ensures
            d == self@.bdev,
    {
        self.bdev
    }

    /// The sequence number of the last header that was accepted, 0 where
    /// none was.
    pub fn seq(&self) -> (n: u64)
        ensures
            n == self@.seq,
    {
        self.seq
    }

    /// The identifier of the filesystem that the header in the buffer names,
    /// as a number whose most significant byte is the identifier's first.
    pub fn uuid(&self) -> (u: u128)
        ensures
            u == be128(self@.buffer, SB_UUID_OFFSET as int),
    {
        proof {
            use_type_invariant(self);
        }
        read_be128(self.sb.as_slice(), SB_UUID_OFFSET)
    }

    /// The nonce under which the key of the filesystem is encrypted: two
    /// words of zero, then the first two words of the filesystem's
    /// identifier, each read least significant byte first.
    pub fn nonce(&self) -> (n: [u32; 4])
        ensures
            n@ == seq![
                0u32,
                0u32,
                le32(self@.buffer, SB_UUID_OFFSET as int),
                le32(self@.buffer, SB_UUID_OFFSET as int + 4),
            ],
    {
        proof {
            use_type_invariant(self);
        }
        let a = read_le32(self.sb.as_slice(), SB_UUID_OFFSET);
        let b = read_le32(self.sb.as_slice(), SB_UUID_OFFSET + 4);
        let n: [u32; 4] = [0, 0, a, b];
        assert(n@ =~= seq![0u32, 0u32, a, b]);
        n
    }

    /// The fields of the header in the buffer.
    pub fn header(&self) -> (h: SbHeader)
        ensures
            h == header_of(self@.buffer),
    {
        proof {
            use_type_invariant(self);
        }
        decode_header(self.sb.as_slice())
    }
}

/// A read that is under way, as contracts see it: the handle, where on the
/// device the header is looked for, and whether the buffer has grown.
pub struct SuperReadView {
    pub sb: SbView,
    pub offset: u64,
    pub resized: bool,
}

/// A read that is under way. It asks for `len()` bytes from `offset()` on,
/// and goes on when told what came of that.
#[derive(Debug)]
pub struct SuperRead {
    sb: SbHandle,
    offset: u64,
    resized: bool,
}

impl View for SuperRead {
    type V = SuperReadView;

    closed spec fn view(&self) -> SuperReadView {
        SuperReadView { sb: self.sb@, offset: self.offset, resized: self.resized }
    }
}

/// A header that has passed every check but the last: it waits in the
/// handle's buffer for its checksum.
#[derive(Debug)]
pub struct SuperVerify {
    sb: SbHandle,
}

impl View for SuperVerify {
    type V = SbView;

    closed spec fn view(&self) -> SbView {
        self.sb@
    }
}

/// What comes after a read.
#[derive(Debug)]
pub enum ReadStep {
    /// The buffer has grown to hold the header: read again.
    Reread(SuperRead),
    /// The header is in the buffer and has passed every check but the last:
    /// compute its checksum.
    Verify(SuperVerify),
    /// The read is over and has failed.
    Failed(ReadOneSuperError),
}

/// Starts to read the superblock at `offset` into the buffer of `sb`.
pub fn read_one_super(sb: SbHandle, offset: u64) -> (r: SuperRead)
    ensures
        r@ == (SuperReadView { sb: sb@, offset, resized: false }),
{
    SuperRead { sb, offset, resized: false }
}

impl SuperRead {
    /// Where on the device to read from.
    pub fn offset(&self) -> (o: u64)
        ensures
            o == self@.offset,
    {
        self.offset
    }

    /// How many bytes to read: as many as the buffer holds.
    pub fn len(&self) -> (n: usize)
        ensures
            n == self@.sb.buffer.len(),
            n >= SB_FIXED_BYTES,
    {
        self.sb.buffer_size()
    }

    /// Goes on after the read: it handed back `ret`, which is 0 on success,
    /// and on success `data` is what it read.
    ///
    /// A failed read ends the protocol. Otherwise the header in `data` is
    /// checked, and the first check that fails ends the protocol. A header
    /// that is longer than the buffer makes the buffer grow to the header's
    /// length, once, and asks for another read; where the buffer cannot
    /// grow, the protocol ends. A header that fits is left in the buffer for
    /// its checksum to be computed.
    pub fn read_done(self, ret: i32, data: &[u8]) -> (step: ReadStep)
        requires
            ret == 0 ==> data@.len() == self@.sb.buffer.len(),
        ensures
            ret != 0 ==> (step matches ReadStep::Failed(e) && e == rejection(
                ReadOneSuperErrorType::IOError,
                ret,
            )),
            ret == 0 ==> match check(header_of(data@), data@.len(), self@.resized) {
                HeaderCheck::Reject(r) => step matches ReadStep::Failed(e) && e == r,
                HeaderCheck::Grow => {
                    ||| step matches ReadStep::Reread(next) && next@ == (SuperReadView {
                        sb: SbView {
                            buffer: data@ + zeros(
                                (header_of(data@).spec_bytes() - data@.len()) as nat,
                            ),
                            bdev: self@.sb.bdev,
                            seq: self@.sb.seq,
                        },
                        offset: self@.offset,
                        resized: true,
                    })
                    ||| step matches ReadStep::Failed(e) && e == rejection(
                        ReadOneSuperErrorType::CannotReallocError,
                        0,
                    )
                },
                HeaderCheck::Checksum => step matches ReadStep::Verify(v) && v@ == (SbView {
                    buffer: data@,
                    bdev: self@.sb.bdev,
                    seq: self@.sb.seq,
                }),
            },
    {
        if ret != 0 {
            return ReadStep::Failed(ReadOneSuperError::new(ReadOneSuperErrorType::IOError, ret));
        }
        proof {
            use_type_invariant(&self.sb);
        }
        let SuperRead { sb: handle, offset, resized } = self;
        let SbHandle { sb: mut buffer, bdev, seq } = handle;
        copy_into(&mut buffer, data);
        let h = decode_header(buffer.as_slice());
        match check_header(&h, buffer.len(), resized) {
            HeaderCheck::Reject(e) => ReadStep::Failed(e),
            HeaderCheck::Grow => {
                let bytes: u64 = h.bytes();
                if bytes > usize::MAX as u64 {
                    return ReadStep::Failed(
                        ReadOneSuperError::new(ReadOneSuperErrorType::CannotReallocError, 0),
                    );
                }
                let want: usize = bytes as usize;
                if buffer.try_reserve(want - buffer.len()).is_err() {
                    return ReadStep::Failed(
                        ReadOneSuperError::new(ReadOneSuperErrorType::CannotReallocError, 0),
                    );
                }
                push_zeros(&mut buffer, want);
                ReadStep::Reread(
                    SuperRead { sb: SbHandle { sb: buffer, bdev, seq }, offset, resized: true },
                )
            },
            HeaderCheck::Checksum => ReadStep::Verify(
                SuperVerify { sb: SbHandle { sb: buffer, bdev, seq } },
            ),
        }
    }
}

impl SuperVerify {
    #[verifier::type_invariant]
    spec fn header_fits(&self) -> bool {
        &&& self.sb.sb@.len() >= SB_FIXED_BYTES
        &&& header_of(self.sb.sb@).spec_bytes() <= self.sb.sb@.len()
        &&& header_of(self.sb.sb@).csum_type < CSUM_NR
    }

    /// The buffer, with the header in it.
    pub fn sb(&self) -> (b: &Vec<u8>)
        ensures
            b@ == self@.buffer,
            b@.len() >= SB_FIXED_BYTES,
    {
        proof {
            use_type_invariant(self);
        }
        self.sb.sb()
    }

    /// The algorithm to compute the checksum with, as the header names it.
    pub fn csum_type(&self) -> (t: u8)
        ensures
            t == header_of(self@.buffer).csum_type,
            t < CSUM_NR,
    {
        proof {
            use_type_invariant(self);
        }
        self.sb.header().csum_type
    }

    /// Where in the buffer the bytes that the checksum covers start: behind
    /// the stored checksum.
    pub fn csum_start(&self) -> (n: usize)
        ensures
            n == SB_CSUM_OFFSET + 16,
    {
        SB_CSUM_OFFSET + 16
    }

    /// Where in the buffer the bytes that the checksum covers end: with the
    /// header.
    pub fn csum_end(&self) -> (n: usize)
        ensures
            n == header_of(self@.buffer).spec_bytes(),
            SB_FIXED_BYTES <= n <= self@.buffer.len(),
    {
        proof {
            use_type_invariant(self);
            use_type_invariant(&self.sb);
        }
        let capacity = self.sb.buffer_size();
        let bytes = self.sb.header().bytes();
        assert(bytes <= capacity);
        bytes as usize
    }

    /// Ends the protocol: `computed` is the checksum of the header in the
    /// buffer. Where it is the stored one, the header is accepted and its
    /// sequence number recorded in the handle.
    pub fn checksum_done(self, computed: Csum) -> (r: Result<SbHandle, ReadOneSuperError>)
        ensures
            computed == header_of(self@.buffer).csum ==> (r matches Ok(h) && h@ == (SbView {
                buffer: self@.buffer,
                bdev: self@.bdev,
                seq: header_of(self@.buffer).seq,
            })),
            computed != header_of(self@.buffer).csum ==> (r matches Err(e) && e == rejection(
                ReadOneSuperErrorType::InvalidSuperBlockCsum,
                0,
            )),
    {
        proof {
            use_type_invariant(&self);
            use_type_invariant(&self.sb);
        }
        let h = self.sb.header();
        if computed.lo != h.csum.lo || computed.hi != h.csum.hi {
            return Err(ReadOneSuperError::new(ReadOneSuperErrorType::InvalidSuperBlockCsum, 0));
        }
        let SuperVerify { sb: handle } = self;
        let SbHandle { sb, bdev, seq: _ } = handle;
        Ok(SbHandle { sb, bdev, seq: h.seq })
    }
}

impl ReadOneSuperError {
    /// The failure in words.
    pub open spec fn message_text(&self) -> Seq<char> {
        match self.error {
            ReadOneSuperErrorType::InvalidSuperBlockVersionError {
                version,
                min_version,
                max_version,
            } => "Unsupported superblock version "@ + dec_text(version as nat) + " (min "@
                + dec_text(min_version as nat) + ", max "@ + dec_text(max_version as nat) + ")"@,
            ReadOneSuperErrorType::IOError => "IO error: "@ + int_text(self.return_code as int),
            ReadOneSuperErrorType::NotABcachefsSuperBlockError => "Not a bcachefs superblock"@,
            ReadOneSuperErrorType::InvalidSuperBlockTooBigError { bytes, max_size_bits } =>
                "Invalid superblock: too big (got "@ + dec_text(bytes as nat)
                    + " bytes, layout max "@ + dec_text(
                    SECTOR_BYTES as nat * pow2(max_size_bits as nat),
                ) + "))"@,
            ReadOneSuperErrorType::CannotReallocError => Seq::<char>::empty(),
            ReadOneSuperErrorType::InvalidSuperBlockCsumType(t) => "unknown checksum type "@
                + dec_text(t as nat),
            ReadOneSuperErrorType::InvalidSuperBlockCsum => "bad checksum"@,
        }
    }

    /// The cap that the failure names is one that a header can be held
    /// against: one of at most 54 bits, of which 512 times 2 to their power
    /// is a number of 64 bits.
    pub open spec fn cap_fits(&self) -> bool {
        self.error matches ReadOneSuperErrorType::InvalidSuperBlockTooBigError {
            max_size_bits,
            ..
        } ==> max_size_bits <= 54
    }

    /// The failure in words.
    pub fn message(&self) -> (s: String)
        requires
            self.cap_fits(),
        ensures
            s@ == self.message_text(),
    {
        let mut s = String::new();
        match self.error {
            ReadOneSuperErrorType::InvalidSuperBlockVersionError {
                version,
                min_version,
                max_version,
            } => {
                s.append("Unsupported superblock version ");
                push_decimal(&mut s, version as u64);
                s.append(" (min ");
                push_decimal(&mut s, min_version as u64);
                s.append(", max ");
                push_decimal(&mut s, max_version as u64);
                s.append(")");
            },
            ReadOneSuperErrorType::IOError => {
                s.append("IO error: ");
                push_signed(&mut s, self.return_code);
            },
            ReadOneSuperErrorType::NotABcachefsSuperBlockError => {
                s.append("Not a bcachefs superblock");
            },
            ReadOneSuperErrorType::InvalidSuperBlockTooBigError { bytes, max_size_bits } => {
                proof {
                    lemma2_to64();
                    lemma2_to64_rest();
                    if max_size_bits < 54 {
                        lemma_pow2_strictly_increases(max_size_bits as nat, 54);
                    }
                    assert(SECTOR_BYTES as nat * pow2(max_size_bits as nat) <= 512
                        * 0x40_0000_0000_0000) by (nonlinear_arith)
                        requires
                            pow2(max_size_bits as nat) <= 0x40_0000_0000_0000,
                            SECTOR_BYTES == 512,
                    ;
                    vstd::bits::lemma_u64_shl_is_mul(SECTOR_BYTES, max_size_bits as u64);
                }
                s.append("Invalid superblock: too big (got ");
                push_decimal(&mut s, bytes);
                s.append(" bytes, layout max ");
                push_decimal(&mut s, SECTOR_BYTES << (max_size_bits as u64));
                s.append("))");
            },
            ReadOneSuperErrorType::CannotReallocError => {},
            ReadOneSuperErrorType::InvalidSuperBlockCsumType(t) => {
                s.append("unknown checksum type ");
                push_decimal(&mut s, t);
            },
            ReadOneSuperErrorType::InvalidSuperBlockCsum => {
                s.append("bad checksum");
            },
        }
        assert(s@ =~= self.message_text());
        s
    }
}

/// What a finished read reports to a caller that takes an integer and a
/// text: 0 and no text for a header that was accepted, else the failure's
/// integer and the failure in words.
pub fn read_one_super_rust(result: &Result<SbHandle, ReadOneSuperError>) -> (r: (i32, String))
    requires
        result matches Err(e) ==> e.cap_fits(),
    ensures
        result is Ok ==> r.0 == 0 && r.1@ == Seq::<char>::empty(),
        result matches Err(e) ==> r.0 == e.return_code && r.1@ == e.message_text(),
{
    match result {
        Ok(_) => (0, String::new()),
        Err(e) => (e.return_code, e.message()),
    }
}

/// What a read of `len` bytes at `offset` of a device that holds `image`
/// hands back: the bytes, or nothing where the device ends before them.
pub open spec fn image_read(image: Seq<u8>, offset: u64, len: nat) -> Option<Seq<u8>> {
    if offset + len <= image.len() {
        Some(image.subrange(offset as int, offset + len))
    } else {
        None
    }
}

/// The end of the protocol for the handle `sb` with `data` in its buffer,
/// a header that has passed every check but the last, where `computed` is
/// the header's checksum.
pub open spec fn verified(sb: SbView, data: Seq<u8>, computed: Csum) -> Result<
    SbView,
    ReadOneSuperError,
> {
    if computed == header_of(data).csum {
        Ok(SbView { buffer: data, bdev: sb.bdev, seq: header_of(data).seq })
    } else {
        Err(rejection(ReadOneSuperErrorType::InvalidSuperBlockCsum, 0))
    }
}

/// What the whole protocol comes to for the handle `sb` and a device that
/// holds `image`, where the superblock is looked for at `offset`, `computed`
/// is the checksum of the header there, and the buffer can grow: the header
/// is read, and read once more where it is longer than the buffer.
pub open spec fn image_result(sb: SbView, image: Seq<u8>, offset: u64, computed: Csum) -> Result<
    SbView,
    ReadOneSuperError,
> {
    match image_read(image, offset, sb.buffer.len()) {
        None => Err(rejection(ReadOneSuperErrorType::IOError, negated(EIO))),
        Some(data) => match check(header_of(data), data.len(), false) {
            HeaderCheck::Reject(e) => Err(e),
            HeaderCheck::Checksum => verified(sb, data, computed),
            HeaderCheck::Grow => match image_read(
                image,
                offset,
                header_of(data).spec_bytes() as nat,
            ) {
                None => Err(rejection(ReadOneSuperErrorType::IOError, negated(EIO))),
                Some(again) => match check(header_of(again), again.len(), true) {
                    HeaderCheck::Reject(e) => Err(e),
                    HeaderCheck::Checksum => verified(sb, again, computed),
                    HeaderCheck::Grow => Err(
                        rejection(ReadOneSuperErrorType::CannotReallocError, 0),
                    ),
                },
            },
        },
    }
}

/// Reads `len` bytes at `offset` of a device that holds `image` for the
/// read `pending`, and goes on with the protocol.
fn image_step(pending: SuperRead, image: &[u8]) -> (step: ReadStep)
    ensures
        match image_read(image@, pending@.offset, pending@.sb.buffer.len()) {
            None => step matches ReadStep::Failed(e) && e == rejection(
                ReadOneSuperErrorType::IOError,
                negated(EIO),
            ),
            Some(data) => match check(header_of(data), data.len(), pending@.resized) {
                HeaderCheck::Reject(r) => step matches ReadStep::Failed(e) && e == r,
                HeaderCheck::Grow => {
                    ||| step matches ReadStep::Reread(next) && next@ == (SuperReadView {
                        sb: SbView {
                            buffer: data + zeros(
                                (header_of(data).spec_bytes() - data.len()) as nat,
                            ),
                            bdev: pending@.sb.bdev,
                            seq: pending@.sb.seq,
                        },
                        offset: pending@.offset,
                        resized: true,
                    })
                    ||| step matches ReadStep::Failed(e) && e == rejection(
                        ReadOneSuperErrorType::CannotReallocError,
                        0,
                    )
                },
                HeaderCheck::Checksum => step matches ReadStep::Verify(v) && v@ == (SbView {
                    buffer: data,
                    bdev: pending@.sb.bdev,
                    seq: pending@.sb.seq,
                }),
            },
        },
{
    proof {
        slice_len_fits(image);
    }
    let len = pending.len();
    let offset = pending.offset();
    let size = image.len();
    if offset > size as u64 || size - (offset as usize) < len {
        let nothing: Vec<u8> = Vec::new();
        return pending.read_done(-(EIO as i32), nothing.as_slice());
    }
    let from: usize = offset as usize;
    let data = vstd::slice::slice_subrange(image, from, from + len);
    pending.read_done(0, data)
}

/// Reads the superblock at `offset` of a device that holds `image` into the
/// buffer of `sb`; `computed` is the checksum of the header there. A read
/// that reaches past the end of the device fails as one of the device would.
/// The header is read once, and once more where it is longer than the
/// buffer; where the buffer cannot grow, the read ends with that.
pub fn read_one_super_image(sb: SbHandle, image: &[u8], offset: u64, computed: Csum) -> (r: Result<
    SbHandle,
    ReadOneSuperError,
>)
    ensures
        ({
            let want = image_result(sb@, image@, offset, computed);
            ||| {
                &&& want matches Ok(v)
                &&& r matches Ok(h)
                &&& h@ == v
            }
            ||| {
                &&& want matches Err(e)
                &&& r matches Err(f)
                &&& f == e
            }
            ||| {
                &&& image_read(image@, offset, sb@.buffer.len()) matches Some(data)
                &&& check(header_of(data), data.len(), false) == HeaderCheck::Grow
                &&& r matches Err(f)
                &&& f == rejection(ReadOneSuperErrorType::CannotReallocError, 0)
            }
        }),
{
    let ghost first = image_read(image@, offset, sb@.buffer.len());
    let pending = read_one_super(sb, offset);
    match image_step(pending, image) {
        ReadStep::Failed(e) => Err(e),
        ReadStep::Verify(v) => v.checksum_done(computed),
        ReadStep::Reread(next) => {
            let ghost bytes = header_of(first->0).spec_bytes();
            assert(next@.sb.buffer.len() == bytes);
            match image_step(next, image) {
                ReadStep::Failed(e) => Err(e),
                ReadStep::Verify(v) => v.checksum_done(computed),
                ReadStep::Reread(_) => vstd::pervasive::unreached(),
            }
        },
    }
}

/// Where the superblock of a device stands, in bytes from the start of the
/// device.
pub const SB_OFFSET: u64 = 4096;

/// The capacity that the buffer of a handle starts with.
pub const SB_BUFFER_BYTES: usize = 4096;

/// Reads the superblock of the device `bdev`, which holds `image`, from the
/// place where superblocks stand; `computed` is the checksum of the header
/// there.
pub fn read_super(bdev: u64, image: &[u8], computed: Csum) -> (r: Result<SbHandle, ReadOneSuperError>)
    ensures
        ({
            let sb = SbView { buffer: zeros(SB_BUFFER_BYTES as nat), bdev, seq: 0 };
            let want = image_result(sb, image@, SB_OFFSET, computed);
            ||| {
                &&& want matches Ok(v)
                &&& r matches Ok(h)
                &&& h@ == v
            }
            ||| {
                &&& want matches Err(e)
                &&& r matches Err(f)
                &&& f == e
            }
            ||| {
                &&& image_read(image@, SB_OFFSET, SB_BUFFER_BYTES as nat) matches Some(data)
                &&& check(header_of(data), data.len(), false) == HeaderCheck::Grow
                &&& r matches Err(f)
                &&& f == rejection(ReadOneSuperErrorType::CannotReallocError, 0)
            }
        }),
{
    read_one_super_image(SbHandle::new(bdev, SB_BUFFER_BYTES), image, SB_OFFSET, computed)
}

/// The fields of a header are those of its fixed part: what follows in the
/// buffer does not change them.
pub proof fn header_of_fixed_part(a: Seq<u8>, b: Seq<u8>)
    requires
        a.len() >= SB_FIXED_BYTES,
        b.len() >= SB_FIXED_BYTES,
        a.take(SB_FIXED_BYTES as int) == b.take(SB_FIXED_BYTES as int),
    ensures
        header_of(a) == header_of(b),
{
    assert forall|i: int| 0 <= i < SB_FIXED_BYTES implies a[i] == b[i] by {
        assert(a[i] == a.take(SB_FIXED_BYTES as int)[i]);
        assert(b[i] == b.take(SB_FIXED_BYTES as int)[i]);
    }
}

/// A header with a known magic, a supported version range, a length within
/// its layout's cap and within the buffer, and an existing checksum
/// algorithm passes every check but the last: only its checksum can still
/// fail it.
pub proof fn checksum_is_checked_last(h: SbHeader, capacity: nat, resized: bool)
    requires
        h.magic_known(),
        h.version_supported(),
        !h.spec_too_big(),
        h.spec_bytes() <= capacity,
        h.csum_type < CSUM_NR,
    ensures
        check(h, capacity, resized) == HeaderCheck::Checksum,
{
}

/// Where a header is longer than the buffer but within its layout's cap,
/// the buffer grows once, to the header's length, and the same header read
/// again is not asked to grow again: it goes on to its checksum, or fails
/// for its checksum algorithm.
pub proof fn one_resize_suffices(h: SbHeader, capacity: nat)
    requires
        h.magic_known(),
        h.version_supported(),
        !h.spec_too_big(),
        h.spec_bytes() > capacity,
    ensures
        check(h, capacity, false) == HeaderCheck::Grow,
        h.csum_type < CSUM_NR ==> check(h, h.spec_bytes() as nat, true) == HeaderCheck::Checksum,
        h.csum_type >= CSUM_NR ==> check(h, h.spec_bytes() as nat, true) == HeaderCheck::Reject(
            rejection(ReadOneSuperErrorType::InvalidSuperBlockCsumType(h.csum_type as u64), 0),
        ),
{
}

/// Where the header on a device is longer than the buffer but within its
/// layout's cap, and is valid otherwise, the whole read accepts it: the
/// header is read a second time, whole, and that read is the last.
pub proof fn grown_read_succeeds(sb: SbView, image: Seq<u8>, offset: u64, computed: Csum)
    requires
        sb.buffer.len() >= SB_FIXED_BYTES,
        image_read(image, offset, sb.buffer.len()) is Some,
        ({
            let h = header_of(image_read(image, offset, sb.buffer.len())->0);
            &&& h.magic_known()
            &&& h.version_supported()
            &&& !h.spec_too_big()
            &&& h.csum_type < CSUM_NR
            &&& h.spec_bytes() > sb.buffer.len()
            &&& offset + h.spec_bytes() <= image.len()
            &&& computed == h.csum
        }),
    ensures
        ({
            let h = header_of(image_read(image, offset, sb.buffer.len())->0);
            image_result(sb, image, offset, computed) == Ok::<SbView, ReadOneSuperError>(
                SbView {
                    buffer: image.subrange(offset as int, offset + h.spec_bytes()),
                    bdev: sb.bdev,
                    seq: h.seq,
                },
            )
        }),
{
    let data = image_read(image, offset, sb.buffer.len())->0;
    let h = header_of(data);
    let again = image.subrange(offset as int, offset + h.spec_bytes());
    assert(image_read(image, offset, h.spec_bytes() as nat) == Some(again));
    assert(data.take(SB_FIXED_BYTES as int) =~= again.take(SB_FIXED_BYTES as int));
    header_of_fixed_part(data, again);
    one_resize_suffices(h, data.len());
}

/// A header that is longer than its layout allows is rejected as too big
/// whatever the buffer holds: it never makes the buffer grow.
pub proof fn too_big_never_grows(h: SbHeader, capacity: nat, resized: bool)
    requires
        h.magic_known(),
        h.version_supported(),
        h.spec_too_big(),
    ensures
        check(h, capacity, resized) == HeaderCheck::Reject(
            rejection(
                ReadOneSuperErrorType::InvalidSuperBlockTooBigError {
                    bytes: h.spec_bytes(),
                    max_size_bits: h.sb_max_size_bits,
                },
                0,
            ),
        ),
        check(h, capacity, resized) != HeaderCheck::Grow,
{
}

} // verus!
