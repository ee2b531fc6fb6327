//! [SeekInfo] and the format of its on-disk cache files.
//!
//! A cache file starts with a 64-byte [CacheFileHeader]:
//!
//! ```txt
//! xor_checksum: u64                   <- XOR of the other header words
//! video_file_path_len: usize          <- the length of the video file's path
//! video_file_path_hash: [u8; 16]      <- the path's hash (for redundancy)
//! frame_count: usize                  <- number of frames (never 0)
//! keyframe_count: usize               <- number of keyframes (never 0)
//! last_hit: u128                      <- when the cache was last hit (ns since UNIX epoch)
//! ```
//!
//! followed by the video file's path, zero padding up to a multiple of 256
//! bytes, and one `(keyframe_idx: usize, timestamp: i64)` pair per keyframe.
//! Every number is stored little-endian.

use std::io;

use vstd::prelude::*;
use vstd::bytes::*;
use vstd::slice::slice_subrange;
use vstd::std_specs::convert::FromSpecImpl;

use std::time::Duration;

use crate::time::{
    duration_as_nanos, duration_nanos, system_time_duration_since, system_time_now, unix_epoch,
};

verus! {

/// The FNV-1a offset basis for 64-bit hashes.
pub const FNV_OFFSET: u64 = 0xcbf29ce484222325;

/// The FNV-1a prime for 64-bit hashes.
pub const FNV_PRIME: u64 = 0x100000001b3;

/// One FNV-1a step: mix in a byte, then multiply (modulo 2^64).
pub open spec fn fnv1a_step(hash: u64, byte: u8) -> u64 {
    (((hash ^ (byte as u64)) as nat * FNV_PRIME as nat) % 0x1_0000_0000_0000_0000nat) as u64
}

/// The 64-bit FNV-1a hash of some bytes.
pub open spec fn fnv1a(bytes: Seq<u8>) -> u64
    decreases bytes.len(),
{
    if bytes.len() == 0 {
        FNV_OFFSET
    } else {
        fnv1a_step(fnv1a(bytes.drop_last()), bytes.last())
    }
}

/// The lowercase ASCII hexadecimal digit for `d` (`0 <= d < 16`).
pub open spec fn hex_digit_char(d: nat) -> u8 {
    if d < 10 {
        (48 + d) as u8
    } else {
        (87 + d) as u8
    }
}

/// `n` divided by 16, `k` times.
pub open spec fn shifted_down(n: nat, k: nat) -> nat
    decreases k,
{
    if k == 0 {
        n
    } else {
        shifted_down(n, (k - 1) as nat) / 16
    }
}

/// The 16 lowercase hexadecimal digits of `n`, most significant first.
pub open spec fn hex_string(n: u64) -> Seq<u8> {
    Seq::new(16, |i: int| hex_digit_char(shifted_down(n as nat, (15 - i) as nat) % 16))
}

/// Writes `n` as 16 lowercase hexadecimal ASCII digits (most significant
/// first, zero-padded).
pub fn u64_hex(n: u64) -> (r: [u8; 16])
    ensures
        r@ == hex_string(n),
{
    let mut ret = [48u8; 16];
    let mut cur: u64 = n;
    let mut j: usize = 0;
    while j < 16
        invariant
            j <= 16,
            ret@.len() == 16,
            cur == shifted_down(n as nat, j as nat),
            forall|i: int| 16 - j <= i < 16 ==> ret@[i] == #[trigger] hex_string(n)[i],
        decreases 16 - j,
    {
        let i: usize = 15 - j;
        let d: u64 = cur & 0xF;
        assert(cur & 0xF == cur % 16) by (bit_vector);
        let c: u8 = if d < 10 {
            48u8 + (d as u8)
        } else {
            87u8 + (d as u8)
        };
        ret[i] = c;
        assert(cur >> 4 == cur / 16) by (bit_vector);
        cur = cur >> 4;
        j = j + 1;
    }
    assert(ret@ =~= hex_string(n));
    ret
}

/// Hashes some bytes into 16 lowercase hexadecimal ASCII characters with
/// 64-bit FNV-1a, which (unlike `std`'s hasher) is stable across Rust versions.
pub fn hashed_bytes(bytes: &[u8]) -> (r: [u8; 16])
    ensures
        r@ == hex_string(fnv1a(bytes@)),
{
    let mut hash: u64 = FNV_OFFSET;
    let mut i: usize = 0;
    while i < bytes.len()
        invariant
            i <= bytes@.len(),
            hash == fnv1a(bytes@.subrange(0, i as int)),
        decreases bytes@.len() - i,
    {
        let b: u8 = bytes[i];
        assert(bytes@.subrange(0, i + 1).drop_last() =~= bytes@.subrange(0, i as int));
        hash = (hash ^ (b as u64)).wrapping_mul(FNV_PRIME);
        i = i + 1;
    }
    assert(bytes@.subrange(0, bytes@.len() as int) =~= bytes@);
    u64_hex(hash)
}


/// Info needed to seek around in an FFmpeg video.
#[derive(Debug, Clone)]
pub struct SeekInfo {
    /// The number of frames in a video (never 0).
    pub frame_count: usize,
    /// The frame index and timestamp of every keyframe in a video. This array
    /// is always at least 1 in length with the 1st element's frame index always
    /// being 0.
    pub keyframe_timestamps: Vec<(usize, i64)>,
}

impl SeekInfo {
    /// What the documentation promises of every [SeekInfo].
    pub open spec fn is_valid(&self) -> bool {
        &&& self.frame_count > 0
        &&& self.keyframe_timestamps@.len() >= 1
        &&& self.keyframe_timestamps@[0].0 == 0
    }
}

#[verifier::external_type_specification]
#[verifier::external_body]
pub struct ExIoError(io::Error);

/// Indicates that inserting [SeekInfo] into the cache failed.
#[derive(Debug)]
pub enum InsertCacheError<E> {
    /// Failed to fetch the cache.
    Fetch(io::Error),
    /// Creating the [SeekInfo] failed.
    Create(E),
    /// Failed to insert into the cache (the created [SeekInfo] is kept).
    Insert(io::Error, SeekInfo),
}

impl From<InsertCacheError<io::Error>> for io::Error {
    fn from(err: InsertCacheError<io::Error>) -> (r: Self) {
        match err {
            InsertCacheError::Fetch(io_err) => io_err,
            InsertCacheError::Create(io_err) => io_err,
            InsertCacheError::Insert(io_err, _seek_info) => io_err,
        }
    }
}

impl FromSpecImpl<InsertCacheError<io::Error>> for io::Error {
    open spec fn obeys_from_spec() -> bool {
        true
    }

    open spec fn from_spec(err: InsertCacheError<io::Error>) -> io::Error {
        match err {
            InsertCacheError::Fetch(io_err) => io_err,
            InsertCacheError::Create(io_err) => io_err,
            InsertCacheError::Insert(io_err, _seek_info) => io_err,
        }
    }
}

/// What a cache file holds for a video.
#[derive(Debug, Clone, Copy, PartialEq, Eq)]
pub enum Lookup {
    /// An up-to-date entry for the video.
    Hit,
    /// An entry for another video.
    MissNotFound,
    /// An entry for the video that is out of date.
    MissOutdated,
}

/// Judges a cache file from its header, the path bytes stored after it (the
/// header's `video_file_path_len` bytes) and whether the video file changed
/// after the cache file was written.
pub fn cache_file_lookup(
    header: &CacheFileHeader,
    stored_path: &[u8],
    video_file_path: &[u8],
    is_outdated: bool,
) -> (r: Lookup)
    ensures
        r == (if header.video_file_path_len != video_file_path@.len() || stored_path@
            != video_file_path@ {
            Lookup::MissNotFound
        } else if is_outdated {
            Lookup::MissOutdated
        } else {
            Lookup::Hit
        }),
{
    if header.video_file_path_len != video_file_path.len() as u64 {
        return Lookup::MissNotFound;
    }
    if !bytes_eq(stored_path, video_file_path) {
        return Lookup::MissNotFound;
    }
    if is_outdated {
        Lookup::MissOutdated
    } else {
        Lookup::Hit
    }
}

/// Whether two byte strings are equal.
pub fn bytes_eq(a: &[u8], b: &[u8]) -> (r: bool)
    ensures
        r == (a@ == b@),
{
    if a.len() != b.len() {
        return false;
    }
    let mut k: usize = 0;
    while k < a.len()
        invariant
            a@.len() == b@.len(),
            k <= a@.len(),
            forall|i: int| 0 <= i < k ==> a@[i] == b@[i],
        decreases a@.len() - k,
    {
        if a[k] != b[k] {
            return false;
        }
        k = k + 1;
    }
    assert(a@ =~= b@);
    true
}

/// Why some bytes are not a valid [CacheFileHeader].
#[derive(Debug, Clone, Copy, PartialEq, Eq)]
pub enum HeaderError {
    /// The stored checksum does not match the other header words.
    InvalidChecksum,
    /// The stored frame count is 0.
    ZeroFrameCount,
    /// The stored keyframe count is 0.
    ZeroKeyframeCount,
    /// There are more keyframes than frames.
    KeyframeCountExceedsFrameCount,
}

impl HeaderError {
    /// A description of the error.
    pub fn message(&self) -> (r: &'static str)
        ensures
            r@ == header_error_message(*self),
    {
        match self {
            HeaderError::InvalidChecksum => "Invalid XOR checksum",
            HeaderError::ZeroFrameCount => "Frame count cannot be 0",
            HeaderError::ZeroKeyframeCount => "Keyframe count cannot be 0",
            HeaderError::KeyframeCountExceedsFrameCount => "Keyframe count cannot exceed frame count",
        }
    }
}

/// The description of each [HeaderError].
pub open spec fn header_error_message(e: HeaderError) -> Seq<char> {
    match e {
        HeaderError::InvalidChecksum => "Invalid XOR checksum"@,
        HeaderError::ZeroFrameCount => "Frame count cannot be 0"@,
        HeaderError::ZeroKeyframeCount => "Keyframe count cannot be 0"@,
        HeaderError::KeyframeCountExceedsFrameCount => "Keyframe count cannot exceed frame count"@,
    }
}

/// The little-endian `u64` stored in the 8 bytes of word `i` of `b`.
pub open spec fn word_at(b: Seq<u8>, i: int) -> u64 {
    spec_u64_from_le_bytes(b.subrange(8 * i, 8 * i + 8))
}

/// The checksum of 64 header bytes: the XOR of the 7 words after the first.
pub open spec fn checksum_of(b: Seq<u8>) -> u64 {
    word_at(b, 1) ^ word_at(b, 2) ^ word_at(b, 3) ^ word_at(b, 4) ^ word_at(b, 5) ^ word_at(b, 6)
        ^ word_at(b, 7)
}

/// Changing any one byte of a header outside its checksum word changes the
/// checksum of the header: every byte after the first word is covered, so a
/// header damaged in one byte is always detected.
pub proof fn lemma_checksum_detects_any_byte_change(b: Seq<u8>, i: int, v: u8)
    requires
        b.len() == 64,
        8 <= i < 64,
        v != b[i],
    ensures
        checksum_of(b.update(i, v)) != checksum_of(b),
{
    let c = b.update(i, v);
    let k = i / 8;
    assert(1 <= k < 8);
    lemma_auto_spec_u64_to_from_le_bytes();
    assert forall|j: int| 1 <= j < 8 && j != k implies #[trigger] word_at(c, j) == word_at(b, j) by {
        assert(c.subrange(8 * j, 8 * j + 8) =~= b.subrange(8 * j, 8 * j + 8));
    }
    assert(word_at(c, k) != word_at(b, k)) by {
        let sb = b.subrange(8 * k, 8 * k + 8);
        let sc = c.subrange(8 * k, 8 * k + 8);
        assert(sc[i - 8 * k] != sb[i - 8 * k]);
        assert(spec_u64_to_le_bytes(spec_u64_from_le_bytes(sb)) == sb);
        assert(spec_u64_to_le_bytes(spec_u64_from_le_bytes(sc)) == sc);
    }
    let (a1, a2, a3, a4, a5, a6, a7) = (
        word_at(b, 1),
        word_at(b, 2),
        word_at(b, 3),
        word_at(b, 4),
        word_at(b, 5),
        word_at(b, 6),
        word_at(b, 7),
    );
    let (c1, c2, c3, c4, c5, c6, c7) = (
        word_at(c, 1),
        word_at(c, 2),
        word_at(c, 3),
        word_at(c, 4),
        word_at(c, 5),
        word_at(c, 6),
        word_at(c, 7),
    );
    assert(word_at(c, 1) == a1 || k == 1);
    assert(word_at(c, 2) == a2 || k == 2);
    assert(word_at(c, 3) == a3 || k == 3);
    assert(word_at(c, 4) == a4 || k == 4);
    assert(word_at(c, 5) == a5 || k == 5);
    assert(word_at(c, 6) == a6 || k == 6);
    assert(word_at(c, 7) == a7 || k == 7);
    assert((a1 ^ a2 ^ a3 ^ a4 ^ a5 ^ a6 ^ a7) != (c1 ^ c2 ^ c3 ^ c4 ^ c5 ^ c6 ^ c7)) by (bit_vector)
        requires
            (a1 != c1 && a2 == c2 && a3 == c3 && a4 == c4 && a5 == c5 && a6 == c6 && a7 == c7)
                || (a1 == c1 && a2 != c2 && a3 == c3 && a4 == c4 && a5 == c5 && a6 == c6 && a7
                == c7) || (a1 == c1 && a2 == c2 && a3 != c3 && a4 == c4 && a5 == c5 && a6 == c6
                && a7 == c7) || (a1 == c1 && a2 == c2 && a3 == c3 && a4 != c4 && a5 == c5 && a6
                == c6 && a7 == c7) || (a1 == c1 && a2 == c2 && a3 == c3 && a4 == c4 && a5 != c5
                && a6 == c6 && a7 == c7) || (a1 == c1 && a2 == c2 && a3 == c3 && a4 == c4 && a5
                == c5 && a6 != c6 && a7 == c7) || (a1 == c1 && a2 == c2 && a3 == c3 && a4 == c4
                && a5 == c5 && a6 == c6 && a7 != c7),
    ;
}

/// The first problem found in 64 header bytes, if any.
pub open spec fn header_error(b: Seq<u8>) -> Option<HeaderError> {
    if word_at(b, 0) != checksum_of(b) {
        Some(HeaderError::InvalidChecksum)
    } else if word_at(b, 4) == 0 {
        Some(HeaderError::ZeroFrameCount)
    } else if word_at(b, 5) == 0 {
        Some(HeaderError::ZeroKeyframeCount)
    } else if word_at(b, 5) > word_at(b, 4) {
        Some(HeaderError::KeyframeCountExceedsFrameCount)
    } else {
        None
    }
}

/// The header at the start of every seek-info cache file.
#[derive(Debug, Clone, Copy, PartialEq, Eq)]
pub struct CacheFileHeader {
    /// XOR of the other header fields (words).
    pub xor_checksum: u64,
    /// The length of the video file's path.
    pub video_file_path_len: u64,
    /// The path's hash (for redundancy).
    pub video_file_path_hash: [u8; 16],
    /// The number of frames.
    pub frame_count: u64,
    /// The number of keyframes.
    pub keyframe_count: u64,
    /// When the cache was last hit (nanoseconds since the UNIX epoch).
    pub last_hit: u128,
}

impl CacheFileHeader {
    /// The 64 bytes of this header, fields in order, each little-endian.
    pub open spec fn layout(&self) -> Seq<u8> {
        spec_u64_to_le_bytes(self.xor_checksum) + spec_u64_to_le_bytes(self.video_file_path_len) + self.video_file_path_hash@ + spec_u64_to_le_bytes(self.frame_count)
            + spec_u64_to_le_bytes(self.keyframe_count) + spec_u128_to_le_bytes(
            self.last_hit,
        )
    }

    /// Convert this [CacheFileHeader] to bytes.
    pub fn as_bytes(&self) -> (r: [u8; 64])
        ensures
            r@ == self.layout(),
    {
        proof {
            lemma_auto_spec_u64_to_from_le_bytes();
            lemma_auto_spec_u128_to_from_le_bytes();
        }
        let mut out = [0u8; 64];
        let w0 = u64_to_le_bytes(self.xor_checksum);
        let w1 = u64_to_le_bytes(self.video_file_path_len);
        let w4 = u64_to_le_bytes(self.frame_count);
        let w5 = u64_to_le_bytes(self.keyframe_count);
        let w6 = u128_to_le_bytes(self.last_hit);
        write_at(&mut out, 0, w0.as_slice());
        write_at(&mut out, 8, w1.as_slice());
        write_at(&mut out, 16, self.video_file_path_hash.as_slice());
        write_at(&mut out, 32, w4.as_slice());
        write_at(&mut out, 40, w5.as_slice());
        write_at(&mut out, 48, w6.as_slice());
        assert(out@ =~= self.layout());
        out
    }
}

impl CacheFileHeader {
    /// A new [Self::xor_checksum] value given the header's other values.
    pub fn new_xor_checksum(&self) -> (r: u64)
        ensures
            r == checksum_of(self.layout()),
    {
        let bytes = self.as_bytes();
        Self::new_xor_checksum_from_bytes(bytes.as_slice())
    }

    /// A new [Self::xor_checksum] value given the header's other values, from
    /// the header's 64 bytes.
    pub fn new_xor_checksum_from_bytes(bytes: &[u8]) -> (r: u64)
        requires
            bytes@.len() == 64,
        ensures
            r == checksum_of(bytes@),
    {
        let w1 = u64_from_le_bytes(slice_subrange(bytes, 8, 16));
        let w2 = u64_from_le_bytes(slice_subrange(bytes, 16, 24));
        let w3 = u64_from_le_bytes(slice_subrange(bytes, 24, 32));
        let w4 = u64_from_le_bytes(slice_subrange(bytes, 32, 40));
        let w5 = u64_from_le_bytes(slice_subrange(bytes, 40, 48));
        let w6 = u64_from_le_bytes(slice_subrange(bytes, 48, 56));
        let w7 = u64_from_le_bytes(slice_subrange(bytes, 56, 64));
        w1 ^ w2 ^ w3 ^ w4 ^ w5 ^ w6 ^ w7
    }

    /// Validate that some bytes represent a valid [CacheFileHeader], and read
    /// it.
    pub fn from_bytes(bytes: &[u8; 64]) -> (r: Result<Self, HeaderError>)
        ensures
            header_error(bytes@) is None <==> r is Ok,
            r matches Err(e) ==> header_error(bytes@) == Some(e),
            r matches Ok(h) ==> {
                &&& h.layout() == bytes@
                &&& h.xor_checksum == word_at(bytes@, 0)
                &&& h.video_file_path_len == word_at(bytes@, 1)
                &&& h.video_file_path_hash@ == bytes@.subrange(16, 32)
                &&& h.frame_count == word_at(bytes@, 4)
                &&& h.keyframe_count == word_at(bytes@, 5)
                &&& h.last_hit == spec_u128_from_le_bytes(bytes@.subrange(48, 64))
            },
    {
        let b = bytes.as_slice();
        let xor_checksum = u64_from_le_bytes(slice_subrange(b, 0, 8));
        let video_file_path_len = u64_from_le_bytes(slice_subrange(b, 8, 16));
        let video_file_path_hash = copy_16(slice_subrange(b, 16, 32));
        let frame_count = u64_from_le_bytes(slice_subrange(b, 32, 40));
        let keyframe_count = u64_from_le_bytes(slice_subrange(b, 40, 48));
        let last_hit = u128_from_le_bytes(slice_subrange(b, 48, 64));

        if xor_checksum != Self::new_xor_checksum_from_bytes(b) {
            return Err(HeaderError::InvalidChecksum);
        }
        if frame_count == 0 {
            return Err(HeaderError::ZeroFrameCount);
        }
        if keyframe_count == 0 {
            return Err(HeaderError::ZeroKeyframeCount);
        }
        if keyframe_count > frame_count {
            return Err(HeaderError::KeyframeCountExceedsFrameCount);
        }
        let h = CacheFileHeader {
            xor_checksum,
            video_file_path_len,
            video_file_path_hash,
            frame_count,
            keyframe_count,
            last_hit,
        };
        proof {
            lemma_layout_of_words(h, bytes@);
        }
        Ok(h)
    }
}

impl CacheFileHeader {
    /// Create a [CacheFileHeader] from [SeekInfo] and the bytes of the video
    /// file's path, stamped with the current time.
    pub fn from_seek_info(seek_info: &SeekInfo, video_file_path: &[u8]) -> (r: Self)
        requires
            seek_info.frame_count > 0,
            seek_info.keyframe_timestamps@.len() >= 1,
        ensures
            r.video_file_path_len == video_file_path@.len(),
            r.video_file_path_hash@ == hex_string(fnv1a(video_file_path@)),
            r.frame_count == seek_info.frame_count,
            r.keyframe_count == seek_info.keyframe_timestamps@.len(),
            r.xor_checksum == checksum_of(r.layout()),
    {
        let now = nanos_since_unix_epoch();
        Self::from_seek_info_impl(seek_info, video_file_path, now)
    }

    /// Create a [CacheFileHeader] from [SeekInfo] and the bytes of the video
    /// file's path, last hit at `last_hit` (nanoseconds since the UNIX epoch).
    pub fn from_seek_info_impl(seek_info: &SeekInfo, video_file_path: &[u8], last_hit: u128) -> (r:
        Self)
        requires
            seek_info.frame_count > 0,
            seek_info.keyframe_timestamps@.len() >= 1,
        ensures
            r.video_file_path_len == video_file_path@.len(),
            r.video_file_path_hash@ == hex_string(fnv1a(video_file_path@)),
            r.frame_count == seek_info.frame_count,
            r.keyframe_count == seek_info.keyframe_timestamps@.len(),
            r.last_hit == last_hit,
            r.xor_checksum == checksum_of(r.layout()),
    {
        let ret = CacheFileHeader {
            xor_checksum: 0,
            video_file_path_len: video_file_path.len() as u64,
            video_file_path_hash: hashed_bytes(video_file_path),
            frame_count: seek_info.frame_count as u64,
            keyframe_count: seek_info.keyframe_timestamps.len() as u64,
            last_hit,
        };
        ret.with_checksum()
    }

    /// The same header with its last hit set to `last_hit` and its checksum
    /// brought up to date (what a cache hit records).
    pub fn with_last_hit(&self, last_hit: u128) -> (r: Self)
        ensures
            r.video_file_path_len == self.video_file_path_len,
            r.video_file_path_hash == self.video_file_path_hash,
            r.frame_count == self.frame_count,
            r.keyframe_count == self.keyframe_count,
            r.last_hit == last_hit,
            r.xor_checksum == checksum_of(r.layout()),
    {
        let ret = CacheFileHeader { last_hit, ..*self };
        ret.with_checksum()
    }

    /// The same header with [Self::xor_checksum] set to match the other
    /// fields.
    fn with_checksum(&self) -> (r: Self)
        ensures
            r == (CacheFileHeader { xor_checksum: r.xor_checksum, ..*self }),
            r.xor_checksum == checksum_of(r.layout()),
    {
        let checksum = self.new_xor_checksum();
        let ret = CacheFileHeader { xor_checksum: checksum, ..*self };
        proof {
            lemma_checksum_ignores_own_word(*self, ret);
        }
        ret
    }
}

/// Two headers that differ at most in their checksum field have the same
/// checksum value computed from their bytes.
proof fn lemma_checksum_ignores_own_word(a: CacheFileHeader, b: CacheFileHeader)
    requires
        b == (CacheFileHeader { xor_checksum: b.xor_checksum, ..a }),
    ensures
        checksum_of(a.layout()) == checksum_of(b.layout()),
{
    lemma_auto_spec_u64_to_from_le_bytes();
    lemma_auto_spec_u128_to_from_le_bytes();
    let la = a.layout();
    let lb = b.layout();
    assert(la.len() == 64 && lb.len() == 64);
    assert forall|i: int| 8 <= i < 64 implies la[i] == lb[i] by {}
    assert forall|k: int| 1 <= k < 8 implies word_at(la, k) == word_at(lb, k) by {
        assert(la.subrange(8 * k, 8 * k + 8) =~= lb.subrange(8 * k, 8 * k + 8));
    }
}

/// A header whose checksum matches its other fields and whose counts are
/// valid (both non-zero, no more keyframes than frames) reads back from its
/// own bytes without error, field for field.
pub proof fn lemma_header_round_trip(h: CacheFileHeader)
    requires
        h.xor_checksum == checksum_of(h.layout()),
        0 < h.keyframe_count <= h.frame_count,
    ensures
        header_error(h.layout()) is None,
        word_at(h.layout(), 0) == h.xor_checksum,
        word_at(h.layout(), 1) == h.video_file_path_len,
        h.layout().subrange(16, 32) == h.video_file_path_hash@,
        word_at(h.layout(), 4) == h.frame_count,
        word_at(h.layout(), 5) == h.keyframe_count,
        spec_u128_from_le_bytes(h.layout().subrange(48, 64)) == h.last_hit,
{
    lemma_auto_spec_u64_to_from_le_bytes();
    lemma_auto_spec_u128_to_from_le_bytes();
    let l = h.layout();
    assert(l.subrange(0, 8) =~= spec_u64_to_le_bytes(h.xor_checksum));
    assert(l.subrange(8, 16) =~= spec_u64_to_le_bytes(h.video_file_path_len));
    assert(l.subrange(16, 32) =~= h.video_file_path_hash@);
    assert(l.subrange(32, 40) =~= spec_u64_to_le_bytes(h.frame_count));
    assert(l.subrange(40, 48) =~= spec_u64_to_le_bytes(h.keyframe_count));
    assert(l.subrange(48, 64) =~= spec_u128_to_le_bytes(h.last_hit));
}

/// The wall clock in nanoseconds since the UNIX epoch (a clock set before
/// the epoch reads as 0). See [nanos_of_epoch_reading] for the value given a
/// reading.
pub fn nanos_since_unix_epoch() -> u128 {
    nanos_of_epoch_reading(system_time_duration_since(system_time_now(), unix_epoch()))
}

/// The nanoseconds since the UNIX epoch for a reading of the wall clock
/// against the epoch: the reading's nanoseconds, or 0 for a clock set before
/// the epoch ([None]).
pub fn nanos_of_epoch_reading(since_epoch: Option<Duration>) -> (r: u128)
    ensures
        r == match since_epoch {
            Some(d) => duration_nanos(d),
            None => 0,
        },
{
    match since_epoch {
        Some(d) => duration_as_nanos(d),
        None => 0,
    }
}

/// The 16 bytes of one keyframe table entry: the frame index and the
/// timestamp, each as a little-endian 64-bit word.
pub open spec fn keyframe_entry_bytes(entry: (usize, i64)) -> Seq<u8> {
    spec_u64_to_le_bytes(entry.0 as u64) + spec_u64_to_le_bytes(entry.1 as u64)
}

/// The keyframe table of a cache file: every entry's bytes, in order.
pub open spec fn keyframe_table(entries: Seq<(usize, i64)>) -> Seq<u8>
    decreases entries.len(),
{
    if entries.len() == 0 {
        Seq::empty()
    } else {
        keyframe_table(entries.drop_last()) + keyframe_entry_bytes(entries.last())
    }
}

/// The keyframe table written for some entries reads back as those entries:
/// entry `i` is word `2 * i` (the frame index) and word `2 * i + 1` (the
/// timestamp) of the table.
pub proof fn lemma_keyframe_table_round_trip(entries: Seq<(usize, i64)>)
    ensures
        keyframe_table(entries).len() == 16 * entries.len(),
        forall|i: int|
            0 <= i < entries.len() ==> (word_at(keyframe_table(entries), 2 * i) as usize,
            word_at(keyframe_table(entries), 2 * i + 1) as i64) == #[trigger] entries[i],
    decreases entries.len(),
{
    lemma_auto_spec_u64_to_from_le_bytes();
    if entries.len() > 0 {
        let prefix = entries.drop_last();
        lemma_keyframe_table_round_trip(prefix);
        let t = keyframe_table(entries);
        let tp = keyframe_table(prefix);
        let n = prefix.len() as int;
        assert(t == tp + keyframe_entry_bytes(entries.last()));
        assert forall|i: int| 0 <= i < entries.len() implies (word_at(t, 2 * i) as usize,
            word_at(t, 2 * i + 1) as i64) == #[trigger] entries[i] by {
            if i < n {
                assert(t.subrange(16 * i, 16 * i + 8) =~= tp.subrange(16 * i, 16 * i + 8));
                assert(t.subrange(16 * i + 8, 16 * i + 16) =~= tp.subrange(16 * i + 8, 16 * i + 16));
                assert(entries[i] == prefix[i]);
            } else {
                let (idx, ts) = entries.last();
                assert(t.subrange(16 * i, 16 * i + 8) =~= spec_u64_to_le_bytes(idx as u64));
                assert(t.subrange(16 * i + 8, 16 * i + 16) =~= spec_u64_to_le_bytes(ts as u64));
                assert(((ts as u64) as i64) == ts) by (bit_vector);
            }
        }
    }
}

/// Where the keyframe table starts in a cache file whose video file path is
/// `path_len` bytes long: the end of the path rounded up to a multiple of 256.
pub open spec fn keyframes_start(path_len: nat) -> nat {
    ((64 + path_len + 255) / 256 * 256) as nat
}

/// The bytes of a whole cache file: the header, the video file's path, zero
/// padding up to [keyframes_start], then the keyframe table.
pub open spec fn cache_file_layout(
    header: CacheFileHeader,
    video_file_path: Seq<u8>,
    keyframe_timestamps: Seq<(usize, i64)>,
) -> Seq<u8> {
    header.layout() + video_file_path + Seq::new(
        (keyframes_start(video_file_path.len()) - 64 - video_file_path.len()) as nat,
        |i: int| 0u8,
    ) + keyframe_table(keyframe_timestamps)
}

/// Where the keyframe table starts in a cache file whose video file path is
/// `path_len` bytes long.
pub fn keyframes_offset(path_len: usize) -> (r: usize)
    requires
        64 + path_len + 255 <= usize::MAX,
    ensures
        r == keyframes_start(path_len as nat),
        64 + path_len <= r < 64 + path_len + 256,
        r % 256 == 0,
{
    let end: usize = 64 + path_len;
    let r = (end + 255) / 256 * 256;
    assert(r == keyframes_start(path_len as nat));
    assert(end <= r < end + 256 && r % 256 == 0) by (nonlinear_arith)
        requires
            r == (end + 255) / 256 * 256,
    ;
    r
}

/// The bytes of a keyframe table.
pub fn keyframe_table_bytes(entries: &[(usize, i64)]) -> (r: Vec<u8>)
    requires
        16 * entries@.len() <= usize::MAX,
    ensures
        r@ == keyframe_table(entries@),
        r@.len() == 16 * entries@.len(),
{
    proof {
        lemma_auto_spec_u64_to_from_le_bytes();
    }
    let mut out: Vec<u8> = Vec::new();
    let mut k: usize = 0;
    while k < entries.len()
        invariant
            k <= entries@.len(),
            out@ == keyframe_table(entries@.subrange(0, k as int)),
            out@.len() == 16 * k,
        decreases entries@.len() - k,
    {
        let (idx, timestamp) = entries[k];
        let mut a = u64_to_le_bytes(idx as u64);
        let mut b = u64_to_le_bytes(timestamp as u64);
        out.append(&mut a);
        out.append(&mut b);
        assert(entries@.subrange(0, k + 1).drop_last() =~= entries@.subrange(0, k as int));
        assert(out@ =~= keyframe_table(entries@.subrange(0, k + 1)));
        k = k + 1;
    }
    assert(entries@.subrange(0, entries@.len() as int) =~= entries@);
    out
}

/// Reads a keyframe table of `count` entries back from its bytes.
pub fn decode_keyframe_table(bytes: &[u8], count: usize) -> (r: Vec<(usize, i64)>)
    requires
        bytes@.len() == 16 * count,
    ensures
        r@.len() == count,
        forall|i: int|
            0 <= i < count ==> #[trigger] r@[i] == (
            word_at(bytes@, 2 * i) as usize,
            word_at(bytes@, 2 * i + 1) as i64,
        ),
{
    let len = bytes.len();
    let mut out: Vec<(usize, i64)> = Vec::new();
    let mut k: usize = 0;
    while k < count
        invariant
            bytes@.len() == 16 * count,
            len == bytes@.len(),
            k <= count,
            out@.len() == k,
            forall|i: int|
                0 <= i < k ==> #[trigger] out@[i] == (
                word_at(bytes@, 2 * i) as usize,
                word_at(bytes@, 2 * i + 1) as i64,
            ),
        decreases count - k,
    {
        assert(16 * k + 16 <= 16 * count) by (nonlinear_arith)
            requires
                k < count,
        ;
        let idx = u64_from_le_bytes(slice_subrange(bytes, 16 * k, 16 * k + 8));
        let timestamp = u64_from_le_bytes(slice_subrange(bytes, 16 * k + 8, 16 * k + 16));
        out.push((idx as usize, timestamp as i64));
        k = k + 1;
    }
    out
}

/// The bytes of a whole cache file for `seek_info` about the video at
/// `video_file_path`, under `header`.
pub fn cache_file_bytes(header: &CacheFileHeader, video_file_path: &[u8], seek_info: &SeekInfo) -> (r:
    Vec<u8>)
    requires
        64 + video_file_path@.len() + 255 <= usize::MAX,
        keyframes_start(video_file_path@.len()) + 16 * seek_info.keyframe_timestamps@.len()
            <= usize::MAX,
    ensures
        r@ == cache_file_layout(*header, video_file_path@, seek_info.keyframe_timestamps@),
{
    let head = header.as_bytes();
    let mut out: Vec<u8> = Vec::new();
    let mut k: usize = 0;
    while k < 64
        invariant
            k <= 64,
            out@ == head@.subrange(0, k as int),
        decreases 64 - k,
    {
        out.push(head[k]);
        assert(out@ =~= head@.subrange(0, k + 1));
        k = k + 1;
    }
    let mut k: usize = 0;
    while k < video_file_path.len()
        invariant
            k <= video_file_path@.len(),
            out@ == head@ + video_file_path@.subrange(0, k as int),
        decreases video_file_path@.len() - k,
    {
        out.push(video_file_path[k]);
        assert(out@ =~= head@ + video_file_path@.subrange(0, k + 1));
        k = k + 1;
    }
    assert(video_file_path@.subrange(0, video_file_path@.len() as int) =~= video_file_path@);
    let start = keyframes_offset(video_file_path.len());
    let ghost base = out@;
    while out.len() < start
        invariant
            base.len() == 64 + video_file_path@.len(),
            base.len() <= out@.len() <= start,
            out@.subrange(0, base.len() as int) == base,
            forall|i: int| base.len() <= i < out@.len() ==> out@[i] == 0u8,
        decreases start - out@.len(),
    {
        out.push(0u8);
    }
    let mut table = keyframe_table_bytes(seek_info.keyframe_timestamps.as_slice());
    let ghost padded = out@;
    out.append(&mut table);
    assert(padded =~= header.layout() + video_file_path@ + Seq::new(
        (keyframes_start(video_file_path@.len()) - 64 - video_file_path@.len()) as nat,
        |i: int| 0u8,
    ));
    out
}

/// A header whose fields were read from `b` lays out as `b` again.
proof fn lemma_layout_of_words(h: CacheFileHeader, b: Seq<u8>)
    requires
        b.len() == 64,
        h.xor_checksum == word_at(b, 0),
        h.video_file_path_len == word_at(b, 1),
        h.video_file_path_hash@ == b.subrange(16, 32),
        h.frame_count == word_at(b, 4),
        h.keyframe_count == word_at(b, 5),
        h.last_hit == spec_u128_from_le_bytes(b.subrange(48, 64)),
    ensures
        h.layout() == b,
{
    lemma_auto_spec_u64_to_from_le_bytes();
    lemma_auto_spec_u128_to_from_le_bytes();
    assert(spec_u64_to_le_bytes(word_at(b, 0)) == b.subrange(0, 8));
    assert(spec_u64_to_le_bytes(word_at(b, 1)) == b.subrange(8, 16));
    assert(spec_u64_to_le_bytes(word_at(b, 4)) == b.subrange(32, 40));
    assert(spec_u64_to_le_bytes(word_at(b, 5)) == b.subrange(40, 48));
    assert(spec_u128_to_le_bytes(h.last_hit) == b.subrange(48, 64));
    assert(h.layout() =~= b);
}

/// The 16 bytes of `bytes` as an array.
fn copy_16(bytes: &[u8]) -> (r: [u8; 16])
    requires
        bytes@.len() == 16,
    ensures
        r@ == bytes@,
{
    let mut out = [0u8; 16];
    let mut i: usize = 0;
    while i < 16
        invariant
            bytes@.len() == 16,
            i <= 16,
            forall|j: int| 0 <= j < i ==> out@[j] == bytes@[j],
        decreases 16 - i,
    {
        out.set(i, bytes[i]);
        i = i + 1;
    }
    assert(out@ =~= bytes@);
    out
}

/// Copies `src` into `out` starting at `off`.
fn write_at(out: &mut [u8; 64], off: usize, src: &[u8])
    requires
        off + src@.len() <= 64,
    ensures
        forall|i: int| 0 <= i < src@.len() ==> final(out)@[off + i] == src@[i],
        forall|i: int|
            0 <= i < 64 && !(off <= i < off + src@.len()) ==> final(out)@[i] == old(out)@[i],
{
    let mut k: usize = 0;
    while k < src.len()
        invariant
            off + src@.len() <= 64,
            k <= src@.len(),
            forall|i: int| 0 <= i < k ==> out@[off + i] == src@[i],
            forall|i: int|
                0 <= i < 64 && !(off <= i < off + k) ==> out@[i] == old(out)@[i],
        decreases src@.len() - k,
    {
        out[off + k] = src[k];
        k = k + 1;
    }
}

} // verus!
