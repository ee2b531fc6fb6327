//! The seek-info cache file format and the frame-count cache.

use media::ffmpeg_tools::ffmpeg_video::frame_count_cache::{FrameCountCache, PathInfo};
use media::ffmpeg_tools::ffmpeg_video::inner::FrameStats;
use media::ffmpeg_tools::ffmpeg_video::seek_info::{
    nanos_of_epoch_reading,
    bytes_eq, cache_file_bytes, cache_file_lookup, decode_keyframe_table, hashed_bytes,
    keyframe_table_bytes, keyframes_offset, nanos_since_unix_epoch, u64_hex, CacheFileHeader,
    HeaderError, InsertCacheError, Lookup, SeekInfo,
};

fn sample_seek_info() -> SeekInfo {
    SeekInfo { frame_count: 300, keyframe_timestamps: vec![(0, -512), (120, 4000), (250, 9000)] }
}

#[test]
fn hex_digits_of_u64() {
    assert_eq!(&u64_hex(0), b"0000000000000000");
    assert_eq!(&u64_hex(0x0123_4567_89ab_cdef), b"0123456789abcdef");
    assert_eq!(&u64_hex(u64::MAX), b"ffffffffffffffff");
}

#[test]
fn fnv1a_hashes() {
    // Known 64-bit FNV-1a values.
    assert_eq!(&hashed_bytes(b""), b"cbf29ce484222325");
    assert_eq!(&hashed_bytes(b"a"), b"af63dc4c8601ec8c");
    assert_eq!(&hashed_bytes(b"foobar"), b"85944171f73967e8");
}

#[test]
fn header_from_seek_info_round_trips() {
    let path = b"/videos/clip.mp4";
    let header = CacheFileHeader::from_seek_info_impl(&sample_seek_info(), path, 123_456_789);
    assert_eq!(header.video_file_path_len, path.len() as u64);
    assert_eq!(header.video_file_path_hash, hashed_bytes(path));
    assert_eq!(header.frame_count, 300);
    assert_eq!(header.keyframe_count, 3);
    assert_eq!(header.last_hit, 123_456_789);
    assert_eq!(header.xor_checksum, header.new_xor_checksum());
    let bytes = header.as_bytes();
    // Little-endian words.
    assert_eq!(&bytes[8..16], &(path.len() as u64).to_le_bytes());
    assert_eq!(&bytes[32..40], &300u64.to_le_bytes());
    assert_eq!(&bytes[48..64], &123_456_789u128.to_le_bytes());
    assert_eq!(CacheFileHeader::new_xor_checksum_from_bytes(&bytes), header.xor_checksum);
    assert_eq!(CacheFileHeader::from_bytes(&bytes), Ok(header));
}

#[test]
fn header_with_current_time_is_valid() {
    let path = b"/a";
    let header = CacheFileHeader::from_seek_info(&sample_seek_info(), path);
    assert!(header.last_hit > 0);
    assert_eq!(CacheFileHeader::from_bytes(&header.as_bytes()), Ok(header));
    assert!(nanos_since_unix_epoch() >= header.last_hit);
}

#[test]
fn touched_header_keeps_a_valid_checksum() {
    let header = CacheFileHeader::from_seek_info_impl(&sample_seek_info(), b"/x", 1);
    let touched = header.with_last_hit(99);
    assert_eq!(touched.last_hit, 99);
    assert_eq!(touched.frame_count, header.frame_count);
    assert_ne!(touched.xor_checksum, header.xor_checksum);
    assert_eq!(CacheFileHeader::from_bytes(&touched.as_bytes()), Ok(touched));
}

#[test]
fn corrupt_headers_are_rejected() {
    let header = CacheFileHeader::from_seek_info_impl(&sample_seek_info(), b"/x", 1);
    let mut bytes = header.as_bytes();
    bytes[20] ^= 1;
    assert_eq!(CacheFileHeader::from_bytes(&bytes), Err(HeaderError::InvalidChecksum));

    let mut zero_frames = header;
    zero_frames.frame_count = 0;
    zero_frames.xor_checksum = zero_frames.new_xor_checksum();
    assert_eq!(
        CacheFileHeader::from_bytes(&zero_frames.as_bytes()),
        Err(HeaderError::ZeroFrameCount)
    );

    let mut zero_keyframes = header;
    zero_keyframes.keyframe_count = 0;
    zero_keyframes.xor_checksum = zero_keyframes.new_xor_checksum();
    assert_eq!(
        CacheFileHeader::from_bytes(&zero_keyframes.as_bytes()),
        Err(HeaderError::ZeroKeyframeCount)
    );

    let mut too_many = header;
    too_many.keyframe_count = 301;
    too_many.xor_checksum = too_many.new_xor_checksum();
    assert_eq!(
        CacheFileHeader::from_bytes(&too_many.as_bytes()),
        Err(HeaderError::KeyframeCountExceedsFrameCount)
    );
    assert_eq!(HeaderError::InvalidChecksum.message(), "Invalid XOR checksum");
    assert_eq!(
        HeaderError::KeyframeCountExceedsFrameCount.message(),
        "Keyframe count cannot exceed frame count"
    );
}

#[test]
fn keyframe_table_round_trips() {
    let info = sample_seek_info();
    let table = keyframe_table_bytes(&info.keyframe_timestamps);
    assert_eq!(table.len(), 48);
    assert_eq!(&table[0..8], &0u64.to_le_bytes());
    assert_eq!(&table[8..16], &(-512i64).to_le_bytes());
    assert_eq!(decode_keyframe_table(&table, 3), info.keyframe_timestamps);
}

#[test]
fn whole_cache_files() {
    assert_eq!(keyframes_offset(0), 256);
    assert_eq!(keyframes_offset(192), 256);
    assert_eq!(keyframes_offset(193), 512);
    let info = sample_seek_info();
    let path = b"/videos/clip.mp4";
    let header = CacheFileHeader::from_seek_info_impl(&info, path, 5);
    let file = cache_file_bytes(&header, path, &info);
    assert_eq!(file.len(), 256 + 48);
    assert_eq!(&file[0..64], &header.as_bytes()[..]);
    assert_eq!(&file[64..64 + path.len()], &path[..]);
    assert!(file[64 + path.len()..256].iter().all(|b| *b == 0));
    assert_eq!(decode_keyframe_table(&file[256..], 3), info.keyframe_timestamps);
}

#[test]
fn cache_file_lookups() {
    let path = b"/v.mp4";
    let header = CacheFileHeader::from_seek_info_impl(&sample_seek_info(), path, 5);
    assert_eq!(cache_file_lookup(&header, path, path, false), Lookup::Hit);
    assert_eq!(cache_file_lookup(&header, path, path, true), Lookup::MissOutdated);
    assert_eq!(cache_file_lookup(&header, b"/w.mp4", path, false), Lookup::MissNotFound);
    assert_eq!(cache_file_lookup(&header, b"/v.mp", b"/v.mp", false), Lookup::MissNotFound);
    assert!(bytes_eq(b"abc", b"abc"));
    assert!(!bytes_eq(b"abc", b"abd"));
    assert!(!bytes_eq(b"abc", b"ab"));
}

#[test]
fn insert_cache_error_into_io_error() {
    let err: InsertCacheError<std::io::Error> =
        InsertCacheError::Insert(std::io::Error::other("disk full"), sample_seek_info());
    let io_err: std::io::Error = err.into();
    assert_eq!(io_err.to_string(), "disk full");
    let err: InsertCacheError<std::io::Error> =
        InsertCacheError::Create(std::io::Error::other("bad video"));
    assert_eq!(std::io::Error::from(err).to_string(), "bad video");
}

#[test]
fn frame_count_cache_get_after_insert() {
    let mut cache = FrameCountCache::new();
    let info = PathInfo { path: b"/v.mp4".to_vec(), modified: 10 };
    assert_eq!(cache.get(&info), None);
    cache.insert(info.clone(), 240);
    assert_eq!(cache.get(&info), Some(240));
    cache.insert(PathInfo { path: b"/w.mp4".to_vec(), modified: -3 }, 7);
    assert_eq!(cache.get(&PathInfo { path: b"/w.mp4".to_vec(), modified: -3 }), Some(7));
    // Re-inserting replaces the count.
    cache.insert(info.clone(), 241);
    assert_eq!(cache.get(&info), Some(241));
}

#[test]
fn frame_count_cache_drops_outdated_entries() {
    let mut cache = FrameCountCache::new();
    let old = PathInfo { path: b"/v.mp4".to_vec(), modified: 10 };
    let new = PathInfo { path: b"/v.mp4".to_vec(), modified: 11 };
    cache.insert(old.clone(), 240);
    cache.insert(PathInfo { path: b"/w.mp4".to_vec(), modified: 1 }, 5);
    assert_eq!(cache.get(&new), None);
    // The entry was dropped, so even the old time misses now.
    assert_eq!(cache.get(&old), None);
    assert_eq!(cache.get(&PathInfo { path: b"/w.mp4".to_vec(), modified: 1 }), Some(5));
}

#[test]
fn frame_stats() {
    let stats = FrameStats::from_frame(true, Some(1234)).unwrap();
    assert!(stats.is_keyframe());
    assert_eq!(stats.timestamp(), 1234);
    let stats = FrameStats::from_frame(false, Some(-1)).unwrap();
    assert!(!stats.is_keyframe());
    assert_eq!(stats.timestamp(), -1);
    assert!(FrameStats::from_frame(true, None).is_none());
}

#[test]
fn nanos_of_a_clock_reading() {
    assert_eq!(nanos_of_epoch_reading(Some(std::time::Duration::new(2, 5))), 2_000_000_005);
    assert_eq!(nanos_of_epoch_reading(None), 0);
}
