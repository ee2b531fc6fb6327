# media

The media core of Substrate, verified with Verus: frame rates and
resampling between them, frame buffers and pixels, the playback state of
resampled, clipped and looping videos, the decisions of the decoders and
frame producers, the on-disk seek-info cache format of videos, MIDI packets
and the data behind the node editor and the launcher.

- `src/` is the library, checked by Verus. Functions that read a clock
  (`SwitchTimer::is_switch_time`, `time_until_next_switch`,
  `launcher::elapsed_time`, `nanos_since_unix_epoch`,
  `CacheFileHeader::from_seek_info`) can promise nothing of the time they
  read; each hands the reading to a function with an exact contract
  (`switch_after`, `remaining_after`, `elapsed_of_reading`,
  `nanos_of_epoch_reading`, `from_seek_info_impl`). The calls into `std`
  that Verus has no specification for (the clock, I/O errors, the bounds of
  an inclusive range) go through small wrappers and specifications in
  `src/time.rs`, `src/ffmpeg_tools/ffmpeg_video/seek_info.rs` and
  `src/frame/streams/video_frame_stream.rs` whose contracts are trusted.
- The frame-count cache and the launcher's known projects are keyed by the
  bytes of a path. They are kept as vectors with distinct keys and a `Map`
  view rather than as `HashMap`s: Verus can prove lookups and inserts of a
  `HashMap` keyed by integers, but not of one keyed by byte strings, and the
  vector form lets every lookup, insert and removal be proved exactly.
- The seek-info cache file stores every number little-endian, so that the
  layout can be stated and proved byte for byte on every machine.
- `tests/` runs the library on concrete values.
- `app/` holds what cannot be verified: file-system access, floating-point
  conversions and rescaling, MIDI display, error types with `Display`, and
  thread-wide identifiers.

Run `verus` on `src/lib.rs` to check the proofs.
