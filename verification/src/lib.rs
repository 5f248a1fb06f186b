//! Post-download audio enrichment library.
//!
//! After an external downloader has produced audio files and a textual run
//! log, this library correlates the log to the files on disk, resolves
//! lyrics (with a translation fallback), matches each file against a
//! recording catalog under a similarity threshold, and edits an in-memory
//! tag projection that is committed back to the file's tag container.
//! All decision logic is verified; network and file transfer stay with the
//! caller, which hands the raw response text back in.

pub mod catalog;
pub mod colors;
pub mod config;
pub mod correlate;
pub mod encode;
pub mod img_convert;
pub mod lyrics;
pub mod music_dl;
pub mod pinterest;
pub mod report;
pub mod strutil;
pub mod tag;
pub mod version_check;
pub mod video_convert;
pub mod video_dl;

pub use strutil::find_char_from;
pub use strutil::str_eq;
pub use strutil::starts_with;
pub use strutil::ends_with;
pub use strutil::contains_str;
pub use strutil::split_on_char;
pub use strutil::copy_range;
pub use strutil::u32_to_string;
pub use strutil::i8_to_string;
pub use strutil::parse_u32;
pub use strutil::parse_i8;
