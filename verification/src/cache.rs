//! The files of the cache directory: where the refresh token and the track
//! lists are kept, what is written to them, and what is read back.
//!
//! This module decides what a cache file holds and where it goes; reading
//! and writing the files is left to the caller. A write is described by a
//! [`CacheWrite`]: the content goes to a temporary file first, which is then
//! renamed into place, so that a reader never sees half a file.

use vstd::prelude::*;
use vstd::string::*;
use crate::error::Error;
use crate::track_lists::{entry_views, spec_from_entries, Entry, TrackLists};

verus! {

/// The directory that holds the cache files.
pub const CACHE_PATH: &'static str = "/tmp/spotify-manager";

/// The file that holds the refresh token.
pub const TOKEN_CACHE: &'static str = "/tmp/spotify-manager/token.ron";

/// The file that holds the track lists.
pub const TRACK_LISTS_CACHE: &'static str = "/tmp/spotify-manager/track_lists.ron";

/// What is appended to the path of a cache file to name its temporary file.
pub const TEMPORARY_SUFFIX: &'static str = ".tmp";

/// The error of `ron`'s deserializer, carried through unopened.
#[verifier::external_type_specification]
#[verifier::external_body]
pub struct ExRonSpannedError(ron::error::SpannedError);

/// The text that `ron::ser::to_string` gives for the string `value`, or
/// nothing where it fails.
pub uninterp spec fn ron_text_of_str(value: Seq<char>) -> Option<Seq<char>>;

/// The string that `ron::de::from_bytes` reads from `bytes`, or nothing where
/// it fails.
pub uninterp spec fn ron_str_in_bytes(bytes: Seq<u8>) -> Option<Seq<char>>;

/// Calls `ron::ser::to_string` on a string, and drops the error where it
/// fails. Trusted: the result is the function's result for this string,
/// which depends on the string alone.
#[verifier::external_body]
fn encode_str(value: &str) -> (text: Option<String>)
    ensures
        match text {
            Some(text) => ron_text_of_str(value@) == Some(text@),
            None => ron_text_of_str(value@) is None,
        },
{
    ron::ser::to_string(value).ok()
}

/// Calls `ron::de::from_bytes` for a string. Trusted: the result is the
/// function's result for these bytes, which depends on the bytes alone.
#[verifier::external_body]
fn decode_str(bytes: &[u8]) -> (value: Result<String, ron::error::SpannedError>)
    ensures
        match value {
            Ok(value) => ron_str_in_bytes(bytes@) == Some(value@),
            Err(_) => ron_str_in_bytes(bytes@) is None,
        },
{
    ron::de::from_bytes::<String>(bytes)
}

/// One write to the cache: create `directory` if it is absent, write
/// `content` to the file `temporary`, then rename that file to `destination`.
#[derive(Clone, Debug, PartialEq, Eq)]
pub struct CacheWrite {
    /// The directory to create if it is absent.
    pub directory: String,
    /// The file that takes the content first.
    pub temporary: String,
    /// The file that the temporary file is renamed to.
    pub destination: String,
    /// What the file holds after the write.
    pub content: String,
}

impl CacheWrite {
    /// Whether this is the write of `content` to the cache file `path`.
    pub open spec fn is_write_of(&self, path: Seq<char>, content: Seq<char>) -> bool {
        &&& self.directory@ == CACHE_PATH@
        &&& self.temporary@ == path + TEMPORARY_SUFFIX@
        &&& self.destination@ == path
        &&& self.content@ == content
    }
}

/// Returns the write of `content` to the cache file `path`.
pub fn write_to_cache(path: &str, content: String) -> (write: CacheWrite)
    ensures
        write.is_write_of(path@, content@),
{
    let mut temporary = String::from_str(path);
    temporary.append(TEMPORARY_SUFFIX);
    CacheWrite {
        directory: String::from_str(CACHE_PATH),
        temporary,
        destination: String::from_str(path),
        content,
    }
}

/// What `write_token` returns for a token whose encoding is `encoded`.
pub open spec fn spec_write_token(write: Result<CacheWrite, Error>, encoded: Option<Seq<char>>) -> bool {
    match write {
        Ok(write) => encoded is Some && write.is_write_of(TOKEN_CACHE@, encoded->0),
        Err(error) => encoded is None && error == Error::PersistenceFailed,
    }
}

/// Returns the write that stores the refresh token `token`: its encoding
/// goes to the token file. Fails with `PersistenceFailed` where the token
/// cannot be encoded.
pub fn write_token(token: &str) -> (write: Result<CacheWrite, Error>)
    ensures
        spec_write_token(write, ron_text_of_str(token@)),
{
    match encode_str(token) {
        Some(text) => Ok(write_to_cache(TOKEN_CACHE, text)),
        None => Err(Error::PersistenceFailed),
    }
}

/// Returns the write that stores the track lists, given their encoding:
/// the encoding goes to the track-list file.
pub fn write_track_lists(encoded: String) -> (write: CacheWrite)
    ensures
        write.is_write_of(TRACK_LISTS_CACHE@, encoded@),
{
    write_to_cache(TRACK_LISTS_CACHE, encoded)
}

/// What `read_token` returns for a token file of which `decoded` could be
/// read; `decoded` is nothing where the file is absent or malformed.
pub open spec fn spec_read_token(token: Result<String, Error>, decoded: Option<Seq<char>>) -> bool {
    match token {
        Ok(token) => decoded == Some(token@),
        Err(error) => decoded is None && error == Error::CacheUnavailable,
    }
}

/// Returns the refresh token that the token file holds, given the bytes of
/// the file, or nothing where the file is absent. Fails with
/// `CacheUnavailable` where the file is absent or malformed.
pub fn read_token(file: Option<&[u8]>) -> (token: Result<String, Error>)
    ensures
        spec_read_token(
            token,
            match file {
                Some(bytes) => ron_str_in_bytes(bytes@),
                None => None,
            },
        ),
{
    match file {
        Some(bytes) => match decode_str(bytes) {
            Ok(token) => Ok(token),
            Err(_) => Err(Error::CacheUnavailable),
        },
        None => Err(Error::CacheUnavailable),
    }
}

/// Returns the track lists that the track-list file holds, given the entries
/// decoded from it, or nothing where the file is absent or malformed. Fails
/// with `CacheUnavailable` where there are no entries to build from.
pub fn read_track_lists(decoded: Option<Vec<Entry>>) -> (lists: Result<TrackLists, Error>)
    ensures
        match lists {
            Ok(lists) => decoded is Some && lists@ == spec_from_entries(entry_views(decoded->0@)),
            Err(error) => decoded is None && error == Error::CacheUnavailable,
        },
{
    match decoded {
        Some(entries) => Ok(TrackLists::from_entries(entries)),
        None => Err(Error::CacheUnavailable),
    }
}

} // verus!
