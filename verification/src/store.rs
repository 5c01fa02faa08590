//! The drafts store: one JSON file holding the whole collection.
//!
//! The collection on disk is a single JSON value whose top level must be an
//! array; the records inside it are opaque.  The store works on plain text:
//! [`load_drafts`] turns what was read from the file into the collection's
//! compact text, [`save_drafts`] turns a caller's text into the exact bytes
//! to write, and [`drafts_file_path`] names the file.  The shell around the
//! library performs the reads and writes themselves.

use vstd::prelude::*;

use crate::json::empty_array_value;
use crate::json::is_array_text;
use crate::json::parse_value;
use crate::json::parsed_text;
use crate::json::pretty_text;
use crate::json::text_is_array;
use crate::json::value_is_array;
use crate::json::value_to_compact;
use crate::json::value_to_pretty;

verus! {

/// The failure kinds of the store.  The shell renders them (together with
/// the kinds it raises itself while touching the filesystem) into the
/// human-readable strings the front-end displays.
#[derive(Clone, Copy, Debug, PartialEq, Eq, Structural)]
pub enum DraftsError {
    /// The platform could not name an application data directory.
    LocationUnavailable,
    /// The application data directory could not be created.
    DirectoryCreateFailed,
    /// The drafts file exists but could not be read.
    ReadFailed,
    /// The given text is not valid JSON.
    ParseFailed,
    /// The given text is valid JSON, but its top level is not an array.
    InvalidFormat,
    /// The drafts file could not be written.
    WriteFailed,
}

/// What [`DraftsError::message`] returns for each failure kind.
pub open spec fn message_text(e: DraftsError) -> Seq<char> {
    match e {
        DraftsError::LocationUnavailable => "Could not determine the app data directory."@,
        DraftsError::DirectoryCreateFailed => "Could not create the app data directory."@,
        DraftsError::ReadFailed => "Could not read the drafts file."@,
        DraftsError::ParseFailed => "Invalid JSON."@,
        DraftsError::InvalidFormat => "Invalid format - expected a JSON array."@,
        DraftsError::WriteFailed => "Could not write the drafts file."@,
    }
}

impl DraftsError {
    /// The human-readable description of this failure.
    pub fn message(&self) -> (r: String)
        ensures
            r@ == message_text(*self),
    {
        match self {
            DraftsError::LocationUnavailable => String::from_str(
                "Could not determine the app data directory.",
            ),
            DraftsError::DirectoryCreateFailed => String::from_str(
                "Could not create the app data directory.",
            ),
            DraftsError::ReadFailed => String::from_str("Could not read the drafts file."),
            DraftsError::ParseFailed => String::from_str("Invalid JSON."),
            DraftsError::InvalidFormat => String::from_str(
                "Invalid format - expected a JSON array.",
            ),
            DraftsError::WriteFailed => String::from_str("Could not write the drafts file."),
        }
    }
}

/// The fixed name of the drafts file inside the application data directory.
pub open spec fn drafts_file_name() -> Seq<char> {
    "skeet-drafts.json"@
}

/// The full path of the drafts file: the application data directory with
/// [`drafts_file_name`] appended.  `app_data_dir` is the directory the
/// platform resolved for this application, `None` when the platform could
/// not name one.
pub fn drafts_file_path(app_data_dir: Option<&str>) -> (r: Result<String, DraftsError>)
    ensures
        r is Ok <==> app_data_dir is Some,
        app_data_dir is None ==> r == Err::<String, DraftsError>(DraftsError::LocationUnavailable),
        app_data_dir matches Some(dir) ==> (r matches Ok(p) && p@ == dir@ + "/"@
            + drafts_file_name()),
        r matches Ok(p) ==> p@.len() >= drafts_file_name().len() && p@.subrange(
            p@.len() - drafts_file_name().len(),
            p@.len() as int,
        ) == drafts_file_name(),
{
    match app_data_dir {
        None => Err(DraftsError::LocationUnavailable),
        Some(dir) => {
            let mut p = String::from_str(dir);
            p.append("/");
            p.append("skeet-drafts.json");
            proof {
                assert(p@.subrange(
                    p@.len() - drafts_file_name().len(),
                    p@.len() as int,
                ) =~= drafts_file_name());
            }
            Ok(p)
        },
    }
}

/// The resolved path of the drafts file as a display string, for the
/// front-end.  Same result and failure as [`drafts_file_path`].
pub fn get_drafts_path(app_data_dir: Option<&str>) -> (r: Result<String, DraftsError>)
    ensures
        r is Ok <==> app_data_dir is Some,
        app_data_dir is None ==> r == Err::<String, DraftsError>(DraftsError::LocationUnavailable),
        app_data_dir matches Some(dir) ==> (r matches Ok(p) && p@ == dir@ + "/"@
            + drafts_file_name()),
{
    drafts_file_path(app_data_dir)
}

/// The current collection, as a compact JSON-array text.
///
/// `contents` is what the shell read from the drafts file, `None` when the
/// file does not exist.  A missing file means "no drafts yet" and yields
/// `"[]"`; an existing file must hold a JSON array, which is returned
/// re-serialized compactly (not necessarily byte-identical to the on-disk
/// text, but denoting the very same value).  Every successful result is
/// itself a JSON-array text, so [`save_drafts`] accepts it unchanged.
pub fn load_drafts(contents: Option<&str>) -> (r: Result<String, DraftsError>)
    ensures
        contents is None ==> (r is Ok && r->Ok_0@ == "[]"@),
        r is Ok ==> is_array_text(r->Ok_0@),
        contents is Some && parsed_text(contents->0@) is None ==> r == Err::<String, DraftsError>(
            DraftsError::ParseFailed,
        ),
        contents is Some && parsed_text(contents->0@) is Some && !text_is_array(
            parsed_text(contents->0@)->0,
        ) ==> r == Err::<String, DraftsError>(DraftsError::InvalidFormat),
        contents is Some && is_array_text(contents->0@) ==> (r is Ok && r->Ok_0@ == parsed_text(
            contents->0@,
        )->0 && parsed_text(r->Ok_0@) == parsed_text(contents->0@)),
{
    match contents {
        None => {
            let empty = empty_array_value();
            match value_to_compact(&empty) {
                Ok(out) => Ok(out),
                // The compact serializer cannot fail on a `Value`.
                Err(_) => Err(DraftsError::InvalidFormat),
            }
        },
        Some(text) => {
            match parse_value(text) {
                Err(_) => Err(DraftsError::ParseFailed),
                Ok(value) => {
                    if !value_is_array(&value) {
                        Err(DraftsError::InvalidFormat)
                    } else {
                        match value_to_compact(&value) {
                            Ok(out) => Ok(out),
                            // The compact serializer cannot fail on a `Value`.
                            Err(_) => Err(DraftsError::InvalidFormat),
                        }
                    }
                },
            }
        },
    }
}

/// The exact text to write to the drafts file so that it holds `data`'s
/// collection, pretty-printed.
///
/// `data` must be valid JSON whose top level is an array; anything else is
/// rejected before any byte would be written, so a failed save leaves the
/// file as it was.  On success the returned text parses back to exactly the
/// value `data` denotes, and [`load_drafts`] accepts it.
pub fn save_drafts(data: &str) -> (r: Result<String, DraftsError>)
    ensures
        parsed_text(data@) is None ==> r == Err::<String, DraftsError>(DraftsError::ParseFailed),
        parsed_text(data@) is Some && !text_is_array(parsed_text(data@)->0) ==> r == Err::<
            String,
            DraftsError,
        >(DraftsError::InvalidFormat),
        is_array_text(data@) ==> (r is Ok && r->Ok_0@ == pretty_text(parsed_text(data@)->0)
            && parsed_text(r->Ok_0@) == parsed_text(data@)),
{
    match parse_value(data) {
        Err(_) => Err(DraftsError::ParseFailed),
        Ok(value) => {
            if !value_is_array(&value) {
                Err(DraftsError::InvalidFormat)
            } else {
                match value_to_pretty(&value) {
                    Ok(out) => Ok(out),
                    // The pretty serializer cannot fail on a `Value`.
                    Err(_) => Err(DraftsError::InvalidFormat),
                }
            }
        },
    }
}

/// Round-trip law: saving any JSON-array text and loading what was saved
/// yields a text denoting the very same value.  The result is `Some` exactly
/// when `data` is a JSON-array text, and the text it carries parses to the
/// same value as `data`.
pub fn save_load_round_trip(data: &str) -> (r: Option<String>)
    ensures
        r is Some <==> is_array_text(data@),
        r is Some ==> parsed_text(r->0@) == parsed_text(data@),
{
    match save_drafts(data) {
        Err(_) => None,
        Ok(written) => {
            match load_drafts(Some(written.as_str())) {
                Ok(out) => Some(out),
                Err(_) => None,
            }
        },
    }
}

} // verus!
