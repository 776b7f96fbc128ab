//! The destination resolver: from a capture timestamp, the day-wrap result
//! and the destination root to the `root/year/month/day` bucket directory and
//! the (optionally case-folded) destination file path, and from a metadata
//! reader's result to the full plan for one file's move.

use vstd::prelude::*;
use crate::config::RunConfig;
use crate::errors::FileError;
use crate::text::{
    ascii_lower,
    ascii_lower_str,
    dec_digits,
    dec_str,
    join_path,
    path_join,
    two_digit_str,
    two_digits,
};
use crate::timestamp::{CaptureTimestamp, DayWrapOffset, spec_wraps_forward, wraps_forward};

verus! {

/// The destination bucket: the year (unpadded), month (two digits) and day
/// (two digits, advanced by the day-wrap result) directories under the root.
/// No month or year rollover: a day pushed past the last day of its month is
/// an accepted edge case, not corrected.
pub open spec fn spec_bucket_dir(root: Seq<char>, ts: CaptureTimestamp, wrap: u8) -> Seq<char> {
    path_join(
        path_join(path_join(root, dec_digits(ts.year as int)), two_digits(ts.month as int)),
        two_digits(ts.day + wrap),
    )
}

/// The destination file name: the source file's base name, folded to ASCII
/// lowercase exactly when the lowercase option is set (the extension is
/// folded identically, there is no separate extension rule).
pub open spec fn folded_name(name: Seq<char>, lowercase: bool) -> Seq<char> {
    if lowercase {
        ascii_lower(name)
    } else {
        name
    }
}

/// The full destination path of one source file.
pub open spec fn spec_destination_file(
    root: Seq<char>,
    ts: CaptureTimestamp,
    offset: DayWrapOffset,
    lowercase: bool,
    name: Seq<char>,
) -> Seq<char> {
    path_join(spec_bucket_dir(root, ts, spec_wraps_forward(ts, offset)), folded_name(name, lowercase))
}

/// Builds the bucket directory path for a capture and a day-wrap result.
pub fn bucket_dir(root: &str, ts: &CaptureTimestamp, wrap: u8) -> (r: String)
    ensures
        r@ == spec_bucket_dir(root@, *ts, wrap),
{
    let year = dec_str(ts.year);
    let month = two_digit_str(ts.month as u16);
    let day = two_digit_str(ts.day as u16 + wrap as u16);
    let p = join_path(root, year.as_str());
    let p = join_path(p.as_str(), month.as_str());
    join_path(p.as_str(), day.as_str())
}

/// Builds the full destination path of one source file.
pub fn destination_file(
    root: &str,
    ts: &CaptureTimestamp,
    offset: &DayWrapOffset,
    lowercase: bool,
    name: &str,
) -> (r: String)
    ensures
        r@ == spec_destination_file(root@, *ts, *offset, lowercase, name@),
{
    let wrap = wraps_forward(ts, offset);
    let dir = bucket_dir(root, ts, wrap);
    if lowercase {
        let folded = ascii_lower_str(name);
        join_path(dir.as_str(), folded.as_str())
    } else {
        join_path(dir.as_str(), name)
    }
}

/// Everything the caller must know to carry out one file's move: the bucket
/// directory to create (unless the run is dry), and the destination file path
/// the relocation engine is to decide against.
pub struct MovePlan {
    /// The destination bucket directory.
    pub dest_dir: String,
    /// The full destination file path inside that bucket.
    pub dest_file: String,
    /// Create the bucket directory (recursively, tolerating its prior
    /// existence) before moving; suppressed in dry-run mode.
    pub create_dest_dir: bool,
}

/// Turns the metadata reader's result for one file into the plan for its
/// move. A reader failure is propagated unchanged and yields no plan, so a
/// file without a readable capture timestamp is never moved; there is no
/// fallback to any other date.
pub fn plan_move(
    file_name: &str,
    dest_root: &str,
    meta: Result<CaptureTimestamp, FileError>,
    config: &RunConfig,
) -> (r: Result<MovePlan, FileError>)
    ensures
        meta matches Err(e) ==> r matches Err(e2) && e2 == e,
        meta matches Ok(ts) ==> r matches Ok(p) && {
            &&& p.dest_dir@ == spec_bucket_dir(dest_root@, ts, spec_wraps_forward(ts, config.day_wrap))
            &&& p.dest_file@ == spec_destination_file(
                dest_root@,
                ts,
                config.day_wrap,
                config.make_lowercase,
                file_name@,
            )
            &&& p.create_dest_dir == !config.dry_run
        },
{
    match meta {
        Err(e) => Err(e),
        Ok(ts) => {
            let wrap = wraps_forward(&ts, &config.day_wrap);
            let dest_dir = bucket_dir(dest_root, &ts, wrap);
            let dest_file = if config.make_lowercase {
                let folded = ascii_lower_str(file_name);
                join_path(dest_dir.as_str(), folded.as_str())
            } else {
                join_path(dest_dir.as_str(), file_name)
            };
            Ok(MovePlan { dest_dir, dest_file, create_dest_dir: !config.dry_run })
        },
    }
}

} // verus!
