//! The two filters the directory walker applies to an entry: the fixed-set
//! media extension classifier and the hidden-entry rule.

use vstd::prelude::*;
use crate::text::{ascii_lower, has_suffix, ends_with_fold};

verus! {

/// The name, folded to ASCII lowercase, ends in one of the recognized
/// raw-image extensions.
pub open spec fn has_raw_extension(name: Seq<char>) -> bool {
    ||| has_suffix(ascii_lower(name), ".3fr"@)
    ||| has_suffix(ascii_lower(name), ".ari"@)
    ||| has_suffix(ascii_lower(name), ".arw"@)
    ||| has_suffix(ascii_lower(name), ".bay"@)
    ||| has_suffix(ascii_lower(name), ".cap"@)
    ||| has_suffix(ascii_lower(name), ".cr2"@)
    ||| has_suffix(ascii_lower(name), ".cr3"@)
    ||| has_suffix(ascii_lower(name), ".crw"@)
    ||| has_suffix(ascii_lower(name), ".data"@)
    ||| has_suffix(ascii_lower(name), ".dcr"@)
    ||| has_suffix(ascii_lower(name), ".dcs"@)
    ||| has_suffix(ascii_lower(name), ".dng"@)
    ||| has_suffix(ascii_lower(name), ".drf"@)
    ||| has_suffix(ascii_lower(name), ".eip"@)
    ||| has_suffix(ascii_lower(name), ".erf"@)
    ||| has_suffix(ascii_lower(name), ".fff"@)
    ||| has_suffix(ascii_lower(name), ".gpr"@)
    ||| has_suffix(ascii_lower(name), ".iiq"@)
    ||| has_suffix(ascii_lower(name), ".k25"@)
    ||| has_suffix(ascii_lower(name), ".kdc"@)
    ||| has_suffix(ascii_lower(name), ".mdc"@)
    ||| has_suffix(ascii_lower(name), ".mef"@)
    ||| has_suffix(ascii_lower(name), ".mos"@)
    ||| has_suffix(ascii_lower(name), ".mrw"@)
    ||| has_suffix(ascii_lower(name), ".nef"@)
    ||| has_suffix(ascii_lower(name), ".nrw"@)
    ||| has_suffix(ascii_lower(name), ".obm"@)
    ||| has_suffix(ascii_lower(name), ".orf"@)
    ||| has_suffix(ascii_lower(name), ".pef"@)
    ||| has_suffix(ascii_lower(name), ".ptx"@)
    ||| has_suffix(ascii_lower(name), ".pxn"@)
    ||| has_suffix(ascii_lower(name), ".r3d"@)
    ||| has_suffix(ascii_lower(name), ".raf"@)
    ||| has_suffix(ascii_lower(name), ".raw"@)
    ||| has_suffix(ascii_lower(name), ".rw2"@)
    ||| has_suffix(ascii_lower(name), ".rwl"@)
    ||| has_suffix(ascii_lower(name), ".rwz"@)
    ||| has_suffix(ascii_lower(name), ".sr2"@)
    ||| has_suffix(ascii_lower(name), ".srf"@)
    ||| has_suffix(ascii_lower(name), ".srw"@)
    ||| has_suffix(ascii_lower(name), ".x3f"@)
}

/// The name, folded to ASCII lowercase, ends in one of the recognized
/// common-image extensions.
pub open spec fn has_common_image_extension(name: Seq<char>) -> bool {
    ||| has_suffix(ascii_lower(name), ".fpx"@)
    ||| has_suffix(ascii_lower(name), ".gif"@)
    ||| has_suffix(ascii_lower(name), ".j2k"@)
    ||| has_suffix(ascii_lower(name), ".jfif"@)
    ||| has_suffix(ascii_lower(name), ".jif"@)
    ||| has_suffix(ascii_lower(name), ".jp2"@)
    ||| has_suffix(ascii_lower(name), ".jpeg"@)
    ||| has_suffix(ascii_lower(name), ".jpg"@)
    ||| has_suffix(ascii_lower(name), ".jpx"@)
    ||| has_suffix(ascii_lower(name), ".pcd"@)
    ||| has_suffix(ascii_lower(name), ".psd"@)
    ||| has_suffix(ascii_lower(name), ".tif"@)
    ||| has_suffix(ascii_lower(name), ".tiff"@)
}

/// The name, folded to ASCII lowercase, ends in one of the recognized movie
/// container extensions.
pub open spec fn has_movie_extension(name: Seq<char>) -> bool {
    ||| has_suffix(ascii_lower(name), ".264"@)
    ||| has_suffix(ascii_lower(name), ".3g2"@)
    ||| has_suffix(ascii_lower(name), ".3gp"@)
    ||| has_suffix(ascii_lower(name), ".amv"@)
    ||| has_suffix(ascii_lower(name), ".asf"@)
    ||| has_suffix(ascii_lower(name), ".avi"@)
    ||| has_suffix(ascii_lower(name), ".cine"@)
    ||| has_suffix(ascii_lower(name), ".drc"@)
    ||| has_suffix(ascii_lower(name), ".f4a"@)
    ||| has_suffix(ascii_lower(name), ".f4b"@)
    ||| has_suffix(ascii_lower(name), ".f4p"@)
    ||| has_suffix(ascii_lower(name), ".f4v"@)
    ||| has_suffix(ascii_lower(name), ".flv"@)
    ||| has_suffix(ascii_lower(name), ".gifv"@)
    ||| has_suffix(ascii_lower(name), ".m2ts"@)
    ||| has_suffix(ascii_lower(name), ".m2v"@)
    ||| has_suffix(ascii_lower(name), ".m4p"@)
    ||| has_suffix(ascii_lower(name), ".m4v"@)
    ||| has_suffix(ascii_lower(name), ".mkv"@)
    ||| has_suffix(ascii_lower(name), ".mng"@)
    ||| has_suffix(ascii_lower(name), ".mp4"@)
    ||| has_suffix(ascii_lower(name), ".mpeg"@)
    ||| has_suffix(ascii_lower(name), ".mpg"@)
    ||| has_suffix(ascii_lower(name), ".mts"@)
    ||| has_suffix(ascii_lower(name), ".mxf"@)
    ||| has_suffix(ascii_lower(name), ".nsv"@)
    ||| has_suffix(ascii_lower(name), ".ogg"@)
    ||| has_suffix(ascii_lower(name), ".qt"@)
    ||| has_suffix(ascii_lower(name), ".roq"@)
    ||| has_suffix(ascii_lower(name), ".svi"@)
    ||| has_suffix(ascii_lower(name), ".vob"@)
    ||| has_suffix(ascii_lower(name), ".wmv"@)
    ||| has_suffix(ascii_lower(name), ".yuv"@)
}

/// A filesystem entry name designates a recognized media type: its ASCII
/// lowercase folding ends in a dot followed by one of the built-in raw-image,
/// common-image or movie extensions.
pub open spec fn is_media_name(name: Seq<char>) -> bool {
    has_raw_extension(name) || has_common_image_extension(name) || has_movie_extension(name)
}

/// Case-insensitive, exact-suffix media classification of an entry name.
/// Unknown or missing extensions classify as not media.
#[verifier::rlimit(30)]
pub fn has_image_extension(name: &str) -> (r: bool)
    ensures
        r == is_media_name(name@),
{
    let raw = ends_with_fold(name, ".3fr") || ends_with_fold(name, ".ari") || ends_with_fold(
        name,
        ".arw",
    ) || ends_with_fold(name, ".bay") || ends_with_fold(name, ".cap") || ends_with_fold(
        name,
        ".cr2",
    ) || ends_with_fold(name, ".cr3") || ends_with_fold(name, ".crw") || ends_with_fold(
        name,
        ".data",
    ) || ends_with_fold(name, ".dcr") || ends_with_fold(name, ".dcs") || ends_with_fold(
        name,
        ".dng",
    ) || ends_with_fold(name, ".drf") || ends_with_fold(name, ".eip") || ends_with_fold(
        name,
        ".erf",
    ) || ends_with_fold(name, ".fff") || ends_with_fold(name, ".gpr") || ends_with_fold(
        name,
        ".iiq",
    ) || ends_with_fold(name, ".k25") || ends_with_fold(name, ".kdc") || ends_with_fold(
        name,
        ".mdc",
    ) || ends_with_fold(name, ".mef") || ends_with_fold(name, ".mos") || ends_with_fold(
        name,
        ".mrw",
    ) || ends_with_fold(name, ".nef") || ends_with_fold(name, ".nrw") || ends_with_fold(
        name,
        ".obm",
    ) || ends_with_fold(name, ".orf") || ends_with_fold(name, ".pef") || ends_with_fold(
        name,
        ".ptx",
    ) || ends_with_fold(name, ".pxn") || ends_with_fold(name, ".r3d") || ends_with_fold(
        name,
        ".raf",
    ) || ends_with_fold(name, ".raw") || ends_with_fold(name, ".rw2") || ends_with_fold(
        name,
        ".rwl",
    ) || ends_with_fold(name, ".rwz") || ends_with_fold(name, ".sr2") || ends_with_fold(
        name,
        ".srf",
    ) || ends_with_fold(name, ".srw") || ends_with_fold(name, ".x3f");
    if raw {
        return true;
    }
    let image = ends_with_fold(name, ".fpx") || ends_with_fold(name, ".gif") || ends_with_fold(
        name,
        ".j2k",
    ) || ends_with_fold(name, ".jfif") || ends_with_fold(name, ".jif") || ends_with_fold(
        name,
        ".jp2",
    ) || ends_with_fold(name, ".jpeg") || ends_with_fold(name, ".jpg") || ends_with_fold(
        name,
        ".jpx",
    ) || ends_with_fold(name, ".pcd") || ends_with_fold(name, ".psd") || ends_with_fold(
        name,
        ".tif",
    ) || ends_with_fold(name, ".tiff");
    if image {
        return true;
    }
    let movie = ends_with_fold(name, ".264") || ends_with_fold(name, ".3g2") || ends_with_fold(
        name,
        ".3gp",
    ) || ends_with_fold(name, ".amv") || ends_with_fold(name, ".asf") || ends_with_fold(
        name,
        ".avi",
    ) || ends_with_fold(name, ".cine") || ends_with_fold(name, ".drc") || ends_with_fold(
        name,
        ".f4a",
    ) || ends_with_fold(name, ".f4b") || ends_with_fold(name, ".f4p") || ends_with_fold(
        name,
        ".f4v",
    ) || ends_with_fold(name, ".flv") || ends_with_fold(name, ".gifv") || ends_with_fold(
        name,
        ".m2ts",
    ) || ends_with_fold(name, ".m2v") || ends_with_fold(name, ".m4p") || ends_with_fold(
        name,
        ".m4v",
    ) || ends_with_fold(name, ".mkv") || ends_with_fold(name, ".mng") || ends_with_fold(
        name,
        ".mp4",
    ) || ends_with_fold(name, ".mpeg") || ends_with_fold(name, ".mpg") || ends_with_fold(
        name,
        ".mts",
    ) || ends_with_fold(name, ".mxf") || ends_with_fold(name, ".nsv") || ends_with_fold(
        name,
        ".ogg",
    ) || ends_with_fold(name, ".qt") || ends_with_fold(name, ".roq") || ends_with_fold(
        name,
        ".svi",
    ) || ends_with_fold(name, ".vob") || ends_with_fold(name, ".wmv") || ends_with_fold(
        name,
        ".yuv",
    );
    movie
}

/// Classification is case-insensitive: two names with the same ASCII
/// lowercase folding classify alike.
pub proof fn lemma_classification_case_insensitive(a: Seq<char>, b: Seq<char>)
    requires
        ascii_lower(a) == ascii_lower(b),
    ensures
        is_media_name(a) == is_media_name(b),
{
}

/// The hidden-entry rule of the walker: the walk's root itself (depth zero)
/// is never hidden; any deeper entry is hidden exactly when its name starts
/// with a dot.
pub open spec fn spec_is_not_hidden(name: Seq<char>, depth: int) -> bool {
    depth == 0 || !(name.len() > 0 && name[0] == '.')
}

pub fn is_not_hidden(name: &str, depth: usize) -> (r: bool)
    ensures
        r == spec_is_not_hidden(name@, depth as int),
{
    if depth == 0 {
        return true;
    }
    let n: usize = name.unicode_len();
    if n == 0 {
        return true;
    }
    name.get_char(0) != '.'
}

} // verus!
