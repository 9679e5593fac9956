//! Classification of a URL by the extension of the file it names.

use vstd::prelude::*;
use crate::text::{after_last, after_last_char};

verus! {

/// What a URL points at, as far as its extension tells.
#[derive(Clone, Copy, Debug, PartialEq, Eq, Structural)]
pub enum ContentKind {
    /// An image, a video or a sound, embedded in the markdown.
    Media,
    /// A document or an archive, linked from the markdown.
    Downloadable,
    /// Anything else: linked at its remote address, never mirrored.
    PlainLink,
}

/// The extension of a URL: what follows its last `.`, or the whole URL when
/// it holds none.
pub open spec fn extension(url: Seq<char>) -> Seq<char> {
    after_last(url, '.')
}

/// Extensions of files that are embedded as media.
pub open spec fn media_extensions() -> Seq<Seq<char>> {
    seq![
        "png"@, "jpg"@, "jpeg"@, "gif"@, "gifv"@, "mov"@, "qt"@, "svg"@, "mp4"@, "m4v"@,
        "mpv"@, "mpg"@, "mpeg"@, "mp2"@, "3gp"@, "3gp2"@, "mpe"@, "webm"@, "mkv"@, "wmv"@,
        "wav"@, "flv"@, "avi"@, "ogv"@, "flac"@, "ape"@, "mp3"@, "m4a"@, "opus"@, "aac"@,
        "m4b"@, "ogg"@, "oga"@, "raw"@,
    ]
}

/// Extensions of documents and archives that are linked as downloads.
pub open spec fn downloadable_extensions() -> Seq<Seq<char>> {
    seq![
        "pdf"@, "md"@, "txt"@, "epub"@, "mobi"@, "djvu"@, "doc"@, "docx"@, "fb2"@, "azw"@,
        "azw3"@, "kf8"@, "kfx"@, "prc"@, "cbr"@, "torrent"@, "iso"@, "tar"@, "gz"@, "bz2"@,
        "lz"@, "lz4"@, "lzma"@, "lzo"@, "bz"@, "Z"@, "tbz2"@, "tlz"@, "rz"@, "xz"@, "zst"@,
        "txz"@, "zip"@, "7z"@, "ace"@, "apk"@, "arc"@, "ark"@, "dmg"@, "jar"@, "rar"@,
    ]
}

pub open spec fn is_media_url(url: Seq<char>) -> bool {
    media_extensions().contains(extension(url))
}

pub open spec fn is_downloadable_url(url: Seq<char>) -> bool {
    downloadable_extensions().contains(extension(url))
}

/// The kind of a URL: media first, then downloadable, else a plain link.
pub open spec fn kind_of(url: Seq<char>) -> ContentKind {
    if is_media_url(url) {
        ContentKind::Media
    } else if is_downloadable_url(url) {
        ContentKind::Downloadable
    } else {
        ContentKind::PlainLink
    }
}

pub open spec fn str_views(v: Seq<&str>) -> Seq<Seq<char>> {
    v.map_values(|e: &str| e@)
}

/// Whether the extension of `url` is, exactly and case for case, one of
/// `extensions`.
fn matches_file_extensions(url: &str, extensions: &Vec<&str>) -> (r: bool)
    ensures
        r == str_views(extensions@).contains(extension(url@)),
{
    let ext = after_last_char(url, '.');
    let mut i: usize = 0;
    while i < extensions.len()
        invariant
            ext@ == extension(url@),
            i <= extensions.len(),
            forall|k: int| 0 <= k < i ==> extensions@[k]@ != ext@,
        decreases extensions.len() - i,
    {
        let candidate = String::from_str(extensions[i]);
        if candidate == ext {
            assert(str_views(extensions@)[i as int] == ext@);
            return true;
        }
        i = i + 1;
    }
    assert(!str_views(extensions@).contains(ext@));
    false
}

/// Whether `url` names a media file (an image, a video or a sound).
pub fn is_media_file_url(url: &str) -> (r: bool)
    ensures
        r == is_media_url(url@),
{
    let extensions = vec![
        "png", "jpg", "jpeg", "gif", "gifv", "mov", "qt", "svg", "mp4", "m4v",
        "mpv", "mpg", "mpeg", "mp2", "3gp", "3gp2", "mpe", "webm", "mkv", "wmv",
        "wav", "flv", "avi", "ogv", "flac", "ape", "mp3", "m4a", "opus", "aac",
        "m4b", "ogg", "oga", "raw",
    ];
    assert(str_views(extensions@) =~= media_extensions());
    matches_file_extensions(url, &extensions)
}

/// Whether `url` names a document or an archive that is worth mirroring.
pub fn is_downloadable_file_url(url: &str) -> (r: bool)
    ensures
        r == is_downloadable_url(url@),
{
    let extensions = vec![
        "pdf", "md", "txt", "epub", "mobi", "djvu", "doc", "docx", "fb2", "azw",
        "azw3", "kf8", "kfx", "prc", "cbr", "torrent", "iso", "tar", "gz", "bz2",
        "lz", "lz4", "lzma", "lzo", "bz", "Z", "tbz2", "tlz", "rz", "xz", "zst",
        "txz", "zip", "7z", "ace", "apk", "arc", "ark", "dmg", "jar", "rar",
    ];
    assert(str_views(extensions@) =~= downloadable_extensions());
    matches_file_extensions(url, &extensions)
}

/// The kind of `url`, from its extension alone.
pub fn classify(url: &str) -> (r: ContentKind)
    ensures
        r == kind_of(url@),
{
    if is_media_file_url(url) {
        ContentKind::Media
    } else if is_downloadable_file_url(url) {
        ContentKind::Downloadable
    } else {
        ContentKind::PlainLink
    }
}

} // verus!
