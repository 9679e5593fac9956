//! Where an archive lives on disk, where mirrored files go, and what a mirror
//! of one URL yields.
//!
//! The existence check, the download and the write happen outside the
//! library; their outcomes come back here as booleans.

use vstd::prelude::*;
use crate::text::{after_last, after_last_char};
pub use crate::extensions::{is_downloadable_file_url, is_media_file_url};

verus! {

/// The settings that shape an archive: the resource (`arg_ship`, `arg_name`)
/// and an optional output directory (`flag_output`, empty when not given).
#[derive(Clone, Debug)]
pub struct Args {
    pub cmd_chat: bool,
    pub cmd_notebook: bool,
    pub arg_ship: String,
    pub arg_name: String,
    pub flag_config: String,
    pub flag_output: String,
}

/// A ship's name without its leading sigil (its first character).
pub open spec fn ship_label(ship: Seq<char>) -> Seq<char> {
    if ship.len() > 0 {
        ship.drop_first()
    } else {
        ship
    }
}

/// The archive root: the output directory when one is given, else
/// `<ship without sigil>-<name>`.
pub open spec fn root_dir(args: Args) -> Seq<char> {
    if args.flag_output@.len() > 0 {
        args.flag_output@
    } else {
        ship_label(args.arg_ship@) + "-"@ + args.arg_name@
    }
}

/// The directory that holds the mirrored files: `<root>/archived-content`.
pub open spec fn content_dir(args: Args) -> Seq<char> {
    root_dir(args) + "/"@ + "archived-content"@
}

/// The local name of a mirrored URL: what follows its last `/`, or the whole
/// URL when it holds none.
pub open spec fn file_name(url: Seq<char>) -> Seq<char> {
    after_last(url, '/')
}

/// Where the mirror of `url` is stored on disk.
pub open spec fn download_path_of(args: Args, url: Seq<char>) -> Seq<char> {
    content_dir(args) + "/"@ + file_name(url)
}

/// How a mirrored file is referred to from the markdown, relative to the root.
pub open spec fn published_path(url: Seq<char>) -> Seq<char> {
    "archived-content/"@ + file_name(url)
}

/// The outcome of mirroring `url`: a file already on disk is taken as it is;
/// otherwise the path is published only when the fetch succeeded.
pub open spec fn mirror_outcome(url: Seq<char>, already_present: bool, fetch_succeeded: bool) -> Option<Seq<char>> {
    if already_present || fetch_succeeded {
        Some(published_path(url))
    } else {
        None
    }
}

/// Whether mirroring `url` against a content directory that holds the files
/// `present` goes to the network.
pub open spec fn fetches(present: Set<Seq<char>>, url: Seq<char>) -> bool {
    !present.contains(file_name(url))
}

/// The files in the content directory after mirroring `url`.
pub open spec fn present_after(present: Set<Seq<char>>, url: Seq<char>, fetch_succeeded: bool) -> Set<Seq<char>> {
    if fetches(present, url) && !fetch_succeeded {
        present
    } else {
        present.insert(file_name(url))
    }
}

/// The outcome of mirroring `url` against a content directory holding `present`.
pub open spec fn mirror_in(present: Set<Seq<char>>, url: Seq<char>, fetch_succeeded: bool) -> Option<Seq<char>> {
    mirror_outcome(url, present.contains(file_name(url)), fetch_succeeded)
}

pub open spec fn opt_view(o: Option<String>) -> Option<Seq<char>> {
    match o {
        Some(s) => Some(s@),
        None => None,
    }
}

/// The name of the archive root for `args`.
pub fn get_root_dir(args: &Args) -> (r: String)
    ensures
        r@ == root_dir(*args),
{
    if args.flag_output.unicode_len() > 0 {
        return args.flag_output.clone();
    }
    let ship = args.arg_ship.as_str();
    let n = ship.unicode_len();
    let mut path = if n > 0 {
        String::from_str(ship.substring_char(1, n))
    } else {
        String::new()
    };
    assert(path@ == ship_label(args.arg_ship@));
    path.append("-");
    path.append(args.arg_name.as_str());
    path
}

/// The content directory for `args`: `<root>/archived-content`.
pub fn get_content_dir(args: &Args) -> (r: String)
    ensures
        r@ == content_dir(*args),
{
    let mut dir = get_root_dir(args);
    dir.append("/");
    dir.append("archived-content");
    dir
}

/// The local file name for `url`.
pub fn get_file_name(url: &str) -> (r: String)
    ensures
        r@ == file_name(url@),
{
    after_last_char(url, '/')
}

/// Where the mirror of `url` is stored on disk: `<content dir>/<file name>`.
pub fn download_path(args: &Args, url: &str) -> (r: String)
    ensures
        r@ == download_path_of(*args, url@),
{
    let mut path = get_content_dir(args);
    path.append("/");
    let name = get_file_name(url);
    path.append(name.as_str());
    path
}

/// The path under which the mirror of `url` is published, given whether its
/// file was already on disk and, if it was not, whether the fetch succeeded.
/// A file already on disk is never fetched again nor overwritten.
pub fn download_file(url: &str, already_present: bool, fetch_succeeded: bool) -> (r: Option<String>)
    ensures
        opt_view(r) == mirror_outcome(url@, already_present, fetch_succeeded),
{
    if already_present || fetch_succeeded {
        let mut path = String::from_str("archived-content/");
        let name = get_file_name(url);
        path.append(name.as_str());
        Some(path)
    } else {
        None
    }
}

/// The markdown file of the archive: `<root>/<ship without sigil>-<name>.md`.
pub open spec fn export_file(args: Args) -> Seq<char> {
    root_dir(args) + "/"@ + ship_label(args.arg_ship@) + "-"@ + args.arg_name@ + ".md"@
}

/// The first line of the archive's markdown file: `# <ship>/<name> Archive `.
pub open spec fn export_heading(args: Args) -> Seq<char> {
    "# "@ + args.arg_ship@ + "/"@ + args.arg_name@ + " Archive "@
}

/// The path of the archive's markdown file.
pub fn export_file_path(args: &Args) -> (r: String)
    ensures
        r@ == export_file(*args),
{
    let mut path = get_root_dir(args);
    path.append("/");
    let ship = args.arg_ship.as_str();
    let n = ship.unicode_len();
    if n > 0 {
        path.append(ship.substring_char(1, n));
    }
    assert(path@ == root_dir(*args) + "/"@ + ship_label(args.arg_ship@));
    path.append("-");
    path.append(args.arg_name.as_str());
    path.append(".md");
    path
}

/// The heading line of the archive's markdown file.
pub fn export_header(args: &Args) -> (r: String)
    ensures
        r@ == export_heading(*args),
{
    let mut line = String::from_str("# ");
    line.append(args.arg_ship.as_str());
    line.append("/");
    line.append(args.arg_name.as_str());
    line.append(" Archive ");
    line
}

/// Mirroring a URL a second time, once a first mirror of it succeeded, goes
/// to no network and publishes the same path.
pub proof fn lemma_mirror_idempotent(present: Set<Seq<char>>, url: Seq<char>, first_ok: bool, second_ok: bool)
    requires
        mirror_in(present, url, first_ok) is Some,
    ensures
        !fetches(present_after(present, url, first_ok), url),
        mirror_in(present_after(present, url, first_ok), url, second_ok) == mirror_in(present, url, first_ok),
{
}

/// Two URLs with the same final path segment share one mirrored file: once
/// the first is mirrored, the second is not fetched and resolves to the same
/// published path.
pub proof fn lemma_shared_file_name(
    present: Set<Seq<char>>,
    first: Seq<char>,
    second: Seq<char>,
    first_ok: bool,
    second_ok: bool,
)
    requires
        file_name(first) == file_name(second),
        mirror_in(present, first, first_ok) is Some,
    ensures
        !fetches(present_after(present, first, first_ok), second),
        mirror_in(present_after(present, first, first_ok), second, second_ok) == mirror_in(present, first, first_ok),
{
}

} // verus!
