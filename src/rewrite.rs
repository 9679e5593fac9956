//! Rewriting of links: a URL segment becomes a markdown token, and the first
//! `[label](url)` of a rendered markdown line gets its URL replaced by the
//! mirrored path.

use vstd::prelude::*;
use crate::archive::{file_name, get_file_name, opt_view};
use crate::extensions::{classify, kind_of, ContentKind};
use crate::archive::published_path;
use crate::text::{find_char, first_index_of, lemma_first_index_unique};

verus! {

/// One unit of a message body, in order.
#[derive(Clone, Debug)]
pub enum ContentSegment {
    /// Text, kept as it is.
    Text(String),
    /// A URL, rewritten into a markdown token.
    UrlReference(String),
}

/// The markdown token for `url`, given the outcome of its mirror (`None` when
/// it was not mirrored or the mirror failed).
///
/// Media become an image of the local copy, downloads a link to it; either is
/// dropped when the mirror failed. Any other URL is linked where it is.
pub open spec fn rewrite_url(url: Seq<char>, mirrored: Option<Seq<char>>) -> Seq<char> {
    match kind_of(url) {
        ContentKind::Media => match mirrored {
            Some(path) => "!["@ + file_name(url) + "]("@ + path + ")"@,
            None => Seq::empty(),
        },
        ContentKind::Downloadable => match mirrored {
            Some(path) => "["@ + file_name(url) + "]("@ + path + ")"@,
            None => Seq::empty(),
        },
        ContentKind::PlainLink => "["@ + file_name(url) + "]("@ + url + ")"@,
    }
}

/// The markdown that a segment contributes to a body.
pub open spec fn render_segment(segment: ContentSegment, mirrored: Option<Seq<char>>) -> Seq<char> {
    match segment {
        ContentSegment::Text(t) => t@,
        ContentSegment::UrlReference(url) => rewrite_url(url@, mirrored),
    }
}

/// Whether `url` is one that gets mirrored before it is rewritten.
pub open spec fn wants_mirror(url: Seq<char>) -> bool {
    kind_of(url) != ContentKind::PlainLink
}

/// Whether `line` holds a link that can be rewritten: a `]` and a `)` each
/// followed by at least one more character, with room for `](` between them.
pub open spec fn link_found(line: Seq<char>) -> bool {
    let b = first_index_of(line, ']');
    let p = first_index_of(line, ')');
    &&& b >= 0
    &&& b + 2 <= line.len()
    &&& p >= 0
    &&& p + 2 <= line.len()
    &&& b + 2 <= p
}

/// The URL of the link in `line`: what lies between `](` and `)`.
pub open spec fn link_url(line: Seq<char>) -> Seq<char> {
    line.subrange(first_index_of(line, ']') + 2, first_index_of(line, ')'))
}

/// `line` with the URL of its link replaced by `path`.
pub open spec fn relink(line: Seq<char>, path: Seq<char>) -> Seq<char> {
    let b = first_index_of(line, ']');
    let p = first_index_of(line, ')');
    line.subrange(0, b) + "]("@ + path + ")"@ + line.subrange(p + 1, line.len() as int)
}

/// A markdown line after the rewrite of its link: relinked to the mirror when
/// it holds a link whose mirror succeeded, else unchanged.
pub open spec fn rewrite_line(line: Seq<char>, mirrored: Option<Seq<char>>) -> Seq<char> {
    if link_found(line) {
        match mirrored {
            Some(path) => relink(line, path),
            None => line,
        }
    } else {
        line
    }
}

/// Whether `url` is to be mirrored before it is rewritten.
pub fn needs_mirror(url: &str) -> (r: bool)
    ensures
        r == wants_mirror(url@),
{
    match classify(url) {
        ContentKind::PlainLink => false,
        _ => true,
    }
}

/// The markdown token for `url`, given the outcome of its mirror.
pub fn download_and_convert_to_markdown(url: &str, mirrored: &Option<String>) -> (r: ContentSegment)
    ensures
        r is Text,
        r->Text_0@ == rewrite_url(url@, opt_view(*mirrored)),
{
    let kind = classify(url);
    let name = get_file_name(url);
    match kind {
        ContentKind::Media => match mirrored {
            Some(path) => {
                let mut token = String::from_str("![");
                token.append(name.as_str());
                token.append("](");
                token.append(path.as_str());
                token.append(")");
                ContentSegment::Text(token)
            },
            None => ContentSegment::Text(String::new()),
        },
        ContentKind::Downloadable => match mirrored {
            Some(path) => {
                let mut token = String::from_str("[");
                token.append(name.as_str());
                token.append("](");
                token.append(path.as_str());
                token.append(")");
                ContentSegment::Text(token)
            },
            None => ContentSegment::Text(String::new()),
        },
        ContentKind::PlainLink => {
            let mut token = String::from_str("[");
            token.append(name.as_str());
            token.append("](");
            token.append(url);
            token.append(")");
            ContentSegment::Text(token)
        },
    }
}

/// The markdown that `segment` contributes to a body.
pub fn render_content_segment(segment: &ContentSegment, mirrored: &Option<String>) -> (r: String)
    ensures
        r@ == render_segment(*segment, opt_view(*mirrored)),
{
    match segment {
        ContentSegment::Text(t) => t.clone(),
        ContentSegment::UrlReference(url) => match download_and_convert_to_markdown(url.as_str(), mirrored) {
            ContentSegment::Text(t) => t,
            ContentSegment::UrlReference(u) => u,
        },
    }
}

/// Positions of the first `]` and the first `)` of `line`, when it holds a
/// link that can be rewritten.
fn link_bounds(line: &str) -> (r: Option<(usize, usize)>)
    ensures
        r is Some <==> link_found(line@),
        match r {
            Some((b, p)) => b as int == first_index_of(line@, ']') && p as int == first_index_of(
                line@,
                ')',
            ),
            None => true,
        },
{
    let n = line.unicode_len();
    match find_char(line, ']') {
        None => None,
        Some(b) => {
            if n - b < 2 {
                return None;
            }
            match find_char(line, ')') {
                None => None,
                Some(p) => {
                    if n - p < 2 || p < b || p - b < 2 {
                        None
                    } else {
                        Some((b, p))
                    }
                },
            }
        },
    }
}

/// The URL of the first link of a rendered markdown line, if it holds one.
pub fn link_in_markdown_string(markdown: &str) -> (r: Option<String>)
    ensures
        r is Some <==> link_found(markdown@),
        r is Some ==> r->0@ == link_url(markdown@),
{
    match link_bounds(markdown) {
        Some((b, p)) => Some(String::from_str(markdown.substring_char(b + 2, p))),
        None => None,
    }
}

/// A rendered markdown line with the URL of its first link replaced by the
/// mirrored path; unchanged when it holds no link or the mirror failed.
pub fn parse_link_in_markdown_string(markdown: &str, mirrored: &Option<String>) -> (r: String)
    ensures
        r@ == rewrite_line(markdown@, opt_view(*mirrored)),
{
    let n = markdown.unicode_len();
    match link_bounds(markdown) {
        Some((b, p)) => match mirrored {
            Some(path) => {
                let mut line = String::from_str(markdown.substring_char(0, b));
                line.append("](");
                line.append(path.as_str());
                line.append(")");
                line.append(markdown.substring_char(p + 1, n));
                line
            },
            None => String::from_str(markdown),
        },
        None => String::from_str(markdown),
    }
}

/// A line `<pre>](<url>)<post>`, whose `pre` holds neither `]` nor `)`,
/// whose `url` holds no `)` and whose `post` is not empty, has `url` as its
/// link. A successful mirror relinks it to the published path with `pre` and
/// `post` kept as they are; a failed one leaves it as it was.
pub proof fn lemma_rewrite_line_round_trip(pre: Seq<char>, url: Seq<char>, post: Seq<char>)
    requires
        forall|k: int| 0 <= k < pre.len() ==> pre[k] != ']' && pre[k] != ')',
        forall|k: int| 0 <= k < url.len() ==> url[k] != ')',
        post.len() > 0,
    ensures
        link_found(pre + "]("@ + url + ")"@ + post),
        link_url(pre + "]("@ + url + ")"@ + post) == url,
        rewrite_line(pre + "]("@ + url + ")"@ + post, Some(published_path(url))) == pre + "]("@
            + published_path(url) + ")"@ + post,
        rewrite_line(pre + "]("@ + url + ")"@ + post, None) == pre + "]("@ + url + ")"@ + post,
{
    reveal_strlit("](");
    reveal_strlit(")");
    let line = pre + "]("@ + url + ")"@ + post;
    let b = pre.len() as int;
    let p = b + 2 + url.len();
    assert(line[b] == ']');
    assert forall|k: int| 0 <= k < b implies line[k] != ']' by {
        assert(line[k] == pre[k]);
    }
    lemma_first_index_unique(line, ']', b);
    assert(line[p] == ')');
    assert forall|k: int| 0 <= k < p implies line[k] != ')' by {
        if k < b {
            assert(line[k] == pre[k]);
        } else if k >= b + 2 {
            assert(line[k] == url[k - b - 2]);
        }
    }
    lemma_first_index_unique(line, ')', p);
    assert(line.subrange(b + 2, p) =~= url);
    assert(line.subrange(0, b) =~= pre);
    assert(line.subrange(p + 1, line.len() as int) =~= post);
}

/// A line with no `)`, or whose only `]` is its last character, is left as
/// it is whatever the mirror gave.
pub proof fn lemma_rewrite_line_without_link(line: Seq<char>, mirrored: Option<Seq<char>>)
    requires
        (forall|k: int| 0 <= k < line.len() ==> line[k] != ')') || (line.len() > 0 && line.last()
            == ']' && forall|k: int| 0 <= k < line.len() - 1 ==> line[k] != ']'),
    ensures
        !link_found(line),
        rewrite_line(line, mirrored) == line,
{
    if line.len() > 0 && line.last() == ']' && forall|k: int| 0 <= k < line.len() - 1 ==> line[k]
        != ']' {
        lemma_first_index_unique(line, ']', line.len() - 1);
    } else {
        let p = first_index_of(line, ')');
        if p >= 0 {
            assert(line[p] == ')');
        }
    }
}

} // verus!
