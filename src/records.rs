//! Assembly of records into markdown: a message becomes one line, a note a
//! heading, an authorship line, its body, its comments and a closing rule.
//!
//! Each URL segment comes with the outcome of its mirror, at the same
//! position (`None` for text, for plain links and for failed mirrors); each
//! body line of a note comes with the outcome of the mirror of its link.

use vstd::prelude::*;
use crate::archive::opt_view;
use crate::rewrite::{
    parse_link_in_markdown_string, render_content_segment, render_segment, rewrite_line,
    ContentSegment,
};

verus! {

/// A chat message or a comment: who sent it, when, and its body.
#[derive(Clone, Debug)]
pub struct AuthoredRecord {
    pub author: String,
    pub time_sent: String,
    pub segments: Vec<ContentSegment>,
}

/// A notebook post: its title, who wrote it and when, its body as rendered
/// markdown lines, and its comments in order.
#[derive(Clone, Debug)]
pub struct Note {
    pub title: String,
    pub author: String,
    pub time_sent: String,
    pub lines: Vec<String>,
    pub comments: Vec<AuthoredRecord>,
}

pub open spec fn views(v: Seq<String>) -> Seq<Seq<char>> {
    v.map_values(|s: String| s@)
}

pub proof fn lemma_views_push(v: Seq<String>, s: String)
    ensures
        views(v.push(s)) == views(v).push(s@),
{
    assert(views(v.push(s)) =~= views(v).push(s@));
}

/// The first `n` segments rendered and concatenated, with no separator.
pub open spec fn render_prefix(segments: Seq<ContentSegment>, mirrored: Seq<Option<String>>, n: int) -> Seq<char>
    decreases n,
{
    if n <= 0 {
        Seq::empty()
    } else {
        render_prefix(segments, mirrored, n - 1) + render_segment(segments[n - 1], opt_view(mirrored[n - 1]))
    }
}

/// A body: all its segments rendered, in order.
pub open spec fn render_body(segments: Seq<ContentSegment>, mirrored: Seq<Option<String>>) -> Seq<char> {
    render_prefix(segments, mirrored, segments.len() as int)
}

/// The markdown line of a message: `_<time>_ - **<author>**:<body>  `.
pub open spec fn record_line(record: AuthoredRecord, mirrored: Seq<Option<String>>) -> Seq<char> {
    "_"@ + record.time_sent@ + "_ - **"@ + record.author@ + "**:"@ + render_body(record.segments@, mirrored)
        + "  "@
}

/// One outcome per segment of each comment.
pub open spec fn mirrors_fit(comments: Seq<AuthoredRecord>, mirrored: Seq<Vec<Option<String>>>) -> bool {
    &&& mirrored.len() == comments.len()
    &&& forall|i: int| 0 <= i < comments.len() ==> #[trigger] mirrored[i]@.len() == comments[i].segments@.len()
}

/// The lines of the comments, one per comment, in order.
pub open spec fn comment_lines(comments: Seq<AuthoredRecord>, mirrored: Seq<Vec<Option<String>>>) -> Seq<Seq<char>> {
    Seq::new(comments.len(), |i: int| record_line(comments[i], mirrored[i]@))
}

/// The body lines of a note, each with its link rewritten.
pub open spec fn body_lines(lines: Seq<String>, mirrored: Seq<Option<String>>) -> Seq<Seq<char>> {
    Seq::new(lines.len(), |i: int| rewrite_line(lines[i]@, opt_view(mirrored[i])))
}

/// The heading of the comments, present only when there are comments.
pub open spec fn comments_heading(comments: Seq<AuthoredRecord>) -> Seq<Seq<char>> {
    if comments.len() > 0 {
        seq!["## Comments"@]
    } else {
        Seq::empty()
    }
}

/// The markdown lines of a note.
pub open spec fn note_lines(
    note: Note,
    line_mirrors: Seq<Option<String>>,
    comment_mirrors: Seq<Vec<Option<String>>>,
) -> Seq<Seq<char>> {
    seq!["# "@ + note.title@, "##### "@ + note.time_sent@ + " - "@ + note.author@]
        + body_lines(note.lines@, line_mirrors)
        + comments_heading(note.comments@)
        + comment_lines(note.comments@, comment_mirrors)
        + seq!["  "@, "-----"@]
}

/// The body of `message`: its segments rendered and concatenated in order.
pub fn message_to_markdown_string(message: &AuthoredRecord, mirrored: &Vec<Option<String>>) -> (r: String)
    requires
        mirrored@.len() == message.segments@.len(),
    ensures
        r@ == render_body(message.segments@, mirrored@),
{
    let mut body = String::new();
    let mut i: usize = 0;
    while i < message.segments.len()
        invariant
            mirrored@.len() == message.segments@.len(),
            i <= message.segments@.len(),
            body@ == render_prefix(message.segments@, mirrored@, i as int),
        decreases message.segments@.len() - i,
    {
        let piece = render_content_segment(&message.segments[i], &mirrored[i]);
        body.append(piece.as_str());
        i = i + 1;
    }
    body
}

/// The markdown line of `message`: `_<time>_ - **<author>**:<body>  `.
pub fn message_to_markdown_line(message: &AuthoredRecord, mirrored: &Vec<Option<String>>) -> (r: String)
    requires
        mirrored@.len() == message.segments@.len(),
    ensures
        r@ == record_line(*message, mirrored@),
{
    let body = message_to_markdown_string(message, mirrored);
    let mut line = String::from_str("_");
    line.append(message.time_sent.as_str());
    line.append("_ - **");
    line.append(message.author.as_str());
    line.append("**:");
    line.append(body.as_str());
    line.append("  ");
    line
}

/// The markdown lines of `comments`, one per comment, in order.
pub fn comments_to_markdown_strings(comments: &Vec<AuthoredRecord>, mirrored: &Vec<Vec<Option<String>>>) -> (r: Vec<String>)
    requires
        mirrors_fit(comments@, mirrored@),
    ensures
        views(r@) == comment_lines(comments@, mirrored@),
{
    let mut lines: Vec<String> = Vec::new();
    let mut i: usize = 0;
    while i < comments.len()
        invariant
            mirrors_fit(comments@, mirrored@),
            i <= comments@.len(),
            views(lines@) =~= comment_lines(comments@, mirrored@).take(i as int),
        decreases comments@.len() - i,
    {
        assert(mirrored@[i as int]@.len() == comments@[i as int].segments@.len());
        let line = message_to_markdown_line(&comments[i], &mirrored[i]);
        proof {
            lemma_views_push(lines@, line);
        }
        lines.push(line);
        i = i + 1;
    }
    lines
}

/// The markdown lines of `note`: a title heading, an authorship line, the
/// body lines with their links rewritten, a comments heading when there are
/// comments, one line per comment, then a blank line and a rule.
pub fn note_to_markdown_strings(
    note: &Note,
    line_mirrors: &Vec<Option<String>>,
    comment_mirrors: &Vec<Vec<Option<String>>>,
) -> (r: Vec<String>)
    requires
        line_mirrors@.len() == note.lines@.len(),
        mirrors_fit(note.comments@, comment_mirrors@),
    ensures
        views(r@) == note_lines(*note, line_mirrors@, comment_mirrors@),
{
    let mut lines: Vec<String> = Vec::new();
    let mut title = String::from_str("# ");
    title.append(note.title.as_str());
    lines.push(title);
    let mut byline = String::from_str("##### ");
    byline.append(note.time_sent.as_str());
    byline.append(" - ");
    byline.append(note.author.as_str());
    lines.push(byline);
    let ghost head = views(lines@);
    assert(head =~= seq!["# "@ + note.title@, "##### "@ + note.time_sent@ + " - "@ + note.author@]);
    let mut i: usize = 0;
    while i < note.lines.len()
        invariant
            line_mirrors@.len() == note.lines@.len(),
            i <= note.lines@.len(),
            views(lines@) =~= head + body_lines(note.lines@, line_mirrors@).take(i as int),
        decreases note.lines@.len() - i,
    {
        let line = parse_link_in_markdown_string(note.lines[i].as_str(), &line_mirrors[i]);
        proof {
            lemma_views_push(lines@, line);
        }
        lines.push(line);
        i = i + 1;
    }
    if note.comments.len() > 0 {
        let heading = String::from_str("## Comments");
        proof {
            lemma_views_push(lines@, heading);
        }
        lines.push(heading);
    }
    let ghost before = views(lines@);
    assert(before =~= head + body_lines(note.lines@, line_mirrors@) + comments_heading(note.comments@));
    let comment_strings = comments_to_markdown_strings(&note.comments, comment_mirrors);
    let mut k: usize = 0;
    while k < comment_strings.len()
        invariant
            views(comment_strings@) == comment_lines(note.comments@, comment_mirrors@),
            k <= comment_strings@.len(),
            views(lines@) =~= before + views(comment_strings@).take(k as int),
        decreases comment_strings@.len() - k,
    {
        let line = comment_strings[k].clone();
        proof {
            lemma_views_push(lines@, line);
        }
        lines.push(line);
        k = k + 1;
    }
    lines.push(String::from_str("  "));
    lines.push(String::from_str("-----"));
    assert(views(comment_strings@).take(comment_strings@.len() as int) =~= views(comment_strings@));
    lines
}

} // verus!
