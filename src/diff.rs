use vstd::prelude::*;
use similar::ChangeTag;

verus! {

/// Which side a line of a diff belongs to.
#[derive(Clone, Copy, Debug, PartialEq, Eq, Structural)]
pub enum DiffTag {
    /// Present in both texts.
    Equal,
    /// Present in the right text only.
    Inserted,
    /// Present in the left text only.
    Deleted,
}

/// The line-based diff of two texts: each line with its tag, in order, each
/// line keeping its terminator.
pub uninterp spec fn line_changes_of(left: Seq<char>, right: Seq<char>) -> Seq<(DiffTag, Seq<char>)>;

/// End of the first line of `t` when scanning from `i`: just after the first
/// `\n`, `\r\n` or lone `\r`, or the end of `t` where there is none.
pub open spec fn line_end(t: Seq<char>, i: int) -> int
    decreases t.len() - i,
{
    if i < 0 || i >= t.len() {
        t.len() as int
    } else if t[i] == '\n' {
        i + 1
    } else if t[i] == '\r' {
        if i + 1 < t.len() && t[i + 1] == '\n' {
            i + 2
        } else {
            i + 1
        }
    } else {
        line_end(t, i + 1)
    }
}

/// The lines of a text, each with its terminator; a last line without one
/// is kept as it is.
pub open spec fn lines_of(t: Seq<char>) -> Seq<Seq<char>>
    decreases t.len(),
{
    if t.len() == 0 {
        Seq::empty()
    } else {
        let n = line_end(t, 0);
        if 0 < n <= t.len() {
            seq![t.take(n)] + lines_of(t.skip(n))
        } else {
            seq![t]
        }
    }
}

/// The lines of a diff that come from the left text (equal and deleted), in order.
pub open spec fn left_lines(c: Seq<(DiffTag, Seq<char>)>) -> Seq<Seq<char>>
    decreases c.len(),
{
    if c.len() == 0 {
        Seq::empty()
    } else if c[0].0 == DiffTag::Inserted {
        left_lines(c.drop_first())
    } else {
        seq![c[0].1] + left_lines(c.drop_first())
    }
}

/// The lines of a diff that come from the right text (equal and inserted), in order.
pub open spec fn right_lines(c: Seq<(DiffTag, Seq<char>)>) -> Seq<Seq<char>>
    decreases c.len(),
{
    if c.len() == 0 {
        Seq::empty()
    } else if c[0].0 == DiffTag::Deleted {
        right_lines(c.drop_first())
    } else {
        seq![c[0].1] + right_lines(c.drop_first())
    }
}

/// Whether `cs` is a line diff of `left` against `right`: its equal and
/// deleted lines, in order, are exactly the lines of `left`, and its equal and
/// inserted lines, in order, exactly the lines of `right`.
pub open spec fn is_line_diff(cs: Seq<(DiffTag, Seq<char>)>, left: Seq<char>, right: Seq<char>) -> bool {
    &&& left_lines(cs) == lines_of(left)
    &&& right_lines(cs) == lines_of(right)
}

/// Relies on `similar::TextDiff::from_lines` and `iter_all_changes`: the
/// changes of a line diff. The text is cut into lines by `tokenize_lines`
/// (after each `\n`, `\r\n` or lone `\r`); the equal and deleted changes
/// carry the left text's lines in order, the equal and inserted changes the
/// right text's lines in order.
#[verifier::external_body]
fn line_changes(left: &str, right: &str) -> (r: Vec<(DiffTag, String)>)
    ensures
        r@.map_values(|p: (DiffTag, String)| (p.0, p.1@)) == line_changes_of(left@, right@),
        left_lines(r@.map_values(|p: (DiffTag, String)| (p.0, p.1@))) == lines_of(left@),
        right_lines(r@.map_values(|p: (DiffTag, String)| (p.0, p.1@))) == lines_of(right@),
{
    let diff = similar::TextDiff::from_lines(left, right);
    let mut out = Vec::new();
    for change in diff.iter_all_changes() {
        let tag = match change.tag() {
            ChangeTag::Equal => DiffTag::Equal,
            ChangeTag::Insert => DiffTag::Inserted,
            ChangeTag::Delete => DiffTag::Deleted,
        };
        out.push((tag, change.value().to_string()));
    }
    out
}

/// One rendered line of a diff.
pub struct DiffLine {
    pub tag: DiffTag,
    /// The marker (` `, `+` or `-`), the line, and a line break.
    pub text: String,
}

/// The marker in front of a line of each tag.
pub open spec fn tag_marker(t: DiffTag) -> char {
    match t {
        DiffTag::Equal => ' ',
        DiffTag::Inserted => '+',
        DiffTag::Deleted => '-',
    }
}

/// Whether a line already ends in a line terminator.
pub open spec fn ends_with_newline(s: Seq<char>) -> bool {
    s.len() > 0 && (s.last() == '\n' || s.last() == '\r')
}

/// A line as it is displayed: marker, content, and a line break where the
/// content has none.
pub open spec fn rendered(t: DiffTag, line: Seq<char>) -> Seq<char> {
    if ends_with_newline(line) {
        seq![tag_marker(t)] + line
    } else {
        seq![tag_marker(t)] + line + seq!['\n']
    }
}

fn render_line(tag: DiffTag, line: &String) -> (r: String)
    ensures
        r@ == rendered(tag, line@),
{
    let mut out = match tag {
        DiffTag::Equal => String::from_str(" "),
        DiffTag::Inserted => String::from_str("+"),
        DiffTag::Deleted => String::from_str("-"),
    };
    proof {
        reveal_strlit(" ");
        reveal_strlit("+");
        reveal_strlit("-");
        reveal_strlit("\n");
    }
    out.append(line.as_str());
    let n = line.as_str().unicode_len();
    let terminated = n > 0 && {
        let c = line.as_str().get_char(n - 1);
        c == '\n' || c == '\r'
    };
    if !terminated {
        out.append("\n");
    }
    out
}

/// Whether `lines` renders the changes `cs`, one line per change, in order.
pub open spec fn renders(lines: Seq<DiffLine>, cs: Seq<(DiffTag, Seq<char>)>) -> bool {
    &&& lines.len() == cs.len()
    &&& forall|i: int|
        0 <= i < lines.len() ==> {
            let c = #[trigger] cs[i];
            &&& lines[i].tag == c.0
            &&& lines[i].text@ == rendered(c.0, c.1)
        }
}

/// Renders a list of tagged lines, in order.
pub fn render_changes(changes: &Vec<(DiffTag, String)>) -> (r: Vec<DiffLine>)
    ensures
        renders(r@, changes@.map_values(|p: (DiffTag, String)| (p.0, p.1@))),
{
    let ghost cs = changes@.map_values(|p: (DiffTag, String)| (p.0, p.1@));
    let mut out: Vec<DiffLine> = Vec::new();
    let mut i: usize = 0;
    while i < changes.len()
        invariant
            i <= changes@.len(),
            changes@.len() == cs.len(),
            cs == changes@.map_values(|p: (DiffTag, String)| (p.0, p.1@)),
            out@.len() == i,
            forall|k: int|
                0 <= k < i ==> {
                    let c = #[trigger] cs[k];
                    &&& out@[k].tag == c.0
                    &&& out@[k].text@ == rendered(c.0, c.1)
                },
        decreases changes@.len() - i,
    {
        let tag = changes[i].0;
        let text = render_line(tag, &changes[i].1);
        out.push(DiffLine { tag, text });
        i = i + 1;
    }
    out
}

/// The rendered line diff of two texts, in the order the diff gives.
pub fn diff_lines(left: &str, right: &str) -> (r: Vec<DiffLine>)
    ensures
        renders(r@, line_changes_of(left@, right@)),
        is_line_diff(line_changes_of(left@, right@), left@, right@),
{
    let changes = line_changes(left, right);
    render_changes(&changes)
}

/// The diff to show for two texts: `None` where they are identical (nothing
/// to render), else their rendered line diff.
pub fn render_diff(left: &String, right: &String) -> (r: Option<Vec<DiffLine>>)
    ensures
        r.is_none() <==> left@ == right@,
        r.is_some() ==> renders(r.unwrap()@, line_changes_of(left@, right@)),
        r.is_some() ==> is_line_diff(line_changes_of(left@, right@), left@, right@),
{
    if left.eq(right) {
        None
    } else {
        Some(diff_lines(left.as_str(), right.as_str()))
    }
}

/// The diff shown for one entry: by default the system copy is the left
/// text and the repository copy the right one; `reverse` swaps them.
pub fn diff_copies(repo: &String, system: &String, reverse: bool) -> (r: Option<Vec<DiffLine>>)
    ensures
        ({
            let (left, right) = if reverse {
                (repo@, system@)
            } else {
                (system@, repo@)
            };
            &&& r.is_none() <==> left == right
            &&& r.is_some() ==> renders(r.unwrap()@, line_changes_of(left, right))
            &&& r.is_some() ==> is_line_diff(line_changes_of(left, right), left, right)
        }),
{
    if reverse {
        render_diff(repo, system)
    } else {
        render_diff(system, repo)
    }
}

} // verus!
