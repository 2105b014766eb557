//! Finding the attribute lines of a mesh description and the numbers that
//! they hold, as text.

use crate::error::LoadError;
use crate::order::AttributeKind;
use crate::text::{chars_of, copy_chars, line_texts, split_whitespace, words};
use vstd::prelude::*;

verus! {

/// What a line of a mesh description is, by its first two characters.
#[derive(Clone, Copy, Debug, PartialEq, Eq, Structural)]
pub enum LineKind {
    /// `v` and a space (a position), `vn` (a normal) or `vt` (a texture
    /// coordinate).
    Attribute(AttributeKind),
    /// `f` and a space.
    Face,
    /// Anything else, and every line of fewer than two characters.
    Other,
}

/// The kind of `line`. Only its first two characters are looked at, and a
/// line of fewer has none to look at.
pub open spec fn line_kind(line: Seq<char>) -> LineKind {
    if line.len() < 2 {
        LineKind::Other
    } else if line[0] == 'v' && line[1] == ' ' {
        LineKind::Attribute(AttributeKind::Position)
    } else if line[0] == 'v' && line[1] == 'n' {
        LineKind::Attribute(AttributeKind::Normal)
    } else if line[0] == 'v' && line[1] == 't' {
        LineKind::Attribute(AttributeKind::TexCoord)
    } else if line[0] == 'f' && line[1] == ' ' {
        LineKind::Face
    } else {
        LineKind::Other
    }
}

/// How many characters the mark of a line takes: two on a position or face
/// line; three on a normal or texture line, whose third character is passed
/// over unread.
pub open spec fn mark_len(kind: LineKind) -> int {
    match kind {
        LineKind::Attribute(AttributeKind::Position) => 2,
        LineKind::Attribute(AttributeKind::Normal) => 3,
        LineKind::Attribute(AttributeKind::TexCoord) => 3,
        LineKind::Face => 2,
        LineKind::Other => 0,
    }
}

/// What a line holds after its mark.
pub open spec fn line_body(line: Seq<char>) -> Seq<char> {
    let skip = mark_len(line_kind(line));
    if skip <= line.len() {
        line.subrange(skip, line.len() as int)
    } else {
        Seq::empty()
    }
}

/// Tells what kind of line `line` is.
pub fn classify_line(line: &Vec<char>) -> (kind: LineKind)
    ensures
        kind == line_kind(line@),
{
    if line.len() < 2 {
        return LineKind::Other;
    }
    let first = line[0];
    let second = line[1];
    if first == 'v' && second == ' ' {
        LineKind::Attribute(AttributeKind::Position)
    } else if first == 'v' && second == 'n' {
        LineKind::Attribute(AttributeKind::Normal)
    } else if first == 'v' && second == 't' {
        LineKind::Attribute(AttributeKind::TexCoord)
    } else if first == 'f' && second == ' ' {
        LineKind::Face
    } else {
        LineKind::Other
    }
}

/// Copies what `line` holds after its mark.
pub fn body_of(line: &Vec<char>) -> (body: Vec<char>)
    ensures
        body@ == line_body(line@),
{
    let n = line.len();
    let skip: usize = match classify_line(line) {
        LineKind::Attribute(AttributeKind::Position) => 2,
        LineKind::Attribute(AttributeKind::Normal) => 3,
        LineKind::Attribute(AttributeKind::TexCoord) => 3,
        LineKind::Face => 2,
        LineKind::Other => 0,
    };
    let mut body: Vec<char> = Vec::new();
    if skip > n {
        return body;
    }
    let mut i: usize = skip;
    while i < n
        invariant
            n == line.len(),
            skip <= i <= n,
            body@ == line@.subrange(skip as int, i as int),
        decreases n - i,
    {
        body.push(line[i]);
        i += 1;
    }
    body
}

/// The numbers of a position or normal line, as they are written: three
/// components and, where the line holds a fourth number, the weight by which
/// the caller is to divide them.
#[derive(Debug, PartialEq, Eq)]
pub struct PointText {
    pub line: usize,
    pub x: Vec<char>,
    pub y: Vec<char>,
    pub z: Vec<char>,
    pub w: Option<Vec<char>>,
}

/// What a `PointText` holds.
pub struct PointTextView {
    pub line: usize,
    pub x: Seq<char>,
    pub y: Seq<char>,
    pub z: Seq<char>,
    pub w: Option<Seq<char>>,
}

impl View for PointText {
    type V = PointTextView;

    open spec fn view(&self) -> PointTextView {
        PointTextView {
            line: self.line,
            x: self.x@,
            y: self.y@,
            z: self.z@,
            w: match self.w {
                Some(w) => Some(w@),
                None => None,
            },
        }
    }
}

/// The numbers of a texture line, as they are written: two components and,
/// where the line holds a third number, the third component. Where it holds
/// none the third component is zero.
#[derive(Debug, PartialEq, Eq)]
pub struct TexText {
    pub line: usize,
    pub u: Vec<char>,
    pub v: Vec<char>,
    pub w: Option<Vec<char>>,
}

/// What a `TexText` holds.
pub struct TexTextView {
    pub line: usize,
    pub u: Seq<char>,
    pub v: Seq<char>,
    pub w: Option<Seq<char>>,
}

impl View for TexText {
    type V = TexTextView;

    open spec fn view(&self) -> TexTextView {
        TexTextView {
            line: self.line,
            u: self.u@,
            v: self.v@,
            w: match self.w {
                Some(w) => Some(w@),
                None => None,
            },
        }
    }
}

/// The numbers that the body of a position or normal line holds: its first
/// three words and, if there is one, its fourth. Further words are not read.
/// A body of fewer than three words holds no vector.
pub open spec fn point_text(body: Seq<char>, line: usize) -> Option<PointTextView> {
    let w = words(body);
    if w.len() < 3 {
        None
    } else {
        Some(
            PointTextView {
                line,
                x: w[0],
                y: w[1],
                z: w[2],
                w: if w.len() > 3 {
                    Some(w[3])
                } else {
                    None
                },
            },
        )
    }
}

/// The numbers that the body of a texture line holds: its first two words
/// and, if there is one, its third. Further words are not read. A body of
/// fewer than two words holds no coordinate.
pub open spec fn tex_text(body: Seq<char>, line: usize) -> Option<TexTextView> {
    let w = words(body);
    if w.len() < 2 {
        None
    } else {
        Some(
            TexTextView {
                line,
                u: w[0],
                v: w[1],
                w: if w.len() > 2 {
                    Some(w[2])
                } else {
                    None
                },
            },
        )
    }
}

/// Finds the numbers in the body of a position or normal line.
pub fn parse_vec3(body: &Vec<char>, line: usize) -> (r: Option<PointText>)
    ensures
        match r {
            Some(p) => point_text(body@, line) == Some(p@),
            None => point_text(body@, line) is None,
        },
{
    let tokens = split_whitespace(body);
    if tokens.len() < 3 {
        return None;
    }
    let w = if tokens.len() > 3 {
        Some(copy_chars(&tokens[3]))
    } else {
        None
    };
    Some(
        PointText {
            line,
            x: copy_chars(&tokens[0]),
            y: copy_chars(&tokens[1]),
            z: copy_chars(&tokens[2]),
            w,
        },
    )
}

/// Finds the numbers in the body of a texture line.
pub fn parse_tex(body: &Vec<char>, line: usize) -> (r: Option<TexText>)
    ensures
        match r {
            Some(t) => tex_text(body@, line) == Some(t@),
            None => tex_text(body@, line) is None,
        },
{
    let tokens = split_whitespace(body);
    if tokens.len() < 2 {
        return None;
    }
    let w = if tokens.len() > 2 {
        Some(copy_chars(&tokens[2]))
    } else {
        None
    };
    Some(TexText { line, u: copy_chars(&tokens[0]), v: copy_chars(&tokens[1]), w })
}

/// What a vector of position or normal records holds.
pub open spec fn point_views(found: Seq<PointText>) -> Seq<PointTextView> {
    Seq::new(found.len(), |i: int| found[i]@)
}

/// What a vector of texture records holds.
pub open spec fn tex_views(found: Seq<TexText>) -> Seq<TexTextView> {
    Seq::new(found.len(), |i: int| found[i]@)
}

/// The numbers of the lines of kind `kind` among the first `upto` lines, in
/// the order of the lines; or, where one of these lines holds too few
/// numbers, the refusal of the first such line. `kind` is the position or
/// the normal.
pub open spec fn scanned_points(lines: Seq<Seq<char>>, kind: AttributeKind, upto: int) -> Result<
    Seq<PointTextView>,
    LoadError,
>
    decreases upto,
{
    if upto <= 0 {
        Ok(Seq::empty())
    } else {
        let line = (upto - 1) as usize;
        match scanned_points(lines, kind, upto - 1) {
            Err(e) => Err(e),
            Ok(found) => if line_kind(lines[upto - 1]) == LineKind::Attribute(kind) {
                match point_text(line_body(lines[upto - 1]), line) {
                    Some(p) => Ok(found.push(p)),
                    None => Err(LoadError::MissingComponent { line, kind }),
                }
            } else {
                Ok(found)
            },
        }
    }
}

/// The numbers of the texture lines among the first `upto` lines, in the
/// order of the lines; or, where one of these lines holds too few numbers,
/// the refusal of the first such line.
pub open spec fn scanned_texs(lines: Seq<Seq<char>>, upto: int) -> Result<
    Seq<TexTextView>,
    LoadError,
>
    decreases upto,
{
    if upto <= 0 {
        Ok(Seq::empty())
    } else {
        let line = (upto - 1) as usize;
        match scanned_texs(lines, upto - 1) {
            Err(e) => Err(e),
            Ok(found) => if line_kind(lines[upto - 1]) == LineKind::Attribute(
                AttributeKind::TexCoord,
            ) {
                match tex_text(line_body(lines[upto - 1]), line) {
                    Some(t) => Ok(found.push(t)),
                    None => Err(
                        LoadError::MissingComponent { line, kind: AttributeKind::TexCoord },
                    ),
                }
            } else {
                Ok(found)
            },
        }
    }
}

/// Whether `r` is the outcome `expected`, record for record.
pub open spec fn is_points(
    r: Result<Vec<PointText>, LoadError>,
    expected: Result<Seq<PointTextView>, LoadError>,
) -> bool {
    match (r, expected) {
        (Ok(found), Ok(records)) => point_views(found@) =~= records,
        (Err(e), Err(refusal)) => e == refusal,
        _ => false,
    }
}

/// Whether `r` is the outcome `expected`, record for record.
pub open spec fn is_texs(
    r: Result<Vec<TexText>, LoadError>,
    expected: Result<Seq<TexTextView>, LoadError>,
) -> bool {
    match (r, expected) {
        (Ok(found), Ok(records)) => tex_views(found@) =~= records,
        (Err(e), Err(refusal)) => e == refusal,
        _ => false,
    }
}

/// A scan that has met a line with too few numbers stays refused, for the
/// same line, however many lines follow.
pub proof fn lemma_point_refusal_stays(
    lines: Seq<Seq<char>>,
    kind: AttributeKind,
    upto: int,
    later: int,
)
    requires
        upto <= later,
        scanned_points(lines, kind, upto) is Err,
    ensures
        scanned_points(lines, kind, later) == scanned_points(lines, kind, upto),
    decreases later - upto,
{
    if upto < later {
        lemma_point_refusal_stays(lines, kind, upto, later - 1);
    }
}

/// A scan that has met a line with too few numbers stays refused, for the
/// same line, however many lines follow.
pub proof fn lemma_tex_refusal_stays(lines: Seq<Seq<char>>, upto: int, later: int)
    requires
        upto <= later,
        scanned_texs(lines, upto) is Err,
    ensures
        scanned_texs(lines, later) == scanned_texs(lines, upto),
    decreases later - upto,
{
    if upto < later {
        lemma_tex_refusal_stays(lines, upto, later - 1);
    }
}

/// One pass over `lines` for the lines of kind `kind`, the position or the
/// normal.
fn scan_points(lines: &Vec<String>, kind: AttributeKind) -> (r: Result<Vec<PointText>, LoadError>)
    ensures
        is_points(r, scanned_points(line_texts(lines@), kind, lines.len() as int)),
{
    let mut found: Vec<PointText> = Vec::new();
    let mut i: usize = 0;
    while i < lines.len()
        invariant
            i <= lines.len(),
            is_points(Ok(found), scanned_points(line_texts(lines@), kind, i as int)),
        decreases lines.len() - i,
    {
        let chars = chars_of(lines[i].as_str());
        if classify_line(&chars) == LineKind::Attribute(kind) {
            let body = body_of(&chars);
            match parse_vec3(&body, i) {
                Some(p) => {
                    let ghost before = point_views(found@);
                    found.push(p);
                    assert(point_views(found@) =~= before.push(p@));
                },
                None => {
                    proof {
                        lemma_point_refusal_stays(
                            line_texts(lines@),
                            kind,
                            i + 1,
                            lines.len() as int,
                        );
                    }
                    return Err(LoadError::MissingComponent { line: i, kind });
                },
            }
        }
        i += 1;
    }
    Ok(found)
}

/// One pass over `lines` for the position lines.
pub fn load_verts(lines: &Vec<String>) -> (r: Result<Vec<PointText>, LoadError>)
    ensures
        is_points(
            r,
            scanned_points(line_texts(lines@), AttributeKind::Position, lines.len() as int),
        ),
{
    scan_points(lines, AttributeKind::Position)
}

/// One pass over `lines` for the normal lines.
pub fn load_normals(lines: &Vec<String>) -> (r: Result<Vec<PointText>, LoadError>)
    ensures
        is_points(
            r,
            scanned_points(line_texts(lines@), AttributeKind::Normal, lines.len() as int),
        ),
{
    scan_points(lines, AttributeKind::Normal)
}

/// One pass over `lines` for the texture lines.
pub fn load_texs(lines: &Vec<String>) -> (r: Result<Vec<TexText>, LoadError>)
    ensures
        is_texs(r, scanned_texs(line_texts(lines@), lines.len() as int)),
{
    let mut found: Vec<TexText> = Vec::new();
    let mut i: usize = 0;
    while i < lines.len()
        invariant
            i <= lines.len(),
            is_texs(Ok(found), scanned_texs(line_texts(lines@), i as int)),
        decreases lines.len() - i,
    {
        let chars = chars_of(lines[i].as_str());
        if classify_line(&chars) == LineKind::Attribute(AttributeKind::TexCoord) {
            let body = body_of(&chars);
            match parse_tex(&body, i) {
                Some(t) => {
                    let ghost before = tex_views(found@);
                    found.push(t);
                    assert(tex_views(found@) =~= before.push(t@));
                },
                None => {
                    proof {
                        lemma_tex_refusal_stays(line_texts(lines@), i + 1, lines.len() as int);
                    }
                    return Err(
                        LoadError::MissingComponent { line: i, kind: AttributeKind::TexCoord },
                    );
                },
            }
        }
        i += 1;
    }
    Ok(found)
}

} // verus!
