//! From the line ranges that a source map reports for a span to tag positions.
use vstd::prelude::*;
use crate::error::PassError;
use crate::node::{TemplateTag, TemplateTagPosition};

verus! {

/// The part of one physical line that a span covers, as a source map reports
/// it: the line's index and two column offsets, all counting from zero.
#[derive(Clone, Copy, Debug, PartialEq, Eq)]
pub struct LineRange {
    pub line_index: usize,
    pub start_col: usize,
    pub end_col: usize,
}

/// The ranges are those of one span: later ranges lie on later lines and no
/// range ends before it starts.
pub open spec fn ordered(lines: Seq<LineRange>) -> bool {
    &&& forall|i: int, j: int| 0 <= i < j < lines.len() ==> lines[i].line_index < lines[j].line_index
    &&& forall|i: int| 0 <= i < lines.len() ==> (#[trigger] lines[i]).start_col <= lines[i].end_col
}

/// The span can be given in positions that count from one: it touches a line,
/// and no coordinate of its two ends is the largest offset that exists.
pub open spec fn resolvable(lines: Seq<LineRange>) -> bool {
    &&& lines.len() > 0
    &&& lines.first().line_index < usize::MAX
    &&& lines.first().start_col < usize::MAX
    &&& lines.last().line_index < usize::MAX
    &&& lines.last().end_col < usize::MAX
}

/// The tag that the ranges describe: it starts where the first range starts
/// and ends where the last range ends, the end column counted within the last
/// line.
pub open spec fn tag_of(lines: Seq<LineRange>) -> TemplateTag
    recommends
        resolvable(lines),
{
    TemplateTag {
        start: TemplateTagPosition {
            line: (lines.first().line_index + 1) as usize,
            column: (lines.first().start_col + 1) as usize,
        },
        end: TemplateTagPosition {
            line: (lines.last().line_index + 1) as usize,
            column: (lines.last().end_col + 1) as usize,
        },
    }
}

/// What [`get_span_info`] returns.
pub open spec fn span_info(lines: Seq<LineRange>) -> Result<(usize, usize, usize, usize), PassError> {
    if resolvable(lines) {
        let tag = tag_of(lines);
        Ok((tag.start.line, tag.end.line, tag.start.column, tag.end.column))
    } else {
        Err(PassError::UnresolvableSpan)
    }
}

/// What [`resolve_tag`] returns.
pub open spec fn resolved_tag(lines: Seq<LineRange>) -> Result<TemplateTag, PassError> {
    if resolvable(lines) {
        Ok(tag_of(lines))
    } else {
        Err(PassError::UnresolvableSpan)
    }
}

/// Start line, end line, start column and end column of a span, in this
/// order and counting from one.
pub fn get_span_info(lines: &Vec<LineRange>) -> (info: Result<(usize, usize, usize, usize), PassError>)
    ensures
        info == span_info(lines@),
{
    if lines.len() == 0 {
        return Err(PassError::UnresolvableSpan);
    }
    let first = lines[0];
    let last = lines[lines.len() - 1];
    if first.line_index == usize::MAX || first.start_col == usize::MAX
        || last.line_index == usize::MAX || last.end_col == usize::MAX {
        return Err(PassError::UnresolvableSpan);
    }
    Ok((first.line_index + 1, last.line_index + 1, first.start_col + 1, last.end_col + 1))
}

/// The span of a tag as a [`TemplateTag`]. Both ends of the tag are
/// positions, and the tag of an ordered span is well formed.
pub fn resolve_tag(lines: &Vec<LineRange>) -> (tag: Result<TemplateTag, PassError>)
    ensures
        tag == resolved_tag(lines@),
        tag matches Ok(found) ==> found.start.wf() && found.end.wf(),
        tag matches Ok(found) ==> ordered(lines@) ==> found.wf(),
{
    match get_span_info(lines) {
        Ok((start_line, end_line, start_column, end_column)) => Ok(
            TemplateTag {
                start: TemplateTagPosition { line: start_line, column: start_column },
                end: TemplateTagPosition { line: end_line, column: end_column },
            },
        ),
        Err(e) => Err(e),
    }
}

} // verus!
