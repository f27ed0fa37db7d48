use onlook::error::PassError;
use onlook::node::{TemplateTag, TemplateTagPosition};
use onlook::span::{get_span_info, resolve_tag, LineRange};

#[test]
fn a_span_on_one_line() {
    let lines = vec![LineRange { line_index: 0, start_col: 24, end_col: 29 }];
    assert_eq!(get_span_info(&lines), Ok((1, 1, 25, 30)));
}

#[test]
fn a_span_over_several_lines_ends_in_the_last_line() {
    let lines = vec![
        LineRange { line_index: 2, start_col: 10, end_col: 40 },
        LineRange { line_index: 3, start_col: 0, end_col: 17 },
        LineRange { line_index: 4, start_col: 0, end_col: 3 },
    ];
    assert_eq!(get_span_info(&lines), Ok((3, 5, 11, 4)));
    assert_eq!(
        resolve_tag(&lines),
        Ok(TemplateTag {
            start: TemplateTagPosition { line: 3, column: 11 },
            end: TemplateTagPosition { line: 5, column: 4 },
        })
    );
}

#[test]
fn a_span_without_lines_is_unresolvable() {
    assert_eq!(get_span_info(&Vec::new()), Err(PassError::UnresolvableSpan));
    assert_eq!(resolve_tag(&Vec::new()), Err(PassError::UnresolvableSpan));
}

#[test]
fn an_offset_that_cannot_count_from_one_is_unresolvable() {
    let at = |line_index, start_col, end_col| vec![LineRange { line_index, start_col, end_col }];
    assert_eq!(get_span_info(&at(usize::MAX, 0, 0)), Err(PassError::UnresolvableSpan));
    assert_eq!(get_span_info(&at(0, usize::MAX, 0)), Err(PassError::UnresolvableSpan));
    assert_eq!(get_span_info(&at(0, 0, usize::MAX)), Err(PassError::UnresolvableSpan));
    assert_eq!(
        get_span_info(&at(usize::MAX - 1, usize::MAX - 1, usize::MAX - 1)),
        Ok((usize::MAX, usize::MAX, usize::MAX, usize::MAX))
    );
}
