//! The data that identifies one markup element.
use vstd::prelude::*;

verus! {

/// A place in a source file. Lines and columns count from one.
#[derive(Clone, Copy, Debug, PartialEq, Eq)]
pub struct TemplateTagPosition {
    pub line: usize,
    pub column: usize,
}

impl TemplateTagPosition {
    /// Both coordinates count from one.
    pub open spec fn wf(self) -> bool {
        self.line >= 1 && self.column >= 1
    }

    /// `self` lies at `other` or before it in reading order.
    pub open spec fn precedes(self, other: TemplateTagPosition) -> bool {
        self.line < other.line || (self.line == other.line && self.column <= other.column)
    }
}

/// The span of one tag, opening or closing.
#[derive(Clone, Copy, Debug, PartialEq, Eq)]
pub struct TemplateTag {
    pub start: TemplateTagPosition,
    pub end: TemplateTagPosition,
}

impl TemplateTag {
    /// Both ends are positions and the tag does not end before it starts.
    pub open spec fn wf(self) -> bool {
        self.start.wf() && self.end.wf() && self.start.precedes(self.end)
    }
}

/// Where one markup element was written, and which declaration owns it.
#[derive(Debug, PartialEq, Eq)]
pub struct TemplateNode {
    /// The file that holds the element.
    pub path: String,
    /// The span of the opening tag.
    pub start_tag: TemplateTag,
    /// The span of the closing tag; `None` for a self-closing element.
    pub end_tag: Option<TemplateTag>,
    /// The nearest enclosing declaration; `None` at the top level.
    pub component: Option<String>,
}

/// A [`TemplateNode`] as a mathematical value.
pub ghost struct TemplateNodeView {
    pub path: Seq<char>,
    pub start_tag: TemplateTag,
    pub end_tag: Option<TemplateTag>,
    pub component: Option<Seq<char>>,
}

impl TemplateNodeView {
    /// Every tag of the node is well formed.
    pub open spec fn wf(self) -> bool {
        self.start_tag.wf() && (self.end_tag matches Some(tag) ==> tag.wf())
    }
}

impl View for TemplateNode {
    type V = TemplateNodeView;

    open spec fn view(&self) -> TemplateNodeView {
        TemplateNodeView {
            path: self.path@,
            start_tag: self.start_tag,
            end_tag: self.end_tag,
            component: match self.component {
                Some(name) => Some(name@),
                None => None,
            },
        }
    }
}

impl DeepView for TemplateNode {
    type V = TemplateNodeView;

    open spec fn deep_view(&self) -> TemplateNodeView {
        self@
    }
}

impl Clone for TemplateNode {
    fn clone(&self) -> (copy: TemplateNode)
        ensures
            copy == *self,
    {
        TemplateNode {
            path: self.path.clone(),
            start_tag: self.start_tag,
            end_tag: self.end_tag,
            component: match &self.component {
                Some(name) => Some(name.clone()),
                None => None,
            },
        }
    }
}

} // verus!
