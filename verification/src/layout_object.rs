//! The box tree's node type and the classifier that decides, per document
//! node, whether a box is produced and of which formatting kind.

use vstd::prelude::*;

use crate::constants::CHAR_WIDTH;
use crate::cssom::DisplayType;
use crate::cssom::StyleRule;
use crate::cssom::StyleSheet;
use crate::cssom::spec_resolved_display;
use crate::dom::NodeKind;
use vstd::string::StrSliceExecFns;

verus! {

/// The formatting behavior of a box: block-level, inline-level, or a text
/// run.
#[derive(Debug, Clone, Copy, PartialEq, Eq, Structural)]
pub enum LayoutObjectKind {
    Block,
    Inline,
    Text,
}

/// A computed size in pixels.
#[derive(Debug, Clone, Copy, PartialEq, Eq, Structural)]
pub struct LayoutSize {
    pub width: u64,
    pub height: u64,
}

impl LayoutSize {
    pub fn new(width: u64, height: u64) -> (r: LayoutSize)
        ensures
            r == (LayoutSize { width, height }),
    {
        LayoutSize { width, height }
    }
}

/// A computed position in pixels, relative to the box tree's origin.
#[derive(Debug, Clone, Copy, PartialEq, Eq, Structural)]
pub struct LayoutPoint {
    pub x: u64,
    pub y: u64,
}

impl LayoutPoint {
    pub fn new(x: u64, y: u64) -> (r: LayoutPoint)
        ensures
            r == (LayoutPoint { x, y }),
    {
        LayoutPoint { x, y }
    }
}

/// One renderable box. `node_kind` records the originating document node's
/// classification; `size` and `point` stay `None` until the size pass and the
/// position pass, respectively, have run.
#[derive(Debug, PartialEq, Eq)]
pub struct LayoutObject {
    pub kind: LayoutObjectKind,
    pub node_kind: NodeKind,
    pub size: Option<LayoutSize>,
    pub point: Option<LayoutPoint>,
    pub first_child: Option<Box<LayoutObject>>,
    pub next_sibling: Option<Box<LayoutObject>>,
}

/// The formatting kind that a document node produces under `rules`: text
/// nodes always produce a text box; an element produces a block or inline box
/// according to its resolved display, and none at all for `display: none`.
pub open spec fn spec_create_layout_object(kind: NodeKind, rules: Seq<StyleRule>) -> Option<
    LayoutObjectKind,
> {
    match kind {
        NodeKind::Text(_) => Some(LayoutObjectKind::Text),
        NodeKind::Element(e) => match spec_resolved_display(rules, e) {
            DisplayType::DisplayNone => None,
            DisplayType::Block => Some(LayoutObjectKind::Block),
            DisplayType::Inline => Some(LayoutObjectKind::Inline),
        },
    }
}

/// Saturating addition on pixel counts.
pub open spec fn sat_add(a: u64, b: u64) -> u64 {
    if a + b > u64::MAX {
        u64::MAX
    } else {
        (a + b) as u64
    }
}

/// Saturating addition, as executable code.
pub fn sat_add_u64(a: u64, b: u64) -> (r: u64)
    ensures
        r == sat_add(a, b),
{
    if a <= u64::MAX - b {
        a + b
    } else {
        u64::MAX
    }
}

/// The intrinsic width of a run of text: one character width per character,
/// saturating at the largest representable width.
pub open spec fn spec_text_width(text: Seq<char>) -> u64 {
    if CHAR_WIDTH * text.len() > u64::MAX {
        u64::MAX
    } else {
        (CHAR_WIDTH * text.len()) as u64
    }
}

/// The text carried by a node classification: a text node's characters, and
/// nothing for an element.
pub open spec fn spec_node_text(kind: NodeKind) -> Seq<char> {
    match kind {
        NodeKind::Text(s) => s@,
        NodeKind::Element(_) => Seq::<char>::empty(),
    }
}

/// The intrinsic width of the text carried by a node classification.
pub fn node_text_width(kind: &NodeKind) -> (r: u64)
    ensures
        r == spec_text_width(spec_node_text(*kind)),
{
    match kind {
        NodeKind::Element(_) => 0,
        NodeKind::Text(s) => {
            let count: usize = s.as_str().unicode_len();
            let count64: u64 = count as u64;
            if count64 <= u64::MAX / CHAR_WIDTH {
                CHAR_WIDTH * count64
            } else {
                u64::MAX
            }
        },
    }
}

/// Classifies a document node under `cssom`: `None` when the node produces no
/// box, otherwise the produced box's formatting kind.
pub fn create_layout_object(kind: &NodeKind, cssom: &StyleSheet) -> (r: Option<LayoutObjectKind>)
    ensures
        r == spec_create_layout_object(*kind, cssom@),
{
    match kind {
        NodeKind::Text(_) => Some(LayoutObjectKind::Text),
        NodeKind::Element(e) => {
            match cssom.resolve_display(*e) {
                DisplayType::DisplayNone => None,
                DisplayType::Block => Some(LayoutObjectKind::Block),
                DisplayType::Inline => Some(LayoutObjectKind::Inline),
            }
        },
    }
}

} // verus!
