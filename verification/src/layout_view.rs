//! Layout tree construction and the two geometry passes, behind the
//! `LayoutView` facade.
//!
//! Construction mirrors the document tree into a tree of `LayoutObject`s,
//! skipping every node whose classification produces no box — together with
//! that node's whole subtree — by retrying on the node's next sibling. The
//! size pass then flows the available width down and accumulates heights up;
//! the position pass flows the origin down, stacking siblings vertically.

use vstd::prelude::*;

use crate::constants::CHAR_HEIGHT;
use crate::constants::CONTENT_AREA_WIDTH;
use crate::cssom::StyleRule;
use crate::cssom::StyleSheet;
use crate::dom::ElementKind;
use crate::dom::Node;
use crate::dom::NodeKind;
use crate::dom::clone_node_kind;
use crate::dom::get_target_element_node;
use crate::dom::spec_find_element;
use crate::layout_object::LayoutObject;
use crate::layout_object::LayoutObjectKind;
use crate::layout_object::LayoutPoint;
use crate::layout_object::LayoutSize;
use crate::layout_object::create_layout_object;
use crate::layout_object::node_text_width;
use crate::layout_object::sat_add;
use crate::layout_object::sat_add_u64;
use crate::layout_object::spec_create_layout_object;
use crate::layout_object::spec_node_text;
use crate::layout_object::spec_text_width;

verus! {

/// The box tree that construction produces from the sibling chain starting at
/// `node`: the first renderable node of the chain becomes a box whose
/// children are built from that node's first child (and its siblings) and
/// whose next sibling is built from the rest of the chain; a node that
/// produces no box is skipped together with its whole subtree. Sizes and
/// positions are left unset.
pub open spec fn spec_build_layout_tree(node: Option<Box<Node>>, rules: Seq<StyleRule>) -> Option<
    Box<LayoutObject>,
>
    decreases node,
{
    match node {
        None => None,
        Some(n) => match spec_create_layout_object(n.kind, rules) {
            None => spec_build_layout_tree(n.next_sibling, rules),
            Some(kind) => Some(
                Box::new(
                    LayoutObject {
                        kind,
                        node_kind: n.kind,
                        size: None,
                        point: None,
                        first_child: spec_build_layout_tree(n.first_child, rules),
                        next_sibling: spec_build_layout_tree(n.next_sibling, rules),
                    },
                ),
            ),
        },
    }
}

/// Builds the box tree for the document sibling chain starting at `node`.
/// A node styled `display: none` (or otherwise unrenderable) is never
/// descended into: construction retries on its next sibling instead.
pub fn build_layout_tree(node: &Option<Box<Node>>, cssom: &StyleSheet) -> (r: Option<
    Box<LayoutObject>,
>)
    ensures
        r == spec_build_layout_tree(*node, cssom@),
    decreases *node,
{
    match node {
        None => None,
        Some(n) => {
            match create_layout_object(&n.kind, cssom) {
                None => build_layout_tree(&n.next_sibling, cssom),
                Some(kind) => {
                    let first_child = build_layout_tree(&n.first_child, cssom);
                    let next_sibling = build_layout_tree(&n.next_sibling, cssom);
                    Some(
                        Box::new(
                            LayoutObject {
                                kind,
                                node_kind: clone_node_kind(&n.kind),
                                size: None,
                                point: None,
                                first_child,
                                next_sibling,
                            },
                        ),
                    )
                },
            }
        },
    }
}

/// The width stored in a box's size field, zero while the field is unset.
pub open spec fn spec_stored_width(obj: LayoutObject) -> u64 {
    match obj.size {
        Some(s) => s.width,
        None => 0,
    }
}

/// The height stored in a box's size field, zero while the field is unset.
pub open spec fn spec_stored_height(obj: LayoutObject) -> u64 {
    match obj.size {
        Some(s) => s.height,
        None => 0,
    }
}

/// The width the size pass gives a box: a block takes the available content
/// width; an inline box takes the sum of its children's widths; a text box
/// takes its intrinsic text width.
pub open spec fn spec_node_width(obj: LayoutObject, available_width: u64) -> u64
    decreases obj,
{
    match obj.kind {
        LayoutObjectKind::Block => available_width,
        LayoutObjectKind::Inline => spec_chain_widths(obj.first_child, available_width),
        LayoutObjectKind::Text => spec_text_width(spec_node_text(obj.node_kind)),
    }
}

/// The saturating sum of the widths the size pass gives the boxes of a
/// sibling chain.
pub open spec fn spec_chain_widths(node: Option<Box<LayoutObject>>, available_width: u64) -> u64
    decreases node,
{
    match node {
        None => 0,
        Some(n) => sat_add(
            spec_node_width(*n, available_width),
            spec_chain_widths(n.next_sibling, available_width),
        ),
    }
}

/// The height the size pass gives a box: a text box takes one line height;
/// every other box takes the sum of its children's heights (children stack
/// vertically).
pub open spec fn spec_node_height(obj: LayoutObject, available_width: u64) -> u64
    decreases obj,
{
    match obj.kind {
        LayoutObjectKind::Text => CHAR_HEIGHT,
        _ => spec_chain_heights(obj.first_child, available_width),
    }
}

/// The saturating sum of the heights the size pass gives the boxes of a
/// sibling chain.
pub open spec fn spec_chain_heights(node: Option<Box<LayoutObject>>, available_width: u64) -> u64
    decreases node,
{
    match node {
        None => 0,
        Some(n) => sat_add(
            spec_node_height(*n, available_width),
            spec_chain_heights(n.next_sibling, available_width),
        ),
    }
}

/// The tree after the size pass: every box's size field is set to its
/// computed width and height; nothing else changes.
pub open spec fn spec_sized(node: Option<Box<LayoutObject>>, available_width: u64) -> Option<
    Box<LayoutObject>,
>
    decreases node,
{
    match node {
        None => None,
        Some(n) => Some(
            Box::new(
                LayoutObject {
                    kind: n.kind,
                    node_kind: n.node_kind,
                    size: Some(
                        LayoutSize {
                            width: spec_node_width(*n, available_width),
                            height: spec_node_height(*n, available_width),
                        },
                    ),
                    point: n.point,
                    first_child: spec_sized(n.first_child, available_width),
                    next_sibling: spec_sized(n.next_sibling, available_width),
                },
            ),
        ),
    }
}

/// The saturating sum of the widths stored in a sibling chain.
pub open spec fn spec_stored_chain_widths(node: Option<Box<LayoutObject>>) -> u64
    decreases node,
{
    match node {
        None => 0,
        Some(n) => sat_add(spec_stored_width(*n), spec_stored_chain_widths(n.next_sibling)),
    }
}

/// The saturating sum of the heights stored in a sibling chain.
pub open spec fn spec_stored_chain_heights(node: Option<Box<LayoutObject>>) -> u64
    decreases node,
{
    match node {
        None => 0,
        Some(n) => sat_add(spec_stored_height(*n), spec_stored_chain_heights(n.next_sibling)),
    }
}

/// After the size pass, the widths and heights stored in a sibling chain sum
/// to exactly the chain sums the pass was to compute.
pub proof fn lemma_sized_chain_sums(node: Option<Box<LayoutObject>>, available_width: u64)
    ensures
        spec_stored_chain_widths(spec_sized(node, available_width)) == spec_chain_widths(
            node,
            available_width,
        ),
        spec_stored_chain_heights(spec_sized(node, available_width)) == spec_chain_heights(
            node,
            available_width,
        ),
    decreases node,
{
    match node {
        None => {},
        Some(n) => {
            lemma_sized_chain_sums(n.next_sibling, available_width);
        },
    }
}

/// Sums the widths already stored in a sibling chain.
fn sized_chain_widths(node: &Option<Box<LayoutObject>>) -> (r: u64)
    ensures
        r == spec_stored_chain_widths(*node),
    decreases *node,
{
    match node {
        None => 0,
        Some(n) => {
            let head: u64 = match &n.size {
                Some(s) => s.width,
                None => 0,
            };
            let rest = sized_chain_widths(&n.next_sibling);
            sat_add_u64(head, rest)
        },
    }
}

/// Sums the heights already stored in a sibling chain.
fn sized_chain_heights(node: &Option<Box<LayoutObject>>) -> (r: u64)
    ensures
        r == spec_stored_chain_heights(*node),
    decreases *node,
{
    match node {
        None => 0,
        Some(n) => {
            let head: u64 = match &n.size {
                Some(s) => s.height,
                None => 0,
            };
            let rest = sized_chain_heights(&n.next_sibling);
            sat_add_u64(head, rest)
        },
    }
}

/// The tree after the position pass on a tree whose origin is `point`: every
/// box's point field is set; a box's first child starts at the box's own
/// origin, and its next sibling starts one stored height further down.
pub open spec fn spec_positioned(node: Option<Box<LayoutObject>>, point: LayoutPoint) -> Option<
    Box<LayoutObject>,
>
    decreases node,
{
    match node {
        None => None,
        Some(n) => Some(
            Box::new(
                LayoutObject {
                    kind: n.kind,
                    node_kind: n.node_kind,
                    size: n.size,
                    point: Some(point),
                    first_child: spec_positioned(n.first_child, point),
                    next_sibling: spec_positioned(
                        n.next_sibling,
                        LayoutPoint { x: point.x, y: sat_add(point.y, spec_stored_height(*n)) },
                    ),
                },
            ),
        ),
    }
}

/// Both geometry passes in order: the size pass with the fixed content-area
/// width, then the position pass from the origin.
pub open spec fn spec_update_layout(root: Option<Box<LayoutObject>>) -> Option<Box<LayoutObject>> {
    spec_positioned(spec_sized(root, CONTENT_AREA_WIDTH), LayoutPoint { x: 0, y: 0 })
}

/// The complete pipeline: locate the body element, build the box tree from
/// its children, and run both geometry passes. An absent body, or a body with
/// no renderable content, yields an empty tree.
pub open spec fn spec_layout_view_tree(root: Node, rules: Seq<StyleRule>) -> Option<
    Box<LayoutObject>,
> {
    match spec_find_element(root, ElementKind::Body) {
        None => None,
        Some(body) => spec_update_layout(spec_build_layout_tree(body.first_child, rules)),
    }
}

/// The finished layout: a box tree in which every box carries its computed
/// size and position. The tree is read through `root` and never changes after
/// construction.
#[derive(Debug, PartialEq, Eq)]
pub struct LayoutView {
    root: Option<Box<LayoutObject>>,
}

impl View for LayoutView {
    type V = Option<Box<LayoutObject>>;

    closed spec fn view(&self) -> Option<Box<LayoutObject>> {
        self.root
    }
}

impl LayoutView {
    /// Builds the layout for `root`'s body element under stylesheet `cssom`:
    /// construction, then the size pass, then the position pass.
    pub fn new(root: &Node, cssom: &StyleSheet) -> (r: LayoutView)
        ensures
            r@ == spec_layout_view_tree(*root, cssom@),
    {
        let body_root = get_target_element_node(root, ElementKind::Body);
        let tree = match body_root {
            None => None,
            Some(body) => build_layout_tree(&body.first_child, cssom),
        };
        let mut view = LayoutView { root: tree };
        view.update_layout();
        view
    }

    /// The root of the finished box tree; `None` when nothing renders.
    pub fn root(&self) -> (r: &Option<Box<LayoutObject>>)
        ensures
            r == self@,
    {
        &self.root
    }

    /// Runs the size pass and then the position pass over the held tree.
    fn update_layout(&mut self)
        ensures
            final(self)@ == spec_update_layout(old(self)@),
    {
        let root = self.root.take();
        let sized = Self::calculate_node_size(root, CONTENT_AREA_WIDTH);
        let positioned = Self::calculate_node_position(sized, LayoutPoint::new(0, 0));
        self.root = positioned;
    }

    /// The size pass: flows `available_width` down the tree and sets every
    /// box's size field, accumulating container heights from the children.
    pub fn calculate_node_size(node: Option<Box<LayoutObject>>, available_width: u64) -> (r: Option<
        Box<LayoutObject>,
    >)
        ensures
            r == spec_sized(node, available_width),
        decreases node,
    {
        match node {
            None => None,
            Some(n) => {
                let ghost orig = *n;
                let LayoutObject { kind, node_kind, size: _, point, first_child, next_sibling } =
                    *n;
                let sized_children = Self::calculate_node_size(first_child, available_width);
                let sized_sibling = Self::calculate_node_size(next_sibling, available_width);
                let width: u64 = match kind {
                    LayoutObjectKind::Block => available_width,
                    LayoutObjectKind::Inline => {
                        proof {
                            lemma_sized_chain_sums(orig.first_child, available_width);
                        }
                        sized_chain_widths(&sized_children)
                    },
                    LayoutObjectKind::Text => node_text_width(&node_kind),
                };
                let height: u64 = match kind {
                    LayoutObjectKind::Text => CHAR_HEIGHT,
                    _ => {
                        proof {
                            lemma_sized_chain_sums(orig.first_child, available_width);
                        }
                        sized_chain_heights(&sized_children)
                    },
                };
                Some(
                    Box::new(
                        LayoutObject {
                            kind,
                            node_kind,
                            size: Some(LayoutSize { width, height }),
                            point,
                            first_child: sized_children,
                            next_sibling: sized_sibling,
                        },
                    ),
                )
            },
        }
    }

    /// The position pass: places a box at `point`, its children at the box's
    /// own origin, and each following sibling one stored height further down.
    pub fn calculate_node_position(node: Option<Box<LayoutObject>>, point: LayoutPoint) -> (r:
        Option<Box<LayoutObject>>)
        ensures
            r == spec_positioned(node, point),
        decreases node,
    {
        match node {
            None => None,
            Some(n) => {
                let LayoutObject { kind, node_kind, size, point: _, first_child, next_sibling } =
                    *n;
                let height: u64 = match &size {
                    Some(s) => s.height,
                    None => 0,
                };
                let positioned_children = Self::calculate_node_position(first_child, point);
                let sibling_point = LayoutPoint { x: point.x, y: sat_add_u64(point.y, height) };
                let positioned_sibling = Self::calculate_node_position(next_sibling, sibling_point);
                Some(
                    Box::new(
                        LayoutObject {
                            kind,
                            node_kind,
                            size,
                            point: Some(point),
                            first_child: positioned_children,
                            next_sibling: positioned_sibling,
                        },
                    ),
                )
            },
        }
    }
}

/// The number of nodes in the document subtree rooted at `node`, its
/// following siblings included.
pub open spec fn spec_node_count(node: Option<Box<Node>>) -> nat
    decreases node,
{
    match node {
        None => 0,
        Some(n) => 1 + spec_node_count(n.first_child) + spec_node_count(n.next_sibling),
    }
}

/// The number of boxes in the box subtree rooted at `node`, its following
/// siblings included.
pub open spec fn spec_box_count(node: Option<Box<LayoutObject>>) -> nat
    decreases node,
{
    match node {
        None => 0,
        Some(n) => 1 + spec_box_count(n.first_child) + spec_box_count(n.next_sibling),
    }
}

/// Whether every document node under `node` (at any depth, siblings included)
/// produces a box under `rules`.
pub open spec fn spec_all_renderable(node: Option<Box<Node>>, rules: Seq<StyleRule>) -> bool
    decreases node,
{
    match node {
        None => true,
        Some(n) => spec_create_layout_object(n.kind, rules) is Some && spec_all_renderable(
            n.first_child,
            rules,
        ) && spec_all_renderable(n.next_sibling, rules),
    }
}

/// Construction never produces more boxes than there are document nodes, and
/// produces exactly one box per node precisely when no node, at any depth,
/// fails to render.
pub proof fn lemma_box_count(node: Option<Box<Node>>, rules: Seq<StyleRule>)
    ensures
        spec_box_count(spec_build_layout_tree(node, rules)) <= spec_node_count(node),
        spec_box_count(spec_build_layout_tree(node, rules)) == spec_node_count(node)
            <==> spec_all_renderable(node, rules),
    decreases node,
{
    match node {
        None => {},
        Some(n) => {
            lemma_box_count(n.first_child, rules);
            lemma_box_count(n.next_sibling, rules);
        },
    }
}

/// The originating node classifications of a box sibling chain, in order.
pub open spec fn spec_box_chain_sources(node: Option<Box<LayoutObject>>) -> Seq<NodeKind>
    decreases node,
{
    match node {
        None => Seq::<NodeKind>::empty(),
        Some(n) => seq![n.node_kind] + spec_box_chain_sources(n.next_sibling),
    }
}

/// The classifications of the renderable nodes of a document sibling chain,
/// in document order, the unrenderable ones omitted.
pub open spec fn spec_renderable_siblings(node: Option<Box<Node>>, rules: Seq<StyleRule>) -> Seq<
    NodeKind,
>
    decreases node,
{
    match node {
        None => Seq::<NodeKind>::empty(),
        Some(n) => if spec_create_layout_object(n.kind, rules) is Some {
            seq![n.kind] + spec_renderable_siblings(n.next_sibling, rules)
        } else {
            spec_renderable_siblings(n.next_sibling, rules)
        },
    }
}

/// Sibling order is preserved: walking `next_sibling` through the built boxes
/// visits exactly the renderable nodes of the document sibling chain, in
/// document order, with the filtered nodes omitted and nothing reordered.
/// Every box's child chain is built by the same construction, so this holds
/// of every sibling chain in the tree.
pub proof fn lemma_sibling_order(node: Option<Box<Node>>, rules: Seq<StyleRule>)
    ensures
        spec_box_chain_sources(spec_build_layout_tree(node, rules)) == spec_renderable_siblings(
            node,
            rules,
        ),
    decreases node,
{
    match node {
        None => {},
        Some(n) => {
            lemma_sibling_order(n.next_sibling, rules);
            assert(spec_box_chain_sources(spec_build_layout_tree(node, rules))
                =~= spec_renderable_siblings(node, rules));
        },
    }
}

/// A node that produces no box is skipped together with its whole subtree:
/// construction continues with the node's next sibling and never reads the
/// node's children, whatever their own display may be.
pub proof fn lemma_unrenderable_excludes_subtree(n: Box<Node>, rules: Seq<StyleRule>)
    requires
        spec_create_layout_object(n.kind, rules) is None,
    ensures
        spec_build_layout_tree(Some(n), rules) == spec_build_layout_tree(n.next_sibling, rules),
{
}

/// Whether every box in the tree has its size field set.
pub open spec fn spec_sizes_set(node: Option<Box<LayoutObject>>) -> bool
    decreases node,
{
    match node {
        None => true,
        Some(n) => n.size is Some && spec_sizes_set(n.first_child) && spec_sizes_set(
            n.next_sibling,
        ),
    }
}

/// Whether every box in the tree has both its size and its position set.
pub open spec fn spec_geometry_complete(node: Option<Box<LayoutObject>>) -> bool
    decreases node,
{
    match node {
        None => true,
        Some(n) => n.size is Some && n.point is Some && spec_geometry_complete(n.first_child)
            && spec_geometry_complete(n.next_sibling),
    }
}

/// The size pass sets every box's size field.
pub proof fn lemma_sized_sets_sizes(node: Option<Box<LayoutObject>>, available_width: u64)
    ensures
        spec_sizes_set(spec_sized(node, available_width)),
    decreases node,
{
    match node {
        None => {},
        Some(n) => {
            lemma_sized_sets_sizes(n.first_child, available_width);
            lemma_sized_sets_sizes(n.next_sibling, available_width);
        },
    }
}

/// The position pass sets every box's position and keeps every size, so after
/// both passes every box carries complete geometry.
pub proof fn lemma_positioned_completes(node: Option<Box<LayoutObject>>, point: LayoutPoint)
    requires
        spec_sizes_set(node),
    ensures
        spec_geometry_complete(spec_positioned(node, point)),
    decreases node,
{
    match node {
        None => {},
        Some(n) => {
            lemma_positioned_completes(n.first_child, point);
            lemma_positioned_completes(
                n.next_sibling,
                LayoutPoint { x: point.x, y: sat_add(point.y, spec_stored_height(*n)) },
            );
        },
    }
}

/// Whether every block box of the tree is `available_width` wide and exactly
/// as tall as the (saturating) sum of its children's stored heights.
pub open spec fn spec_block_geometry_law(
    node: Option<Box<LayoutObject>>,
    available_width: u64,
) -> bool
    decreases node,
{
    match node {
        None => true,
        Some(n) => {
            &&& (n.kind == LayoutObjectKind::Block ==> {
                &&& spec_stored_width(*n) == available_width
                &&& spec_stored_height(*n) == spec_stored_chain_heights(n.first_child)
            })
            &&& spec_block_geometry_law(n.first_child, available_width)
            &&& spec_block_geometry_law(n.next_sibling, available_width)
        },
    }
}

/// The size pass gives every block box the available width and the sum of its
/// children's heights.
pub proof fn lemma_sized_block_law(node: Option<Box<LayoutObject>>, available_width: u64)
    ensures
        spec_block_geometry_law(spec_sized(node, available_width), available_width),
    decreases node,
{
    match node {
        None => {},
        Some(n) => {
            lemma_sized_block_law(n.first_child, available_width);
            lemma_sized_block_law(n.next_sibling, available_width);
            lemma_sized_chain_sums(n.first_child, available_width);
        },
    }
}

/// The position pass does not change any stored height, chain by chain.
pub proof fn lemma_positioned_preserves_chain_heights(
    node: Option<Box<LayoutObject>>,
    point: LayoutPoint,
)
    ensures
        spec_stored_chain_heights(spec_positioned(node, point)) == spec_stored_chain_heights(node),
    decreases node,
{
    match node {
        None => {},
        Some(n) => {
            lemma_positioned_preserves_chain_heights(
                n.next_sibling,
                LayoutPoint { x: point.x, y: sat_add(point.y, spec_stored_height(*n)) },
            );
        },
    }
}

/// The position pass keeps the block geometry established by the size pass.
pub proof fn lemma_positioned_block_law(
    node: Option<Box<LayoutObject>>,
    point: LayoutPoint,
    available_width: u64,
)
    requires
        spec_block_geometry_law(node, available_width),
    ensures
        spec_block_geometry_law(spec_positioned(node, point), available_width),
    decreases node,
{
    match node {
        None => {},
        Some(n) => {
            lemma_positioned_block_law(n.first_child, point, available_width);
            lemma_positioned_block_law(
                n.next_sibling,
                LayoutPoint { x: point.x, y: sat_add(point.y, spec_stored_height(*n)) },
                available_width,
            );
            lemma_positioned_preserves_chain_heights(n.first_child, point);
        },
    }
}

/// Whether positions stack: wherever a box's position is set, its first child
/// sits at the box's own origin, and its next sibling sits at the same x,
/// exactly the box's stored height further down. Chained along a sibling
/// list, this places each box below the cumulative heights of its preceding
/// siblings.
pub open spec fn spec_positions_stacked(node: Option<Box<LayoutObject>>) -> bool
    decreases node,
{
    match node {
        None => true,
        Some(n) => {
            &&& (match (n.point, n.first_child) {
                (Some(p), Some(c)) => c.point == Some(p),
                _ => true,
            })
            &&& (match (n.point, n.next_sibling) {
                (Some(p), Some(s)) => s.point == Some(
                    LayoutPoint { x: p.x, y: sat_add(p.y, spec_stored_height(*n)) },
                ),
                _ => true,
            })
            &&& spec_positions_stacked(n.first_child)
            &&& spec_positions_stacked(n.next_sibling)
        },
    }
}

/// The position pass stacks the tree: the root sits at `point`, children
/// start at their parent's origin, and siblings follow each other downward by
/// exactly the earlier sibling's height.
pub proof fn lemma_positioned_stacks(node: Option<Box<LayoutObject>>, point: LayoutPoint)
    ensures
        spec_positions_stacked(spec_positioned(node, point)),
        spec_positioned(node, point) matches Some(r) ==> r.point == Some(point),
    decreases node,
{
    match node {
        None => {},
        Some(n) => {
            lemma_positioned_stacks(n.first_child, point);
            lemma_positioned_stacks(
                n.next_sibling,
                LayoutPoint { x: point.x, y: sat_add(point.y, spec_stored_height(*n)) },
            );
        },
    }
}

/// The boxes of a sibling chain, in order, as a sequence.
pub open spec fn spec_chain_boxes(node: Option<Box<LayoutObject>>) -> Seq<LayoutObject>
    decreases node,
{
    match node {
        None => Seq::<LayoutObject>::empty(),
        Some(n) => seq![*n] + spec_chain_boxes(n.next_sibling),
    }
}

/// `y0` plus the cumulative (saturating) stored heights of the first `k`
/// boxes of `boxes`.
pub open spec fn spec_cumulative_y(y0: u64, boxes: Seq<LayoutObject>, k: int) -> u64
    decreases k,
{
    if k <= 0 {
        y0
    } else {
        sat_add(spec_cumulative_y(y0, boxes, k - 1), spec_stored_height(boxes[k - 1]))
    }
}

/// Cumulating from `y0` over a chain headed by `b` is cumulating from
/// `y0 + height(b)` over the rest of the chain.
proof fn lemma_cumulative_y_shift(y0: u64, b: LayoutObject, rest: Seq<LayoutObject>, k: int)
    requires
        1 <= k <= rest.len() + 1,
    ensures
        spec_cumulative_y(y0, seq![b] + rest, k) == spec_cumulative_y(
            sat_add(y0, spec_stored_height(b)),
            rest,
            k - 1,
        ),
    decreases k,
{
    let shifted = sat_add(y0, spec_stored_height(b));
    if k == 1 {
        assert(spec_cumulative_y(y0, seq![b] + rest, 0) == y0);
        assert(spec_cumulative_y(shifted, rest, 0) == shifted);
        assert((seq![b] + rest)[0] == b);
    } else {
        lemma_cumulative_y_shift(y0, b, rest, k - 1);
        assert((seq![b] + rest)[k - 1] == rest[k - 2]);
    }
}

/// In a stacked chain anchored at `p`, the `k`-th box sits at `p.x`, at `p.y`
/// plus the cumulative heights of the `k` boxes before it. In particular,
/// each child of a positioned box sits below its parent's origin by exactly
/// the heights of its preceding siblings.
pub proof fn lemma_stacked_chain_y(node: Option<Box<LayoutObject>>, p: LayoutPoint, k: int)
    requires
        spec_positions_stacked(node),
        node matches Some(head) && head.point == Some(p),
        0 <= k < spec_chain_boxes(node).len(),
    ensures
        spec_chain_boxes(node)[k].point == Some(
            LayoutPoint { x: p.x, y: spec_cumulative_y(p.y, spec_chain_boxes(node), k) },
        ),
    decreases k,
{
    let head = node->Some_0;
    let chain = spec_chain_boxes(node);
    assert(chain == seq![*head] + spec_chain_boxes(head.next_sibling));
    if k == 0 {
        assert(chain[0] == *head);
    } else {
        let rest = head.next_sibling;
        match rest {
            None => {
                assert(chain.len() == 1);
            },
            Some(s) => {
                let p_next = LayoutPoint { x: p.x, y: sat_add(p.y, spec_stored_height(*head)) };
                assert(s.point == Some(p_next));
                lemma_stacked_chain_y(rest, p_next, k - 1);
                assert(chain[k] == spec_chain_boxes(rest)[k - 1]);
                lemma_cumulative_y_shift(p.y, *head, spec_chain_boxes(rest), k);
            },
        }
    }
}

/// After both geometry passes, run in order on any box tree: every box has
/// size and position set, every block box is as wide as the content area and
/// as tall as the sum of its children's heights, and positions stack — the
/// first child at its parent's origin, each next sibling one stored height
/// further down. Partial geometry never escapes.
pub proof fn lemma_update_layout_geometry(root: Option<Box<LayoutObject>>)
    ensures
        spec_geometry_complete(spec_update_layout(root)),
        spec_block_geometry_law(spec_update_layout(root), CONTENT_AREA_WIDTH),
        spec_positions_stacked(spec_update_layout(root)),
        spec_update_layout(root) matches Some(r) ==> r.point == Some(LayoutPoint { x: 0, y: 0 }),
{
    let origin = LayoutPoint { x: 0, y: 0 };
    let sized = spec_sized(root, CONTENT_AREA_WIDTH);
    lemma_sized_sets_sizes(root, CONTENT_AREA_WIDTH);
    lemma_positioned_completes(sized, origin);
    lemma_sized_block_law(root, CONTENT_AREA_WIDTH);
    lemma_positioned_block_law(sized, origin, CONTENT_AREA_WIDTH);
    lemma_positioned_stacks(sized, origin);
}

/// The geometry guarantees of `lemma_update_layout_geometry`, stated of the
/// tree a `LayoutView` exposes for a given document and stylesheet.
pub proof fn lemma_view_geometry(root: Node, rules: Seq<StyleRule>)
    ensures
        spec_geometry_complete(spec_layout_view_tree(root, rules)),
        spec_block_geometry_law(spec_layout_view_tree(root, rules), CONTENT_AREA_WIDTH),
        spec_positions_stacked(spec_layout_view_tree(root, rules)),
{
    match spec_find_element(root, ElementKind::Body) {
        None => {},
        Some(body) => {
            lemma_update_layout_geometry(spec_build_layout_tree(body.first_child, rules));
        },
    }
}

/// Layout is a function of the document and the stylesheet alone: rebuilding
/// from equal inputs yields a structurally equal box tree, with the same
/// kinds, order and geometry.
pub proof fn lemma_layout_deterministic(
    root_a: Node,
    root_b: Node,
    rules_a: Seq<StyleRule>,
    rules_b: Seq<StyleRule>,
)
    requires
        root_a == root_b,
        rules_a == rules_b,
    ensures
        spec_layout_view_tree(root_a, rules_a) == spec_layout_view_tree(root_b, rules_b),
{
}

} // verus!
