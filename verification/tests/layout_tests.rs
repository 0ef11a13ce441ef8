use saba_core::constants::CHAR_HEIGHT;
use saba_core::constants::CONTENT_AREA_WIDTH;
use saba_core::cssom::DisplayType;
use saba_core::cssom::StyleSheet;
use saba_core::dom::ElementKind;
use saba_core::dom::Node;
use saba_core::dom::NodeKind;
use saba_core::dom::get_target_element_node;
use saba_core::layout_object::LayoutObject;
use saba_core::layout_object::LayoutObjectKind;
use saba_core::layout_object::LayoutPoint;
use saba_core::layout_view::LayoutView;

fn el(kind: ElementKind, first_child: Option<Box<Node>>, next_sibling: Option<Box<Node>>) -> Node {
    Node { kind: NodeKind::Element(kind), first_child, next_sibling }
}

fn text(s: &str, next_sibling: Option<Box<Node>>) -> Node {
    Node { kind: NodeKind::Text(String::from(s)), first_child: None, next_sibling }
}

/// html > body > ...: wraps a body child chain in the standard document frame.
fn document(body_children: Option<Box<Node>>) -> Node {
    let body = el(ElementKind::Body, body_children, None);
    el(ElementKind::Html, Some(Box::new(body)), None)
}

fn count_boxes(node: &Option<Box<LayoutObject>>) -> u64 {
    match node {
        None => 0,
        Some(n) => 1 + count_boxes(&n.first_child) + count_boxes(&n.next_sibling),
    }
}

fn count_nodes(node: &Option<Box<Node>>) -> u64 {
    match node {
        None => 0,
        Some(n) => 1 + count_nodes(&n.first_child) + count_nodes(&n.next_sibling),
    }
}

fn chain_sources(node: &Option<Box<LayoutObject>>) -> Vec<NodeKind> {
    let mut out = Vec::new();
    let mut cur = node;
    while let Some(n) = cur {
        out.push(n.node_kind.clone());
        cur = &n.next_sibling;
    }
    out
}

#[test]
fn finds_body_in_document() {
    let head = el(ElementKind::Head, None, None);
    let doc = el(
        ElementKind::Html,
        Some(Box::new(el(
            ElementKind::Head,
            None,
            Some(Box::new(el(ElementKind::Body, Some(Box::new(text("hi", None))), None))),
        ))),
        None,
    );
    let found = get_target_element_node(&doc, ElementKind::Body).expect("body should be found");
    assert_eq!(found.kind, NodeKind::Element(ElementKind::Body));
    let missing = get_target_element_node(&head, ElementKind::Body);
    assert!(missing.is_none());
}

#[test]
fn default_displays() {
    let sheet = StyleSheet::new();
    assert_eq!(sheet.resolve_display(ElementKind::Div), DisplayType::Block);
    assert_eq!(sheet.resolve_display(ElementKind::P), DisplayType::Block);
    assert_eq!(sheet.resolve_display(ElementKind::Span), DisplayType::Inline);
    assert_eq!(sheet.resolve_display(ElementKind::A), DisplayType::Inline);
    assert_eq!(sheet.resolve_display(ElementKind::Head), DisplayType::DisplayNone);
}

#[test]
fn later_rule_wins() {
    let mut sheet = StyleSheet::new();
    sheet.add_rule(ElementKind::Div, DisplayType::DisplayNone);
    sheet.add_rule(ElementKind::Div, DisplayType::Inline);
    assert_eq!(sheet.resolve_display(ElementKind::Div), DisplayType::Inline);
    assert_eq!(sheet.resolve_display(ElementKind::P), DisplayType::Block);
}

#[test]
fn display_none_sibling_is_skipped() {
    // body contains [div(display:none), p("text")]: the box tree root is the
    // p box; the div and its descendants produce nothing.
    let mut sheet = StyleSheet::new();
    sheet.add_rule(ElementKind::Div, DisplayType::DisplayNone);
    let p = el(ElementKind::P, Some(Box::new(text("text", None))), None);
    let div = el(
        ElementKind::Div,
        Some(Box::new(el(ElementKind::Span, None, None))),
        Some(Box::new(p)),
    );
    let doc = document(Some(Box::new(div)));
    let view = LayoutView::new(&doc, &sheet);
    let root = view.root().as_ref().expect("p should render");
    assert_eq!(root.node_kind, NodeKind::Element(ElementKind::P));
    assert_eq!(root.kind, LayoutObjectKind::Block);
    assert!(root.next_sibling.is_none());
    let child = root.first_child.as_ref().expect("text should render");
    assert_eq!(child.kind, LayoutObjectKind::Text);
    assert!(child.first_child.is_none());
    assert!(child.next_sibling.is_none());
}

#[test]
fn display_none_ancestor_excludes_renderable_child() {
    // body's only child is div(display:none) whose child span is explicitly
    // display:block: the box tree is empty, ancestor filtering dominates.
    let mut sheet = StyleSheet::new();
    sheet.add_rule(ElementKind::Div, DisplayType::DisplayNone);
    sheet.add_rule(ElementKind::Span, DisplayType::Block);
    let span = el(ElementKind::Span, None, None);
    let div = el(ElementKind::Div, Some(Box::new(span)), None);
    let doc = document(Some(Box::new(div)));
    let view = LayoutView::new(&doc, &sheet);
    assert!(view.root().is_none());
}

#[test]
fn three_blocks_stack_vertically() {
    // Three block children holding one, two and three lines of text: heights
    // h1 = 16, h2 = 32, h3 = 48, so the y-origins are 0, h1, h1 + h2; every
    // block shares x = 0 and the fixed content-area width.
    let sheet = StyleSheet::new();
    let d3 = el(
        ElementKind::Div,
        Some(Box::new(text("a", Some(Box::new(text("b", Some(Box::new(text("c", None))))))))),
        None,
    );
    let d2 = el(
        ElementKind::Div,
        Some(Box::new(text("a", Some(Box::new(text("b", None)))))),
        Some(Box::new(d3)),
    );
    let d1 = el(ElementKind::Div, Some(Box::new(text("a", None))), Some(Box::new(d2)));
    let doc = document(Some(Box::new(d1)));
    let view = LayoutView::new(&doc, &sheet);

    let expected_heights = [CHAR_HEIGHT, 2 * CHAR_HEIGHT, 3 * CHAR_HEIGHT];
    let expected_y = [0, CHAR_HEIGHT, 3 * CHAR_HEIGHT];
    let mut cur = view.root();
    for i in 0..3 {
        let b = cur.as_ref().expect("three blocks should render");
        assert_eq!(b.kind, LayoutObjectKind::Block);
        let size = b.size.expect("size must be set after layout");
        let point = b.point.expect("position must be set after layout");
        assert_eq!(size.width, CONTENT_AREA_WIDTH);
        assert_eq!(size.height, expected_heights[i]);
        assert_eq!(point.x, 0);
        assert_eq!(point.y, expected_y[i]);
        cur = &b.next_sibling;
    }
    assert!(cur.is_none());
}

fn all_geometry_set(node: &Option<Box<LayoutObject>>) -> bool {
    match node {
        None => true,
        Some(n) => {
            n.size.is_some() && n.point.is_some() && all_geometry_set(&n.first_child)
                && all_geometry_set(&n.next_sibling)
        }
    }
}

#[test]
fn geometry_is_set_on_every_box() {
    let sheet = StyleSheet::new();
    let span = el(ElementKind::Span, Some(Box::new(text("ab", None))), None);
    let div = el(ElementKind::Div, Some(Box::new(span)), None);
    let doc = document(Some(Box::new(div)));
    let view = LayoutView::new(&doc, &sheet);
    assert!(view.root().is_some());
    assert!(all_geometry_set(view.root()));
}

#[test]
fn text_and_inline_intrinsic_sizes() {
    // text "hello" is 5 characters: width 5 * 8 = 40, height one line; the
    // inline span around it takes the sum of its children's sizes.
    let sheet = StyleSheet::new();
    let span = el(ElementKind::Span, Some(Box::new(text("hello", None))), None);
    let doc = document(Some(Box::new(span)));
    let view = LayoutView::new(&doc, &sheet);
    let root = view.root().as_ref().expect("span should render");
    assert_eq!(root.kind, LayoutObjectKind::Inline);
    let size = root.size.expect("size must be set");
    assert_eq!(size.width, 40);
    assert_eq!(size.height, CHAR_HEIGHT);
    let t = root.first_child.as_ref().expect("text should render");
    let tsize = t.size.expect("size must be set");
    assert_eq!(tsize.width, 40);
    assert_eq!(tsize.height, CHAR_HEIGHT);
}

#[test]
fn box_count_never_exceeds_node_count() {
    let mut sheet = StyleSheet::new();
    sheet.add_rule(ElementKind::Div, DisplayType::DisplayNone);
    let p = el(ElementKind::P, Some(Box::new(text("text", None))), None);
    let div = el(
        ElementKind::Div,
        Some(Box::new(el(ElementKind::Span, None, None))),
        Some(Box::new(p)),
    );
    let body_children = Some(Box::new(div));
    let n_nodes = count_nodes(&body_children);
    let doc = document(body_children);
    let view = LayoutView::new(&doc, &sheet);
    assert_eq!(n_nodes, 4);
    assert_eq!(count_boxes(view.root()), 2);

    // With nothing filtered, the counts are equal.
    let plain_sheet = StyleSheet::new();
    let p2 = el(ElementKind::P, Some(Box::new(text("text", None))), None);
    let body_children2 = Some(Box::new(p2));
    let n_nodes2 = count_nodes(&body_children2);
    let doc2 = document(body_children2);
    let view2 = LayoutView::new(&doc2, &plain_sheet);
    assert_eq!(count_boxes(view2.root()), n_nodes2);
}

#[test]
fn sibling_order_is_preserved() {
    let mut sheet = StyleSheet::new();
    sheet.add_rule(ElementKind::Div, DisplayType::DisplayNone);
    let chain = el(
        ElementKind::Span,
        None,
        Some(Box::new(el(
            ElementKind::Div,
            None,
            Some(Box::new(el(ElementKind::P, None, Some(Box::new(text("tail", None)))))),
        ))),
    );
    let doc = document(Some(Box::new(chain)));
    let view = LayoutView::new(&doc, &sheet);
    let sources = chain_sources(view.root());
    assert_eq!(
        sources,
        vec![
            NodeKind::Element(ElementKind::Span),
            NodeKind::Element(ElementKind::P),
            NodeKind::Text(String::from("tail")),
        ]
    );
}

fn build_mixed_layout() -> LayoutView {
    let mut sheet = StyleSheet::new();
    sheet.add_rule(ElementKind::A, DisplayType::DisplayNone);
    let a = el(ElementKind::A, Some(Box::new(text("hidden", None))), None);
    let span = el(ElementKind::Span, Some(Box::new(text("x", None))), Some(Box::new(a)));
    let div = el(ElementKind::Div, Some(Box::new(span)), None);
    let doc = document(Some(Box::new(div)));
    LayoutView::new(&doc, &sheet)
}

#[test]
fn rebuilding_gives_identical_layout() {
    let first = build_mixed_layout();
    let second = build_mixed_layout();
    assert_eq!(first, second);
    assert_eq!(first.root(), second.root());
}

#[test]
fn empty_trees() {
    // A body with no children, and a document with no body at all, both
    // yield an empty box tree.
    let sheet = StyleSheet::new();
    let doc = document(None);
    let view = LayoutView::new(&doc, &sheet);
    assert!(view.root().is_none());

    let bodyless = el(ElementKind::Html, Some(Box::new(el(ElementKind::Head, None, None))), None);
    let view2 = LayoutView::new(&bodyless, &sheet);
    assert!(view2.root().is_none());
}

#[test]
fn nested_blocks_accumulate_heights_and_positions() {
    // div > div > [text "a", text "b"]: both texts are one line tall, so both
    // divs are two lines tall; the inner div and the first text start at the
    // outer div's origin, and the second text starts one line further down.
    let sheet = StyleSheet::new();
    let inner = el(
        ElementKind::Div,
        Some(Box::new(text("a", Some(Box::new(text("b", None)))))),
        None,
    );
    let outer = el(ElementKind::Div, Some(Box::new(inner)), None);
    let doc = document(Some(Box::new(outer)));
    let view = LayoutView::new(&doc, &sheet);

    let outer_box = view.root().as_ref().expect("outer div should render");
    assert_eq!(outer_box.size.unwrap().height, 2 * CHAR_HEIGHT);
    assert_eq!(outer_box.point.unwrap(), LayoutPoint::new(0, 0));
    let inner_box = outer_box.first_child.as_ref().expect("inner div should render");
    assert_eq!(inner_box.size.unwrap().height, 2 * CHAR_HEIGHT);
    assert_eq!(inner_box.point.unwrap(), LayoutPoint::new(0, 0));
    let first_text = inner_box.first_child.as_ref().expect("first text should render");
    assert_eq!(first_text.point.unwrap(), LayoutPoint::new(0, 0));
    let second_text = first_text.next_sibling.as_ref().expect("second text should render");
    assert_eq!(second_text.point.unwrap(), LayoutPoint::new(0, CHAR_HEIGHT));
}

#[test]
fn body_styled_none_still_anchors_layout() {
    // The body is a structural anchor, not a box: its children are laid out
    // directly, whatever display the stylesheet gives the body itself.
    let mut sheet = StyleSheet::new();
    sheet.add_rule(ElementKind::Body, DisplayType::DisplayNone);
    let doc = document(Some(Box::new(el(ElementKind::H1, None, None))));
    let view = LayoutView::new(&doc, &sheet);
    let root = view.root().as_ref().expect("h1 should render");
    assert_eq!(root.node_kind, NodeKind::Element(ElementKind::H1));
    assert_eq!(root.kind, LayoutObjectKind::Block);
}
