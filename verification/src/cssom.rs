//! The resolved stylesheet that layout consults: an ordered list of rules,
//! each mapping an element kind to a display classification. Later rules win,
//! and an element that no rule matches keeps its default display.

use vstd::prelude::*;

use crate::dom::ElementKind;

verus! {

/// The display classification of an element: renders as a block, renders
/// inline, or produces no box at all (and hides its whole subtree).
#[derive(Debug, Clone, Copy, PartialEq, Eq, Structural)]
pub enum DisplayType {
    Block,
    Inline,
    DisplayNone,
}

/// One stylesheet rule: every element of kind `selector` displays as
/// `display`.
#[derive(Debug, Clone, Copy, PartialEq, Eq, Structural)]
pub struct StyleRule {
    pub selector: ElementKind,
    pub display: DisplayType,
}

/// An ordered set of style rules; later rules override earlier ones.
#[derive(Debug, PartialEq, Eq)]
pub struct StyleSheet {
    pub rules: Vec<StyleRule>,
}

impl View for StyleSheet {
    type V = Seq<StyleRule>;

    open spec fn view(&self) -> Seq<StyleRule> {
        self.rules@
    }
}

/// The display an element kind has when no rule selects it.
pub open spec fn spec_default_display(kind: ElementKind) -> DisplayType {
    match kind {
        ElementKind::Span => DisplayType::Inline,
        ElementKind::A => DisplayType::Inline,
        ElementKind::Head => DisplayType::DisplayNone,
        _ => DisplayType::Block,
    }
}

/// The display set by the last rule of `rules` that selects `kind`, if any.
pub open spec fn spec_rule_display(rules: Seq<StyleRule>, kind: ElementKind) -> Option<DisplayType>
    decreases rules.len(),
{
    if rules.len() == 0 {
        None
    } else if rules.last().selector == kind {
        Some(rules.last().display)
    } else {
        spec_rule_display(rules.drop_last(), kind)
    }
}

/// The resolved display of an element of kind `kind` under `rules`: the last
/// matching rule's display, or the kind's default display if none matches.
pub open spec fn spec_resolved_display(rules: Seq<StyleRule>, kind: ElementKind) -> DisplayType {
    match spec_rule_display(rules, kind) {
        Some(d) => d,
        None => spec_default_display(kind),
    }
}

impl StyleSheet {
    /// An empty stylesheet: every element keeps its default display.
    pub fn new() -> (r: StyleSheet)
        ensures
            r@ == Seq::<StyleRule>::empty(),
    {
        StyleSheet { rules: Vec::new() }
    }

    /// Appends a rule, which overrides any earlier rule for the same selector.
    pub fn add_rule(&mut self, selector: ElementKind, display: DisplayType)
        ensures
            final(self)@ == old(self)@.push(StyleRule { selector, display }),
    {
        self.rules.push(StyleRule { selector, display });
    }

    /// Resolves the display of an element of kind `kind` under this
    /// stylesheet.
    pub fn resolve_display(&self, kind: ElementKind) -> (r: DisplayType)
        ensures
            r == spec_resolved_display(self@, kind),
    {
        let mut matched: Option<DisplayType> = None;
        let mut i: usize = 0;
        while i < self.rules.len()
            invariant
                i <= self.rules.len(),
                matched == spec_rule_display(self@.take(i as int), kind),
            decreases self.rules.len() - i,
        {
            let rule = self.rules[i];
            proof {
                assert(self@.take(i + 1 as int).drop_last() =~= self@.take(i as int));
                assert(self@.take(i + 1 as int).last() == self@[i as int]);
            }
            if rule.selector == kind {
                matched = Some(rule.display);
            }
            i = i + 1;
        }
        proof {
            assert(self@.take(self@.len() as int) =~= self@);
        }
        match matched {
            Some(d) => d,
            None => default_display(kind),
        }
    }
}

/// The default display of an element kind, as executable code.
pub fn default_display(kind: ElementKind) -> (r: DisplayType)
    ensures
        r == spec_default_display(kind),
{
    match kind {
        ElementKind::Span => DisplayType::Inline,
        ElementKind::A => DisplayType::Inline,
        ElementKind::Head => DisplayType::DisplayNone,
        _ => DisplayType::Block,
    }
}

} // verus!
