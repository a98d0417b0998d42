//! The cursor shape.

use crate::config::document::{CursorTable, CursorTableView};
use crate::text::same_text;
use vstd::prelude::*;

verus! {

/// The seven shapes a terminal cursor can take.
#[derive(Debug, Clone, Copy, PartialEq, Eq, Structural)]
pub enum CursorShape {
    /// The shape that the user configured for the terminal.
    DefaultUserShape,
    BlinkingBlock,
    SteadyBlock,
    BlinkingUnderScore,
    SteadyUnderScore,
    BlinkingBar,
    SteadyBar,
}

/// The resolved cursor setting.
#[derive(Debug, Clone, Copy, PartialEq, Eq, Structural)]
pub struct CursorKind {
    pub style: CursorShape,
}

/// The name under which the configuration knows a shape.
pub open spec fn shape_name(shape: CursorShape) -> Seq<char> {
    match shape {
        CursorShape::DefaultUserShape => "DefaultUserShape"@,
        CursorShape::BlinkingBlock => "BlinkingBlock"@,
        CursorShape::SteadyBlock => "SteadyBlock"@,
        CursorShape::BlinkingUnderScore => "BlinkingUnderScore"@,
        CursorShape::SteadyUnderScore => "SteadyUnderScore"@,
        CursorShape::BlinkingBar => "BlinkingBar"@,
        CursorShape::SteadyBar => "SteadyBar"@,
    }
}

/// The shape that a name stands for: the shape of that very name, letter
/// for letter, and the user's default shape for every other text.
pub open spec fn shape_named(name: Seq<char>) -> CursorShape {
    if name == shape_name(CursorShape::BlinkingBlock) {
        CursorShape::BlinkingBlock
    } else if name == shape_name(CursorShape::SteadyBlock) {
        CursorShape::SteadyBlock
    } else if name == shape_name(CursorShape::BlinkingUnderScore) {
        CursorShape::BlinkingUnderScore
    } else if name == shape_name(CursorShape::SteadyUnderScore) {
        CursorShape::SteadyUnderScore
    } else if name == shape_name(CursorShape::BlinkingBar) {
        CursorShape::BlinkingBar
    } else if name == shape_name(CursorShape::SteadyBar) {
        CursorShape::SteadyBar
    } else {
        CursorShape::DefaultUserShape
    }
}

/// The shape that an optional `cursor` section resolves to.
pub open spec fn resolved_shape(cursor: Option<CursorTableView>) -> CursorShape {
    match cursor {
        Some(table) => match table.style {
            Some(name) => shape_named(name),
            None => CursorShape::DefaultUserShape,
        },
        None => CursorShape::DefaultUserShape,
    }
}

impl CursorShape {
    /// The name under which the configuration knows this shape.
    pub fn name(self) -> (name: &'static str)
        ensures
            name@ == shape_name(self),
    {
        match self {
            CursorShape::DefaultUserShape => "DefaultUserShape",
            CursorShape::BlinkingBlock => "BlinkingBlock",
            CursorShape::SteadyBlock => "SteadyBlock",
            CursorShape::BlinkingUnderScore => "BlinkingUnderScore",
            CursorShape::SteadyUnderScore => "SteadyUnderScore",
            CursorShape::BlinkingBar => "BlinkingBar",
            CursorShape::SteadyBar => "SteadyBar",
        }
    }

    /// The shape that `name` stands for, by exact match; any other text
    /// gives the user's default shape.
    pub fn from_name(name: &str) -> (shape: CursorShape)
        ensures
            shape == shape_named(name@),
    {
        if same_text(name, CursorShape::BlinkingBlock.name()) {
            CursorShape::BlinkingBlock
        } else if same_text(name, CursorShape::SteadyBlock.name()) {
            CursorShape::SteadyBlock
        } else if same_text(name, CursorShape::BlinkingUnderScore.name()) {
            CursorShape::BlinkingUnderScore
        } else if same_text(name, CursorShape::SteadyUnderScore.name()) {
            CursorShape::SteadyUnderScore
        } else if same_text(name, CursorShape::BlinkingBar.name()) {
            CursorShape::BlinkingBar
        } else if same_text(name, CursorShape::SteadyBar.name()) {
            CursorShape::SteadyBar
        } else {
            CursorShape::DefaultUserShape
        }
    }
}

impl CursorKind {
    /// Resolves the cursor setting from the `cursor` section of the
    /// configuration.
    ///
    /// A style that names one of the seven shapes gives that shape. Every
    /// other style, a section without a style and an absent section give
    /// the user's default shape.
    pub fn new(cursor: Option<CursorTable>) -> (kind: CursorKind)
        ensures
            kind.style == resolved_shape(cursor.deep_view()),
    {
        let style = match &cursor {
            Some(table) => match &table.style {
                Some(name) => CursorShape::from_name(name.as_str()),
                None => CursorShape::DefaultUserShape,
            },
            None => CursorShape::DefaultUserShape,
        };
        CursorKind { style }
    }
}

impl Default for CursorKind {
    /// The user's default shape.
    fn default() -> (kind: CursorKind)
        ensures
            kind.style == CursorShape::DefaultUserShape,
    {
        CursorKind { style: CursorShape::DefaultUserShape }
    }
}

/// No two shapes share a name.
pub proof fn lemma_shape_names_differ(first: CursorShape, second: CursorShape)
    ensures
        shape_name(first) == shape_name(second) ==> first == second,
{
    reveal_strlit("DefaultUserShape");
    reveal_strlit("BlinkingBlock");
    reveal_strlit("SteadyBlock");
    reveal_strlit("BlinkingUnderScore");
    reveal_strlit("SteadyUnderScore");
    reveal_strlit("BlinkingBar");
    reveal_strlit("SteadyBar");
    let a = shape_name(first);
    let b = shape_name(second);
    if first != second && a.len() == b.len() {
        assert(a[0] != b[0]);
    }
}

/// The name of each of the seven shapes resolves to that very shape.
pub proof fn lemma_shape_name_round_trip(shape: CursorShape)
    ensures
        shape_named(shape_name(shape)) == shape,
        resolved_shape(Some(CursorTableView { style: Some(shape_name(shape)) })) == shape,
{
    lemma_shape_names_differ(shape, CursorShape::DefaultUserShape);
    lemma_shape_names_differ(shape, CursorShape::BlinkingBlock);
    lemma_shape_names_differ(shape, CursorShape::SteadyBlock);
    lemma_shape_names_differ(shape, CursorShape::BlinkingUnderScore);
    lemma_shape_names_differ(shape, CursorShape::SteadyUnderScore);
    lemma_shape_names_differ(shape, CursorShape::BlinkingBar);
    lemma_shape_names_differ(shape, CursorShape::SteadyBar);
}

/// A style that is the name of no shape, a section without a style and an
/// absent section all resolve to the user's default shape.
pub proof fn lemma_unknown_style_is_default(name: Seq<char>)
    requires
        forall|shape: CursorShape| name != #[trigger] shape_name(shape),
    ensures
        shape_named(name) == CursorShape::DefaultUserShape,
        resolved_shape(Some(CursorTableView { style: Some(name) }))
            == CursorShape::DefaultUserShape,
        resolved_shape(Some(CursorTableView { style: None })) == CursorShape::DefaultUserShape,
        resolved_shape(None) == CursorShape::DefaultUserShape,
{
}

} // verus!
