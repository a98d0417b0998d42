//! The configuration document: two optional sections whose fields are each
//! optional in turn, so that a partial file is a valid one.

use vstd::prelude::*;

verus! {

/// The `colors` section: six optional colours, each written as `#RRGGBB`.
#[derive(Debug, Clone, PartialEq, Eq)]
pub struct ColorTable {
    pub fg: Option<String>,
    pub bg: Option<String>,
    pub typed: Option<String>,
    pub missing: Option<String>,
    pub error: Option<String>,
    pub accent: Option<String>,
}

/// What a [`ColorTable`] holds, as text.
pub struct ColorTableView {
    pub fg: Option<Seq<char>>,
    pub bg: Option<Seq<char>>,
    pub typed: Option<Seq<char>>,
    pub missing: Option<Seq<char>>,
    pub error: Option<Seq<char>>,
    pub accent: Option<Seq<char>>,
}

impl View for ColorTable {
    type V = ColorTableView;

    open spec fn view(&self) -> ColorTableView {
        ColorTableView {
            fg: self.fg.deep_view(),
            bg: self.bg.deep_view(),
            typed: self.typed.deep_view(),
            missing: self.missing.deep_view(),
            error: self.error.deep_view(),
            accent: self.accent.deep_view(),
        }
    }
}

impl DeepView for ColorTable {
    type V = ColorTableView;

    open spec fn deep_view(&self) -> ColorTableView {
        self.view()
    }
}

/// The `cursor` section: the name of a cursor shape.
#[derive(Debug, Clone, PartialEq, Eq)]
pub struct CursorTable {
    pub style: Option<String>,
}

/// What a [`CursorTable`] holds, as text.
pub struct CursorTableView {
    pub style: Option<Seq<char>>,
}

impl View for CursorTable {
    type V = CursorTableView;

    open spec fn view(&self) -> CursorTableView {
        CursorTableView { style: self.style.deep_view() }
    }
}

impl DeepView for CursorTable {
    type V = CursorTableView;

    open spec fn deep_view(&self) -> CursorTableView {
        self.view()
    }
}

/// A whole configuration document. A section that the file does not hold is
/// `None`.
#[derive(Debug, Clone, PartialEq, Eq)]
pub struct ConfigToml {
    pub colors: Option<ColorTable>,
    pub cursor: Option<CursorTable>,
}

impl Default for ConfigToml {
    /// The empty document, which stands for a file that is absent,
    /// unreadable or malformed.
    fn default() -> (document: ConfigToml)
        ensures
            document.colors is None,
            document.cursor is None,
    {
        ConfigToml { colors: None, cursor: None }
    }
}

impl ConfigToml {
    /// The document that parsing came to. Text that could not be parsed,
    /// given as `None`, counts as the empty document: a broken file is
    /// treated like an absent one.
    pub fn or_empty(parsed: Option<ConfigToml>) -> (document: ConfigToml)
        ensures
            document == match parsed {
                Some(found) => found,
                None => (ConfigToml { colors: None, cursor: None }),
            },
    {
        match parsed {
            Some(found) => found,
            None => ConfigToml::default(),
        }
    }
}

} // verus!
