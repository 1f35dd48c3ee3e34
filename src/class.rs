use vstd::prelude::*;

use indexmap::IndexMap;

verus! {

/// A style class of a Nenyr document, filled in by the class parser.
#[derive(Debug, PartialEq)]
pub struct NenyrStyleClass {
    pub class_name: Option<String>,
    pub deriving_from: Option<String>,
    pub is_important: Option<bool>,
    /// Style patterns by name, each a map from property to value.
    pub style_patterns: Option<IndexMap<String, IndexMap<String, String>>>,
    /// Per breakpoint, style patterns by name.
    pub responsive_patterns: Option<IndexMap<String, IndexMap<String, IndexMap<String, String>>>>,
}

impl NenyrStyleClass {
    /// A class with nothing set.
    pub fn new() -> (r: Self)
        ensures
            r.class_name is None,
            r.deriving_from is None,
            r.is_important is None,
            r.style_patterns is None,
            r.responsive_patterns is None,
    {
        NenyrStyleClass {
            class_name: None,
            deriving_from: None,
            is_important: None,
            style_patterns: None,
            responsive_patterns: None,
        }
    }

    /// Post-processing of a parsed class; a parsed class needs none yet.
    pub fn process_class(&self) {
    }
}

/// The typefaces of a Nenyr document: family name to font source.
#[derive(Debug, PartialEq)]
pub struct NenyrTypefaces {
    pub values: IndexMap<String, String>,
}

} // verus!
