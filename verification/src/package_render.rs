//! Package render.
//!
//! The encoding of a package as a YAML or a JSON document is the caller's;
//! what is decided here is what a renderer asks for and what it makes of it.

use crate::schema::manifest::Package;
use vstd::prelude::*;
use vstd::string::*;

verus! {

/// Rendering params.
#[derive(Debug, Clone, Copy, PartialEq, Eq, Structural)]
pub enum Renderer {
    /// Display name only.
    DisplayName,
    /// YAML format.
    Yaml,
    /// JSON format.
    Json,
}

/// The document that a renderer needs of a package.
#[derive(Debug, Clone, Copy, PartialEq, Eq, Structural)]
pub enum Encoding {
    /// The package as a YAML document.
    Yaml,
    /// The package as a JSON document, indented.
    Json,
}

impl Renderer {
    /// The document that the renderer needs, if it needs one.
    pub fn encoding(&self) -> (encoding: Option<Encoding>)
        ensures
            encoding == match *self {
                Renderer::DisplayName => None,
                Renderer::Yaml => Some(Encoding::Yaml),
                Renderer::Json => Some(Encoding::Json),
            },
    {
        match self {
            Renderer::DisplayName => None,
            Renderer::Yaml => Some(Encoding::Yaml),
            Renderer::Json => Some(Encoding::Json),
        }
    }

    /// What the renderer shows of `package`, whose encoding is `document`:
    /// its display name, the YAML document behind a document start marker,
    /// or the JSON document.
    pub open spec fn rendered(self, package: Package, document: Seq<char>) -> Seq<char> {
        match self {
            Renderer::DisplayName => package.display_name@,
            Renderer::Yaml => "---\n"@ + document,
            Renderer::Json => document,
        }
    }

    /// Render the package into a string according to the renderer config.
    ///
    /// `document` is the package in the encoding that the renderer asks
    /// for; a renderer that asks for none does not look at it.
    pub fn render_to_string(&self, package: &Package, document: &str) -> (r: String)
        ensures
            r@ == self.rendered(*package, document@),
    {
        match self {
            Renderer::DisplayName => package.display_name.clone(),
            Renderer::Yaml => "---\n".to_owned().concat(document),
            Renderer::Json => document.to_owned(),
        }
    }
}

} // verus!
