//! The errors that resolution and rendering return.

use vstd::prelude::*;

verus! {

/// Why a content file could not be resolved.
#[derive(Debug, Clone, Copy, PartialEq, Eq, Structural)]
pub enum ContentError {
    /// The file does not lie under the source root.
    Path,
    /// The front-matter block is not well-formed YAML.
    Parse,
}

impl ContentError {
    /// The error in words.
    pub fn message(&self) -> (r: &'static str)
        ensures
            r@ == (match *self {
                ContentError::Path => "content file is not under the source root"@,
                ContentError::Parse => "front matter is not well-formed YAML"@,
            }),
    {
        match self {
            ContentError::Path => "content file is not under the source root",
            ContentError::Parse => "front matter is not well-formed YAML",
        }
    }
}

/// Why a template engine could not be built, or a page not be rendered.
#[derive(Debug)]
pub enum TemplateError {
    /// A data file was refused by its parser.
    DataLoad { path: String, message: String },
    /// The template is missing, or the engine failed on it.
    Render { message: String },
}

} // verus!
