//! A static-site content pipeline in two stages.
//!
//! Content resolution turns the text of a content file into a
//! [`ContentFile`]: its front matter, its body, the body as HTML, and where
//! the file lies and is published. Template rendering turns a document into
//! a page, through the template that its layout names and in a context that
//! holds the document, the site configuration and the data table.
//!
//! The library reads no file itself: its callers hand it the text of content
//! files and data files, and the templates that they loaded. Nor does it run
//! the template engine: it says what to render, and reads what came back.

pub mod content;
pub mod context;
pub mod data;
pub mod datum;
pub mod decimal;
pub mod error;
pub mod filters;
pub mod front_matter;
pub mod json;
pub mod laws;
pub mod markdown;
pub mod narrow;
pub mod paths;
pub mod source;
pub mod templates;
pub mod text;

pub use content::ContentFile;
pub use data::DataFile;
pub use datum::Datum;
pub use error::{ContentError, TemplateError};
pub use front_matter::FrontMatter;
pub use templates::TemplateEngine;
