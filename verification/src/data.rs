//! The data table: the documents of the data directory, each under the stem
//! of its file.

use vstd::prelude::*;
use crate::datum::{lemma_mapping_view_push, mapping_view, Datum, DatumView};
use crate::error::TemplateError;
use crate::json::{json_document, parse_json, parse_yaml, yaml_document};
use crate::paths::{extension, file_stem, path_extension, path_file_stem};
use crate::text::same_text;

verus! {

/// One file of the data directory: its path and its text.
#[derive(Debug, Clone)]
pub struct DataFile {
    pub path: String,
    pub text: String,
}

/// A [`DataFile`] as two sequences of characters.
pub struct DataFileView {
    pub path: Seq<char>,
    pub text: Seq<char>,
}

impl View for DataFile {
    type V = DataFileView;

    open spec fn view(&self) -> DataFileView {
        DataFileView { path: self.path@, text: self.text@ }
    }
}

/// The formats in which a data file can be written.
#[derive(Debug, Clone, Copy, PartialEq, Eq, Structural)]
pub enum DataFormat {
    Yaml,
    Json,
}

/// The format that a file extension stands for: YAML for `yml` and `yaml`,
/// JSON for `json`, none for any other.
pub open spec fn format_of(extension: Option<Seq<char>>) -> Option<DataFormat> {
    match extension {
        Some(e) => if e == "yml"@ || e == "yaml"@ {
            Some(DataFormat::Yaml)
        } else if e == "json"@ {
            Some(DataFormat::Json)
        } else {
            None
        },
        None => None,
    }
}

/// The document that a text holds in the given format, or `None` where the
/// format's parser refuses the text.
pub open spec fn document_in(format: DataFormat, text: Seq<char>) -> Option<DatumView> {
    match format {
        DataFormat::Yaml => yaml_document(text),
        DataFormat::Json => json_document(text),
    }
}

/// The table after one more file. A file of no known format leaves it as it
/// is; a file of a known format is parsed, and its document entered under
/// the stem of the file. `Err` holds the path of a file that was refused.
pub open spec fn table_with(table: Map<Seq<char>, DatumView>, file: DataFileView) -> Result<
    Map<Seq<char>, DatumView>,
    Seq<char>,
> {
    match format_of(path_extension(file.path)) {
        None => Ok(table),
        Some(format) => match document_in(format, file.text) {
            None => Err(file.path),
            Some(document) => match path_file_stem(file.path) {
                Some(stem) => Ok(table.insert(stem, document)),
                None => Ok(table),
            },
        },
    }
}

/// The table of all `files`, entered in their order, or the path of the
/// first file that was refused.
pub open spec fn table_of(files: Seq<DataFile>) -> Result<Map<Seq<char>, DatumView>, Seq<char>>
    decreases files.len(),
{
    if files.len() == 0 {
        Ok(Map::empty())
    } else {
        match table_of(files.drop_last()) {
            Ok(table) => table_with(table, files.last()@),
            Err(path) => Err(path),
        }
    }
}

/// The format of the data file at `path`, by its extension.
pub fn data_format(path: &str) -> (r: Option<DataFormat>)
    ensures
        r == format_of(path_extension(path@)),
{
    match extension(path) {
        Some(e) => {
            if same_text(e.as_str(), "yml") || same_text(e.as_str(), "yaml") {
                Some(DataFormat::Yaml)
            } else if same_text(e.as_str(), "json") {
                Some(DataFormat::Json)
            } else {
                None
            }
        },
        None => None,
    }
}

/// Reads a document in the given format; `Err` holds the parser's message.
pub fn parse_document(format: DataFormat, text: &str) -> (r: Result<Datum, String>)
    ensures
        match r {
            Ok(d) => document_in(format, text@) == Some(d@),
            Err(_) => document_in(format, text@) is None,
        },
{
    match format {
        DataFormat::Yaml => parse_yaml(text),
        DataFormat::Json => parse_json(text),
    }
}

/// Builds the data table from the files of the data directory: see
/// [`table_of`]. Fails on the first file that its parser refuses.
pub fn load(files: &Vec<DataFile>) -> (r: Result<Vec<(String, Datum)>, TemplateError>)
    ensures
        match r {
            Ok(table) => table_of(files@) == Ok::<Map<Seq<char>, DatumView>, Seq<char>>(
                mapping_view(table@),
            ),
            Err(TemplateError::DataLoad { path, message }) => table_of(files@) == Err::<
                Map<Seq<char>, DatumView>,
                Seq<char>,
            >(path@),
            Err(_) => false,
        },
{
    let mut table: Vec<(String, Datum)> = Vec::new();
    let mut i: usize = 0;
    while i < files.len()
        invariant
            i <= files.len(),
            table_of(files@.take(i as int)) == Ok::<Map<Seq<char>, DatumView>, Seq<char>>(
                mapping_view(table@),
            ),
        decreases files.len() - i,
    {
        let file = &files[i];
        proof {
            assert(files@.take(i + 1).drop_last() == files@.take(i as int));
        }
        match data_format(file.path.as_str()) {
            Some(format) => {
                match parse_document(format, file.text.as_str()) {
                    Ok(document) => {
                        match file_stem(file.path.as_str()) {
                            Some(stem) => {
                                proof {
                                    lemma_mapping_view_push(table@, (stem, document));
                                }
                                table.push((stem, document));
                            },
                            None => {},
                        }
                    },
                    Err(message) => {
                        proof {
                            lemma_table_of_fails(files@, i + 1);
                        }
                        return Err(TemplateError::DataLoad { path: file.path.clone(), message });
                    },
                }
            },
            None => {},
        }
        i = i + 1;
    }
    proof {
        assert(files@.take(i as int) == files@);
    }
    Ok(table)
}

/// Once a file has been refused, more files do not change the outcome.
proof fn lemma_table_of_fails(files: Seq<DataFile>, count: int)
    requires
        0 <= count <= files.len(),
        table_of(files.take(count)) is Err,
    ensures
        table_of(files) == table_of(files.take(count)),
    decreases files.len() - count,
{
    if count < files.len() {
        assert(files.take(count + 1).drop_last() == files.take(count));
        lemma_table_of_fails(files, count + 1);
    } else {
        assert(files.take(count) == files);
    }
}

} // verus!
