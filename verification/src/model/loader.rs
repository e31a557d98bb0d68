//! The search for a model file among the directories where models are kept.
//!
//! The file system is not looked at here: the caller reports, for each
//! directory, which of the files in question it holds.

use crate::error::WhisperError;
use crate::model::downloader::{generate_url, model_url};
use crate::text::texts;
use vstd::prelude::*;
use vstd::string::StringExecFns;

verus! {

/// The model that is used where none is asked for.
pub const DEFAULT_MODEL: &'static str = "base";

/// The directory, below the user's home, where downloaded models are put.
pub const MODELS_DIR: &'static str = ".local/share/whisper";

/// The directory that is searched besides those below the user's home.
pub const LOCAL_MODELS_DIR: &'static str = "./models";

/// The three files that can hold a model, in the order in which they are
/// looked for within one directory.
#[derive(Debug, Clone, Copy, PartialEq, Eq, Structural)]
pub enum ModelFile {
    /// The model for the language asked for, or for English where none was.
    Language,
    /// The model for English.
    English,
    /// The model for all languages.
    Plain,
}

/// What one directory of the search holds.
#[derive(Debug, Clone, Copy, PartialEq, Eq, Structural)]
pub struct DirProbe {
    /// Whether the directory exists.
    pub exists: bool,
    /// Whether it holds the file of [`ModelFile::Language`].
    pub has_language: bool,
    /// Whether it holds the file of [`ModelFile::English`].
    pub has_english: bool,
    /// Whether it holds the file of [`ModelFile::Plain`].
    pub has_plain: bool,
}

/// The first of the three files that an existing directory holds.
pub open spec fn first_in_dir(probe: DirProbe) -> Option<ModelFile> {
    if !probe.exists {
        None
    } else if probe.has_language {
        Some(ModelFile::Language)
    } else if probe.has_english {
        Some(ModelFile::English)
    } else if probe.has_plain {
        Some(ModelFile::Plain)
    } else {
        None
    }
}

/// The first hit among the directories from `from` on: the index of the
/// directory and the file found there.
pub open spec fn first_hit(probes: Seq<DirProbe>, from: int) -> Option<(int, ModelFile)>
    decreases probes.len() - from,
{
    if from < 0 || from >= probes.len() {
        None
    } else {
        match first_in_dir(probes[from]) {
            Some(file) => Some((from, file)),
            None => first_hit(probes, from + 1),
        }
    }
}

/// The name of a model file: `ggml-`, the model's name, the language where
/// the file is for one, and `.bin`.
pub open spec fn file_name(model_name: Seq<char>, language: Option<Seq<char>>, file: ModelFile) -> Seq<
    char,
> {
    match (file, language) {
        (ModelFile::Language, Some(lang)) => "ggml-"@ + model_name + "."@ + lang + ".bin"@,
        (ModelFile::Language, None) => "ggml-"@ + model_name + ".en.bin"@,
        (ModelFile::English, _) => "ggml-"@ + model_name + ".en.bin"@,
        (ModelFile::Plain, _) => "ggml-"@ + model_name + ".bin"@,
    }
}

/// `dir` below `home`.
pub open spec fn below(home: Seq<char>, dir: Seq<char>) -> Seq<char> {
    home + "/"@ + dir
}

/// The directories in which models are looked for, in the order of the
/// search: three below the user's home, where there is one, and
/// [`LOCAL_MODELS_DIR`].
pub open spec fn search_dirs(home: Option<Seq<char>>) -> Seq<Seq<char>> {
    match home {
        Some(home) => seq![
            below(home, ".cache/whispercpp"@),
            below(home, MODELS_DIR@),
            below(home, ".local/share/pywhispercpp/models"@),
            LOCAL_MODELS_DIR@,
        ],
        None => seq![LOCAL_MODELS_DIR@],
    }
}

fn join(home: &str, dir: &str) -> (path: String)
    ensures
        path@ == below(home@, dir@),
{
    let mut path = String::from_str(home);
    path.append("/");
    path.append(dir);
    path
}

/// Lists the directories in which models are looked for. `home` is the
/// user's home directory, if there is one.
pub fn get_model_search_dirs(home: Option<&str>) -> (dirs: Vec<String>)
    ensures
        texts(dirs@) == search_dirs(
            match home {
                Some(home) => Some(home@),
                None => None,
            },
        ),
{
    let mut dirs: Vec<String> = Vec::new();
    if let Some(home) = home {
        dirs.push(join(home, ".cache/whispercpp"));
        dirs.push(join(home, MODELS_DIR));
        dirs.push(join(home, ".local/share/pywhispercpp/models"));
    }
    dirs.push(String::from_str(LOCAL_MODELS_DIR));
    assert(texts(dirs@) =~= search_dirs(
        match home {
            Some(home) => Some(home@),
            None => None,
        },
    ));
    dirs
}

/// The directory for downloaded models: [`MODELS_DIR`] below the user's
/// home. Without a home there is none, and the error says so.
pub fn get_models_dir(home: Option<&str>) -> (r: Result<String, WhisperError>)
    ensures
        match home {
            Some(home) => r is Ok && r->Ok_0@ == below(home@, MODELS_DIR@),
            None => r matches Err(WhisperError::Other(text)) && text@ == "Home directory not found"@,
        },
{
    match home {
        Some(home) => Ok(join(home, MODELS_DIR)),
        None => Err(WhisperError::Other(String::from_str("Home directory not found"))),
    }
}

/// Builds the name of a model file.
pub fn model_file_name(model_name: &str, language: Option<&str>, file: ModelFile) -> (name: String)
    ensures
        name@ == file_name(
            model_name@,
            match language {
                Some(lang) => Some(lang@),
                None => None,
            },
            file,
        ),
{
    let mut name = String::from_str("ggml-");
    name.append(model_name);
    match (file, language) {
        (ModelFile::Language, Some(lang)) => {
            name.append(".");
            name.append(lang);
            name.append(".bin");
        },
        (ModelFile::Language, None) => {
            name.append(".en.bin");
        },
        (ModelFile::English, _) => {
            name.append(".en.bin");
        },
        (ModelFile::Plain, _) => {
            name.append(".bin");
        },
    }
    name
}

/// Picks the model file to load: the directories are gone through in order,
/// those that do not exist are passed over, and within a directory the
/// language's file comes before the English one and that before the plain one.
pub fn find_model_file(probes: &[DirProbe]) -> (hit: Option<(usize, ModelFile)>)
    ensures
        hit is Some == first_hit(probes@, 0) is Some,
        hit matches Some((dir, file)) ==> first_hit(probes@, 0) == Some((dir as int, file)),
{
    let n = probes.len();
    let mut i: usize = 0;
    while i < n
        invariant
            n == probes@.len(),
            i <= n,
            first_hit(probes@, 0) == first_hit(probes@, i as int),
        decreases n - i,
    {
        let probe = probes[i];
        if probe.exists {
            if probe.has_language {
                return Some((i, ModelFile::Language));
            }
            if probe.has_english {
                return Some((i, ModelFile::English));
            }
            if probe.has_plain {
                return Some((i, ModelFile::Plain));
            }
        }
        i += 1;
    }
    None
}

/// A hit is a file that is there, in a directory that exists, and nothing
/// that the search prefers to it is there: no file in an earlier directory,
/// no earlier file in the same one.
pub proof fn lemma_first_hit(probes: Seq<DirProbe>, from: int)
    requires
        0 <= from,
    ensures
        match first_hit(probes, from) {
            Some((dir, file)) => from <= dir < probes.len() && first_in_dir(probes[dir]) == Some(
                file,
            ) && forall|d: int| from <= d < dir ==> first_in_dir(probes[d]) is None,
            None => forall|d: int| from <= d < probes.len() ==> first_in_dir(probes[d]) is None,
        },
    decreases probes.len() - from,
{
    if from < probes.len() && first_in_dir(probes[from]) is None {
        lemma_first_hit(probes, from + 1);
    }
}

/// Where the model comes from.
#[derive(Debug, PartialEq, Eq)]
pub enum ModelSource {
    /// It is on disk: in the directory with this index in the search order,
    /// under this file name.
    Found { dir: usize, file_name: String },
    /// It is to be downloaded from `url` and put into the directory of
    /// [`get_models_dir`] under this file name.
    Download { url: String, file_name: String },
}

/// The mathematical value of a [`ModelSource`].
pub enum ModelSourceView {
    Found { dir: int, file_name: Seq<char> },
    Download { url: Seq<char>, file_name: Seq<char> },
}

impl View for ModelSource {
    type V = ModelSourceView;

    open spec fn view(&self) -> ModelSourceView {
        match *self {
            ModelSource::Found { dir, file_name } => ModelSourceView::Found {
                dir: dir as int,
                file_name: file_name@,
            },
            ModelSource::Download { url, file_name } => ModelSourceView::Download {
                url: url@,
                file_name: file_name@,
            },
        }
    }
}

/// The model that is meant: the one asked for, or [`DEFAULT_MODEL`].
pub open spec fn model_or_default(model_name: Option<Seq<char>>) -> Seq<char> {
    match model_name {
        Some(name) => name,
        None => DEFAULT_MODEL@,
    }
}

/// The source of the model, given what the directories hold.
pub open spec fn model_source(
    model_name: Option<Seq<char>>,
    language: Option<Seq<char>>,
    probes: Seq<DirProbe>,
) -> ModelSourceView {
    let name = model_or_default(model_name);
    match first_hit(probes, 0) {
        Some((dir, file)) => ModelSourceView::Found { dir, file_name: file_name(name, language, file) },
        None => ModelSourceView::Download {
            url: model_url(name),
            file_name: file_name(name, language, ModelFile::Plain),
        },
    }
}

/// The names of the three files that are looked for in each directory, in
/// the order of [`ModelFile`].
pub open spec fn candidate_names(model_name: Option<Seq<char>>, language: Option<Seq<char>>) -> Seq<
    Seq<char>,
> {
    let name = model_or_default(model_name);
    seq![
        file_name(name, language, ModelFile::Language),
        file_name(name, language, ModelFile::English),
        file_name(name, language, ModelFile::Plain),
    ]
}

/// Builds the names of the three files that each directory is probed for.
pub fn model_file_names(model_name: Option<&str>, language: Option<&str>) -> (names: Vec<String>)
    ensures
        texts(names@) == candidate_names(
            match model_name {
                Some(name) => Some(name@),
                None => None,
            },
            match language {
                Some(lang) => Some(lang@),
                None => None,
            },
        ),
{
    let name = match model_name {
        Some(name) => name,
        None => DEFAULT_MODEL,
    };
    let mut names: Vec<String> = Vec::new();
    names.push(model_file_name(name, language, ModelFile::Language));
    names.push(model_file_name(name, language, ModelFile::English));
    names.push(model_file_name(name, language, ModelFile::Plain));
    assert(texts(names@) =~= candidate_names(
        match model_name {
            Some(name) => Some(name@),
            None => None,
        },
        match language {
            Some(lang) => Some(lang@),
            None => None,
        },
    ));
    names
}

/// Decides where the model is loaded from: from the first file that the
/// search finds, and from the web where it finds none. `probes` holds one
/// entry for each directory of [`get_model_search_dirs`], in order, taken
/// with the file names of [`model_file_names`].
pub fn load_model(model_name: Option<&str>, language: Option<&str>, probes: &[DirProbe]) -> (source:
    ModelSource)
    ensures
        source@ == model_source(
            match model_name {
                Some(name) => Some(name@),
                None => None,
            },
            match language {
                Some(lang) => Some(lang@),
                None => None,
            },
            probes@,
        ),
{
    let name = match model_name {
        Some(name) => name,
        None => DEFAULT_MODEL,
    };
    match find_model_file(probes) {
        Some((dir, file)) => ModelSource::Found {
            dir,
            file_name: model_file_name(name, language, file),
        },
        None => ModelSource::Download {
            url: generate_url(name),
            file_name: model_file_name(name, language, ModelFile::Plain),
        },
    }
}

} // verus!
