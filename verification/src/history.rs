//! Where the history of input lines is kept. The user names a file, a
//! directory or a bare file name; what the file system says of that name
//! decides which file is meant, or that no history is kept.

use vstd::prelude::*;
use crate::command::text_of;

verus! {

/// What the file system says of the name the user gave.
#[derive(Debug, Clone, Copy, PartialEq, Eq, Structural)]
pub struct PathFacts {
    /// The name is an existing file.
    pub is_file: bool,
    /// The name is an existing directory.
    pub is_dir: bool,
    /// The name is an absolute path.
    pub is_absolute: bool,
    /// Something of that name exists.
    pub exists: bool,
    /// The name ends in a file extension.
    pub has_extension: bool,
    /// The number of the path's components.
    pub components: usize,
}

/// The four ways a name is resolved.
#[derive(Debug, Clone, Copy, PartialEq, Eq, Structural)]
pub enum Resolution {
    /// The name is the history file.
    Verbatim,
    /// The history file has the default name and lies in the directory named.
    InDirectory,
    /// The history file has the name given and lies in the home directory.
    InHome,
    /// No history is kept.
    Disabled,
}

/// The name is taken as it is: an existing file, or an absolute path with a
/// file extension to something that exists.
pub open spec fn taken_verbatim(facts: PathFacts) -> bool {
    facts.is_file || (facts.is_absolute && facts.exists && facts.has_extension)
}

/// The name is an existing directory and is not taken as it is.
pub open spec fn taken_as_directory(facts: PathFacts) -> bool {
    !taken_verbatim(facts) && facts.is_dir
}

/// The name is a bare file name with an extension, and neither of the above.
pub open spec fn taken_into_home(facts: PathFacts) -> bool {
    !taken_verbatim(facts) && !facts.is_dir && facts.has_extension && facts.components == 1
}

/// None of the above.
pub open spec fn taken_as_nothing(facts: PathFacts) -> bool {
    !taken_verbatim(facts) && !facts.is_dir && !(facts.has_extension && facts.components == 1)
}

/// The way in which a name with these facts is resolved.
pub open spec fn resolution_of(facts: PathFacts) -> Resolution {
    if taken_verbatim(facts) {
        Resolution::Verbatim
    } else if taken_as_directory(facts) {
        Resolution::InDirectory
    } else if taken_into_home(facts) {
        Resolution::InHome
    } else {
        Resolution::Disabled
    }
}

/// Whatever the file system says of a name, exactly one of the four ways
/// applies, and it is the one that `resolution_of` gives.
pub proof fn lemma_exactly_one_resolution(facts: PathFacts)
    ensures
        taken_verbatim(facts) <==> resolution_of(facts) == Resolution::Verbatim,
        taken_as_directory(facts) <==> resolution_of(facts) == Resolution::InDirectory,
        taken_into_home(facts) <==> resolution_of(facts) == Resolution::InHome,
        taken_as_nothing(facts) <==> resolution_of(facts) == Resolution::Disabled,
        taken_verbatim(facts) || taken_as_directory(facts) || taken_into_home(facts)
            || taken_as_nothing(facts),
        !(taken_verbatim(facts) && taken_as_directory(facts)),
        !(taken_verbatim(facts) && taken_into_home(facts)),
        !(taken_verbatim(facts) && taken_as_nothing(facts)),
        !(taken_as_directory(facts) && taken_into_home(facts)),
        !(taken_as_directory(facts) && taken_as_nothing(facts)),
        !(taken_into_home(facts) && taken_as_nothing(facts)),
{
}

/// Decides how a name is resolved.
pub fn resolve_history_path(facts: PathFacts) -> (resolution: Resolution)
    ensures
        resolution == resolution_of(facts),
{
    if facts.is_file || (facts.is_absolute && facts.exists && facts.has_extension) {
        Resolution::Verbatim
    } else if facts.is_dir {
        Resolution::InDirectory
    } else if facts.has_extension && facts.components == 1 {
        Resolution::InHome
    } else {
        Resolution::Disabled
    }
}

/// The name of the history file where the user names only a directory.
pub open spec fn default_history_file_name() -> Seq<char> {
    ".repl_history"@
}

/// The history file: a path, a file in a directory, a file in the home
/// directory, or none.
#[derive(Debug, Clone, PartialEq, Eq)]
pub enum HistoryFile {
    Verbatim { path: String },
    InDirectory { directory: String, name: String },
    InHome { name: String },
    Disabled,
}

/// A history file as a mathematical value.
pub enum HistoryFileModel {
    Verbatim { path: Seq<char> },
    InDirectory { directory: Seq<char>, name: Seq<char> },
    InHome { name: Seq<char> },
    Disabled,
}

impl View for HistoryFile {
    type V = HistoryFileModel;

    open spec fn view(&self) -> HistoryFileModel {
        match *self {
            HistoryFile::Verbatim { path } => HistoryFileModel::Verbatim { path: path@ },
            HistoryFile::InDirectory { directory, name } => HistoryFileModel::InDirectory {
                directory: directory@,
                name: name@,
            },
            HistoryFile::InHome { name } => HistoryFileModel::InHome { name: name@ },
            HistoryFile::Disabled => HistoryFileModel::Disabled,
        }
    }
}

/// The history file for the name the user gave and what the file system
/// says of it. Without a name no history is kept.
pub open spec fn history_file_of(name: Option<Seq<char>>, facts: PathFacts) -> HistoryFileModel {
    match name {
        None => HistoryFileModel::Disabled,
        Some(given) => match resolution_of(facts) {
            Resolution::Verbatim => HistoryFileModel::Verbatim { path: given },
            Resolution::InDirectory => HistoryFileModel::InDirectory {
                directory: given,
                name: default_history_file_name(),
            },
            Resolution::InHome => HistoryFileModel::InHome { name: given },
            Resolution::Disabled => HistoryFileModel::Disabled,
        },
    }
}

/// Names the history file. `facts` is what the file system says of
/// `history_file_name`; it counts for nothing where no name is given.
pub fn get_history_file_path(history_file_name: Option<String>, facts: PathFacts) -> (file:
    HistoryFile)
    ensures
        file@ == history_file_of(text_of(history_file_name), facts),
{
    match history_file_name {
        None => HistoryFile::Disabled,
        Some(given) => match resolve_history_path(facts) {
            Resolution::Verbatim => HistoryFile::Verbatim { path: given },
            Resolution::InDirectory => HistoryFile::InDirectory {
                directory: given,
                name: ".repl_history".to_string(),
            },
            Resolution::InHome => HistoryFile::InHome { name: given },
            Resolution::Disabled => HistoryFile::Disabled,
        },
    }
}

/// What only the file system can say of a name.
#[derive(Debug, Clone, Copy, PartialEq, Eq, Structural)]
pub struct Probe {
    /// The name is an existing file.
    pub is_file: bool,
    /// The name is an existing directory.
    pub is_dir: bool,
    /// Something of that name exists.
    pub exists: bool,
}

/// The facts hold what the file system said.
pub open spec fn agrees_with(facts: PathFacts, probe: Probe) -> bool {
    facts.is_file == probe.is_file && facts.is_dir == probe.is_dir && facts.exists == probe.exists
}

/// Calls `Path::is_absolute`. What counts as absolute is the platform's
/// affair, so nothing is promised of the answer.
#[verifier::external_body]
fn is_absolute_path(name: &str) -> (absolute: bool) {
    std::path::Path::new(name).is_absolute()
}

/// Calls `Path::extension` and tells whether there is one. The file name
/// that it looks at ends where the platform's separator stands, so nothing
/// is promised of the answer.
#[verifier::external_body]
fn has_extension(name: &str) -> (present: bool) {
    std::path::Path::new(name).extension().is_some()
}

/// Calls `Path::components` and counts what it yields. The components are
/// cut at the platform's separator, so nothing is promised of the number.
#[verifier::external_body]
fn component_count(name: &str) -> (count: usize) {
    std::path::Path::new(name).components().count()
}

/// The facts of a name: what the file system said of it, and what its
/// text says by the platform's path syntax.
pub fn path_facts(name: &str, probe: Probe) -> (facts: PathFacts)
    ensures
        agrees_with(facts, probe),
{
    PathFacts {
        is_file: probe.is_file,
        is_dir: probe.is_dir,
        is_absolute: is_absolute_path(name),
        exists: probe.exists,
        has_extension: has_extension(name),
        components: component_count(name),
    }
}

/// Names the history file for the name the user gave and what the file
/// system says of it. The facts that the name's text holds are read from
/// it by the platform's path syntax; `get_history_file_path` says what
/// follows from each set of facts.
pub fn locate_history_file(history_file_name: Option<String>, probe: Probe) -> (file: HistoryFile)
    ensures
        history_file_name is None ==> file@ == HistoryFileModel::Disabled,
        exists|facts: PathFacts|
            agrees_with(facts, probe) && file@ == #[trigger] history_file_of(
                text_of(history_file_name),
                facts,
            ),
        history_file_name is Some && probe.is_file ==> file@ == (HistoryFileModel::Verbatim {
            path: history_file_name.unwrap()@,
        }),
{
    let facts = match &history_file_name {
        Some(name) => path_facts(name.as_str(), probe),
        None => PathFacts {
            is_file: probe.is_file,
            is_dir: probe.is_dir,
            is_absolute: false,
            exists: probe.exists,
            has_extension: false,
            components: 0,
        },
    };
    get_history_file_path(history_file_name, facts)
}

} // verus!
