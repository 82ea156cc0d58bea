use vstd::prelude::*;

verus! {

/// What the native file picker interaction came to, as the shell
/// reports it before any decision is taken.
///
/// The shell converts the picker's raw result into this value: the
/// user dismissed the dialog, the chosen handle could not be resolved
/// to a path, or a file was chosen, with its base name (when the path
/// has one) and the outcome of reading its text.
pub enum PickedFile {
    /// The user dismissed the picker without choosing.
    NoChoice,
    /// The chosen handle could not be resolved to a path; the OS error
    /// message is carried verbatim.
    PathError(String),
    /// A file was chosen. `name` is its base name, absent when the
    /// path ends in no normal component; `read` is the text read from
    /// it, or the OS error message, verbatim.
    Chosen { name: Option<String>, read: Result<String, String> },
}

/// The terminal outcome of one file-acquisition attempt: either a
/// complete name-and-content pair, or an explicit non-success.
pub enum PickOutcome {
    /// The user cancelled; not an error.
    Cancelled,
    /// A file was chosen and read completely.
    Loaded { name: String, content: String },
    /// The path could not be resolved or the file could not be read;
    /// the reason preserves the underlying OS error message.
    Failed { reason: String },
}

/// The name a loaded file is reported under: its base name, or the
/// fallback when the path has none.
pub open spec fn loaded_name_spec(name: Option<String>) -> Seq<char> {
    match name {
        Some(n) => n@,
        None => "tree"@,
    }
}

/// Decides the outcome of one file-acquisition attempt.
///
/// Cancellation is reported exactly when the user dismissed the
/// picker; a resolution or read failure carries the OS message
/// verbatim; a successful read yields the file's base name and its
/// exact content, never a partial pair.
pub fn resolve_outcome(picked: PickedFile) -> (r: PickOutcome)
    ensures
        (r is Cancelled) == (picked is NoChoice),
        picked matches PickedFile::PathError(e) ==> r == (PickOutcome::Failed { reason: e }),
        picked matches PickedFile::Chosen { name, read } ==> (read matches Ok(content) ==> (
        r matches PickOutcome::Loaded { name: n, content: c } && n@ == loaded_name_spec(name)
            && c == content)),
        picked matches PickedFile::Chosen { name, read } ==> (read matches Err(e) ==> r == (
        PickOutcome::Failed { reason: e })),
{
    match picked {
        PickedFile::NoChoice => PickOutcome::Cancelled,
        PickedFile::PathError(e) => PickOutcome::Failed { reason: e },
        PickedFile::Chosen { name, read } => match read {
            Err(e) => PickOutcome::Failed { reason: e },
            Ok(content) => {
                let name = match name {
                    Some(n) => n,
                    None => String::from_str("tree"),
                };
                PickOutcome::Loaded { name, content }
            },
        },
    }
}

/// The extensions the picker is restricted to: a capability filter
/// only; format validity is judged later by the tree parser.
pub fn tree_file_extensions() -> (v: Vec<&'static str>)
    ensures
        v@.len() == 7,
        v@[0]@ == "nex"@,
        v@[1]@ == "nexus"@,
        v@[2]@ == "tre"@,
        v@[3]@ == "tree"@,
        v@[4]@ == "nwk"@,
        v@[5]@ == "newick"@,
        v@[6]@ == "txt"@,
{
    let mut v: Vec<&'static str> = Vec::new();
    v.push("nex");
    v.push("nexus");
    v.push("tre");
    v.push("tree");
    v.push("nwk");
    v.push("newick");
    v.push("txt");
    v
}

} // verus!
