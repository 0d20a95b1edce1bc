//! Rules about single file names: which entries a project listing hides, and
//! how the name of a compiled document is derived from its source file.

use vstd::prelude::*;
use vstd::string::*;

verus! {

/// Name of the per-project metadata file, kept at the project root.
pub const METADATA_FILE: &'static str = ".incipit";

/// A name begins with a dot.
pub open spec fn starts_with_dot(name: Seq<char>) -> bool {
    name.len() > 0 && name[0] == '.'
}

/// An entry is left out of a project listing when it is a dotfile or the
/// metadata file.
pub open spec fn is_hidden_name(name: Seq<char>) -> bool {
    starts_with_dot(name) || name == METADATA_FILE@
}

/// The metadata file is itself a dotfile, so testing the first character
/// decides whether an entry is hidden.
pub proof fn lemma_hidden_iff_dotfile(name: Seq<char>)
    ensures
        is_hidden_name(name) <==> starts_with_dot(name),
        is_hidden_name(METADATA_FILE@),
{
    reveal_strlit(".incipit");
}

/// Decides whether a directory entry is left out of a project listing.
pub fn is_hidden(name: &str) -> (hidden: bool)
    ensures
        hidden == is_hidden_name(name@),
{
    proof {
        lemma_hidden_iff_dotfile(name@);
    }
    !name.is_empty() && name.get_char(0) == '.'
}

/// Position of the last dot in a name, or -1 when it has none.
pub open spec fn last_dot(name: Seq<char>) -> int
    decreases name.len(),
{
    if name.len() == 0 {
        -1
    } else if name.last() == '.' {
        name.len() - 1
    } else {
        last_dot(name.drop_last())
    }
}

/// [`last_dot`] finds a dot behind which no dot follows, if there is any.
pub proof fn lemma_last_dot(name: Seq<char>)
    ensures
        -1 <= last_dot(name) < name.len(),
        last_dot(name) >= 0 ==> name[last_dot(name)] == '.',
        forall|j: int| last_dot(name) < j < name.len() ==> name[j] != '.',
    decreases name.len(),
{
    if name.len() > 0 && name.last() != '.' {
        let front = name.drop_last();
        lemma_last_dot(front);
        assert forall|j: int| last_dot(name) < j < name.len() implies name[j] != '.' by {
            if j < front.len() {
                assert(name[j] == front[j]);
            }
        }
    }
}

/// A dot behind which no dot follows is the last one; a name without a dot
/// has none.
pub proof fn lemma_last_dot_unique(name: Seq<char>, at: int)
    requires
        -1 <= at < name.len(),
        at >= 0 ==> name[at] == '.',
        forall|j: int| at < j < name.len() ==> name[j] != '.',
    ensures
        last_dot(name) == at,
{
    lemma_last_dot(name);
}

/// The stem of a file name: the whole name if it has no dot or its only dot
/// comes first, else what stands before the last dot.
pub open spec fn stem_of(name: Seq<char>) -> Seq<char> {
    if last_dot(name) <= 0 {
        name
    } else {
        name.subrange(0, last_dot(name))
    }
}

/// Computes the stem of a file name.
pub fn file_stem(name: &str) -> (stem: String)
    ensures
        stem@ == stem_of(name@),
{
    let len = name.unicode_len();
    let mut end: usize = len;
    while end > 0
        invariant
            end <= len,
            len == name@.len(),
            forall|j: int| end <= j < len ==> name@[j] != '.',
        ensures
            end <= len,
            end > 0 ==> name@[end - 1] == '.',
            forall|j: int| end <= j < len ==> name@[j] != '.',
        decreases end,
    {
        if name.get_char(end - 1) == '.' {
            break;
        }
        end = end - 1;
    }
    proof {
        lemma_last_dot_unique(name@, end - 1);
    }
    if end <= 1 {
        name.to_owned()
    } else {
        name.substring_char(0, end - 1).to_owned()
    }
}

/// Extension of a compiled document.
pub const PDF_EXTENSION: &'static str = ".pdf";

/// Directory below the project root that receives compiled documents.
pub const BUILD_DIR: &'static str = "build";

/// The refusal given for a source path that names no file.
pub open spec fn no_file_name() -> Seq<char> {
    "Invalid file path"@
}

/// The name of the document compiled from a source file: the stem of the
/// source's file name with the document extension; a path that names no file
/// has none.
pub open spec fn pdf_name_of(file_name: Option<Seq<char>>) -> Result<Seq<char>, Seq<char>> {
    match file_name {
        None => Err(no_file_name()),
        Some(name) => Ok(stem_of(name) + PDF_EXTENSION@),
    }
}

/// Derives the name of the compiled document from the file name of its
/// source, that is from the last component of the source's path.
pub fn pdf_name(file_name: Option<&str>) -> (result: Result<String, String>)
    ensures
        match pdf_name_of(
            match file_name {
                Some(name) => Some(name@),
                None => None,
            },
        ) {
            Ok(text) => result matches Ok(name) && name@ == text,
            Err(text) => result matches Err(message) && message@ == text,
        },
{
    match file_name {
        None => Err("Invalid file path".to_owned()),
        Some(name) => {
            let mut pdf = file_stem(name);
            pdf.append(PDF_EXTENSION);
            Ok(pdf)
        },
    }
}

} // verus!
