//! The rules of project analysis: the language of each file extension, the
//! extensions searched as text, and the project type told by key files and,
//! failing those, by the extensions found.
use vstd::prelude::*;
use crate::json::str_eq;
use crate::lines::{copy_str, texts};

verus! {

/// Scans a project directory; walking the disk is the caller's part.
pub struct ProjectAnalyzer {
    pub base_directory: String,
}

/// The language of a (lower-case) file extension.
pub open spec fn language_name(ext: Seq<char>) -> Seq<char> {
    if ext == "rs"@ {
        "Rust"@
    } else if ext == "go"@ {
        "Go"@
    } else if ext == "js"@ {
        "JavaScript"@
    } else if ext == "ts"@ {
        "TypeScript"@
    } else if ext == "py"@ {
        "Python"@
    } else if ext == "java"@ {
        "Java"@
    } else if ext == "c"@ {
        "C"@
    } else if ext == "cpp"@ {
        "C++"@
    } else if ext == "h"@ {
        "C/C++ Header"@
    } else if ext == "hpp"@ {
        "C++ Header"@
    } else if ext == "cs"@ {
        "C#"@
    } else if ext == "rb"@ {
        "Ruby"@
    } else if ext == "php"@ {
        "PHP"@
    } else if ext == "html"@ {
        "HTML"@
    } else if ext == "css"@ {
        "CSS"@
    } else if ext == "json"@ {
        "JSON"@
    } else if ext == "md"@ {
        "Markdown"@
    } else if ext == "yml"@ {
        "YAML"@
    } else if ext == "yaml"@ {
        "YAML"@
    } else if ext == "toml"@ {
        "TOML"@
    } else if ext == "xml"@ {
        "XML"@
    } else if ext == "txt"@ {
        "Text"@
    } else if ext == "sh"@ {
        "Shell"@
    } else if ext == "bat"@ {
        "Batch"@
    } else if ext == "ps1"@ {
        "PowerShell"@
    } else if ext == "tf"@ {
        "Terraform"@
    } else if ext == "sql"@ {
        "SQL"@
    } else {
        "Unknown"@
    }
}

/// The extensions whose files are searched as text.
pub open spec fn is_text_extension_spec(ext: Seq<char>) -> bool {
    ext == "txt"@ || ext == "md"@ || ext == "rs"@ || ext == "go"@ || ext == "js"@ || ext == "ts"@ || ext == "py"@ || ext == "java"@ || ext == "c"@ || ext == "cpp"@ || ext == "h"@ || ext == "hpp"@ || ext == "cs"@ || ext == "rb"@ || ext == "php"@ || ext == "html"@ || ext == "css"@ || ext == "json"@ || ext == "yml"@ || ext == "yaml"@ || ext == "toml"@ || ext == "xml"@ || ext == "sh"@ || ext == "bat"@ || ext == "ps1"@ || ext == "tf"@ || ext == "sql"@
}

pub open spec fn marker_piece_0(keys: Seq<Seq<char>>) -> Seq<Seq<char>> {
    if keys.contains("package.json"@) { seq!["Node.js"@] } else { Seq::empty() }
}

pub open spec fn marker_piece_1(keys: Seq<Seq<char>>) -> Seq<Seq<char>> {
    if keys.contains("Cargo.toml"@) { seq!["Rust"@] } else { Seq::empty() }
}

pub open spec fn marker_piece_2(keys: Seq<Seq<char>>) -> Seq<Seq<char>> {
    if keys.contains("go.mod"@) { seq!["Go"@] } else { Seq::empty() }
}

pub open spec fn marker_piece_3(keys: Seq<Seq<char>>) -> Seq<Seq<char>> {
    if keys.contains("requirements.txt"@) || keys.contains("setup.py"@) { seq!["Python"@] } else { Seq::empty() }
}

pub open spec fn marker_piece_4(keys: Seq<Seq<char>>) -> Seq<Seq<char>> {
    if keys.contains("pom.xml"@) || keys.contains("build.gradle"@) { seq!["Java"@] } else { Seq::empty() }
}

pub open spec fn marker_piece_5(keys: Seq<Seq<char>>) -> Seq<Seq<char>> {
    if keys.contains("CMakeLists.txt"@) || keys.contains("Makefile"@) { seq!["C/C++"@] } else { Seq::empty() }
}

pub open spec fn marker_piece_6(keys: Seq<Seq<char>>) -> Seq<Seq<char>> {
    if keys.contains("Dockerfile"@) || keys.contains("docker-compose.yml"@) { seq!["Docker"@] } else { Seq::empty() }
}

/// The project types that the key files show, in the order of the rules.
pub open spec fn marker_types(keys: Seq<Seq<char>>) -> Seq<Seq<char>> {
    marker_piece_0(keys) + marker_piece_1(keys) + marker_piece_2(keys) + marker_piece_3(keys) + marker_piece_4(keys) + marker_piece_5(keys) + marker_piece_6(keys)
}

/// The number of files counted for `ext`, or 0.
pub open spec fn count_of(counts: Seq<(Seq<char>, usize)>, ext: Seq<char>) -> usize
    decreases counts.len(),
{
    if counts.len() == 0 {
        0
    } else if counts[0].0 == ext {
        counts[0].1
    } else {
        count_of(counts.drop_first(), ext)
    }
}

/// The type told by the first extension, in order of priority, with files.
pub open spec fn extension_type(counts: Seq<(Seq<char>, usize)>) -> Seq<Seq<char>> {
    if count_of(counts, "rs"@) > 0 {
        seq!["Rust"@]
    } else if count_of(counts, "py"@) > 0 {
        seq!["Python"@]
    } else if count_of(counts, "js"@) > 0 {
        seq!["JavaScript"@]
    } else if count_of(counts, "ts"@) > 0 {
        seq!["TypeScript"@]
    } else if count_of(counts, "go"@) > 0 {
        seq!["Go"@]
    } else if count_of(counts, "java"@) > 0 {
        seq!["Java"@]
    } else if count_of(counts, "html"@) > 0 {
        seq!["Web"@]
    } else if count_of(counts, "tf"@) > 0 {
        seq!["Terraform"@]
    } else {
        Seq::empty()
    }
}

/// The project types: those the key files show; else the one the extensions
/// show; else `Unknown`.
pub open spec fn project_types(keys: Seq<Seq<char>>, counts: Seq<(Seq<char>, usize)>) -> Seq<Seq<char>> {
    if marker_types(keys).len() > 0 {
        marker_types(keys)
    } else if extension_type(counts).len() > 0 {
        extension_type(counts)
    } else {
        seq!["Unknown"@]
    }
}

pub open spec fn counts_view(counts: Seq<(String, usize)>) -> Seq<(Seq<char>, usize)> {
    counts.map_values(|e: (String, usize)| (e.0@, e.1))
}

fn has_key(key_files: &Vec<String>, name: &str) -> (r: bool)
    ensures
        r == texts(key_files@).contains(name@),
{
    let mut i: usize = 0;
    while i < key_files.len()
        invariant
            i <= key_files@.len(),
            forall|j: int| 0 <= j < i ==> key_files@[j]@ != name@,
        decreases key_files.len() - i,
    {
        if str_eq(key_files[i].as_str(), name) {
            assert(texts(key_files@)[i as int] == name@);
            return true;
        }
        i = i + 1;
    }
    assert forall|j: int| 0 <= j < texts(key_files@).len() implies texts(key_files@)[j] != name@ by {
        assert(texts(key_files@)[j] == key_files@[j]@);
    }
    false
}

fn count_in(counts: &Vec<(String, usize)>, ext: &str) -> (r: usize)
    ensures
        r == count_of(counts_view(counts@), ext@),
{
    let mut i: usize = 0;
    assert(counts_view(counts@).subrange(0, counts@.len() as int) == counts_view(counts@));
    while i < counts.len()
        invariant
            i <= counts@.len(),
            count_of(counts_view(counts@), ext@) == count_of(counts_view(counts@).subrange(i as int, counts@.len() as int), ext@),
        decreases counts.len() - i,
    {
        let ghost rest = counts_view(counts@).subrange(i as int, counts@.len() as int);
        assert(rest.drop_first() == counts_view(counts@).subrange(i + 1, counts@.len() as int));
        assert(rest[0] == (counts@[i as int].0@, counts@[i as int].1));
        if str_eq(counts[i].0.as_str(), ext) {
            return counts[i].1;
        }
        i = i + 1;
    }
    0
}

impl ProjectAnalyzer {
    pub fn new(base_directory: &str) -> (r: Self)
        ensures
            r.base_directory@ == base_directory@,
    {
        ProjectAnalyzer { base_directory: copy_str(base_directory) }
    }

    /// The language of a (lower-case) file extension, or `Unknown`.
    pub fn language_of(ext: &str) -> (r: &'static str)
        ensures
            r@ == language_name(ext@),
    {
        if str_eq(ext, "rs") {
            "Rust"
        } else if str_eq(ext, "go") {
            "Go"
        } else if str_eq(ext, "js") {
            "JavaScript"
        } else if str_eq(ext, "ts") {
            "TypeScript"
        } else if str_eq(ext, "py") {
            "Python"
        } else if str_eq(ext, "java") {
            "Java"
        } else if str_eq(ext, "c") {
            "C"
        } else if str_eq(ext, "cpp") {
            "C++"
        } else if str_eq(ext, "h") {
            "C/C++ Header"
        } else if str_eq(ext, "hpp") {
            "C++ Header"
        } else if str_eq(ext, "cs") {
            "C#"
        } else if str_eq(ext, "rb") {
            "Ruby"
        } else if str_eq(ext, "php") {
            "PHP"
        } else if str_eq(ext, "html") {
            "HTML"
        } else if str_eq(ext, "css") {
            "CSS"
        } else if str_eq(ext, "json") {
            "JSON"
        } else if str_eq(ext, "md") {
            "Markdown"
        } else if str_eq(ext, "yml") {
            "YAML"
        } else if str_eq(ext, "yaml") {
            "YAML"
        } else if str_eq(ext, "toml") {
            "TOML"
        } else if str_eq(ext, "xml") {
            "XML"
        } else if str_eq(ext, "txt") {
            "Text"
        } else if str_eq(ext, "sh") {
            "Shell"
        } else if str_eq(ext, "bat") {
            "Batch"
        } else if str_eq(ext, "ps1") {
            "PowerShell"
        } else if str_eq(ext, "tf") {
            "Terraform"
        } else if str_eq(ext, "sql") {
            "SQL"
        } else {
            "Unknown"
        }
    }

    /// Whether files with this (lower-case) extension are searched as text.
    pub fn is_text_extension(ext: &str) -> (r: bool)
        ensures
            r == is_text_extension_spec(ext@),
    {
        str_eq(ext, "txt") || str_eq(ext, "md") || str_eq(ext, "rs") || str_eq(ext, "go") || str_eq(ext, "js") || str_eq(ext, "ts") || str_eq(ext, "py") || str_eq(ext, "java") || str_eq(ext, "c") || str_eq(ext, "cpp") || str_eq(ext, "h") || str_eq(ext, "hpp") || str_eq(ext, "cs") || str_eq(ext, "rb") || str_eq(ext, "php") || str_eq(ext, "html") || str_eq(ext, "css") || str_eq(ext, "json") || str_eq(ext, "yml") || str_eq(ext, "yaml") || str_eq(ext, "toml") || str_eq(ext, "xml") || str_eq(ext, "sh") || str_eq(ext, "bat") || str_eq(ext, "ps1") || str_eq(ext, "tf") || str_eq(ext, "sql")
    }

    /// The project types shown by the key files present and, failing those, by
    /// the number of files of each extension.
    pub fn detect_project_type(key_files: &Vec<String>, counts: &Vec<(String, usize)>) -> (r: Vec<String>)
        ensures
            texts(r@) == project_types(texts(key_files@), counts_view(counts@)),
    {
        let mut out = marker_types_of(key_files);
        if out.len() == 0 {
            out = extension_type_of(counts);
        }
        if out.len() == 0 {
            out.push(copy_str("Unknown"));
            assert(texts(out@) =~= seq!["Unknown"@]);
        }
        out
    }
}

fn push_if(out: &mut Vec<String>, cond: bool, name: &str)
    ensures
        texts(final(out)@) == texts(old(out)@) + if cond { seq![name@] } else { Seq::<Seq<char>>::empty() },
{
    if cond {
        out.push(copy_str(name));
        assert(texts(out@) =~= texts(old(out)@) + seq![name@]);
    } else {
        assert(texts(out@) =~= texts(old(out)@) + Seq::<Seq<char>>::empty());
    }
}

fn marker_types_of(key_files: &Vec<String>) -> (r: Vec<String>)
    ensures
        texts(r@) == marker_types(texts(key_files@)),
{
    let mut out: Vec<String> = Vec::new();
    assert(texts(out@) =~= Seq::<Seq<char>>::empty());
    push_if(&mut out, has_key(key_files, "package.json"), "Node.js");
    push_if(&mut out, has_key(key_files, "Cargo.toml"), "Rust");
    push_if(&mut out, has_key(key_files, "go.mod"), "Go");
    push_if(&mut out, has_key(key_files, "requirements.txt") || has_key(key_files, "setup.py"), "Python");
    push_if(&mut out, has_key(key_files, "pom.xml") || has_key(key_files, "build.gradle"), "Java");
    push_if(&mut out, has_key(key_files, "CMakeLists.txt") || has_key(key_files, "Makefile"), "C/C++");
    push_if(&mut out, has_key(key_files, "Dockerfile") || has_key(key_files, "docker-compose.yml"), "Docker");
    assert(texts(out@) =~= marker_types(texts(key_files@)));
    out
}

fn extension_type_of(counts: &Vec<(String, usize)>) -> (r: Vec<String>)
    ensures
        texts(r@) == extension_type(counts_view(counts@)),
{
    let mut out: Vec<String> = Vec::new();
    if count_in(counts, "rs") > 0 {
        out.push(copy_str("Rust"));
    } else if count_in(counts, "py") > 0 {
        out.push(copy_str("Python"));
    } else if count_in(counts, "js") > 0 {
        out.push(copy_str("JavaScript"));
    } else if count_in(counts, "ts") > 0 {
        out.push(copy_str("TypeScript"));
    } else if count_in(counts, "go") > 0 {
        out.push(copy_str("Go"));
    } else if count_in(counts, "java") > 0 {
        out.push(copy_str("Java"));
    } else if count_in(counts, "html") > 0 {
        out.push(copy_str("Web"));
    } else if count_in(counts, "tf") > 0 {
        out.push(copy_str("Terraform"));
    }
    assert(texts(out@) =~= extension_type(counts_view(counts@)));
    out
}

} // verus!
