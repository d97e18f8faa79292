//! Line- and region-level edits of a file's text. Each edit takes the whole
//! text and returns the whole new text; reading and writing the file is the
//! caller's part.
use vstd::prelude::*;
use crate::lines::{terminated, plain, lines_of, texts, split_lines, write_lines, copy_str};

verus! {

/// Why an edit was refused.
#[derive(Debug, Clone, PartialEq, Eq)]
pub enum EditorError {
    FileNotFound(String),
    IoError(String),
    LineOutOfRange(usize),
    InvalidRange { start: usize, end: usize },
    UnknownAction(String),
}

/// Applies line and region edits to a text.
pub struct FileEditor {}

/// The lines with `content` as a new line at index `n` (`n` equal to the
/// line count appends).
pub open spec fn inserted_lines(text: Seq<char>, n: int, content: Seq<char>) -> Seq<Seq<char>> {
    lines_of(text).insert(n, content)
}

/// The lines with line `n` replaced by `content`.
pub open spec fn replaced_lines(text: Seq<char>, n: int, content: Seq<char>) -> Seq<Seq<char>> {
    lines_of(text).update(n, content)
}

/// The lines without line `n`.
pub open spec fn deleted_lines(text: Seq<char>, n: int) -> Seq<Seq<char>> {
    lines_of(text).remove(n)
}

/// The end of a region, clamped to the line count.
pub open spec fn effective_end(text: Seq<char>, end: int) -> int {
    if end < lines_of(text).len() {
        end
    } else {
        lines_of(text).len() as int
    }
}

/// The lines with the span `[start, end)` (`end` clamped to the line count)
/// replaced by the lines of `content`, zero or more.
pub open spec fn region_lines(text: Seq<char>, start: int, end: int, content: Seq<char>) -> Seq<Seq<char>> {
    let ls = lines_of(text);
    ls.subrange(0, start) + lines_of(content) + ls.subrange(effective_end(text, end), ls.len() as int)
}

/// The file's text after an insertion: every line followed by `\n`.
pub open spec fn inserted_text(text: Seq<char>, n: int, content: Seq<char>) -> Seq<char> {
    terminated(inserted_lines(text, n, content))
}

/// The file's text after a replacement.
pub open spec fn replaced_text(text: Seq<char>, n: int, content: Seq<char>) -> Seq<char> {
    terminated(replaced_lines(text, n, content))
}

/// The file's text after a deletion.
pub open spec fn deleted_text(text: Seq<char>, n: int) -> Seq<char> {
    terminated(deleted_lines(text, n))
}

/// The file's text after a region edit.
pub open spec fn region_text(text: Seq<char>, start: int, end: int, content: Seq<char>) -> Seq<char> {
    terminated(region_lines(text, start, end, content))
}

impl FileEditor {
    pub fn new() -> (r: Self) {
        FileEditor {}
    }

    /// Inserts `content` as line `line_num`; `line_num` may equal the line
    /// count, which appends.
    pub fn insert_line(&self, file_content: &str, line_num: usize, content: &str) -> (r: Result<String, EditorError>)
        ensures
            line_num <= lines_of(file_content@).len() ==> (r matches Ok(t) && t@ == inserted_text(file_content@, line_num as int, content@)
                && (plain(inserted_lines(file_content@, line_num as int, content@))
                    ==> lines_of(t@) == inserted_lines(file_content@, line_num as int, content@))),
            line_num > lines_of(file_content@).len() ==> r == Err::<String, EditorError>(EditorError::LineOutOfRange(line_num)),
    {
        let mut lines = split_lines(file_content);
        if line_num > lines.len() {
            return Err(EditorError::LineOutOfRange(line_num));
        }
        let c = copy_str(content);
        let ghost before = lines@;
        lines.insert(line_num, c);
        assert(texts(lines@) == texts(before).insert(line_num as int, content@));
        Ok(write_lines(&lines))
    }

    /// Replaces line `line_num`, which must be below the line count.
    pub fn replace_line(&self, file_content: &str, line_num: usize, content: &str) -> (r: Result<String, EditorError>)
        ensures
            line_num < lines_of(file_content@).len() ==> (r matches Ok(t) && t@ == replaced_text(file_content@, line_num as int, content@)
                && (plain(replaced_lines(file_content@, line_num as int, content@))
                    ==> lines_of(t@) == replaced_lines(file_content@, line_num as int, content@))),
            line_num >= lines_of(file_content@).len() ==> r == Err::<String, EditorError>(EditorError::LineOutOfRange(line_num)),
    {
        let mut lines = split_lines(file_content);
        if line_num >= lines.len() {
            return Err(EditorError::LineOutOfRange(line_num));
        }
        let c = copy_str(content);
        let ghost before = lines@;
        lines.set(line_num, c);
        assert(texts(lines@) == texts(before).update(line_num as int, content@));
        Ok(write_lines(&lines))
    }

    /// Deletes line `line_num`, which must be below the line count.
    pub fn delete_line(&self, file_content: &str, line_num: usize) -> (r: Result<String, EditorError>)
        ensures
            line_num < lines_of(file_content@).len() ==> (r matches Ok(t) && t@ == deleted_text(file_content@, line_num as int)
                && (plain(deleted_lines(file_content@, line_num as int))
                    ==> lines_of(t@) == deleted_lines(file_content@, line_num as int))),
            line_num >= lines_of(file_content@).len() ==> r == Err::<String, EditorError>(EditorError::LineOutOfRange(line_num)),
    {
        let mut lines = split_lines(file_content);
        if line_num >= lines.len() {
            return Err(EditorError::LineOutOfRange(line_num));
        }
        let ghost before = lines@;
        lines.remove(line_num);
        assert(texts(lines@) == texts(before).remove(line_num as int));
        Ok(write_lines(&lines))
    }

    /// Replaces the lines `[start_line, end_line)` with `new_content`;
    /// `end_line` past the last line is clamped to the line count.
    pub fn edit_region(&self, file_content: &str, start_line: usize, end_line: usize, new_content: &str) -> (r: Result<String, EditorError>)
        ensures
            start_line > end_line ==> r == Err::<String, EditorError>(EditorError::InvalidRange { start: start_line, end: end_line }),
            start_line <= end_line && start_line >= lines_of(file_content@).len() ==> r == Err::<String, EditorError>(EditorError::LineOutOfRange(start_line)),
            start_line <= end_line && start_line < lines_of(file_content@).len() ==> (r matches Ok(t)
                && t@ == region_text(file_content@, start_line as int, end_line as int, new_content@)
                && (plain(region_lines(file_content@, start_line as int, end_line as int, new_content@))
                    ==> lines_of(t@) == region_lines(file_content@, start_line as int, end_line as int, new_content@))),
    {
        if start_line > end_line {
            return Err(EditorError::InvalidRange { start: start_line, end: end_line });
        }
        let lines = split_lines(file_content);
        if start_line >= lines.len() {
            return Err(EditorError::LineOutOfRange(start_line));
        }
        let n = lines.len();
        let eff = if end_line < n { end_line } else { n };
        let ghost ls = texts(lines@);
        let mut out: Vec<String> = Vec::new();
        let mut i: usize = 0;
        while i < start_line
            invariant
                i <= start_line < n == lines@.len(),
                ls == texts(lines@),
                texts(out@) == ls.subrange(0, i as int),
            decreases start_line - i,
        {
            let c = lines[i].clone();
            assert(texts(out@.push(c)) == texts(out@).push(c@));
            assert(ls.subrange(0, i + 1) == ls.subrange(0, i as int).push(ls[i as int]));
            out.push(c);
            i = i + 1;
        }
        let middle = split_lines(new_content);
        let mut j: usize = 0;
        while j < middle.len()
            invariant
                j <= middle@.len(),
                texts(middle@) == lines_of(new_content@),
                texts(out@) == ls.subrange(0, start_line as int) + texts(middle@).subrange(0, j as int),
            decreases middle.len() - j,
        {
            let c = middle[j].clone();
            assert(texts(out@.push(c)) == texts(out@).push(c@));
            assert(texts(middle@).subrange(0, j + 1) == texts(middle@).subrange(0, j as int).push(texts(middle@)[j as int]));
            out.push(c);
            j = j + 1;
        }
        assert(texts(middle@).subrange(0, middle@.len() as int) == texts(middle@));
        let ghost head = texts(out@);
        let mut k: usize = eff;
        while k < n
            invariant
                eff <= k <= n == lines@.len(),
                ls == texts(lines@),
                texts(out@) == head + ls.subrange(eff as int, k as int),
            decreases n - k,
        {
            let c = lines[k].clone();
            assert(texts(out@.push(c)) == texts(out@).push(c@));
            assert(ls.subrange(eff as int, k + 1) == ls.subrange(eff as int, k as int).push(ls[k as int]));
            out.push(c);
            k = k + 1;
        }
        assert(texts(out@) == region_lines(file_content@, start_line as int, end_line as int, new_content@));
        Ok(write_lines(&out))
    }
}

/// At the line count, `insert_line` appends: the new line follows every
/// existing line, and plain lines read back as that list.
pub proof fn insert_at_line_count_appends(text: Seq<char>, content: Seq<char>)
    ensures
        inserted_lines(text, lines_of(text).len() as int, content) == lines_of(text).push(content),
        plain(lines_of(text).push(content)) ==> lines_of(inserted_text(text, lines_of(text).len() as int, content))
            == lines_of(text).push(content),
{
    assert(lines_of(text).insert(lines_of(text).len() as int, content) =~= lines_of(text).push(content));
    if plain(lines_of(text).push(content)) {
        crate::lines::lemma_lines_of_terminated(lines_of(text).push(content));
    }
}

} // verus!
