//! Reading a directory listing of the file server: which lines are
//! folders, and what they are called.

use crate::text::{chars_of, is_white_space, law_trimmed_len, trimmed_len, white_space};
use vstd::prelude::*;
use vstd::string::StrSliceExecFns;

verus! {

/// Where the run of characters without white space that stops at `end` begins.
pub open spec fn word_start(line: Seq<char>, end: int) -> int
    decreases end,
{
    if end <= 0 {
        0
    } else if white_space(line[end - 1]) {
        end
    } else {
        word_start(line, end - 1)
    }
}

/// The last word of a line: what stands between the last white space before
/// its trimmed end and that end.
pub open spec fn last_word(line: Seq<char>) -> Seq<char> {
    line.subrange(word_start(line, trimmed_len(line)), trimmed_len(line))
}

/// Whether a listing line stands for a directory: its first character is
/// the marker `d`.
pub open spec fn is_directory(line: Seq<char>) -> bool {
    line.len() > 0 && line[0] == 'd'
}

/// The folder that a listing line names: the last word of a line that
/// stands for a directory.
pub open spec fn folder_of(line: Seq<char>) -> Option<Seq<char>> {
    if is_directory(line) {
        Some(last_word(line))
    } else {
        None
    }
}

/// The folders that a listing names, in the listing's order.
pub open spec fn folders_of(lines: Seq<Seq<char>>) -> Seq<Seq<char>> {
    lines.filter_map(|line: Seq<char>| folder_of(line))
}

/// The last word of a line is cut where the line says: nothing but white
/// space follows it, none is inside it, and it starts the line or follows
/// white space.
pub proof fn law_last_word_bounds(line: Seq<char>)
    ensures
        0 <= word_start(line, trimmed_len(line)) <= trimmed_len(line) <= line.len(),
        forall|i: int| trimmed_len(line) <= i < line.len() ==> white_space(#[trigger] line[i]),
        forall|i: int|
            word_start(line, trimmed_len(line)) <= i < trimmed_len(line) ==> !white_space(
                #[trigger] line[i],
            ),
        word_start(line, trimmed_len(line)) == 0 || white_space(
            line[word_start(line, trimmed_len(line)) - 1],
        ),
{
    law_trimmed_len(line);
    lemma_word_start(line, trimmed_len(line));
}

/// A folder has a name: it is not empty and holds no white space.
pub proof fn law_folder_has_a_name(line: Seq<char>)
    requires
        is_directory(line),
    ensures
        last_word(line).len() > 0,
        forall|i: int|
            0 <= i < last_word(line).len() ==> !white_space(#[trigger] last_word(line)[i]),
{
    let end = trimmed_len(line);
    law_last_word_bounds(line);
    assert(!white_space('d'));
    lemma_trimmed_len_covers(line, 0);
    law_trimmed_len(line);
    lemma_word_start(line, end - 1);
}

/// The trimmed length reaches past every character that is no white space.
proof fn lemma_trimmed_len_covers(line: Seq<char>, i: int)
    requires
        0 <= i < line.len(),
        !white_space(line[i]),
    ensures
        trimmed_len(line) > i,
    decreases line.len(),
{
    if white_space(line.last()) {
        assert(line.drop_last()[i] == line[i]);
        lemma_trimmed_len_covers(line.drop_last(), i);
    }
}

proof fn lemma_word_start(line: Seq<char>, end: int)
    requires
        0 <= end <= line.len(),
    ensures
        0 <= word_start(line, end) <= end,
        forall|i: int| word_start(line, end) <= i < end ==> !white_space(#[trigger] line[i]),
        word_start(line, end) == 0 || white_space(line[word_start(line, end) - 1]),
    decreases end,
{
    if end > 0 && !white_space(line[end - 1]) {
        lemma_word_start(line, end - 1);
    }
}

/// The folder that one line of a directory listing names, if it names one.
pub fn folder_name(line: &str) -> (name: Option<String>)
    ensures
        match name {
            Some(folder) => folder_of(line@) == Some(folder@),
            None => folder_of(line@) is None,
        },
{
    let chars = chars_of(line);
    if chars.len() == 0 || chars[0] != 'd' {
        return None;
    }
    let mut end: usize = chars.len();
    assert(chars@.take(end as int) =~= chars@);
    while end > 0 && is_white_space(chars[end - 1])
        invariant
            end <= chars.len(),
            trimmed_len(chars@) == trimmed_len(chars@.take(end as int)),
        decreases end,
    {
        assert(chars@.take(end as int).drop_last() =~= chars@.take(end - 1));
        end -= 1;
    }
    assert(trimmed_len(chars@) == end);
    let mut start: usize = end;
    while start > 0 && !is_white_space(chars[start - 1])
        invariant
            start <= end <= chars.len(),
            word_start(chars@, end as int) == word_start(chars@, start as int),
        decreases start,
    {
        start -= 1;
    }
    proof {
        law_folder_has_a_name(chars@);
    }
    Some(line.substring_char(start, end).to_owned())
}

/// The folders among the lines of a directory listing, in the listing's order.
pub fn list_folders(lines: &Vec<String>) -> (folders: Vec<String>)
    ensures
        folders.deep_view() == folders_of(lines.deep_view()),
{
    let ghost pick = |line: Seq<char>| folder_of(line);
    let ghost texts = lines.deep_view();
    let mut folders: Vec<String> = Vec::new();
    let mut i: usize = 0;
    assert(texts.take(0).filter_map(pick) =~= Seq::empty());
    while i < lines.len()
        invariant
            i <= lines.len(),
            texts == lines.deep_view(),
            pick == |line: Seq<char>| folder_of(line),
            folders.deep_view() == texts.take(i as int).filter_map(pick),
        decreases lines.len() - i,
    {
        proof {
            texts.lemma_filter_map_take_succ(pick, i as int);
        }
        let ghost before = folders.deep_view();
        match folder_name(lines[i].as_str()) {
            Some(folder) => {
                folders.push(folder);
                assert(folders.deep_view() =~= before + seq![folder@]);
            },
            None => {},
        }
        i += 1;
    }
    assert(texts.take(i as int) =~= texts);
    folders
}

} // verus!
