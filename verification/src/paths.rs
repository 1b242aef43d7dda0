//! Paths as text, with `/` between their segments.

use vstd::prelude::*;
use vstd::string::*;

verus! {

/// Where the last piece of `path` begins: just behind its last `/`, or at
/// the front where it has none.
pub open spec fn last_piece_start(path: Seq<char>) -> int
    decreases path.len(),
{
    if path.len() == 0 || path.last() == '/' {
        path.len() as int
    } else {
        last_piece_start(path.drop_last())
    }
}

/// The text of `path` behind its last `/`.
pub open spec fn last_piece(path: Seq<char>) -> Seq<char> {
    path.skip(last_piece_start(path))
}

/// The final segment of `path`: the name of the file or directory that it
/// leads to.
///
/// Separators at the end do not count, nor does a `.` piece behind the
/// name. A path that ends in `..`, and one that holds no name at all, has no
/// final segment.
pub open spec fn final_segment(path: Seq<char>) -> Option<Seq<char>>
    decreases path.len(),
{
    if path.len() == 0 {
        None
    } else if path.last() == '/' {
        final_segment(path.drop_last())
    } else if last_piece(path) == seq!['.'] {
        final_segment(path.drop_last())
    } else if last_piece(path) == seq!['.', '.'] {
        None
    } else {
        Some(last_piece(path))
    }
}

/// `name` below `dir`: the two with one `/` between them, which an empty
/// `dir` and one that ends in `/` do not need.
pub open spec fn joined(dir: Seq<char>, name: Seq<char>) -> Seq<char> {
    if dir.len() == 0 || dir.last() == '/' {
        dir + name
    } else {
        dir + seq!['/'] + name
    }
}

/// A piece that holds no `/` and stands at the front or behind a `/` is the
/// last piece.
proof fn lemma_last_piece_start(path: Seq<char>, start: int)
    requires
        0 <= start <= path.len(),
        start == 0 || path[start - 1] == '/',
        forall|k: int| start <= k < path.len() ==> path[k] != '/',
    ensures
        last_piece_start(path) == start,
    decreases path.len(),
{
    if start < path.len() {
        lemma_last_piece_start(path.drop_last(), start);
    }
}

/// A name that can be the final segment of a path: not empty, without a `/`,
/// and neither `.` nor `..`.
pub open spec fn is_name(name: Seq<char>) -> bool {
    &&& name.len() > 0
    &&& !name.contains('/')
    &&& name != seq!['.']
    &&& name != seq!['.', '.']
}

proof fn lemma_last_piece_has_no_separator(path: Seq<char>)
    ensures
        0 <= last_piece_start(path) <= path.len(),
        path.len() > 0 && path.last() != '/' ==> last_piece_start(path) < path.len(),
        !last_piece(path).contains('/'),
    decreases path.len(),
{
    if path.len() == 0 || path.last() == '/' {
    } else {
        lemma_last_piece_has_no_separator(path.drop_last());
        assert forall|k: int| 0 <= k < last_piece(path).len() implies last_piece(path)[k]
            != '/' by {
            if k < last_piece(path).len() - 1 {
                assert(last_piece(path.drop_last())[k] == last_piece(path)[k]);
            }
        }
    }
}

/// The final segment of a path is a name.
pub proof fn law_final_segment_is_a_name(path: Seq<char>)
    requires
        final_segment(path) is Some,
    ensures
        is_name(final_segment(path).unwrap()),
    decreases path.len(),
{
    if path.len() == 0 {
    } else if path.last() == '/' || last_piece(path) == seq!['.'] {
        law_final_segment_is_a_name(path.drop_last());
    } else {
        lemma_last_piece_has_no_separator(path);
    }
}

/// What is joined to a directory under a name is found again under that
/// name.
pub proof fn law_joined_name_is_final_segment(dir: Seq<char>, name: Seq<char>)
    requires
        is_name(name),
    ensures
        final_segment(joined(dir, name)) == Some(name),
{
    let path = joined(dir, name);
    let start = path.len() - name.len();
    assert(path.skip(start) == name);
    lemma_last_piece_start(path, start);
}

/// The characters of `text`, one by one.
fn chars_of(text: &str) -> (chars: Vec<char>)
    ensures
        chars@ == text@,
{
    let mut chars: Vec<char> = Vec::new();
    for c in it: text.chars()
        invariant
            chars@ == it.seq().take(it.index() as int),
    {
        chars.push(c);
    }
    chars
}

/// The name of the file or directory that `path` leads to, if it has one.
pub fn file_name(path: &str) -> (name: Option<String>)
    ensures
        name.deep_view() == final_segment(path@),
{
    let chars = chars_of(path);
    let mut end: usize = chars.len();
    assert(path@.take(end as int) == path@);
    while end > 0
        invariant
            end <= chars.len(),
            chars@ == path@,
            final_segment(path@) == final_segment(path@.take(end as int)),
        decreases end,
    {
        let ghost prefix = path@.take(end as int);
        if chars[end - 1] == '/' {
            assert(prefix.drop_last() == path@.take(end - 1));
            end -= 1;
            continue ;
        }
        let mut start: usize = end - 1;
        while start > 0 && chars[start - 1] != '/'
            invariant
                start < end <= chars.len(),
                forall|k: int| start <= k < end ==> chars@[k] != '/',
            decreases start,
        {
            start -= 1;
        }
        proof {
            lemma_last_piece_start(prefix, start as int);
        }
        if end - start == 1 && chars[start] == '.' {
            assert(last_piece(prefix) == seq!['.']);
            assert(prefix.drop_last() == path@.take(end - 1));
            end -= 1;
            continue ;
        }
        if end - start == 2 && chars[start] == '.' && chars[start + 1] == '.' {
            assert(last_piece(prefix) == seq!['.', '.']);
            return None;
        }
        assert(last_piece(prefix) != seq!['.']) by {
            if last_piece(prefix) == seq!['.'] {
                assert(last_piece(prefix).len() == 1);
                assert(last_piece(prefix)[0] == '.');
            }
        }
        assert(last_piece(prefix) != seq!['.', '.']) by {
            if last_piece(prefix) == seq!['.', '.'] {
                assert(last_piece(prefix).len() == 2);
            }
        }
        return Some(path.substring_char(start, end).to_owned());
    }
    None
}

/// The path of `name` below `dir`.
pub fn join(dir: &str, name: &str) -> (path: String)
    ensures
        path@ == joined(dir@, name@),
{
    let len: usize = dir.unicode_len();
    let mut path = String::from_str(dir);
    if len > 0 && dir.get_char(len - 1) != '/' {
        proof {
            reveal_strlit("/");
        }
        path.append("/");
    }
    path.append(name);
    path
}

} // verus!
