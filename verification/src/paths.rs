//! The standard library's path types, as the library hands them out.
//! Inside the library a path is the text it was made from.

use vstd::prelude::*;

verus! {

#[verifier::external_type_specification]
#[verifier::external_body]
pub struct ExPath(std::path::Path);

#[verifier::external_type_specification]
#[verifier::external_body]
pub struct ExPathBuf(std::path::PathBuf);

/// The index of the last `/` in `path`, or -1 when it has none.
pub open spec fn last_slash_index(path: Seq<char>) -> int
    decreases path.len(),
{
    if path.len() == 0 {
        -1
    } else if path.last() == '/' {
        path.len() - 1
    } else {
        last_slash_index(path.drop_last())
    }
}

/// The file name that `std::path::Path::file_name` reports on Unix for a
/// path given as text: its last component, when that is a normal one.
/// Trailing `/`s and `.` components are normalised away first, so `a/`,
/// `a/.` and `a/./` all name `a`; a path whose last component is `..`, or
/// that has nothing left but a root or a leading `.`, has no file name.
pub open spec fn path_file_name(path: Seq<char>) -> Option<Seq<char>>
    decreases path.len(),
{
    if path.len() == 0 {
        None
    } else if path.last() == '/' {
        path_file_name(path.drop_last())
    } else {
        let start = last_slash_index(path) + 1;
        let segment = path.skip(start);
        if segment == seq!['.'] {
            proof {
                lemma_last_slash_index_bounds(path);
            }
            path_file_name(path.take(start))
        } else if segment == seq!['.', '.'] {
            None
        } else {
            Some(segment)
        }
    }
}

/// The last `/` lies inside the path, and nothing after it is a `/`.
pub proof fn lemma_last_slash_index_bounds(path: Seq<char>)
    ensures
        -1 <= last_slash_index(path) < path.len(),
        last_slash_index(path) >= 0 ==> path[last_slash_index(path)] == '/',
    decreases path.len(),
{
    if path.len() > 0 && path.last() != '/' {
        lemma_last_slash_index_bounds(path.drop_last());
    }
}

/// The last `/` of a path is the one just before `start` when nothing from
/// `start` on is a `/`.
proof fn lemma_last_slash_before(path: Seq<char>, start: int)
    requires
        0 <= start <= path.len(),
        start == 0 || path[start - 1] == '/',
        forall|k: int| start <= k < path.len() ==> path[k] != '/',
    ensures
        last_slash_index(path) == start - 1,
    decreases path.len(),
{
    if path.len() > start {
        lemma_last_slash_before(path.drop_last(), start);
    }
}

/// The file name of the path `text` names, as `std::path::Path::file_name`
/// reports it on Unix.
pub(crate) fn file_name_of(text: &str) -> (name: Option<String>)
    ensures
        match name {
            Some(name) => path_file_name(text@) == Some(name@),
            None => path_file_name(text@) is None,
        },
{
    let length = text.unicode_len();
    let mut end: usize = length;
    assert(text@.take(length as int) =~= text@);
    loop
        invariant
            length == text@.len(),
            end <= length,
            path_file_name(text@.take(end as int)) == path_file_name(text@),
        decreases end,
    {
        if end == 0 {
            return None;
        }
        let ghost prefix = text@.take(end as int);
        if text.get_char(end - 1) == '/' {
            assert(prefix.drop_last() =~= text@.take(end - 1));
            end = end - 1;
        } else {
            let mut start: usize = end - 1;
            while start > 0 && text.get_char(start - 1) != '/'
                invariant
                    length == text@.len(),
                    start < end,
                    end <= length,
                    forall|k: int| start <= k < end ==> text@[k] != '/',
                decreases start,
            {
                start = start - 1;
            }
            proof {
                lemma_last_slash_before(prefix, start as int);
            }
            if end - start == 1 && text.get_char(start) == '.' {
                assert(prefix.skip(start as int) =~= seq!['.']);
                assert(prefix.take(start as int) =~= text@.take(start as int));
                end = start;
            } else if end - start == 2 && text.get_char(start) == '.' && text.get_char(start + 1)
                == '.' {
                assert(prefix.skip(start as int) =~= seq!['.', '.']);
                return None;
            } else {
                let segment = text.substring_char(start, end);
                assert(segment@ =~= prefix.skip(start as int));
                assert(prefix.skip(start as int) != seq!['.']) by {
                    if prefix.skip(start as int) == seq!['.'] {
                        assert(prefix.skip(start as int).len() == 1);
                        assert(prefix.skip(start as int)[0] == text@[start as int]);
                    }
                }
                assert(prefix.skip(start as int) != seq!['.', '.']) by {
                    if prefix.skip(start as int) == seq!['.', '.'] {
                        assert(prefix.skip(start as int).len() == 2);
                        assert(prefix.skip(start as int)[0] == text@[start as int]);
                        assert(prefix.skip(start as int)[1] == text@[start + 1]);
                    }
                }
                return Some(String::from_str(segment));
            }
        }
    }
}

/// The text a borrowed path reads as: what `std::path::Path::to_str` gives
/// back of it. A path that `std::path::Path::new` made from text reads as
/// that text.
pub uninterp spec fn std_path_text(path: &std::path::Path) -> Seq<char>;

/// The text an owned path reads as: what `std::path::PathBuf`'s `to_str`
/// gives back of it. A path that `std::path::PathBuf::from` made from text
/// reads as that text.
pub uninterp spec fn std_path_buf_text(path: std::path::PathBuf) -> Seq<char>;

/// Calls `std::path::Path::new` on the text, borrowing it as a path. The
/// path is the text itself seen as a path, so it reads back as the text.
#[verifier::external_body]
pub(crate) fn std_path_of(text: &String) -> (path: &std::path::Path)
    ensures
        std_path_text(path) == text@,
{
    std::path::Path::new(text.as_str())
}

/// Calls `std::path::PathBuf::from` on the text, taking it as an owned path.
/// The path takes over the text's bytes, so it reads back as the text.
#[verifier::external_body]
pub(crate) fn std_path_buf_of(text: String) -> (path: std::path::PathBuf)
    ensures
        std_path_buf_text(path) == text@,
{
    std::path::PathBuf::from(text)
}

} // verus!
