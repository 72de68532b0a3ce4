//! Display names: the name of a file taken from a presigned URL or from a
//! local path, and the joining of a destination directory with such a name.

use vstd::prelude::*;

verus! {

/// Why a name could not be taken from a locator.
#[derive(Debug, Clone, Copy, PartialEq, Eq, Structural)]
pub enum PathError {
    InvalidPath,
}

/// Index just past the last character of `s[..end]` that differs from `sep`
/// (0 where there is none): `end` with the trailing separators dropped.
pub open spec fn trim_end(s: Seq<char>, end: int, sep: char) -> int
    decreases end,
{
    if end > 0 && s[end - 1] == sep {
        trim_end(s, end - 1, sep)
    } else {
        end
    }
}

/// Index of the first character of the last `sep`-free run that ends at `end`.
pub open spec fn segment_start(s: Seq<char>, end: int, sep: char) -> int
    decreases end,
{
    if end > 0 && s[end - 1] != sep {
        segment_start(s, end - 1, sep)
    } else {
        end
    }
}

pub proof fn lemma_trim_end_bounds(s: Seq<char>, end: int, sep: char)
    requires
        0 <= end,
    ensures
        0 <= trim_end(s, end, sep) <= end,
        trim_end(s, end, sep) > 0 ==> s[trim_end(s, end, sep) - 1] != sep,
    decreases end,
{
    if end > 0 && s[end - 1] == sep {
        lemma_trim_end_bounds(s, end - 1, sep);
    }
}

pub proof fn lemma_segment_start_bounds(s: Seq<char>, end: int, sep: char)
    requires
        0 <= end,
    ensures
        0 <= segment_start(s, end, sep) <= end,
        segment_start(s, end, sep) > 0 ==> s[segment_start(s, end, sep) - 1] == sep,
        forall|i: int| segment_start(s, end, sep) <= i < end ==> s[i] != sep,
    decreases end,
{
    if end > 0 && s[end - 1] != sep {
        lemma_segment_start_bounds(s, end - 1, sep);
    }
}

/// A URL without its query string: everything before the first `?`.
pub open spec fn strip_query(url: Seq<char>) -> Seq<char> {
    match url.index_of_first('?') {
        Some(i) => url.subrange(0, i),
        None => url,
    }
}

/// The last non-empty `/`-separated segment of a locator, still encoded.
pub open spec fn last_segment(s: Seq<char>) -> Seq<char> {
    let e = trim_end(s, s.len() as int, '/');
    s.subrange(segment_start(s, e, '/'), e)
}

/// The percent-decoded text of `s`, with invalid UTF-8 replaced by U+FFFD.
pub uninterp spec fn percent_decoded(s: Seq<char>) -> Seq<char>;

/// The display name of a download URL: its last path segment, query removed,
/// percent-decoded.
pub open spec fn url_display_name(url: Seq<char>) -> Seq<char> {
    percent_decoded(last_segment(strip_query(url)))
}

/// The file name of `s[..end]` read as a Unix path: the last component, where
/// repeated and trailing separators and `.` components after the first are
/// skipped; none for an empty path, the root, a leading `.` or a `..`.
pub open spec fn file_name_before(s: Seq<char>, end: int) -> Option<Seq<char>>
    decreases end,
    via file_name_before_decreases
{
    let e = trim_end(s, end, '/');
    let b = segment_start(s, e, '/');
    let seg = s.subrange(b, e);
    if e <= 0 {
        None
    } else if seg == seq!['.'] && b > 0 {
        file_name_before(s, b)
    } else if seg == seq!['.'] || seg == seq!['.', '.'] {
        None
    } else {
        Some(seg)
    }
}

#[via_fn]
proof fn file_name_before_decreases(s: Seq<char>, end: int) {
    if end >= 0 {
        lemma_trim_end_bounds(s, end, '/');
        let e = trim_end(s, end, '/');
        lemma_segment_start_bounds(s, e, '/');
        let b = segment_start(s, e, '/');
        if s.subrange(b, e) == seq!['.'] {
            assert(s.subrange(b, e).len() == 1);
        }
    }
}

/// The file name of a whole path.
pub open spec fn path_file_name(s: Seq<char>) -> Option<Seq<char>> {
    file_name_before(s, s.len() as int)
}

/// Relies on `percent_encoding::percent_decode_str` followed by
/// `decode_utf8_lossy`: every `%` with two hex digits becomes its byte, and a
/// text without `%` is returned as it is.
#[verifier::external_body]
fn percent_decode(s: &str) -> (r: String)
    ensures
        r@ == percent_decoded(s@),
        !s@.contains('%') ==> r@ == s@,
{
    percent_encoding::percent_decode_str(s).decode_utf8_lossy().into_owned()
}

fn find_trim_end(s: &str, end: usize, sep: char) -> (r: usize)
    requires
        end <= s@.len(),
    ensures
        r as int == trim_end(s@, end as int, sep),
        r <= end,
{
    let mut e = end;
    while e > 0 && s.get_char(e - 1) == sep
        invariant
            e <= end,
            end <= s@.len(),
            trim_end(s@, e as int, sep) == trim_end(s@, end as int, sep),
        decreases e,
    {
        e = e - 1;
    }
    e
}

fn find_segment_start(s: &str, end: usize, sep: char) -> (r: usize)
    requires
        end <= s@.len(),
    ensures
        r as int == segment_start(s@, end as int, sep),
        r <= end,
{
    let mut b = end;
    while b > 0 && s.get_char(b - 1) != sep
        invariant
            b <= end,
            end <= s@.len(),
            segment_start(s@, b as int, sep) == segment_start(s@, end as int, sep),
        decreases b,
    {
        b = b - 1;
    }
    b
}

fn find_first(s: &str, c: char) -> (r: usize)
    ensures
        r <= s@.len(),
        r < s@.len() ==> s@.index_of_first(c) == Some(r as int),
        r == s@.len() ==> s@.index_of_first(c) is None,
{
    let n = s.unicode_len();
    let mut i: usize = 0;
    while i < n && s.get_char(i) != c
        invariant
            i <= n,
            n == s@.len(),
            forall|j: int| 0 <= j < i ==> s@[j] != c,
        decreases n - i,
    {
        i = i + 1;
    }
    proof {
        s@.index_of_first_ensures(c);
    }
    i
}

/// The locator of a URL without its query string, and the display name of
/// the file it points at.
pub fn parse_url(url: &str) -> (r: Result<(String, String), PathError>)
    ensures
        match r {
            Ok((locator, name)) => {
                &&& locator@ == strip_query(url@)
                &&& name@ == url_display_name(url@)
                &&& !last_segment(strip_query(url@)).contains('%') ==> name@ == last_segment(
                    strip_query(url@),
                )
            },
            Err(_) => false,
        },
{
    let q = find_first(url, '?');
    let locator = url.substring_char(0, q);
    assert(locator@ == strip_query(url@));
    let n = locator.unicode_len();
    let e = find_trim_end(locator, n, '/');
    let b = find_segment_start(locator, e, '/');
    let encoded = locator.substring_char(b, e);
    assert(encoded@ == last_segment(strip_query(url@)));
    let name = percent_decode(encoded);
    Ok((locator.to_owned(), name))
}

/// The file name of a local path, as the last component of a Unix path.
pub fn get_file_name_from_path(file_path: &str) -> (r: Result<String, PathError>)
    ensures
        match path_file_name(file_path@) {
            Some(name) => r is Ok && r->Ok_0@ == name,
            None => r == Err::<String, PathError>(PathError::InvalidPath),
        },
{
    let n = file_path.unicode_len();
    let mut end = n;
    loop
        invariant
            end <= n,
            n == file_path@.len(),
            file_name_before(file_path@, end as int) == path_file_name(file_path@),
        decreases end,
    {
        let e = find_trim_end(file_path, end, '/');
        if e == 0 {
            return Err(PathError::InvalidPath);
        }
        let b = find_segment_start(file_path, e, '/');
        proof {
            lemma_trim_end_bounds(file_path@, end as int, '/');
            lemma_segment_start_bounds(file_path@, e as int, '/');
        }
        let seg = file_path.substring_char(b, e);
        let first_dot = file_path.get_char(b) == '.';
        let is_dot = e - b == 1 && first_dot;
        let is_dot_dot = e - b == 2 && first_dot && file_path.get_char(b + 1) == '.';
        proof {
            if is_dot {
                assert(seg@ =~= seq!['.']);
            } else {
                assert(seg@ != seq!['.']) by {
                    if e - b != 1 {
                        assert(seg@.len() != seq!['.'].len());
                    } else {
                        assert(seg@[0] != seq!['.'][0]);
                    }
                }
            }
            if is_dot_dot {
                assert(seg@ =~= seq!['.', '.']);
            } else {
                assert(seg@ != seq!['.', '.']) by {
                    if e - b != 2 {
                        assert(seg@.len() != seq!['.', '.'].len());
                    } else if !first_dot {
                        assert(seg@[0] != seq!['.', '.'][0]);
                    } else {
                        assert(seg@[1] != seq!['.', '.'][1]);
                    }
                }
            }
        }
        if is_dot && b > 0 {
            end = b;
        } else if is_dot || is_dot_dot {
            return Err(PathError::InvalidPath);
        } else {
            return Ok(seg.to_owned());
        }
    }
}

/// Removing the query string of a URL leaves exactly the part before the
/// first `?`.
pub proof fn lemma_query_removed(base: Seq<char>, query: Seq<char>)
    requires
        !base.contains('?'),
    ensures
        strip_query(base + seq!['?'] + query) == base,
{
    let url = base + seq!['?'] + query;
    url.index_of_first_ensures('?');
    assert(url[base.len() as int] == '?');
    assert(url.contains('?'));
    let i = url.index_of_first('?').unwrap();
    if i < base.len() {
        assert(base[i] == url[i]);
    }
    assert(url.subrange(0, base.len() as int) =~= base);
}

} // verus!
