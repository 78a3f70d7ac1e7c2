use vstd::prelude::*;

verus! {

/// The path separator.
pub const SEPARATOR: char = '/';

/// Whether `p` is an absolute path, that is, starts at the filesystem root.
pub open spec fn is_absolute(p: Seq<char>) -> bool {
    p.len() > 0 && p[0] == SEPARATOR
}

/// The path that appending `p` to `base` denotes. An absolute `p` replaces
/// `base`; otherwise `p` follows `base`, with one separator between them
/// unless `base` is empty or already ends with one. Segments such as `..`
/// and `.` are kept as they are: nothing is normalized.
pub open spec fn joined(base: Seq<char>, p: Seq<char>) -> Seq<char> {
    if is_absolute(p) {
        p
    } else if base.len() == 0 || base.last() == SEPARATOR {
        base + p
    } else {
        base.push(SEPARATOR) + p
    }
}

/// Appends the relative path `p` to `base`, as `Path::join` does on Unix.
pub fn join_path(base: &str, p: &str) -> (r: String)
    ensures
        r@ == joined(base@, p@),
{
    let p_len = p.unicode_len();
    if p_len > 0 && p.get_char(0) == SEPARATOR {
        return String::from_str(p);
    }
    let base_len = base.unicode_len();
    let mut r = String::from_str(base);
    if base_len > 0 && base.get_char(base_len - 1) != SEPARATOR {
        r.append("/");
        proof {
            reveal_strlit("/");
            assert("/"@ == seq![SEPARATOR]);
            assert(base@.push(SEPARATOR) =~= base@ + "/"@);
        }
    }
    r.append(p);
    r
}

/// The request path ends the joined path unchanged: a `..` segment in it is
/// kept, so a join can name a place above `base`. An absolute request path
/// replaces `base` altogether.
pub proof fn request_path_is_kept_verbatim(base: Seq<char>, p: Seq<char>)
    ensures
        joined(base, p).len() >= p.len(),
        joined(base, p).subrange(joined(base, p).len() - p.len(), joined(base, p).len() as int) == p,
        is_absolute(p) ==> joined(base, p) == p,
        !is_absolute(p) ==> joined(base, p).subrange(0, base.len() as int) == base,
{
    let j = joined(base, p);
    if !is_absolute(p) {
        if base.len() == 0 || base.last() == SEPARATOR {
            assert(j.subrange(j.len() - p.len(), j.len() as int) =~= p);
            assert(j.subrange(0, base.len() as int) =~= base);
        } else {
            assert(j.subrange(j.len() - p.len(), j.len() as int) =~= p);
            assert(j.subrange(0, base.len() as int) =~= base);
        }
    } else {
        assert(j.subrange(0, j.len() as int) =~= p);
    }
}

} // verus!
