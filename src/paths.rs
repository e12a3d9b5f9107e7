use vstd::prelude::*;

verus! {

/// The directory the image is saved to when none is given.
pub const SAVE_PATH: &'static str = "wallpaper";

/// A unix path is absolute when it starts at the root.
pub open spec fn is_absolute(p: Seq<char>) -> bool {
    p.len() > 0 && p[0] == '/'
}

/// `rel` adjoined to `base`: an absolute `rel` replaces `base`; otherwise a
/// separator is put between the two unless `base` is empty or already ends
/// with one.
pub open spec fn joined(base: Seq<char>, rel: Seq<char>) -> Seq<char> {
    if is_absolute(rel) {
        rel
    } else if base.len() == 0 || base.last() == '/' {
        base + rel
    } else {
        base + seq!['/'] + rel
    }
}

/// A name that denotes an entry of the directory it is adjoined to: not
/// empty, not `.` or `..`, and without a separator.
pub open spec fn is_file_name(name: Seq<char>) -> bool {
    &&& name.len() > 0
    &&& name != seq!['.']
    &&& name != seq!['.', '.']
    &&& forall|i: int| 0 <= i < name.len() ==> name[i] != '/'
}

/// Whether `p` is an absolute unix path.
pub fn is_absolute_path(p: &str) -> (r: bool)
    ensures
        r == is_absolute(p@),
{
    p.unicode_len() > 0 && p.get_char(0) == '/'
}

/// Whether `name` can be adjoined to a directory without leaving it.
pub fn is_plain_file_name(name: &str) -> (r: bool)
    ensures
        r == is_file_name(name@),
{
    let n = name.unicode_len();
    if n == 0 {
        return false;
    }
    if n <= 2 && name.get_char(0) == '.' && (n == 1 || name.get_char(1) == '.') {
        proof {
            if n == 1 {
                assert(name@ =~= seq!['.']);
            } else {
                assert(name@ =~= seq!['.', '.']);
            }
        }
        return false;
    }
    let mut i: usize = 0;
    while i < n
        invariant
            i <= n,
            n == name@.len(),
            forall|j: int| 0 <= j < i ==> name@[j] != '/',
        decreases n - i,
    {
        if name.get_char(i) == '/' {
            return false;
        }
        i = i + 1;
    }
    proof {
        if name@ == seq!['.'] {
            assert(name@[0] == '.');
        }
        if name@ == seq!['.', '.'] {
            assert(name@[0] == '.' && name@[1] == '.');
        }
    }
    true
}

/// A file name adjoined to a directory stays in that directory: the result is
/// the directory, at most one separator, and the name.
pub proof fn file_name_stays_inside(dir: Seq<char>, name: Seq<char>)
    requires
        is_file_name(name),
    ensures
        joined(dir, name) == dir + name || joined(dir, name) == dir + seq!['/'] + name,
        !is_absolute(name),
{
}

/// A relative save path below a working directory that does not end in a
/// separator, with a plain file name below it, reads
/// `cwd/path/name`.
pub proof fn relative_save_file(cwd: Seq<char>, path: Seq<char>, name: Seq<char>)
    requires
        cwd.len() > 0,
        cwd.last() != '/',
        path.len() > 0,
        !is_absolute(path),
        path.last() != '/',
        is_file_name(name),
    ensures
        joined(joined(cwd, path), name) == cwd + seq!['/'] + path + seq!['/'] + name,
{
    let d = cwd + seq!['/'] + path;
    assert(d.last() == path.last());
}

/// Adjoins `rel` to `base` as a unix path.
pub fn join_path(base: &str, rel: &str) -> (r: String)
    ensures
        r@ == joined(base@, rel@),
{
    let rel_len = rel.unicode_len();
    if rel_len > 0 && rel.get_char(0) == '/' {
        return String::from_str(rel);
    }
    let base_len = base.unicode_len();
    let mut r = String::from_str(base);
    if base_len > 0 && base.get_char(base_len - 1) != '/' {
        r.append("/");
        proof {
            reveal_strlit("/");
        }
    }
    r.append(rel);
    proof {
        if !(base@.len() == 0 || base@.last() == '/') {
            assert(r@ =~= base@ + seq!['/'] + rel@);
        }
    }
    r
}

/// The directory the image is saved to: `path` itself when it is absolute,
/// else `path` below the working directory `cwd`.
pub fn get_save_path(path: &str, cwd: &str) -> (r: String)
    ensures
        r@ == joined(cwd@, path@),
        is_absolute(path@) ==> r@ == path@,
{
    join_path(cwd, path)
}

} // verus!
