//! Errors, paths and data types shared by the whole library.
use vstd::prelude::*;

verus! {

/// Errors that can be encountered while building or running a configuration.
#[derive(Debug, Clone)]
pub enum Error {
    /// Returned when attempting to run a configuration that does not contain any exports.
    NoExports,
    /// An `and` / `or` combinator was given fewer than two operands.
    Arity,
    /// Other unspecified error.
    Other(String),
}

impl Error {
    /// A human-readable description of the error.
    pub fn message(&self) -> (r: String)
        ensures
            self is NoExports ==> r@ == "must define at least one export"@,
            self is Arity ==> r@ == "logical statement must have at least 2 conditions"@,
            self matches Error::Other(s) ==> r == s,
    {
        match self {
            Error::NoExports => "must define at least one export".to_string(),
            Error::Arity => "logical statement must have at least 2 conditions".to_string(),
            Error::Other(s) => s.clone(),
        }
    }
}

/// Whether a path is absolute.
pub open spec fn is_absolute(path: Seq<char>) -> bool {
    path.len() > 0 && path[0] == '/'
}

/// A path resolved against a base directory: an absolute path stands as it is, a
/// relative one is taken inside `base`.
pub open spec fn joined(base: Seq<char>, path: Seq<char>) -> Seq<char> {
    if is_absolute(path) {
        path
    } else {
        base + "/"@ + path
    }
}

/// Resolves `path` against the directory `base`.
pub fn resolve_path(base: &String, path: &String) -> (r: String)
    ensures
        r@ == joined(base@, path@),
{
    broadcast use vstd::string::axiom_spec_iter, vstd::string::next_postcondition;

    let mut chars = path.as_str().chars();
    let first = chars.next();
    match first {
        Some(c) if c == '/' => path.clone(),
        _ => {
            let mut r = base.clone();
            r.append("/");
            r.append(path.as_str());
            r
        },
    }
}

/// The index of the last `/` of a path, or -1 when it has none.
pub open spec fn last_slash(path: Seq<char>) -> int
    decreases path.len(),
{
    if path.len() == 0 {
        -1
    } else if path.last() == '/' {
        path.len() - 1
    } else {
        last_slash(path.drop_last())
    }
}

/// The directory that holds a file: everything before the last `/`, the root for a
/// file at the root, and `.` for a bare file name.
pub open spec fn parent_of(path: Seq<char>) -> Seq<char> {
    let i = last_slash(path);
    if i < 0 {
        "."@
    } else if i == 0 {
        "/"@
    } else {
        path.subrange(0, i)
    }
}

/// The directory that holds the file at `path`, against which the relative paths of the
/// document in that file resolve.
pub fn parent_directory(path: &String) -> (r: String)
    ensures
        r@ == parent_of(path@),
{
    let s = path.as_str();
    let n = s.unicode_len();
    let mut i: usize = n;
    assert(path@.subrange(0, n as int) =~= path@);
    while i > 0 && s.get_char(i - 1) != '/'
        invariant
            i <= n,
            n == s@.len(),
            s@ == path@,
            last_slash(path@) == last_slash(path@.subrange(0, i as int)),
        decreases i,
    {
        assert(path@.subrange(0, i as int).drop_last() =~= path@.subrange(0, i - 1));
        i = i - 1;
    }
    proof {
        reveal_strlit(".");
        reveal_strlit("/");
        if i > 0 {
            assert(path@.subrange(0, i as int).last() == '/');
        }
    }
    if i == 0 {
        ".".to_owned()
    } else if i == 1 {
        "/".to_owned()
    } else {
        s.substring_char(0, i - 1).to_owned()
    }
}

/// A file named without any `/` sits in the directory it is resolved against.
pub proof fn lemma_parent_of_joined(base: Seq<char>, name: Seq<char>)
    requires
        base.len() > 0,
        !is_absolute(name),
        forall|k: int| 0 <= k < name.len() ==> name[k] != '/',
    ensures
        parent_of(joined(base, name)) == base,
{
    reveal_strlit("/");
    lemma_last_slash_append(base + "/"@, name);
    let j = base + "/"@ + name;
    assert(("/"@).len() == 1 && ("/"@)[0] == '/');
    assert(last_slash(base + "/"@) == base.len()) by {
        assert((base + "/"@).drop_last() =~= base);
        assert((base + "/"@).last() == '/');
    }
    assert(j.subrange(0, base.len() as int) =~= base);
}

/// Appending text without a `/` keeps the last `/` where it was.
pub proof fn lemma_last_slash_append(p: Seq<char>, tail: Seq<char>)
    requires
        forall|k: int| 0 <= k < tail.len() ==> tail[k] != '/',
    ensures
        last_slash(p + tail) == last_slash(p),
    decreases tail.len(),
{
    if tail.len() > 0 {
        assert((p + tail).drop_last() =~= p + tail.drop_last());
        assert((p + tail).last() == tail.last());
        lemma_last_slash_append(p, tail.drop_last());
    } else {
        assert(p + tail =~= p);
    }
}

/// A relative path inside a nested document resolves inside the directory of the
/// nested document's own file. That directory depends on the outer directory only
/// through the nested file's path: not at all when that path is absolute, and it is
/// the outer directory itself for a file named next to the outer document. Applied to
/// the nested directory in turn, this covers any depth of nesting; the outer document's
/// own paths keep resolving against its own directory, which nothing changes.
pub proof fn lemma_nested_resolution(outer: Seq<char>, nested: Seq<char>, path: Seq<char>)
    requires
        !is_absolute(path),
    ensures
        joined(parent_of(joined(outer, nested)), path) == parent_of(joined(outer, nested)) + "/"@
            + path,
        is_absolute(nested) ==> parent_of(joined(outer, nested)) == parent_of(nested),
        outer.len() > 0 && !is_absolute(nested) && (forall|k: int|
            0 <= k < nested.len() ==> nested[k] != '/') ==> parent_of(joined(outer, nested))
            == outer,
{
    if outer.len() > 0 && !is_absolute(nested) && (forall|k: int|
        0 <= k < nested.len() ==> nested[k] != '/') {
        lemma_parent_of_joined(outer, nested);
    }
}

/// A column data type, written by its engine name (for example `"String"` or `"UInt64"`).
#[derive(Debug, Clone, PartialEq)]
pub struct DataType(pub String);

impl DataType {
    /// An equal copy of the data type.
    pub fn copy(&self) -> (r: DataType)
        ensures
            r == *self,
    {
        DataType(self.0.clone())
    }
}

/// An equal copy of an optional string.
pub fn copy_opt_string(s: &Option<String>) -> (r: Option<String>)
    ensures
        r == *s,
{
    match s {
        Some(v) => Some(v.clone()),
        None => None,
    }
}

/// A path that has been canonicalized: absolute, and known to exist when it was made.
#[derive(Debug, Clone)]
pub struct CanonicalPath(pub String);

impl CanonicalPath {
    /// The path.
    pub fn as_path(&self) -> (r: &String)
        ensures
            *r == self.0,
    {
        &self.0
    }
}

/// One or more canonical paths, the expansion of a glob pattern.
#[derive(Debug, Clone)]
pub struct CanonicalPaths(pub Vec<String>);

impl CanonicalPaths {
    /// The paths, in order.
    pub fn paths(&self) -> (r: &Vec<String>)
        ensures
            *r == self.0,
    {
        &self.0
    }
}

/// A canonical path to a file.
#[derive(Debug, Clone)]
pub struct CanonicalPathBuf(pub String);

impl CanonicalPathBuf {
    /// The path.
    pub fn as_path(&self) -> (r: &String)
        ensures
            *r == self.0,
    {
        &self.0
    }
}

/// A canonical path to a directory.
#[derive(Debug, Clone)]
pub struct CanonicalDirectory(pub String);

impl CanonicalDirectory {
    /// The path.
    pub fn as_path(&self) -> (r: &String)
        ensures
            *r == self.0,
    {
        &self.0
    }
}

} // verus!
