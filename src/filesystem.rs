use vstd::prelude::*;
use crate::error::Error;

verus! {

/// `name` under `base`, as a path join does it: an absolute `name` replaces
/// `base`, and a separator is added only where `base` does not already end in one.
pub open spec fn join(base: Seq<char>, name: Seq<char>) -> Seq<char> {
    if name.len() > 0 && name[0] == '/' {
        name
    } else if base.len() == 0 || base.last() == '/' {
        base + name
    } else {
        base + seq!['/'] + name
    }
}

pub open spec fn pictures_dir(root: Seq<char>) -> Seq<char> {
    join(root, "pictures"@)
}

pub open spec fn thumbnails_dir(root: Seq<char>) -> Seq<char> {
    join(root, "thumbnails"@)
}

pub open spec fn collections_dir(root: Seq<char>) -> Seq<char> {
    join(root, "collections"@)
}

pub open spec fn database_file(root: Seq<char>) -> Seq<char> {
    join(root, "database.db"@)
}

/// The directory of the collection named `c`.
pub open spec fn collection_dir(root: Seq<char>, c: Seq<char>) -> Seq<char> {
    join(collections_dir(root), c)
}

/// The directory of the album named `a` in the collection named `c`.
pub open spec fn album_dir(root: Seq<char>, c: Seq<char>, a: Seq<char>) -> Seq<char> {
    join(collection_dir(root, c), a)
}

/// The canonical copy of the photo stored as `n`.
pub open spec fn picture_file(root: Seq<char>, n: Seq<char>) -> Seq<char> {
    join(pictures_dir(root), n)
}

pub open spec fn thumbnail_file(root: Seq<char>, n: Seq<char>) -> Seq<char> {
    join(thumbnails_dir(root), n)
}

/// The link to the photo stored as `n` inside the album `a` of collection `c`.
pub open spec fn album_link_file(root: Seq<char>, c: Seq<char>, a: Seq<char>, n: Seq<char>) -> Seq<
    char,
> {
    join(album_dir(root, c, a), n)
}

/// Joins `name` under `base`.
pub fn join_path(base: &str, name: &str) -> (r: String)
    ensures
        r@ == join(base@, name@),
{
    let nl = name.unicode_len();
    if nl > 0 && name.get_char(0) == '/' {
        return String::from_str(name);
    }
    let bl = base.unicode_len();
    let mut out = String::from_str(base);
    if bl > 0 && base.get_char(bl - 1) != '/' {
        proof {
            reveal_strlit("/");
        }
        out.append("/");
    }
    out.append(name);
    proof {
        if bl > 0 && base@.last() != '/' {
            assert(out@ =~= base@ + seq!['/'] + name@);
        } else {
            assert(out@ =~= base@ + name@);
        }
    }
    out
}

/// The directory layout of one library on disk. Every path is derived from
/// the library's root.
#[derive(Debug)]
pub struct Filesystem {
    root_path: String,
}

impl View for Filesystem {
    type V = Seq<char>;

    /// The root of the library.
    closed spec fn view(&self) -> Seq<char> {
        self.root_path@
    }
}

impl Filesystem {
    /// The layout of the library rooted at `path`.
    pub fn new(path: &str) -> (r: Result<Self, Error>)
        ensures
            r matches Ok(fs) && fs@ == path@,
    {
        Ok(Filesystem { root_path: String::from_str(path) })
    }

    /// Returns the path of the library folder.
    pub fn root_path(&self) -> (r: String)
        ensures
            r@ == self@,
    {
        self.root_path.clone()
    }

    /// Returns the path of the canonical photo copies.
    pub fn pictures_path(&self) -> (r: String)
        ensures
            r@ == pictures_dir(self@),
    {
        join_path(self.root_path.as_str(), "pictures")
    }

    /// Returns the path of the thumbnails.
    pub fn thumbnails_path(&self) -> (r: String)
        ensures
            r@ == thumbnails_dir(self@),
    {
        join_path(self.root_path.as_str(), "thumbnails")
    }

    /// Returns the path under which each collection has its directory.
    pub fn collections_path(&self) -> (r: String)
        ensures
            r@ == collections_dir(self@),
    {
        join_path(self.root_path.as_str(), "collections")
    }

    /// Returns the path of the relational store's file.
    pub fn database_path(&self) -> (r: String)
        ensures
            r@ == database_file(self@),
    {
        join_path(self.root_path.as_str(), "database.db")
    }

    pub fn collection_path(&self, c: &str) -> (r: String)
        ensures
            r@ == collection_dir(self@, c@),
    {
        let base = self.collections_path();
        join_path(base.as_str(), c)
    }

    pub fn album_path(&self, c: &str, a: &str) -> (r: String)
        ensures
            r@ == album_dir(self@, c@, a@),
    {
        let base = self.collection_path(c);
        join_path(base.as_str(), a)
    }

    pub fn picture_path(&self, n: &str) -> (r: String)
        ensures
            r@ == picture_file(self@, n@),
    {
        let base = self.pictures_path();
        join_path(base.as_str(), n)
    }

    pub fn thumbnail_path(&self, n: &str) -> (r: String)
        ensures
            r@ == thumbnail_file(self@, n@),
    {
        let base = self.thumbnails_path();
        join_path(base.as_str(), n)
    }

    pub fn album_link_path(&self, c: &str, a: &str, n: &str) -> (r: String)
        ensures
            r@ == album_link_file(self@, c@, a@, n@),
    {
        let base = self.album_path(c, a);
        join_path(base.as_str(), n)
    }
}

/// A directory of the library, named by its path.
pub struct Directory {
    path: String,
}

impl View for Directory {
    type V = Seq<char>;

    closed spec fn view(&self) -> Seq<char> {
        self.path@
    }
}

impl Directory {
    pub fn from(path: &str) -> (r: Result<Self, Error>)
        ensures
            r matches Ok(d) && d@ == path@,
    {
        Ok(Directory { path: String::from_str(path) })
    }

    pub fn path(&self) -> (r: String)
        ensures
            r@ == self@,
    {
        self.path.clone()
    }
}

} // verus!
