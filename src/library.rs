use vstd::prelude::*;
use crate::capability::{ElementDatabase, ElementFilesystem};
use crate::element::{Album, AlbumRec, Collection, CollectionRec, Photo, PhotoRec};
use crate::error::{Error, OsplError};
use crate::filesystem::{
    Filesystem, collection_dir, album_dir, picture_file, thumbnail_file, album_link_file,
    pictures_dir, thumbnails_dir, collections_dir,
};
use crate::store::{Step, StepV, steps_view, lemma_steps_view_push, lemma_steps_view_add};

verus! {

/// The steps of an operation, or the error that stopped it before any step.
pub open spec fn plan_view(r: Result<Vec<Step>, OsplError>) -> Result<Seq<StepV>, OsplError> {
    match r {
        Ok(v) => Ok(steps_view(v@)),
        Err(e) => Err(e),
    }
}

pub open spec fn empty_name() -> OsplError {
    OsplError::InternalError(Error::EmptyName)
}

/// Creating the library: its root, then the thumbnails, pictures and
/// collections directories.
pub open spec fn creation_plan(root: Seq<char>) -> Seq<StepV> {
    seq![
        StepV::CreateDir { path: root },
        StepV::CreateDir { path: thumbnails_dir(root) },
        StepV::CreateDir { path: pictures_dir(root) },
        StepV::CreateDir { path: collections_dir(root) },
    ]
}

/// Creating a collection: insert its row, then create its directory.
pub open spec fn create_collection_plan(root: Seq<char>, c: CollectionRec) -> Result<
    Seq<StepV>,
    OsplError,
> {
    if c.name.len() == 0 {
        Err(empty_name())
    } else {
        Ok(
            seq![
                StepV::InsertCollection { name: c.name, comment: c.comment },
                StepV::CreateDir { path: collection_dir(root, c.name) },
            ],
        )
    }
}

/// Renaming a collection: its directory first, then its row.
pub open spec fn rename_collection_plan(root: Seq<char>, c: CollectionRec, n: Seq<char>) -> Result<
    Seq<StepV>,
    OsplError,
> {
    if n.len() == 0 {
        Err(empty_name())
    } else {
        Ok(
            seq![
                StepV::RenamePath { from: collection_dir(root, c.name), to: collection_dir(root, n) },
                StepV::RenameCollectionRow { id: c.id, name: n },
            ],
        )
    }
}

/// Deleting a collection: its directory tree first, then its row with its albums'.
pub open spec fn delete_collection_plan(root: Seq<char>, c: CollectionRec) -> Seq<StepV> {
    seq![
        StepV::RemoveTree { path: collection_dir(root, c.name) },
        StepV::DeleteCollectionRow { id: c.id },
    ]
}

/// Creating an album: insert its row, then create its directory.
pub open spec fn create_album_plan(root: Seq<char>, a: AlbumRec) -> Result<Seq<StepV>, OsplError> {
    if a.name.len() == 0 {
        Err(empty_name())
    } else {
        Ok(
            seq![
                StepV::InsertAlbum { name: a.name, comment: a.comment, collection: a.collection.id },
                StepV::CreateDir { path: album_dir(root, a.collection.name, a.name) },
            ],
        )
    }
}

/// Renaming an album: its directory first, then its row.
pub open spec fn rename_album_plan(root: Seq<char>, a: AlbumRec, n: Seq<char>) -> Result<
    Seq<StepV>,
    OsplError,
> {
    if n.len() == 0 {
        Err(empty_name())
    } else {
        Ok(
            seq![
                StepV::RenamePath {
                    from: album_dir(root, a.collection.name, a.name),
                    to: album_dir(root, a.collection.name, n),
                },
                StepV::RenameAlbumRow { id: a.id, name: n },
            ],
        )
    }
}

/// Moving an album to collection `to`: its directory first, then its owner.
pub open spec fn move_album_plan(root: Seq<char>, a: AlbumRec, to: CollectionRec) -> Seq<StepV> {
    seq![
        StepV::RenamePath {
            from: album_dir(root, a.collection.name, a.name),
            to: album_dir(root, to.name, a.name),
        },
        StepV::MoveAlbumRow { album: a.id, collection: to.id },
    ]
}

/// Deleting an album: its directory tree first, then its row.
pub open spec fn delete_album_plan(root: Seq<char>, a: AlbumRec) -> Seq<StepV> {
    seq![
        StepV::RemoveTree { path: album_dir(root, a.collection.name, a.name) },
        StepV::DeleteAlbumRow { id: a.id },
    ]
}

/// Importing a prepared photo: insert its row, copy it into the library, then
/// write its thumbnail.
pub open spec fn import_photo_plan(root: Seq<char>, p: PhotoRec) -> Seq<StepV> {
    seq![
        StepV::InsertPhoto { filename: p.filename, hash: p.hash, imported: p.imported.unwrap() },
        StepV::CopyFile { from: p.source, to: picture_file(root, p.stored_name()) },
        StepV::MakeThumbnail { from: p.source, to: thumbnail_file(root, p.stored_name()) },
    ]
}

/// The link of photo `p` in album `a`.
pub open spec fn link_of(root: Seq<char>, p: PhotoRec, a: AlbumRec) -> Seq<char> {
    album_link_file(root, a.collection.name, a.name, p.stored_name())
}

/// Deleting a photo held by `albums`: its link in each of them, its canonical
/// copy, its thumbnail, then its row with its containment edges.
pub open spec fn delete_photo_plan(root: Seq<char>, p: PhotoRec, albums: Seq<AlbumRec>) -> Seq<
    StepV,
> {
    albums.map_values(|a: AlbumRec| StepV::RemoveFile { path: link_of(root, p, a) }) + seq![
        StepV::RemoveFile { path: picture_file(root, p.stored_name()) },
        StepV::RemoveFile { path: thumbnail_file(root, p.stored_name()) },
        StepV::DeletePhotoRow { id: p.id },
    ]
}

/// Putting photo `p` into album `a`: record the edge unless it is recorded,
/// then link the photo unless the link exists.
pub open spec fn assign_plan(
    root: Seq<char>,
    p: PhotoRec,
    a: AlbumRec,
    edge_recorded: bool,
    link_exists: bool,
) -> Seq<StepV> {
    let edge = if edge_recorded {
        Seq::empty()
    } else {
        seq![StepV::InsertEdge { album: a.id, photo: p.id }]
    };
    let link = if link_exists {
        Seq::empty()
    } else {
        seq![StepV::HardLink { from: picture_file(root, p.stored_name()), to: link_of(root, p, a) }]
    };
    edge + link
}

/// Refuses a blank name, before any lookup or step.
pub fn require_name(name: &str) -> (r: Result<(), OsplError>)
    ensures
        r is Err <==> name@.len() == 0,
        r is Err ==> r == Err::<(), OsplError>(empty_name()),
{
    if name.unicode_len() == 0 {
        Err(OsplError::InternalError(Error::EmptyName))
    } else {
        Ok(())
    }
}

/// One photo library, by the place of its root on disk. Each operation is
/// planned here as the ordered steps on the two stores; every check that can
/// reject the operation is made before the first step.
#[derive(Debug)]
pub struct Library {
    fs: Filesystem,
}

impl View for Library {
    type V = Seq<char>;

    closed spec fn view(&self) -> Seq<char> {
        self.fs@
    }
}

impl Library {
    /// The library rooted at `path`.
    pub fn load(path: &str) -> (r: Result<Self, OsplError>)
        ensures
            r matches Ok(l) && l@ == path@,
    {
        match Filesystem::new(path) {
            Ok(fs) => Ok(Library { fs }),
            Err(e) => Err(OsplError::InternalError(e)),
        }
    }

    /// Returns the path of the library on disk.
    pub fn get_path(&self) -> (r: String)
        ensures
            r@ == self@,
    {
        self.fs.root_path()
    }

    pub fn filesystem(&self) -> (r: &Filesystem)
        ensures
            r@ == self@,
    {
        &self.fs
    }

    /// The directories that make a new library.
    pub fn creation_steps(&self) -> (r: Vec<Step>)
        ensures
            steps_view(r@) == creation_plan(self@),
    {
        let mut v: Vec<Step> = Vec::new();
        v.push(Step::CreateDir { path: self.fs.root_path() });
        v.push(Step::CreateDir { path: self.fs.thumbnails_path() });
        v.push(Step::CreateDir { path: self.fs.pictures_path() });
        v.push(Step::CreateDir { path: self.fs.collections_path() });
        assert(steps_view(v@) =~= creation_plan(self@));
        v
    }

    /// Creating the unbound collection `draft`.
    pub fn create_collection_steps(&self, draft: &Collection) -> (r: Result<Vec<Step>, OsplError>)
        ensures
            plan_view(r) == create_collection_plan(self@, draft@),
    {
        let name = draft.name();
        if name.unicode_len() == 0 {
            return Err(OsplError::InternalError(Error::EmptyName));
        }
        let mut v: Vec<Step> = Vec::new();
        if let Some(s) = ElementDatabase::insert_into(draft) {
            v.push(s);
        }
        if let Some(s) = ElementFilesystem::insert_into(draft, &self.fs) {
            v.push(s);
        }
        assert(steps_view(v@) =~= create_collection_plan(self@, draft@)->Ok_0);
        Ok(v)
    }

    /// Renaming the collection `c` to `new_name`.
    pub fn rename_collection_steps(&self, c: &Collection, new_name: &str) -> (r: Result<
        Vec<Step>,
        OsplError,
    >)
        ensures
            plan_view(r) == rename_collection_plan(self@, c@, new_name@),
    {
        if new_name.unicode_len() == 0 {
            return Err(OsplError::InternalError(Error::EmptyName));
        }
        let mut v: Vec<Step> = Vec::new();
        if let Some(s) = ElementFilesystem::rename(c, &self.fs, new_name) {
            v.push(s);
        }
        if let Some(s) = ElementDatabase::rename(c, new_name) {
            v.push(s);
        }
        assert(steps_view(v@) =~= rename_collection_plan(self@, c@, new_name@)->Ok_0);
        Ok(v)
    }

    /// Deleting the collection `c`.
    pub fn delete_collection_steps(&self, c: &Collection) -> (r: Vec<Step>)
        ensures
            steps_view(r@) == delete_collection_plan(self@, c@),
    {
        let mut v = ElementFilesystem::remove_from(c, &self.fs);
        let row = ElementDatabase::delete(c);
        proof {
            lemma_steps_view_push(v@, row);
        }
        v.push(row);
        assert(steps_view(v@) =~= delete_collection_plan(self@, c@));
        v
    }

    /// Creating the unbound album `draft` in its collection.
    pub fn create_album_steps(&self, draft: &Album) -> (r: Result<Vec<Step>, OsplError>)
        ensures
            plan_view(r) == create_album_plan(self@, draft@),
    {
        let name = draft.name();
        if name.unicode_len() == 0 {
            return Err(OsplError::InternalError(Error::EmptyName));
        }
        let mut v: Vec<Step> = Vec::new();
        if let Some(s) = ElementDatabase::insert_into(draft) {
            v.push(s);
        }
        if let Some(s) = ElementFilesystem::insert_into(draft, &self.fs) {
            v.push(s);
        }
        assert(steps_view(v@) =~= create_album_plan(self@, draft@)->Ok_0);
        Ok(v)
    }

    /// Renaming the album `a` to `new_name`.
    pub fn rename_album_steps(&self, a: &Album, new_name: &str) -> (r: Result<
        Vec<Step>,
        OsplError,
    >)
        ensures
            plan_view(r) == rename_album_plan(self@, a@, new_name@),
    {
        if new_name.unicode_len() == 0 {
            return Err(OsplError::InternalError(Error::EmptyName));
        }
        let mut v: Vec<Step> = Vec::new();
        if let Some(s) = ElementFilesystem::rename(a, &self.fs, new_name) {
            v.push(s);
        }
        if let Some(s) = ElementDatabase::rename(a, new_name) {
            v.push(s);
        }
        assert(steps_view(v@) =~= rename_album_plan(self@, a@, new_name@)->Ok_0);
        Ok(v)
    }

    /// Moving the album `a` into the collection `to`.
    pub fn move_album_steps(&self, a: &Album, to: &Collection) -> (r: Vec<Step>)
        ensures
            steps_view(r@) == move_album_plan(self@, a@, to@),
    {
        let mut v: Vec<Step> = Vec::new();
        v.push(a.move_to(&self.fs, to));
        v.push(a.assign_to(to));
        assert(steps_view(v@) =~= move_album_plan(self@, a@, to@));
        v
    }

    /// Deleting the album `a`.
    pub fn delete_album_steps(&self, a: &Album) -> (r: Vec<Step>)
        ensures
            steps_view(r@) == delete_album_plan(self@, a@),
    {
        let mut v = ElementFilesystem::remove_from(a, &self.fs);
        let row = ElementDatabase::delete(a);
        proof {
            lemma_steps_view_push(v@, row);
        }
        v.push(row);
        assert(steps_view(v@) =~= delete_album_plan(self@, a@));
        v
    }

    /// Importing the photo `p`, prepared from its file.
    pub fn import_photo_steps(&self, p: &Photo) -> (r: Vec<Step>)
        requires
            p@.imported is Some,
        ensures
            steps_view(r@) == import_photo_plan(self@, p@),
    {
        let mut v: Vec<Step> = Vec::new();
        if let Some(s) = ElementDatabase::insert_into(p) {
            v.push(s);
        }
        if let Some(s) = ElementFilesystem::insert_into(p, &self.fs) {
            v.push(s);
        }
        v.push(p.thumbnail_step(&self.fs));
        assert(steps_view(v@) =~= import_photo_plan(self@, p@));
        v
    }

    /// Deleting the photo `p`, which the albums `albums` contain.
    pub fn delete_photo_steps(&self, p: &Photo, albums: &Vec<Album>) -> (r: Vec<Step>)
        requires
            p@.imported is Some,
        ensures
            steps_view(r@) == delete_photo_plan(
                self@,
                p@,
                albums@.map_values(|a: Album| a@),
            ),
    {
        let ghost root = self@;
        let ghost recs = albums@.map_values(|a: Album| a@);
        let ghost links = recs.map_values(
            |a: AlbumRec| StepV::RemoveFile { path: link_of(root, p@, a) },
        );
        let n = p.get_filename();
        let mut v: Vec<Step> = Vec::new();
        let mut i: usize = 0;
        while i < albums.len()
            invariant
                i <= albums@.len(),
                root == self@,
                recs == albums@.map_values(|a: Album| a@),
                links == recs.map_values(
                    |a: AlbumRec| StepV::RemoveFile { path: link_of(root, p@, a) },
                ),
                n@ == p@.stored_name(),
                steps_view(v@) =~= links.take(i as int),
            decreases albums@.len() - i,
        {
            let a = &albums[i];
            let c = a.collection();
            let cname = c.name();
            let aname = a.name();
            let link = self.fs.album_link_path(cname.as_str(), aname.as_str(), n.as_str());
            v.push(Step::RemoveFile { path: link });
            assert(links.take(i + 1) =~= links.take(i as int).push(links[i as int]));
            i = i + 1;
        }
        assert(links.take(albums@.len() as int) =~= links);
        let mut files = ElementFilesystem::remove_from(p, &self.fs);
        proof {
            lemma_steps_view_add(v@, files@);
        }
        v.append(&mut files);
        let row = ElementDatabase::delete(p);
        proof {
            lemma_steps_view_push(v@, row);
        }
        v.push(row);
        assert(steps_view(v@) =~= delete_photo_plan(self@, p@, recs));
        v
    }

    /// Putting the photo `p` into the album `a`. `edge_recorded` tells whether
    /// the relational store already records the pair, and `link_exists`
    /// whether the photo's link is already in the album's directory; what is
    /// already there is not made again.
    pub fn assign_photo_steps(
        &self,
        p: &Photo,
        a: &Album,
        edge_recorded: bool,
        link_exists: bool,
    ) -> (r: Vec<Step>)
        requires
            p@.imported is Some,
        ensures
            steps_view(r@) == assign_plan(self@, p@, a@, edge_recorded, link_exists),
    {
        let mut v: Vec<Step> = Vec::new();
        if !edge_recorded {
            v.push(a.put(p));
        }
        if !link_exists {
            v.push(a.add(&self.fs, p));
        }
        assert(steps_view(v@) =~= assign_plan(self@, p@, a@, edge_recorded, link_exists));
        v
    }
}

} // verus!
