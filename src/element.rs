use vstd::prelude::*;
use crate::error::{Error, IoKind, OsplError};
use crate::filesystem::{
    Filesystem, collection_dir, album_dir, picture_file, thumbnail_file, album_link_file,
};
use crate::naming::{
    display_name, file_name_of, xxh3_128_of, image_sniff_of, fingerprint, sniff,
    get_filename_from, derive_display_name,
};
use crate::capability::{ElementDatabase, ElementFilesystem};
use crate::store::{Step, StepV, steps_view};
use crate::timestamp::Timestamp;

verus! {

/// What a collection record holds.
pub struct CollectionRec {
    pub id: u32,
    pub name: Seq<char>,
    pub comment: Seq<char>,
    pub created: Option<Timestamp>,
    pub modified: Option<Timestamp>,
}

/// A collection: a named directory of albums. Its id is 0 until the
/// relational store assigns one.
#[derive(Debug)]
pub struct Collection {
    id: u32,
    creation_datetime: Option<Timestamp>,
    modification_datetime: Option<Timestamp>,
    name: String,
    comment: String,
}

impl View for Collection {
    type V = CollectionRec;

    closed spec fn view(&self) -> CollectionRec {
        CollectionRec {
            id: self.id,
            name: self.name@,
            comment: self.comment@,
            created: self.creation_datetime,
            modified: self.modification_datetime,
        }
    }
}

impl Collection {
    /// Returns an empty, unbound collection.
    pub fn new() -> (r: Self)
        ensures
            r@ == (CollectionRec {
                id: 0,
                name: Seq::empty(),
                comment: Seq::empty(),
                created: None,
                modified: None,
            }),
    {
        Collection {
            id: 0,
            creation_datetime: None,
            modification_datetime: None,
            name: String::new(),
            comment: String::new(),
        }
    }

    /// Returns an unbound collection with a name and a comment, created and
    /// modified now.
    pub fn new_with_name(name: &str, comment: &str) -> (r: Self)
        ensures
            r@.id == 0,
            r@.name == name@,
            r@.comment == comment@,
            r@.created == r@.modified,
    {
        let now = Timestamp::now();
        Collection {
            id: 0,
            creation_datetime: now,
            modification_datetime: now,
            name: String::from_str(name),
            comment: String::from_str(comment),
        }
    }

    /// A collection as the relational store holds it.
    pub fn from_row(
        id: u32,
        name: String,
        comment: String,
        created: Option<Timestamp>,
        modified: Option<Timestamp>,
    ) -> (r: Self)
        ensures
            r@ == (CollectionRec { id, name: name@, comment: comment@, created, modified }),
    {
        Collection {
            id,
            creation_datetime: created,
            modification_datetime: modified,
            name,
            comment,
        }
    }

    pub fn set_id(&mut self, id: u32)
        ensures
            final(self)@ == (CollectionRec { id, ..old(self)@ }),
    {
        self.id = id;
    }

    pub fn id(&self) -> (r: u32)
        ensures
            r == self@.id,
    {
        self.id
    }

    pub fn name(&self) -> (r: String)
        ensures
            r@ == self@.name,
    {
        self.name.clone()
    }

    pub fn comment(&self) -> (r: String)
        ensures
            r@ == self@.comment,
    {
        self.comment.clone()
    }

    pub fn creation_datetime(&self) -> (r: Option<Timestamp>)
        ensures
            r == self@.created,
    {
        self.creation_datetime
    }

    pub fn modification_datetime(&self) -> (r: Option<Timestamp>)
        ensures
            r == self@.modified,
    {
        self.modification_datetime
    }

}

/// What an album record holds, with its owning collection.
pub struct AlbumRec {
    pub id: u32,
    pub name: Seq<char>,
    pub comment: Seq<char>,
    pub created: Option<Timestamp>,
    pub modified: Option<Timestamp>,
    pub collection: CollectionRec,
}

/// An album: a named directory inside one collection, holding links to photos.
#[derive(Debug)]
pub struct Album {
    id: u32,
    creation_datetime: Option<Timestamp>,
    modification_datetime: Option<Timestamp>,
    name: String,
    comment: String,
    collection: Collection,
}

impl View for Album {
    type V = AlbumRec;

    closed spec fn view(&self) -> AlbumRec {
        AlbumRec {
            id: self.id,
            name: self.name@,
            comment: self.comment@,
            created: self.creation_datetime,
            modified: self.modification_datetime,
            collection: self.collection@,
        }
    }
}

impl Album {
    /// Returns an empty, unbound album.
    pub fn new() -> (r: Self)
        ensures
            r@.id == 0,
            r@.name == Seq::<char>::empty(),
            r@.comment == Seq::<char>::empty(),
            r@.created is None,
            r@.modified is None,
            r@.collection == (CollectionRec {
                id: 0,
                name: Seq::empty(),
                comment: Seq::empty(),
                created: None,
                modified: None,
            }),
    {
        Album {
            id: 0,
            creation_datetime: None,
            modification_datetime: None,
            name: String::new(),
            comment: String::new(),
            collection: Collection::new(),
        }
    }

    /// Returns an unbound album of `collection`, created and modified now.
    pub fn new_with_name(name: &str, comment: &str, collection: Collection) -> (r: Self)
        ensures
            r@.id == 0,
            r@.name == name@,
            r@.comment == comment@,
            r@.created == r@.modified,
            r@.collection == collection@,
    {
        let now = Timestamp::now();
        Album {
            id: 0,
            creation_datetime: now,
            modification_datetime: now,
            name: String::from_str(name),
            comment: String::from_str(comment),
            collection,
        }
    }

    /// An album as the relational store holds it, with its loaded collection.
    pub fn from_row(
        id: u32,
        name: String,
        comment: String,
        created: Option<Timestamp>,
        modified: Option<Timestamp>,
        collection: Collection,
    ) -> (r: Self)
        ensures
            r@ == (AlbumRec {
                id,
                name: name@,
                comment: comment@,
                created,
                modified,
                collection: collection@,
            }),
    {
        Album {
            id,
            creation_datetime: created,
            modification_datetime: modified,
            name,
            comment,
            collection,
        }
    }

    pub fn set_id(&mut self, id: u32)
        ensures
            final(self)@ == (AlbumRec { id, ..old(self)@ }),
    {
        self.id = id;
    }

    pub fn id(&self) -> (r: u32)
        ensures
            r == self@.id,
    {
        self.id
    }

    pub fn name(&self) -> (r: String)
        ensures
            r@ == self@.name,
    {
        self.name.clone()
    }

    pub fn comment(&self) -> (r: String)
        ensures
            r@ == self@.comment,
    {
        self.comment.clone()
    }

    pub fn collection_id(&self) -> (r: u32)
        ensures
            r == self@.collection.id,
    {
        self.collection.id()
    }

    pub fn collection(&self) -> (r: &Collection)
        ensures
            r@ == self@.collection,
    {
        &self.collection
    }

    pub fn creation_datetime(&self) -> (r: Option<Timestamp>)
        ensures
            r == self@.created,
    {
        self.creation_datetime
    }

    pub fn modification_datetime(&self) -> (r: Option<Timestamp>)
        ensures
            r == self@.modified,
    {
        self.modification_datetime
    }

    /// Moves the album's directory from its collection's into `collection`'s.
    pub fn move_to(&self, fs: &Filesystem, collection: &Collection) -> (r: Step)
        ensures
            r@ == (StepV::RenamePath {
                from: album_dir(fs@, self@.collection.name, self@.name),
                to: album_dir(fs@, collection@.name, self@.name),
            }),
    {
        Step::RenamePath {
            from: fs.album_path(self.collection.name.as_str(), self.name.as_str()),
            to: fs.album_path(collection.name.as_str(), self.name.as_str()),
        }
    }

    /// Makes `collection` the album's owner in the relational store.
    pub fn assign_to(&self, collection: &Collection) -> (r: Step)
        ensures
            r@ == (StepV::MoveAlbumRow { album: self@.id, collection: collection@.id }),
    {
        Step::MoveAlbumRow { album: self.id, collection: collection.id() }
    }

    /// Records in the relational store that the album contains `photo`; a
    /// pair already recorded stays recorded once.
    pub fn put(&self, photo: &Photo) -> (r: Step)
        ensures
            r@ == (StepV::InsertEdge { album: self@.id, photo: photo@.id }),
    {
        Step::InsertEdge { album: self.id, photo: photo.id }
    }

    /// Links `photo`'s canonical copy into the album's directory; a link that
    /// exists already is left as it is.
    pub fn add(&self, fs: &Filesystem, photo: &Photo) -> (r: Step)
        requires
            photo@.imported is Some,
        ensures
            r@ == (StepV::HardLink {
                from: picture_file(fs@, photo@.stored_name()),
                to: album_link_file(fs@, self@.collection.name, self@.name, photo@.stored_name()),
            }),
    {
        let n = photo.get_filename();
        Step::HardLink {
            from: fs.picture_path(n.as_str()),
            to: fs.album_link_path(self.collection.name.as_str(), self.name.as_str(), n.as_str()),
        }
    }
}

/// Why a file cannot be imported, checked in this order: a directory, content
/// the sniffer does not know, content of another kind than an image, a path
/// that ends in no file name. `None` where it can be imported.
pub open spec fn import_error(path: Seq<char>, is_dir: bool, content: Seq<u8>) -> Option<OsplError> {
    if is_dir {
        Some(OsplError::InternalError(Error::IsADirectory))
    } else if image_sniff_of(content) is None {
        Some(OsplError::InternalError(Error::NotAnImage))
    } else if image_sniff_of(content) == Some(false) {
        Some(OsplError::IoError(IoKind::Unsupported))
    } else if file_name_of(path) is None {
        Some(OsplError::InternalError(Error::IsADirectory))
    } else {
        None
    }
}

/// What a photo record holds.
pub struct PhotoRec {
    pub id: u32,
    pub filename: Seq<char>,
    pub hash: u128,
    pub imported: Option<Timestamp>,
    pub rating: u32,
    pub starred: bool,
    /// Where the photo is imported from; empty once it is in the library.
    pub source: Seq<char>,
}

impl PhotoRec {
    /// The name the photo is stored under.
    pub open spec fn stored_name(&self) -> Seq<char> {
        display_name(self.imported.unwrap(), self.filename)
    }
}

/// A photo: one canonical copy in the library, linked into any number of albums.
#[derive(Debug)]
pub struct Photo {
    pub id: u32,
    filename: String,
    hash: u128,
    import_datetime: Option<Timestamp>,
    rating: u32,
    starred: bool,
    path_on_fs: String,
}

impl View for Photo {
    type V = PhotoRec;

    closed spec fn view(&self) -> PhotoRec {
        PhotoRec {
            id: self.id,
            filename: self.filename@,
            hash: self.hash,
            imported: self.import_datetime,
            rating: self.rating,
            starred: self.starred,
            source: self.path_on_fs@,
        }
    }
}

impl Photo {
    /// Returns an empty, unbound photo.
    pub fn new() -> (r: Self)
        ensures
            r@ == (PhotoRec {
                id: 0,
                filename: Seq::empty(),
                hash: 0,
                imported: None,
                rating: 0,
                starred: false,
                source: Seq::empty(),
            }),
    {
        Photo {
            id: 0,
            filename: String::new(),
            hash: 0,
            import_datetime: None,
            rating: 0,
            starred: false,
            path_on_fs: String::new(),
        }
    }

    /// A photo as the relational store holds it.
    pub fn from_row(
        id: u32,
        filename: String,
        hash: u128,
        imported: Option<Timestamp>,
        rating: u32,
        starred: bool,
    ) -> (r: Self)
        ensures
            r@ == (PhotoRec {
                id,
                filename: filename@,
                hash,
                imported,
                rating,
                starred,
                source: Seq::empty(),
            }),
    {
        Photo {
            id,
            filename,
            hash,
            import_datetime: imported,
            rating,
            starred,
            path_on_fs: String::new(),
        }
    }

    /// Checks that the file at `photo_path` can be imported, before anything
    /// is read from the clock or changed, and returns its file name.
    fn check_import(photo_path: &str, is_dir: bool, content: &[u8]) -> (r: Result<String, OsplError>)
        ensures
            r matches Err(e) ==> import_error(photo_path@, is_dir, content@) == Some(e),
            r matches Ok(n) ==> import_error(photo_path@, is_dir, content@) is None && file_name_of(
                photo_path@,
            ) == Some(n@),
    {
        if is_dir {
            return Err(OsplError::InternalError(Error::IsADirectory));
        }
        match sniff(content) {
            None => {
                return Err(OsplError::InternalError(Error::NotAnImage));
            },
            Some(false) => {
                return Err(OsplError::IoError(IoKind::Unsupported));
            },
            Some(true) => {},
        }
        match get_filename_from(photo_path) {
            Some(n) => Ok(n),
            None => Err(OsplError::InternalError(Error::IsADirectory)),
        }
    }

    /// Fills an unbound photo from the file at `photo_path`, imported at
    /// `now`. `is_dir` tells whether that path is a directory and `content`
    /// holds the file's bytes. The file must be a recognised image; on any
    /// failure the photo is left as it was.
    pub fn from_file_at(
        &mut self,
        photo_path: &str,
        is_dir: bool,
        content: &[u8],
        now: Timestamp,
    ) -> (r: Result<(), OsplError>)
        ensures
            import_error(photo_path@, is_dir, content@) matches Some(e) ==> r == Err::<
                (),
                OsplError,
            >(e),
            import_error(photo_path@, is_dir, content@) is None ==> r is Ok,
            r is Err ==> final(self)@ == old(self)@,
            r is Ok ==> final(self)@ == (PhotoRec {
                filename: file_name_of(photo_path@).unwrap(),
                hash: xxh3_128_of(content@),
                imported: Some(now),
                source: photo_path@,
                ..old(self)@
            }),
    {
        let filename = match Photo::check_import(photo_path, is_dir, content) {
            Ok(n) => n,
            Err(e) => {
                return Err(e);
            },
        };
        self.filename = filename;
        self.hash = fingerprint(content);
        self.import_datetime = Some(now);
        self.path_on_fs = String::from_str(photo_path);
        Ok(())
    }

    /// `from_file_at` at the current time. The checks come first; where they
    /// pass and the clock cannot be read as a timestamp, it fails with
    /// `Other`. On any failure the photo is left as it was.
    pub fn from_file(&mut self, photo_path: &str, is_dir: bool, content: &[u8]) -> (r: Result<
        (),
        OsplError,
    >)
        ensures
            import_error(photo_path@, is_dir, content@) matches Some(e) ==> r == Err::<
                (),
                OsplError,
            >(e),
            import_error(photo_path@, is_dir, content@) is None ==> r is Ok || r == Err::<
                (),
                OsplError,
            >(OsplError::InternalError(Error::Other)),
            r is Err ==> final(self)@ == old(self)@,
            r is Ok ==> (final(self)@.imported matches Some(t) && t.wf() && final(self)@ == (
            PhotoRec {
                filename: file_name_of(photo_path@).unwrap(),
                hash: xxh3_128_of(content@),
                imported: Some(t),
                source: photo_path@,
                ..old(self)@
            })),
    {
        let filename = match Photo::check_import(photo_path, is_dir, content) {
            Ok(n) => n,
            Err(e) => {
                return Err(e);
            },
        };
        let now = match Timestamp::now() {
            Some(t) => t,
            None => {
                return Err(OsplError::InternalError(Error::Other));
            },
        };
        self.filename = filename;
        self.hash = fingerprint(content);
        self.import_datetime = Some(now);
        self.path_on_fs = String::from_str(photo_path);
        Ok(())
    }

    pub fn id(&self) -> (r: u32)
        ensures
            r == self@.id,
    {
        self.id
    }

    /// The name of the file the photo was imported from.
    pub fn filename(&self) -> (r: String)
        ensures
            r@ == self@.filename,
    {
        self.filename.clone()
    }

    pub fn hash(&self) -> (r: u128)
        ensures
            r == self@.hash,
    {
        self.hash
    }

    pub fn import_datetime(&self) -> (r: Option<Timestamp>)
        ensures
            r == self@.imported,
    {
        self.import_datetime
    }

    pub fn rating(&self) -> (r: u32)
        ensures
            r == self@.rating,
    {
        self.rating
    }

    pub fn starred(&self) -> (r: bool)
        ensures
            r == self@.starred,
    {
        self.starred
    }

    /// The name the photo is stored under: its import time, then the name of its file.
    pub fn get_filename(&self) -> (r: String)
        requires
            self@.imported is Some,
        ensures
            r@ == self@.stored_name(),
    {
        match &self.import_datetime {
            Some(t) => derive_display_name(t, self.filename.as_str()),
            None => String::new(),
        }
    }

    /// Writes the photo's thumbnail, read from where it is imported from.
    pub fn thumbnail_step(&self, fs: &Filesystem) -> (r: Step)
        requires
            self@.imported is Some,
        ensures
            r@ == (StepV::MakeThumbnail {
                from: self@.source,
                to: thumbnail_file(fs@, self@.stored_name()),
            }),
    {
        let n = self.get_filename();
        Step::MakeThumbnail { from: self.path_on_fs.clone(), to: fs.thumbnail_path(n.as_str()) }
    }

}


impl ElementDatabase for Collection {
    open spec fn storable(&self) -> bool {
        true
    }

    open spec fn insert_view(&self) -> StepV {
        StepV::InsertCollection { name: self@.name, comment: self@.comment }
    }

    open spec fn delete_view(&self) -> StepV {
        StepV::DeleteCollectionRow { id: self@.id }
    }

    open spec fn rename_row_view(&self, new_name: Seq<char>) -> Option<StepV> {
        Some(StepV::RenameCollectionRow { id: self@.id, name: new_name })
    }

    fn insert_into(&self) -> (r: Option<Step>) {
        Some(
            Step::InsertCollection {
                name: self.name.clone(),
                comment: self.comment.clone(),
                created: self.creation_datetime,
                modified: self.modification_datetime,
            },
        )
    }

    fn delete(&self) -> (r: Step) {
        Step::DeleteCollectionRow { id: self.id }
    }

    fn rename(&self, new_name: &str) -> (r: Option<Step>) {
        Some(Step::RenameCollectionRow { id: self.id, name: String::from_str(new_name) })
    }
}

impl ElementFilesystem for Collection {
    open spec fn placeable(&self) -> bool {
        true
    }

    /// The collection's directory.
    open spec fn place_view(&self, root: Seq<char>) -> StepV {
        StepV::CreateDir { path: collection_dir(root, self@.name) }
    }

    /// The collection's directory tree, with its albums'.
    open spec fn remove_view(&self, root: Seq<char>) -> Seq<StepV> {
        seq![StepV::RemoveTree { path: collection_dir(root, self@.name) }]
    }

    open spec fn rename_path_view(&self, root: Seq<char>, new_name: Seq<char>) -> Option<StepV> {
        Some(
            StepV::RenamePath {
                from: collection_dir(root, self@.name),
                to: collection_dir(root, new_name),
            },
        )
    }

    fn insert_into(&self, fs: &Filesystem) -> (r: Option<Step>) {
        Some(Step::CreateDir { path: fs.collection_path(self.name.as_str()) })
    }

    fn remove_from(&self, fs: &Filesystem) -> (r: Vec<Step>) {
        let mut v: Vec<Step> = Vec::new();
        v.push(Step::RemoveTree { path: fs.collection_path(self.name.as_str()) });
        assert(steps_view(v@) =~= self.remove_view(fs@));
        v
    }

    fn rename(&self, fs: &Filesystem, new_name: &str) -> (r: Option<Step>) {
        Some(
            Step::RenamePath {
                from: fs.collection_path(self.name.as_str()),
                to: fs.collection_path(new_name),
            },
        )
    }
}

impl ElementDatabase for Album {
    open spec fn storable(&self) -> bool {
        true
    }

    /// The album's row, owned by its collection.
    open spec fn insert_view(&self) -> StepV {
        StepV::InsertAlbum {
            name: self@.name,
            comment: self@.comment,
            collection: self@.collection.id,
        }
    }

    open spec fn delete_view(&self) -> StepV {
        StepV::DeleteAlbumRow { id: self@.id }
    }

    open spec fn rename_row_view(&self, new_name: Seq<char>) -> Option<StepV> {
        Some(StepV::RenameAlbumRow { id: self@.id, name: new_name })
    }

    fn insert_into(&self) -> (r: Option<Step>) {
        Some(
            Step::InsertAlbum {
                name: self.name.clone(),
                comment: self.comment.clone(),
                created: self.creation_datetime,
                modified: self.modification_datetime,
                collection: self.collection.id(),
            },
        )
    }

    fn delete(&self) -> (r: Step) {
        Step::DeleteAlbumRow { id: self.id }
    }

    fn rename(&self, new_name: &str) -> (r: Option<Step>) {
        Some(Step::RenameAlbumRow { id: self.id, name: String::from_str(new_name) })
    }
}

impl ElementFilesystem for Album {
    open spec fn placeable(&self) -> bool {
        true
    }

    /// The album's directory, inside its collection's.
    open spec fn place_view(&self, root: Seq<char>) -> StepV {
        StepV::CreateDir { path: album_dir(root, self@.collection.name, self@.name) }
    }

    open spec fn remove_view(&self, root: Seq<char>) -> Seq<StepV> {
        seq![StepV::RemoveTree { path: album_dir(root, self@.collection.name, self@.name) }]
    }

    open spec fn rename_path_view(&self, root: Seq<char>, new_name: Seq<char>) -> Option<StepV> {
        Some(
            StepV::RenamePath {
                from: album_dir(root, self@.collection.name, self@.name),
                to: album_dir(root, self@.collection.name, new_name),
            },
        )
    }

    fn insert_into(&self, fs: &Filesystem) -> (r: Option<Step>) {
        Some(
            Step::CreateDir {
                path: fs.album_path(self.collection.name.as_str(), self.name.as_str()),
            },
        )
    }

    fn remove_from(&self, fs: &Filesystem) -> (r: Vec<Step>) {
        let mut v: Vec<Step> = Vec::new();
        v.push(
            Step::RemoveTree {
                path: fs.album_path(self.collection.name.as_str(), self.name.as_str()),
            },
        );
        assert(steps_view(v@) =~= self.remove_view(fs@));
        v
    }

    fn rename(&self, fs: &Filesystem, new_name: &str) -> (r: Option<Step>) {
        Some(
            Step::RenamePath {
                from: fs.album_path(self.collection.name.as_str(), self.name.as_str()),
                to: fs.album_path(self.collection.name.as_str(), new_name),
            },
        )
    }
}

impl ElementDatabase for Photo {
    /// A photo's row holds its import time.
    open spec fn storable(&self) -> bool {
        self@.imported is Some
    }

    open spec fn insert_view(&self) -> StepV {
        StepV::InsertPhoto {
            filename: self@.filename,
            hash: self@.hash,
            imported: self@.imported.unwrap(),
        }
    }

    open spec fn delete_view(&self) -> StepV {
        StepV::DeletePhotoRow { id: self@.id }
    }

    /// A photo keeps the name it was stored under.
    open spec fn rename_row_view(&self, new_name: Seq<char>) -> Option<StepV> {
        None
    }

    fn insert_into(&self) -> (r: Option<Step>) {
        match self.import_datetime {
            Some(t) => Some(
                Step::InsertPhoto { filename: self.filename.clone(), hash: self.hash, imported: t },
            ),
            None => None,
        }
    }

    fn delete(&self) -> (r: Step) {
        Step::DeletePhotoRow { id: self.id }
    }

    fn rename(&self, new_name: &str) -> (r: Option<Step>) {
        None
    }
}

impl ElementFilesystem for Photo {
    /// A photo's paths hold its import time.
    open spec fn placeable(&self) -> bool {
        self@.imported is Some
    }

    /// The canonical copy, made from where the photo is imported from.
    open spec fn place_view(&self, root: Seq<char>) -> StepV {
        StepV::CopyFile { from: self@.source, to: picture_file(root, self@.stored_name()) }
    }

    /// The canonical copy, then the thumbnail.
    open spec fn remove_view(&self, root: Seq<char>) -> Seq<StepV> {
        seq![
            StepV::RemoveFile { path: picture_file(root, self@.stored_name()) },
            StepV::RemoveFile { path: thumbnail_file(root, self@.stored_name()) },
        ]
    }

    /// A photo keeps the name it was stored under.
    open spec fn rename_path_view(&self, root: Seq<char>, new_name: Seq<char>) -> Option<StepV> {
        None
    }

    fn insert_into(&self, fs: &Filesystem) -> (r: Option<Step>) {
        if self.import_datetime.is_none() {
            return None;
        }
        let n = self.get_filename();
        Some(Step::CopyFile { from: self.path_on_fs.clone(), to: fs.picture_path(n.as_str()) })
    }

    fn remove_from(&self, fs: &Filesystem) -> (r: Vec<Step>) {
        let mut v: Vec<Step> = Vec::new();
        if self.import_datetime.is_none() {
            return v;
        }
        let n = self.get_filename();
        v.push(Step::RemoveFile { path: fs.picture_path(n.as_str()) });
        v.push(Step::RemoveFile { path: fs.thumbnail_path(n.as_str()) });
        assert(steps_view(v@) =~= self.remove_view(fs@));
        v
    }

    fn rename(&self, fs: &Filesystem, new_name: &str) -> (r: Option<Step>) {
        None
    }
}

} // verus!
