use vstd::prelude::*;
use crate::timestamp::Timestamp;

verus! {

/// One call into one of the two stores. An operation of the library is an
/// ordered list of steps; whoever runs it stops at the first step that fails
/// and reports that step's error, leaving the earlier steps in place.
#[derive(Debug, PartialEq, Eq)]
pub enum Step {
    /// Insert a collection row; the store assigns its id.
    InsertCollection {
        name: String,
        comment: String,
        created: Option<Timestamp>,
        modified: Option<Timestamp>,
    },
    /// Insert an album row owned by `collection`; the store assigns its id.
    InsertAlbum {
        name: String,
        comment: String,
        created: Option<Timestamp>,
        modified: Option<Timestamp>,
        collection: u32,
    },
    /// Insert a photo row; the store assigns its id.
    InsertPhoto { filename: String, hash: u128, imported: Timestamp },
    RenameCollectionRow { id: u32, name: String },
    RenameAlbumRow { id: u32, name: String },
    /// Make `collection` the owner of album `album`.
    MoveAlbumRow { album: u32, collection: u32 },
    /// Delete a collection row, the rows of its albums and their containment edges.
    DeleteCollectionRow { id: u32 },
    /// Delete an album row and its containment edges.
    DeleteAlbumRow { id: u32 },
    /// Delete a photo row and its containment edges.
    DeletePhotoRow { id: u32 },
    /// Record that album `album` contains photo `photo`, unless that is
    /// already recorded.
    InsertEdge { album: u32, photo: u32 },
    CreateDir { path: String },
    /// Rename a file or directory; renaming a path to itself does nothing.
    RenamePath { from: String, to: String },
    /// Remove a directory and everything under it.
    RemoveTree { path: String },
    RemoveFile { path: String },
    CopyFile { from: String, to: String },
    /// Write a thumbnail of the image at `from` to `to`.
    MakeThumbnail { from: String, to: String },
    /// Make `to` a second name of the file at `from`, unless `to` exists.
    HardLink { from: String, to: String },
}

/// The mathematical content of a step.
pub enum StepV {
    InsertCollection { name: Seq<char>, comment: Seq<char> },
    InsertAlbum { name: Seq<char>, comment: Seq<char>, collection: u32 },
    InsertPhoto { filename: Seq<char>, hash: u128, imported: Timestamp },
    RenameCollectionRow { id: u32, name: Seq<char> },
    RenameAlbumRow { id: u32, name: Seq<char> },
    MoveAlbumRow { album: u32, collection: u32 },
    DeleteCollectionRow { id: u32 },
    DeleteAlbumRow { id: u32 },
    DeletePhotoRow { id: u32 },
    InsertEdge { album: u32, photo: u32 },
    CreateDir { path: Seq<char> },
    RenamePath { from: Seq<char>, to: Seq<char> },
    RemoveTree { path: Seq<char> },
    RemoveFile { path: Seq<char> },
    CopyFile { from: Seq<char>, to: Seq<char> },
    MakeThumbnail { from: Seq<char>, to: Seq<char> },
    HardLink { from: Seq<char>, to: Seq<char> },
}

impl View for Step {
    type V = StepV;

    open spec fn view(&self) -> StepV {
        match self {
            Step::InsertCollection { name, comment, .. } => StepV::InsertCollection {
                name: name@,
                comment: comment@,
            },
            Step::InsertAlbum { name, comment, collection, .. } => StepV::InsertAlbum {
                name: name@,
                comment: comment@,
                collection: *collection,
            },
            Step::InsertPhoto { filename, hash, imported } => StepV::InsertPhoto {
                filename: filename@,
                hash: *hash,
                imported: *imported,
            },
            Step::RenameCollectionRow { id, name } => StepV::RenameCollectionRow {
                id: *id,
                name: name@,
            },
            Step::RenameAlbumRow { id, name } => StepV::RenameAlbumRow { id: *id, name: name@ },
            Step::MoveAlbumRow { album, collection } => StepV::MoveAlbumRow {
                album: *album,
                collection: *collection,
            },
            Step::DeleteCollectionRow { id } => StepV::DeleteCollectionRow { id: *id },
            Step::DeleteAlbumRow { id } => StepV::DeleteAlbumRow { id: *id },
            Step::DeletePhotoRow { id } => StepV::DeletePhotoRow { id: *id },
            Step::InsertEdge { album, photo } => StepV::InsertEdge {
                album: *album,
                photo: *photo,
            },
            Step::CreateDir { path } => StepV::CreateDir { path: path@ },
            Step::RenamePath { from, to } => StepV::RenamePath { from: from@, to: to@ },
            Step::RemoveTree { path } => StepV::RemoveTree { path: path@ },
            Step::RemoveFile { path } => StepV::RemoveFile { path: path@ },
            Step::CopyFile { from, to } => StepV::CopyFile { from: from@, to: to@ },
            Step::MakeThumbnail { from, to } => StepV::MakeThumbnail { from: from@, to: to@ },
            Step::HardLink { from, to } => StepV::HardLink { from: from@, to: to@ },
        }
    }
}

/// The views of a list of steps.
pub open spec fn steps_view(v: Seq<Step>) -> Seq<StepV> {
    v.map_values(|s: Step| s@)
}

pub proof fn lemma_steps_view_push(v: Seq<Step>, s: Step)
    ensures
        steps_view(v.push(s)) == steps_view(v).push(s@),
{
    assert(steps_view(v.push(s)) =~= steps_view(v).push(s@));
}

pub proof fn lemma_steps_view_add(a: Seq<Step>, b: Seq<Step>)
    ensures
        steps_view(a + b) == steps_view(a) + steps_view(b),
{
    assert(steps_view(a + b) =~= steps_view(a) + steps_view(b));
}

pub struct CollectionRow {
    pub name: Seq<char>,
    pub comment: Seq<char>,
}

pub struct AlbumRow {
    pub name: Seq<char>,
    pub comment: Seq<char>,
    pub collection: u32,
}

pub struct PhotoRow {
    pub filename: Seq<char>,
    pub hash: u128,
    pub imported: Timestamp,
}

/// Both stores of one library: the relational rows, each table with the id it
/// assigns next, the containment edges in insertion order, and the paths that
/// exist on disk.
pub struct World {
    pub next_collection: u32,
    pub next_album: u32,
    pub next_photo: u32,
    pub collections: Map<u32, CollectionRow>,
    pub albums: Map<u32, AlbumRow>,
    pub photos: Map<u32, PhotoRow>,
    pub edges: Seq<(u32, u32)>,
    pub paths: Set<Seq<char>>,
}

/// `q` lies strictly inside the directory `p`.
pub open spec fn is_under(q: Seq<char>, p: Seq<char>) -> bool {
    q.len() > p.len() && q.subrange(0, p.len() as int) == p && q[p.len() as int] == '/'
}

/// `q` is `p` or lies inside it.
pub open spec fn is_within(q: Seq<char>, p: Seq<char>) -> bool {
    q == p || is_under(q, p)
}

/// Where `q` ends up when `from` is renamed to `to`.
pub open spec fn renamed(q: Seq<char>, from: Seq<char>, to: Seq<char>) -> Seq<char> {
    if is_within(q, from) {
        to + q.subrange(from.len() as int, q.len() as int)
    } else {
        q
    }
}

/// The number of times album `a` is recorded as containing photo `p`.
pub open spec fn edge_count(edges: Seq<(u32, u32)>, a: u32, p: u32) -> nat {
    edges.filter(|e: (u32, u32)| e == (a, p)).len()
}

/// What a step does to the stores when it succeeds.
pub open spec fn apply(w: World, s: StepV) -> World {
    match s {
        StepV::InsertCollection { name, comment } => World {
            collections: w.collections.insert(
                w.next_collection,
                CollectionRow { name, comment },
            ),
            next_collection: (w.next_collection + 1) as u32,
            ..w
        },
        StepV::InsertAlbum { name, comment, collection } => World {
            albums: w.albums.insert(w.next_album, AlbumRow { name, comment, collection }),
            next_album: (w.next_album + 1) as u32,
            ..w
        },
        StepV::InsertPhoto { filename, hash, imported } => World {
            photos: w.photos.insert(w.next_photo, PhotoRow { filename, hash, imported }),
            next_photo: (w.next_photo + 1) as u32,
            ..w
        },
        StepV::RenameCollectionRow { id, name } => if w.collections.contains_key(id) {
            World {
                collections: w.collections.insert(
                    id,
                    CollectionRow { name, ..w.collections[id] },
                ),
                ..w
            }
        } else {
            w
        },
        StepV::RenameAlbumRow { id, name } => if w.albums.contains_key(id) {
            World { albums: w.albums.insert(id, AlbumRow { name, ..w.albums[id] }), ..w }
        } else {
            w
        },
        StepV::MoveAlbumRow { album, collection } => if w.albums.contains_key(album) {
            World {
                albums: w.albums.insert(album, AlbumRow { collection, ..w.albums[album] }),
                ..w
            }
        } else {
            w
        },
        StepV::DeleteCollectionRow { id } => {
            let kept = Set::new(
                |k: u32| w.albums.contains_key(k) && w.albums[k].collection != id,
            );
            World {
                collections: w.collections.remove(id),
                albums: w.albums.restrict(kept),
                edges: w.edges.filter(|e: (u32, u32)| kept.contains(e.0)),
                ..w
            }
        },
        StepV::DeleteAlbumRow { id } => World {
            albums: w.albums.remove(id),
            edges: w.edges.filter(|e: (u32, u32)| e.0 != id),
            ..w
        },
        StepV::DeletePhotoRow { id } => World {
            photos: w.photos.remove(id),
            edges: w.edges.filter(|e: (u32, u32)| e.1 != id),
            ..w
        },
        StepV::InsertEdge { album, photo } => if w.edges.contains((album, photo)) {
            w
        } else {
            World { edges: w.edges.push((album, photo)), ..w }
        },
        StepV::CreateDir { path } => World { paths: w.paths.insert(path), ..w },
        StepV::RenamePath { from, to } => if from == to {
            w
        } else {
            World { paths: w.paths.map(|q: Seq<char>| renamed(q, from, to)), ..w }
        },
        StepV::RemoveTree { path } => World {
            paths: w.paths.filter(|q: Seq<char>| !is_within(q, path)),
            ..w
        },
        StepV::RemoveFile { path } => World { paths: w.paths.remove(path), ..w },
        StepV::CopyFile { from, to } => World { paths: w.paths.insert(to), ..w },
        StepV::MakeThumbnail { from, to } => World { paths: w.paths.insert(to), ..w },
        StepV::HardLink { from, to } => if w.paths.contains(to) {
            w
        } else {
            World { paths: w.paths.insert(to), ..w }
        },
    }
}

/// The stores after every step of `steps` has succeeded, in order.
pub open spec fn run(w: World, steps: Seq<StepV>) -> World
    decreases steps.len(),
{
    if steps.len() == 0 {
        w
    } else {
        run(apply(w, steps[0]), steps.drop_first())
    }
}

pub proof fn lemma_run_two(w: World, a: StepV, b: StepV)
    ensures
        run(w, seq![a, b]) == apply(apply(w, a), b),
{
    let s = seq![a, b];
    assert(s.drop_first() =~= seq![b]);
    assert(seq![b].drop_first() =~= Seq::<StepV>::empty());
    assert(run(apply(apply(w, a), b), Seq::<StepV>::empty()) == apply(apply(w, a), b));
    assert(run(apply(w, a), seq![b]) == apply(apply(w, a), b));
}

pub proof fn lemma_run_three(w: World, a: StepV, b: StepV, c: StepV)
    ensures
        run(w, seq![a, b, c]) == apply(apply(apply(w, a), b), c),
{
    let s = seq![a, b, c];
    assert(s.drop_first() =~= seq![b, c]);
    lemma_run_two(apply(w, a), b, c);
}

} // verus!
