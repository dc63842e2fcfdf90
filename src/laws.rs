use vstd::prelude::*;
use crate::element::{AlbumRec, CollectionRec, PhotoRec};
use crate::error::OsplError;
use crate::filesystem::{
    join, collection_dir, album_dir, picture_file, thumbnail_file, pictures_dir, collections_dir,
};
use crate::library::{
    create_collection_plan, create_album_plan, delete_collection_plan, move_album_plan,
    assign_plan, link_of, empty_name, import_photo_plan, delete_photo_plan,
};
use crate::naming::{display_name, display_names_distinct};
use crate::store::{
    World, StepV, CollectionRow, AlbumRow, apply, run, is_within, edge_count, lemma_run_two, renamed,
    lemma_run_three,
};
use crate::timestamp::{Timestamp, lemma_text_layout, lemma_value_of_digits, lemma_pow10_small, digits};

verus! {

proof fn lemma_run_empty(w: World)
    ensures
        run(w, Seq::empty()) == w,
{
}

proof fn lemma_run_one(w: World, a: StepV)
    ensures
        run(w, seq![a]) == apply(w, a),
{
    assert(seq![a].drop_first() =~= Seq::<StepV>::empty());
    assert(run(apply(w, a), Seq::<StepV>::empty()) == apply(w, a));
}

/// Round trip: once the steps that create a collection have succeeded, the row
/// under the id the store assigned holds exactly the collection's name and
/// comment.
pub proof fn collection_round_trip(w: World, root: Seq<char>, c: CollectionRec)
    requires
        c.name.len() > 0,
        w.next_collection >= 1,
        !w.collections.contains_key(w.next_collection),
    ensures
        create_collection_plan(root, c) is Ok,
        w.next_collection != 0,
        !w.collections.contains_key(w.next_collection),
        run(w, create_collection_plan(root, c)->Ok_0).collections.contains_key(w.next_collection),
        run(w, create_collection_plan(root, c)->Ok_0).collections[w.next_collection] == (
        CollectionRow { name: c.name, comment: c.comment }),
{
    let s = create_collection_plan(root, c)->Ok_0;
    lemma_run_two(w, s[0], s[1]);
    assert(s =~= seq![s[0], s[1]]);
}

/// An album records a photo exactly when its edge count is positive.
proof fn lemma_edge_count_contains(edges: Seq<(u32, u32)>, a: u32, p: u32)
    ensures
        edges.contains((a, p)) <==> edge_count(edges, a, p) > 0,
{
    let pred = |e: (u32, u32)| e == (a, p);
    if edges.contains((a, p)) {
        let i = choose|i: int| 0 <= i < edges.len() && edges[i] == (a, p);
        edges.lemma_filter_contains(pred, i);
    }
    if edge_count(edges, a, p) > 0 {
        edges.lemma_filter_pred(pred, 0);
        let f = edges.filter(pred);
        assert(f.contains(f[0]));
        edges.lemma_filter_contains_rev(pred, (a, p));
    }
}

/// Recording is idempotent: recording an edge a second time, or making a link
/// whose path exists, changes nothing; after one recording the album holds
/// the photo exactly once, where it held it at most once before, and the link
/// exists.
pub proof fn recording_is_idempotent(w: World, a: u32, p: u32, from: Seq<char>, to: Seq<char>)
    ensures
        ({
            let e = StepV::InsertEdge { album: a, photo: p };
            let l = StepV::HardLink { from, to };
            &&& apply(apply(w, e), e) == apply(w, e)
            &&& edge_count(w.edges, a, p) <= 1 ==> edge_count(apply(w, e).edges, a, p) == 1
            &&& apply(apply(w, l), l) == apply(w, l)
            &&& apply(w, l).paths.contains(to)
            &&& w.paths.contains(to) ==> apply(w, l) == w
        }),
{
    broadcast use Seq::lemma_filter_push;

    let pred = |x: (u32, u32)| x == (a, p);
    lemma_edge_count_contains(w.edges, a, p);
    if !w.edges.contains((a, p)) {
        assert(w.edges.push((a, p)).filter(pred) == w.edges.filter(pred).push((a, p)));
        assert(w.edges.push((a, p)).contains((a, p))) by {
            assert(w.edges.push((a, p))[w.edges.len() as int] == (a, p));
        }
    }
}

/// Idempotent assignment: after putting a photo into an album, putting it
/// there again takes no step and changes nothing, and the album records the
/// photo exactly once, with its link on disk.
pub proof fn assignment_idempotent(w: World, root: Seq<char>, p: PhotoRec, a: AlbumRec)
    requires
        edge_count(w.edges, a.id, p.id) <= 1,
    ensures
        ({
            let link = link_of(root, p, a);
            let w1 = run(
                w,
                assign_plan(root, p, a, edge_count(w.edges, a.id, p.id) > 0, w.paths.contains(link)),
            );
            let again = assign_plan(
                root,
                p,
                a,
                edge_count(w1.edges, a.id, p.id) > 0,
                w1.paths.contains(link),
            );
            &&& again.len() == 0
            &&& run(w1, again) == w1
            &&& edge_count(w1.edges, a.id, p.id) == 1
            &&& w1.paths.contains(link)
        }),
{
    broadcast use Seq::lemma_filter_push;

    let link = link_of(root, p, a);
    let edge_recorded = edge_count(w.edges, a.id, p.id) > 0;
    let link_exists = w.paths.contains(link);
    let s = assign_plan(root, p, a, edge_recorded, link_exists);
    let e = StepV::InsertEdge { album: a.id, photo: p.id };
    let l = StepV::HardLink { from: picture_file(root, p.stored_name()), to: link };
    let pred = |x: (u32, u32)| x == (a.id, p.id);
    lemma_edge_count_contains(w.edges, a.id, p.id);
    if !edge_recorded {
        assert(w.edges.push((a.id, p.id)).filter(pred) == w.edges.filter(pred).push((a.id, p.id)));
    }
    if edge_recorded && link_exists {
        assert(s =~= Seq::<StepV>::empty());
        lemma_run_empty(w);
    } else if edge_recorded {
        assert(s =~= seq![l]);
        lemma_run_one(w, l);
    } else if link_exists {
        assert(s =~= seq![e]);
        lemma_run_one(w, e);
    } else {
        assert(s =~= seq![e, l]);
        lemma_run_two(w, e, l);
    }
    let w1 = run(w, s);
    if !edge_recorded {
        assert(w.edges.push((a.id, p.id))[w.edges.len() as int] == (a.id, p.id));
    }
    let again = assign_plan(root, p, a, edge_count(w1.edges, a.id, p.id) > 0, w1.paths.contains(link));
    assert(again =~= Seq::<StepV>::empty());
    lemma_run_empty(w1);
}

/// Joining a name that does not start with a separator: the base, one
/// separator where needed, then the name.
proof fn lemma_join_prefix(base: Seq<char>, name: Seq<char>)
    requires
        name.len() > 0,
        name[0] != '/',
    ensures
        ({
            let pre = if base.len() == 0 || base.last() == '/' {
                base
            } else {
                base + seq!['/']
            };
            &&& join(base, name) == pre + name
            &&& pre.len() == 0 || pre.last() == '/'
        }),
{
    if !(base.len() == 0 || base.last() == '/') {
        let pre = base + seq!['/'];
        assert(pre.last() == '/');
        assert(base + seq!['/'] + name =~= pre + name);
    }
}

/// A canonical copy never lies inside a collection's directory.
proof fn lemma_picture_outside_collection(root: Seq<char>, c: Seq<char>, n: Seq<char>)
    requires
        c.len() > 0,
        c[0] != '/',
        n.len() > 0,
        n[0] != '/',
    ensures
        !is_within(picture_file(root, n), collection_dir(root, c)),
{
    reveal_strlit("pictures");
    reveal_strlit("collections");
    let pics = "pictures"@;
    let cols = "collections"@;
    lemma_join_prefix(root, pics);
    lemma_join_prefix(root, cols);
    let pre = if root.len() == 0 || root.last() == '/' {
        root
    } else {
        root + seq!['/']
    };
    let pd = pictures_dir(root);
    let cd = collections_dir(root);
    assert(pd == pre + pics);
    assert(cd == pre + cols);
    lemma_join_prefix(pd, n);
    lemma_join_prefix(cd, c);
    let pic = picture_file(root, n);
    let col = collection_dir(root, c);
    let k = pre.len() as int;
    assert(pd.last() == 's');
    assert(cd.last() == 's');
    assert(pic == pd + seq!['/'] + n);
    assert(col == cd + seq!['/'] + c);
    assert(pic[k] == 'p');
    assert(col[k] == 'c');
    if pic.len() > col.len() && pic.subrange(0, col.len() as int) == col {
        assert(pic.subrange(0, col.len() as int)[k] == pic[k]);
    }
}

/// Cascade on delete: once the steps that delete a collection have succeeded,
/// neither the collection nor any album it owned can be looked up, nothing
/// remains inside its directory, no edge refers to a deleted album, and the
/// canonical copies of photos are as they were.
pub proof fn delete_collection_cascades(
    w: World,
    root: Seq<char>,
    c: CollectionRec,
    album: u32,
    n: Seq<char>,
)
    requires
        c.name.len() > 0,
        c.name[0] != '/',
        n.len() > 0,
        n[0] != '/',
    ensures
        ({
            let w2 = run(w, delete_collection_plan(root, c));
            &&& !w2.collections.contains_key(c.id)
            &&& (w.albums.contains_key(album) && w.albums[album].collection == c.id)
                ==> !w2.albums.contains_key(album)
            &&& forall|q: Seq<char>| #[trigger]
                w2.paths.contains(q) ==> !is_within(q, collection_dir(root, c.name))
            &&& forall|i: int|
                0 <= i < w2.edges.len() ==> w2.albums.contains_key(#[trigger] w2.edges[i].0)
            &&& w2.paths.contains(picture_file(root, n)) == w.paths.contains(picture_file(root, n))
            &&& forall|q: Seq<char>| #[trigger]
                w.paths.contains(q) && !is_within(q, collection_dir(root, c.name))
                    ==> w2.paths.contains(q)
            &&& w2.photos == w.photos
        }),
{
    let s = delete_collection_plan(root, c);
    lemma_run_two(w, s[0], s[1]);
    assert(s =~= seq![s[0], s[1]]);
    let w1 = apply(w, s[0]);
    let w2 = apply(w1, s[1]);
    let kept = Set::new(|k: u32| w1.albums.contains_key(k) && w1.albums[k].collection != c.id);
    let pred = |e: (u32, u32)| kept.contains(e.0);
    assert forall|i: int| 0 <= i < w2.edges.len() implies w2.albums.contains_key(
        #[trigger] w2.edges[i].0,
    ) by {
        w1.edges.lemma_filter_pred(pred, i);
    }
    lemma_picture_outside_collection(root, c.name, n);
}

/// Move idempotence: after an album has been moved to collection `b`, its
/// owner is `b`, its directory is under `b`'s, and moving it to `b` again
/// changes nothing.
pub proof fn move_idempotent(w: World, root: Seq<char>, a: AlbumRec, b: CollectionRec)
    requires
        w.albums.contains_key(a.id),
    ensures
        ({
            let w1 = run(w, move_album_plan(root, a, b));
            let moved = AlbumRec { collection: b, ..a };
            &&& w1.albums.contains_key(a.id)
            &&& w1.albums[a.id].collection == b.id
            &&& w.paths.contains(album_dir(root, a.collection.name, a.name)) ==> w1.paths.contains(
                album_dir(root, b.name, a.name),
            )
            &&& run(w1, move_album_plan(root, moved, b)) == w1
        }),
{
    let s = move_album_plan(root, a, b);
    let from = album_dir(root, a.collection.name, a.name);
    let to = album_dir(root, b.name, a.name);
    lemma_run_two(w, s[0], s[1]);
    assert(s =~= seq![s[0], s[1]]);
    let w0 = apply(w, s[0]);
    if w.paths.contains(from) && from != to {
        assert(from.subrange(from.len() as int, from.len() as int) =~= Seq::<char>::empty());
        assert(to + from.subrange(from.len() as int, from.len() as int) =~= to);
        assert(w0.paths.contains(to));
    }
    let w1 = apply(w0, s[1]);
    let moved = AlbumRec { collection: b, ..a };
    let s2 = move_album_plan(root, moved, b);
    lemma_run_two(w1, s2[0], s2[1]);
    assert(s2 =~= seq![s2[0], s2[1]]);
    let row = w1.albums[a.id];
    assert(AlbumRow { collection: b.id, ..row } == row);
    assert(w1.albums.insert(a.id, row) =~= w1.albums);
}

/// A stored name starts with a digit of the import year.
proof fn lemma_display_name_relative(t: Timestamp, b: Seq<char>)
    requires
        t.wf(),
    ensures
        display_name(t, b).len() > 0,
        display_name(t, b)[0] != '/',
{
    lemma_text_layout(t);
    lemma_pow10_small();
    lemma_value_of_digits(t.year as int, 4);
    let d = display_name(t, b);
    assert(d[0] == digits(t.year as int, 4)[0]);
}

/// Uniqueness: two photos imported into one library at different times, with
/// from files of the same name or not, are stored under different names, and once
/// both imports have succeeded both canonical copies are on disk.
pub proof fn imports_coexist(w: World, root: Seq<char>, p1: PhotoRec, p2: PhotoRec)
    requires
        p1.imported is Some,
        p2.imported is Some,
        p1.imported.unwrap().wf(),
        p2.imported.unwrap().wf(),
        p1.imported != p2.imported,
        w.next_photo < u32::MAX,
    ensures
        ({
            let w2 = run(run(w, import_photo_plan(root, p1)), import_photo_plan(root, p2));
            let id1 = w.next_photo;
            let id2 = (w.next_photo + 1) as u32;
            &&& id1 != id2
            &&& w2.photos.contains_key(id1) && w2.photos[id1].filename == p1.filename
            &&& w2.photos.contains_key(id2) && w2.photos[id2].filename == p2.filename
            &&& p1.stored_name() != p2.stored_name()
            &&& picture_file(root, p1.stored_name()) != picture_file(root, p2.stored_name())
            &&& w2.paths.contains(picture_file(root, p1.stored_name()))
            &&& w2.paths.contains(picture_file(root, p2.stored_name()))
        }),
{
    let t1 = p1.imported.unwrap();
    let t2 = p2.imported.unwrap();
    let n1 = p1.stored_name();
    let n2 = p2.stored_name();
    display_names_distinct(t1, p1.filename, t2, p2.filename);
    lemma_display_name_relative(t1, p1.filename);
    lemma_display_name_relative(t2, p2.filename);
    let pd = pictures_dir(root);
    lemma_join_prefix(pd, n1);
    lemma_join_prefix(pd, n2);
    let pre = if pd.len() == 0 || pd.last() == '/' {
        pd
    } else {
        pd + seq!['/']
    };
    if picture_file(root, n1) == picture_file(root, n2) {
        assert((pre + n1).subrange(pre.len() as int, (pre + n1).len() as int) =~= n1);
        assert((pre + n2).subrange(pre.len() as int, (pre + n2).len() as int) =~= n2);
    }
    let s1 = import_photo_plan(root, p1);
    let s2 = import_photo_plan(root, p2);
    lemma_run_three(w, s1[0], s1[1], s1[2]);
    assert(s1 =~= seq![s1[0], s1[1], s1[2]]);
    let w1 = run(w, s1);
    lemma_run_three(w1, s2[0], s2[1], s2[2]);
    assert(s2 =~= seq![s2[0], s2[1], s2[2]]);
}

/// A single directory entry's name: not empty, and without a separator.
pub open spec fn is_entry_name(n: Seq<char>) -> bool {
    n.len() > 0 && forall|i: int| 0 <= i < n.len() ==> n[i] != '/'
}

/// The same album name under two different collections: whatever lies under
/// the second path is not within the first.
proof fn lemma_other_collection_disjoint(
    root: Seq<char>,
    c1: Seq<char>,
    c2: Seq<char>,
    x: Seq<char>,
    rest: Seq<char>,
)
    requires
        is_entry_name(c1),
        is_entry_name(c2),
        is_entry_name(x),
        c1 != c2,
    ensures
        !is_within(album_dir(root, c2, x) + rest, album_dir(root, c1, x)),
{
    reveal_strlit("collections");
    let base = collections_dir(root);
    lemma_join_prefix(root, "collections"@);
    assert(base.last() == 's');
    lemma_join_prefix(base, c1);
    lemma_join_prefix(base, c2);
    let d1 = collection_dir(root, c1);
    let d2 = collection_dir(root, c2);
    assert(d1 == base + seq!['/'] + c1);
    assert(d2 == base + seq!['/'] + c2);
    assert(d1.last() == c1.last());
    assert(d2.last() == c2.last());
    lemma_join_prefix(d1, x);
    lemma_join_prefix(d2, x);
    let from = album_dir(root, c1, x);
    let to = album_dir(root, c2, x);
    assert(from == d1 + seq!['/'] + x);
    assert(to == d2 + seq!['/'] + x);
    let k: int = base.len() as int + 1;
    let l1: int = c1.len() as int;
    let l2: int = c2.len() as int;
    let m: int = if l1 < l2 {
        l1
    } else {
        l2
    };
    let d: int = if exists|i: int| 0 <= i < m && c1[i] != c2[i] {
        let i = choose|i: int| 0 <= i < m && c1[i] != c2[i];
        assert(from[k + i] == c1[i]);
        assert(to[k + i] == c2[i]);
        k + i
    } else if l1 < l2 {
        assert(from[k + l1] == '/');
        assert(to[k + l1] == c2[l1]);
        k + l1
    } else if l2 < l1 {
        assert(to[k + l2] == '/');
        assert(from[k + l2] == c1[l2]);
        k + l2
    } else {
        assert(c1 =~= c2);
        0
    };
    assert(d < from.len() && d < to.len() && from[d] != to[d]);
    let q = to + rest;
    assert(q[d] == to[d]);
    if q.len() > from.len() && q.subrange(0, from.len() as int) == from {
        assert(q.subrange(0, from.len() as int)[d] == q[d]);
    }
}

/// Move leaves no residue: once an album has been moved to another
/// collection, nothing remains within its old directory.
pub proof fn move_leaves_no_residue(w: World, root: Seq<char>, a: AlbumRec, b: CollectionRec)
    requires
        is_entry_name(a.name),
        is_entry_name(a.collection.name),
        is_entry_name(b.name),
        a.collection.name != b.name,
    ensures
        forall|q: Seq<char>| #[trigger]
            run(w, move_album_plan(root, a, b)).paths.contains(q) ==> !is_within(
                q,
                album_dir(root, a.collection.name, a.name),
            ),
{
    let s = move_album_plan(root, a, b);
    let from = album_dir(root, a.collection.name, a.name);
    let to = album_dir(root, b.name, a.name);
    lemma_run_two(w, s[0], s[1]);
    assert(s =~= seq![s[0], s[1]]);
    lemma_other_collection_disjoint(root, a.collection.name, b.name, a.name, Seq::empty());
    assert(to + Seq::<char>::empty() =~= to);
    assert(from != to);
    let w0 = apply(w, s[0]);
    let w1 = apply(w0, s[1]);
    assert forall|q: Seq<char>| #[trigger] w1.paths.contains(q) implies !is_within(q, from) by {
        assert(w0.paths.contains(q));
        let r = choose|r: Seq<char>| w.paths.contains(r) && q == renamed(r, from, to);
        if is_within(r, from) {
            lemma_other_collection_disjoint(
                root,
                a.collection.name,
                b.name,
                a.name,
                r.subrange(from.len() as int, r.len() as int),
            );
        }
    }
}

/// Running two lists of steps one after the other.
pub proof fn lemma_run_append(w: World, a: Seq<StepV>, b: Seq<StepV>)
    ensures
        run(w, a + b) == run(run(w, a), b),
    decreases a.len(),
{
    if a.len() == 0 {
        assert(a + b =~= b);
    } else {
        assert((a + b)[0] == a[0]);
        assert((a + b).drop_first() =~= a.drop_first() + b);
        lemma_run_append(apply(w, a[0]), a.drop_first(), b);
    }
}

/// Removing files touches no row, adds no path, and leaves none of the
/// removed files.
proof fn lemma_run_removals(w: World, files: Seq<StepV>)
    requires
        forall|i: int| 0 <= i < files.len() ==> #[trigger] files[i] is RemoveFile,
    ensures
        ({
            let w2 = run(w, files);
            &&& w2.photos == w.photos
            &&& w2.edges == w.edges
            &&& forall|q: Seq<char>| #[trigger] w2.paths.contains(q) ==> w.paths.contains(q)
            &&& forall|i: int|
                0 <= i < files.len() ==> !w2.paths.contains(#[trigger] files[i]->RemoveFile_path)
        }),
    decreases files.len(),
{
    if files.len() > 0 {
        let rest = files.drop_first();
        assert forall|i: int| 0 <= i < rest.len() implies #[trigger] rest[i] is RemoveFile by {
            assert(rest[i] == files[i + 1]);
        }
        lemma_run_removals(apply(w, files[0]), rest);
        let w2 = run(w, files);
        assert forall|i: int| 0 <= i < files.len() implies !w2.paths.contains(
            #[trigger] files[i]->RemoveFile_path,
        ) by {
            if i > 0 {
                assert(rest[i - 1] == files[i]);
            }
        }
    }
}

/// Deleting a photo leaves nothing that refers to it: once its steps have
/// succeeded, its row is gone, no containment edge names it, and neither its
/// canonical copy nor its link in any of the albums that held it remains.
pub proof fn delete_photo_leaves_nothing(
    w: World,
    root: Seq<char>,
    p: PhotoRec,
    albums: Seq<AlbumRec>,
)
    ensures
        ({
            let w2 = run(w, delete_photo_plan(root, p, albums));
            &&& !w2.photos.contains_key(p.id)
            &&& forall|i: int| 0 <= i < w2.edges.len() ==> (#[trigger] w2.edges[i]).1 != p.id
            &&& !w2.paths.contains(picture_file(root, p.stored_name()))
            &&& forall|j: int|
                0 <= j < albums.len() ==> !w2.paths.contains(link_of(root, p, #[trigger] albums[j]))
        }),
{
    let links = albums.map_values(|a: AlbumRec| StepV::RemoveFile { path: link_of(root, p, a) });
    let tail = seq![
        StepV::RemoveFile { path: picture_file(root, p.stored_name()) },
        StepV::RemoveFile { path: thumbnail_file(root, p.stored_name()) },
        StepV::DeletePhotoRow { id: p.id },
    ];
    assert(delete_photo_plan(root, p, albums) == links + tail);
    lemma_run_append(w, links, tail);
    lemma_run_removals(w, links);
    let w1 = run(w, links);
    lemma_run_three(w1, tail[0], tail[1], tail[2]);
    assert(tail =~= seq![tail[0], tail[1], tail[2]]);
    let w2 = run(w1, tail);
    assert forall|j: int| 0 <= j < albums.len() implies !w2.paths.contains(
        link_of(root, p, #[trigger] albums[j]),
    ) by {
        assert(links[j]->RemoveFile_path == link_of(root, p, albums[j]));
    }
    let pred = |e: (u32, u32)| e.1 != p.id;
    assert forall|i: int| 0 <= i < w2.edges.len() implies (#[trigger] w2.edges[i]).1 != p.id by {
        w1.edges.lemma_filter_pred(pred, i);
    }
}

/// Rejection before mutation: creating a collection or an album with an empty
/// name is refused before any step, so neither store changes.
pub proof fn empty_names_rejected(root: Seq<char>, c: CollectionRec, a: AlbumRec)
    requires
        c.name.len() == 0,
        a.name.len() == 0,
    ensures
        create_collection_plan(root, c) == Err::<Seq<StepV>, OsplError>(empty_name()),
        create_album_plan(root, a) == Err::<Seq<StepV>, OsplError>(empty_name()),
{
}

} // verus!
