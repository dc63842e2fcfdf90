use ospl::{Album, Collection, Error, IoKind, Library, OsplError, Photo, Step, Timestamp};

const JPEG: [u8; 6] = [0xFF, 0xD8, 0xFF, 0xE0, 0x00, 0x10];

fn import_time() -> Timestamp {
    Timestamp { year: 2023, month: 1, day: 15, hour: 14, minute: 30, second: 0, micro: 123456 }
}

fn s(text: &str) -> String {
    text.to_string()
}

fn collection(id: u32, name: &str) -> Collection {
    Collection::from_row(id, s(name), s("Photos from 2019"), None, None)
}

fn album(id: u32, name: &str, owner: Collection) -> Album {
    Album::from_row(id, s(name), s(""), None, None, owner)
}

fn imported_photo(id: u32) -> Photo {
    let mut p = Photo::new();
    p.from_file_at("tests/files/test_photo_light.jpg", false, &JPEG, import_time()).unwrap();
    p.id = id;
    p
}

const STORED: &str = "2023-01-15_14-30-00-123456_test_photo_light.jpg";

#[test]
fn library_paths_derive_from_root() {
    let library = Library::load("/srv/photos.ospl").unwrap();
    assert_eq!(library.get_path(), "/srv/photos.ospl");
    let fs = library.filesystem();
    assert_eq!(fs.pictures_path(), "/srv/photos.ospl/pictures");
    assert_eq!(fs.thumbnails_path(), "/srv/photos.ospl/thumbnails");
    assert_eq!(fs.collections_path(), "/srv/photos.ospl/collections");
    assert_eq!(fs.database_path(), "/srv/photos.ospl/database.db");
}

#[test]
fn root_with_trailing_slash_gets_no_second_one() {
    let library = Library::load("/tmp/path.ospl/").unwrap();
    assert_eq!(library.filesystem().collections_path(), "/tmp/path.ospl/collections");
}

#[test]
fn new_library_creates_its_directories() {
    let library = Library::load("/lib").unwrap();
    assert_eq!(
        library.creation_steps(),
        vec![
            Step::CreateDir { path: s("/lib") },
            Step::CreateDir { path: s("/lib/thumbnails") },
            Step::CreateDir { path: s("/lib/pictures") },
            Step::CreateDir { path: s("/lib/collections") },
        ]
    );
}

#[test]
fn create_collection_inserts_then_places() {
    let library = Library::load("/lib").unwrap();
    let draft = Collection::new_with_name("2019", "Photos from 2019");
    assert_eq!(draft.id(), 0);
    let steps = library.create_collection_steps(&draft).unwrap();
    assert_eq!(steps.len(), 2);
    match &steps[0] {
        Step::InsertCollection { name, comment, created, modified } => {
            assert_eq!(name, "2019");
            assert_eq!(comment, "Photos from 2019");
            assert_eq!(created, modified);
        }
        other => panic!("unexpected first step {:?}", other),
    }
    assert_eq!(steps[1], Step::CreateDir { path: s("/lib/collections/2019") });
}

#[test]
fn create_collection_with_empty_name_takes_no_step() {
    let library = Library::load("/lib").unwrap();
    let draft = Collection::new_with_name("", "comment");
    assert_eq!(
        library.create_collection_steps(&draft).err().unwrap(),
        OsplError::InternalError(Error::EmptyName)
    );
}

#[test]
fn rename_collection_renames_directory_then_row() {
    let library = Library::load("/lib").unwrap();
    let c = collection(1, "Bird");
    assert_eq!(
        library.rename_collection_steps(&c, "Birds").unwrap(),
        vec![
            Step::RenamePath { from: s("/lib/collections/Bird"), to: s("/lib/collections/Birds") },
            Step::RenameCollectionRow { id: 1, name: s("Birds") },
        ]
    );
    assert_eq!(
        library.rename_collection_steps(&c, "").err().unwrap(),
        OsplError::InternalError(Error::EmptyName)
    );
}

#[test]
fn delete_collection_removes_tree_then_row() {
    let library = Library::load("/lib").unwrap();
    let c = collection(3, "name");
    assert_eq!(
        library.delete_collection_steps(&c),
        vec![
            Step::RemoveTree { path: s("/lib/collections/name") },
            Step::DeleteCollectionRow { id: 3 },
        ]
    );
}

#[test]
fn create_album_places_it_inside_its_collection() {
    let library = Library::load("/lib").unwrap();
    let draft = Album::new_with_name("Pizza Party", "My pizza party from 2019", collection(1, "2019"));
    assert_eq!(draft.collection_id(), 1);
    let steps = library.create_album_steps(&draft).unwrap();
    match &steps[0] {
        Step::InsertAlbum { name, comment, collection, .. } => {
            assert_eq!(name, "Pizza Party");
            assert_eq!(comment, "My pizza party from 2019");
            assert_eq!(*collection, 1);
        }
        other => panic!("unexpected first step {:?}", other),
    }
    assert_eq!(steps[1], Step::CreateDir { path: s("/lib/collections/2019/Pizza Party") });
}

#[test]
fn create_album_with_empty_name_takes_no_step() {
    let library = Library::load("/lib").unwrap();
    let draft = Album::new_with_name("", "", collection(1, "2019"));
    assert_eq!(
        library.create_album_steps(&draft).err().unwrap(),
        OsplError::InternalError(Error::EmptyName)
    );
}

#[test]
fn rename_album_stays_in_its_collection() {
    let library = Library::load("/lib").unwrap();
    let a = album(1, "Pizza Party", collection(1, "2019"));
    assert_eq!(
        library.rename_album_steps(&a, "Pizza").unwrap(),
        vec![
            Step::RenamePath {
                from: s("/lib/collections/2019/Pizza Party"),
                to: s("/lib/collections/2019/Pizza"),
            },
            Step::RenameAlbumRow { id: 1, name: s("Pizza") },
        ]
    );
}

#[test]
fn move_album_then_move_again() {
    let library = Library::load("/lib").unwrap();
    let a = album(1, "Pizza Party", collection(2, "2018"));
    let target = collection(1, "2019");
    assert_eq!(
        library.move_album_steps(&a, &target),
        vec![
            Step::RenamePath {
                from: s("/lib/collections/2018/Pizza Party"),
                to: s("/lib/collections/2019/Pizza Party"),
            },
            Step::MoveAlbumRow { album: 1, collection: 1 },
        ]
    );
    let moved = album(1, "Pizza Party", collection(1, "2019"));
    assert_eq!(
        library.move_album_steps(&moved, &target),
        vec![
            Step::RenamePath {
                from: s("/lib/collections/2019/Pizza Party"),
                to: s("/lib/collections/2019/Pizza Party"),
            },
            Step::MoveAlbumRow { album: 1, collection: 1 },
        ]
    );
}

#[test]
fn delete_album_removes_tree_then_row() {
    let library = Library::load("/lib").unwrap();
    let a = album(4, "Pizza", collection(1, "2019"));
    assert_eq!(
        library.delete_album_steps(&a),
        vec![
            Step::RemoveTree { path: s("/lib/collections/2019/Pizza") },
            Step::DeleteAlbumRow { id: 4 },
        ]
    );
}

#[test]
fn prepared_photo_holds_name_hash_and_time() {
    let p = imported_photo(0);
    assert_eq!(p.filename(), "test_photo_light.jpg");
    assert_eq!(p.import_datetime(), Some(import_time()));
    assert_eq!(p.hash(), ospl::naming::fingerprint(&JPEG));
    assert_eq!(p.get_filename(), STORED);
}

#[test]
fn import_inserts_copies_then_thumbnails() {
    let library = Library::load("/lib").unwrap();
    let p = imported_photo(0);
    assert_eq!(
        library.import_photo_steps(&p),
        vec![
            Step::InsertPhoto { filename: s("test_photo_light.jpg"), hash: p.hash(), imported: import_time() },
            Step::CopyFile {
                from: s("tests/files/test_photo_light.jpg"),
                to: format!("/lib/pictures/{}", STORED),
            },
            Step::MakeThumbnail {
                from: s("tests/files/test_photo_light.jpg"),
                to: format!("/lib/thumbnails/{}", STORED),
            },
        ]
    );
}

#[test]
fn import_of_a_directory_is_refused_before_any_change() {
    let mut p = Photo::new();
    let r = p.from_file_at("tests/files/test_folder/", true, &[], import_time());
    assert_eq!(r.err().unwrap(), OsplError::InternalError(Error::IsADirectory));
    assert_eq!(p.filename(), "");
    assert_eq!(p.import_datetime(), None);
}

#[test]
fn import_of_unknown_content_is_not_an_image() {
    let mut p = Photo::new();
    let r = p.from_file_at("tests/files/not_a_valid_file.png", false, &[0x00, 0x01, 0x02], import_time());
    assert_eq!(r.err().unwrap(), OsplError::InternalError(Error::NotAnImage));
    assert_eq!(p.import_datetime(), None);
}

#[test]
fn import_of_a_document_is_unsupported() {
    let mut p = Photo::new();
    let r = p.from_file_at("tests/files/report.pdf", false, b"%PDF-1.7 body", import_time());
    assert_eq!(r.err().unwrap(), OsplError::IoError(IoKind::Unsupported));
    assert_eq!(p.filename(), "");
}

#[test]
fn assign_records_edge_then_links() {
    let library = Library::load("/lib").unwrap();
    let p = imported_photo(7);
    let a = album(2, "test", collection(1, "2019"));
    assert_eq!(
        library.assign_photo_steps(&p, &a, false, false),
        vec![
            Step::InsertEdge { album: 2, photo: 7 },
            Step::HardLink {
                from: format!("/lib/pictures/{}", STORED),
                to: format!("/lib/collections/2019/test/{}", STORED),
            },
        ]
    );
}

#[test]
fn assign_twice_takes_no_second_step() {
    let library = Library::load("/lib").unwrap();
    let p = imported_photo(7);
    let a = album(2, "test", collection(1, "2019"));
    assert!(library.assign_photo_steps(&p, &a, true, true).is_empty());
    assert_eq!(
        library.assign_photo_steps(&p, &a, true, false),
        vec![Step::HardLink {
            from: format!("/lib/pictures/{}", STORED),
            to: format!("/lib/collections/2019/test/{}", STORED),
        }]
    );
}

#[test]
fn delete_photo_unlinks_every_album_first() {
    let library = Library::load("/lib").unwrap();
    let p = imported_photo(7);
    let albums = vec![album(2, "test", collection(1, "2019")), album(3, "test_2", collection(1, "2019"))];
    assert_eq!(
        library.delete_photo_steps(&p, &albums),
        vec![
            Step::RemoveFile { path: format!("/lib/collections/2019/test/{}", STORED) },
            Step::RemoveFile { path: format!("/lib/collections/2019/test_2/{}", STORED) },
            Step::RemoveFile { path: format!("/lib/pictures/{}", STORED) },
            Step::RemoveFile { path: format!("/lib/thumbnails/{}", STORED) },
            Step::DeletePhotoRow { id: 7 },
        ]
    );
}

#[test]
fn collection_record_accessors() {
    let mut c = Collection::new();
    assert_eq!(c.id(), 0);
    assert_eq!(c.name(), "");
    c.set_id(5);
    assert_eq!(c.id(), 5);
    assert_eq!(c.comment(), "");
    let mut a = Album::new();
    assert_eq!(a.collection_id(), 0);
    a.set_id(9);
    assert_eq!(a.id(), 9);
}

#[test]
fn import_checks_come_before_the_clock() {
    let mut p = Photo::new();
    assert_eq!(p.from_file("pictures/", true, &[]).err().unwrap(), OsplError::InternalError(Error::IsADirectory));
    assert_eq!(p.from_file("x.bin", false, &[0x00, 0x01]).err().unwrap(), OsplError::InternalError(Error::NotAnImage));
    assert_eq!(p.import_datetime(), None);
    p.from_file("shots/foo.jpg/.", false, &JPEG).unwrap();
    assert_eq!(p.filename(), "foo.jpg");
    assert!(p.import_datetime().is_some());
}

#[test]
fn put_and_add_name_the_same_edge_and_link_each_time() {
    let fs = ospl::Filesystem::new("/lib").unwrap();
    let p = imported_photo(7);
    let a = album(2, "test", collection(1, "2019"));
    assert_eq!(a.put(&p), a.put(&p));
    assert_eq!(a.put(&p), Step::InsertEdge { album: 2, photo: 7 });
    assert_eq!(
        a.add(&fs, &p),
        Step::HardLink {
            from: format!("/lib/pictures/{}", STORED),
            to: format!("/lib/collections/2019/test/{}", STORED),
        }
    );
}
