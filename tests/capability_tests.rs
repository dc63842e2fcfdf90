use ospl::{Album, Collection, ElementDatabase, ElementFilesystem, Filesystem, Photo, Step, Timestamp};

fn s(text: &str) -> String {
    text.to_string()
}

fn stored_photo() -> Photo {
    let t = Timestamp { year: 2022, month: 6, day: 1, hour: 9, minute: 0, second: 0, micro: 7 };
    let mut p = Photo::new();
    p.from_file_at("/home/me/beach.png", false, &[0x89, 0x50, 0x4E, 0x47, 0x0D, 0x0A, 0x1A, 0x0A], t).unwrap();
    p.id = 3;
    p
}

#[test]
fn collection_capabilities() {
    let fs = Filesystem::new("/lib").unwrap();
    let c = Collection::from_row(2, s("Trips"), s(""), None, None);
    assert_eq!(ElementDatabase::delete(&c), Step::DeleteCollectionRow { id: 2 });
    assert_eq!(ElementDatabase::rename(&c, "Travel"), Some(Step::RenameCollectionRow { id: 2, name: s("Travel") }));
    assert_eq!(ElementFilesystem::insert_into(&c, &fs), Some(Step::CreateDir { path: s("/lib/collections/Trips") }));
    assert_eq!(ElementFilesystem::remove_from(&c, &fs), vec![Step::RemoveTree { path: s("/lib/collections/Trips") }]);
}

#[test]
fn album_capabilities() {
    let fs = Filesystem::new("/lib").unwrap();
    let a = Album::from_row(5, s("Coast"), s(""), None, None, Collection::from_row(2, s("Trips"), s(""), None, None));
    assert_eq!(
        ElementFilesystem::rename(&a, &fs, "Shore"),
        Some(Step::RenamePath { from: s("/lib/collections/Trips/Coast"), to: s("/lib/collections/Trips/Shore") })
    );
    assert_eq!(ElementDatabase::delete(&a), Step::DeleteAlbumRow { id: 5 });
    assert_eq!(a.assign_to(&Collection::from_row(9, s("Other"), s(""), None, None)), Step::MoveAlbumRow { album: 5, collection: 9 });
}

#[test]
fn photo_keeps_its_name() {
    let fs = Filesystem::new("/lib").unwrap();
    let p = stored_photo();
    assert_eq!(ElementDatabase::rename(&p, "other.png"), None);
    assert_eq!(ElementFilesystem::rename(&p, &fs, "other.png"), None);
}

#[test]
fn photo_is_placed_and_removed_by_its_stored_name() {
    let fs = Filesystem::new("/lib").unwrap();
    let p = stored_photo();
    let name = "2022-06-01_09-00-00-000007_beach.png";
    assert_eq!(
        ElementFilesystem::insert_into(&p, &fs),
        Some(Step::CopyFile { from: s("/home/me/beach.png"), to: format!("/lib/pictures/{}", name) })
    );
    assert_eq!(
        ElementFilesystem::remove_from(&p, &fs),
        vec![
            Step::RemoveFile { path: format!("/lib/pictures/{}", name) },
            Step::RemoveFile { path: format!("/lib/thumbnails/{}", name) },
        ]
    );
    assert_eq!(ElementDatabase::delete(&p), Step::DeletePhotoRow { id: 3 });
}

#[test]
fn photo_without_import_time_gives_no_step() {
    let fs = Filesystem::new("/lib").unwrap();
    let p = Photo::new();
    assert_eq!(ElementDatabase::insert_into(&p), None);
    assert_eq!(ElementFilesystem::insert_into(&p, &fs), None);
    assert!(ElementFilesystem::remove_from(&p, &fs).is_empty());
}
