use picture_upload::catalog::{
    blob_row, picture_with_shows, pictures_with_shows, side_from_email, upload_rows, word_sync,
    Picture, WordSync,
};
use picture_upload::coordinator::FinishedUpload;

#[test]
fn side_of_each_user() {
    assert_eq!(side_from_email("jd"), 1);
    assert_eq!(side_from_email("el"), 0);
    assert_eq!(side_from_email(""), 0);
    assert_eq!(side_from_email("JD"), 0);
    assert_eq!(side_from_email("jd "), 0);
}

#[test]
fn picture_in_the_store_is_updated() {
    assert_eq!(word_sync(1), WordSync::Update);
    assert_eq!(word_sync(3), WordSync::Update);
    assert_eq!(word_sync(0), WordSync::Insert);
    assert_eq!(word_sync(-1), WordSync::Insert);
}

#[test]
fn row_of_a_rendition() {
    let row = blob_row(4, 1, true, vec![1, 2, 3], 77);
    assert_eq!(row.id, 4);
    assert_eq!(row.side, 1);
    assert!(row.thumbnail);
    assert_eq!(row.data, vec![1, 2, 3]);
    assert_eq!(row.mime, "");
    assert!(row.show);
    assert_eq!(row.hash, 77);
}

#[test]
fn rows_of_a_finished_upload() {
    let upload = FinishedUpload {
        picture_id: 12,
        side: 1,
        main_bytes: vec![1, 2],
        thumb_bytes: vec![3],
        hash: 99,
    };
    let (main, thumbnail) = upload_rows(upload);
    assert_eq!((main.id, main.side, main.thumbnail, main.hash), (12, 1, false, 99));
    assert_eq!(main.data, vec![1, 2]);
    assert!(main.show);
    assert_eq!((thumbnail.id, thumbnail.side, thumbnail.thumbnail, thumbnail.hash), (12, 1, true, 99));
    assert_eq!(thumbnail.data, vec![3]);
    assert!(thumbnail.show);
}

#[test]
fn sides_of_one_picture() {
    let picture = Picture { id: 2, word: String::from("otter") };
    let rows = vec![(1, 0, true, 10), (2, 1, true, 20), (2, 0, false, 30), (3, 1, true, 40)];
    let shown = picture_with_shows(&picture, &rows);
    assert_eq!(shown.id, 2);
    assert_eq!(shown.word, "otter");
    assert_eq!(shown.shows, vec![false, true]);
    assert_eq!(shown.hashs, vec![30, 20]);
}

#[test]
fn last_row_of_a_side_decides() {
    let picture = Picture { id: 1, word: String::from("heron") };
    let rows = vec![(1, 0, true, 10), (1, 0, false, 11), (1, 1, false, 5), (1, 1, true, 6)];
    let shown = picture_with_shows(&picture, &rows);
    assert_eq!(shown.shows, vec![false, true]);
    assert_eq!(shown.hashs, vec![11, 6]);
}

#[test]
fn picture_without_rows_shows_nothing() {
    let pictures = vec![
        Picture { id: 1, word: String::from("a") },
        Picture { id: 2, word: String::from("b") },
    ];
    let rows = vec![(2, 1, true, 8)];
    let shown = pictures_with_shows(&pictures, &rows);
    assert_eq!(shown.len(), 2);
    assert_eq!((shown[0].id, shown[0].word.as_str()), (1, "a"));
    assert_eq!(shown[0].shows, vec![false, false]);
    assert_eq!(shown[0].hashs, vec![0, 0]);
    assert_eq!((shown[1].id, shown[1].word.as_str()), (2, "b"));
    assert_eq!(shown[1].shows, vec![false, true]);
    assert_eq!(shown[1].hashs, vec![0, 8]);
}

#[test]
fn empty_catalogue_shows_nothing() {
    let shown = pictures_with_shows(&vec![], &vec![(1, 0, true, 1)]);
    assert!(shown.is_empty());
}

#[test]
fn rows_of_an_upload_with_a_large_picture_number() {
    let upload = FinishedUpload {
        picture_id: u32::MAX,
        side: 0x8000_0000,
        main_bytes: vec![],
        thumb_bytes: vec![],
        hash: 0,
    };
    let (main, thumbnail) = upload_rows(upload);
    assert_eq!((main.id, main.side), (-1, i32::MIN));
    assert_eq!((thumbnail.id, thumbnail.side), (-1, i32::MIN));
}
