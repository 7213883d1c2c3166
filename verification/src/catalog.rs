//! The catalogue of pictures as the store keeps it: the rows, and what is
//! worked out from them before they are shown or written.

use crate::coordinator::FinishedUpload;
use vstd::prelude::*;

verus! {

/// A picture of the catalogue: its number and the word it goes with.
#[derive(Debug)]
pub struct Picture {
    pub id: i32,
    pub word: String,
}

/// One stored rendition of one side of a picture.
#[derive(Debug)]
pub struct Blob {
    pub id: i32,
    pub side: i32,
    pub thumbnail: bool,
    pub data: Vec<u8>,
    pub mime: String,
    pub show: bool,
    pub hash: i32,
}

/// A picture of the catalogue with, for each of its two sides, whether the
/// side is shown and the fingerprint of what is stored for it.
#[derive(Debug)]
pub struct PictureWithShows {
    pub id: i32,
    pub word: String,
    pub shows: Vec<bool>,
    pub hashs: Vec<i32>,
}

/// What is to be done for a word of the built-in list when the store is
/// brought up to date.
#[derive(Clone, Copy, Debug, PartialEq, Eq, Structural)]
pub enum WordSync {
    /// The picture is in the store: set its word.
    Update,
    /// The picture is not in the store: add it.
    Insert,
}

/// The side that a user works on: 1 for the user `jd`, 0 for everyone
/// else.
pub fn side_from_email(email: &str) -> (side: i32)
    ensures
        side == (if email@ == "jd"@ {
            1i32
        } else {
            0i32
        }),
{
    let given: String = email.to_owned();
    let known: String = "jd".to_owned();
    if given == known {
        1
    } else {
        0
    }
}

/// Whether a picture found `existing` times in the store is updated or
/// added.
pub fn word_sync(existing: i64) -> (action: WordSync)
    ensures
        action == (if existing > 0 {
            WordSync::Update
        } else {
            WordSync::Insert
        }),
{
    if existing > 0 {
        WordSync::Update
    } else {
        WordSync::Insert
    }
}

/// The row under which a rendition is stored: shown, and with no media type
/// recorded.
pub fn blob_row(picture_id: i32, picture_side: i32, is_thumbnail: bool, data: Vec<u8>, hash: i32) -> (row:
    Blob)
    ensures
        row.id == picture_id,
        row.side == picture_side,
        row.thumbnail == is_thumbnail,
        row.data@ == data@,
        row.mime@ == Seq::<char>::empty(),
        row.show,
        row.hash == hash,
{
    Blob {
        id: picture_id,
        side: picture_side,
        thumbnail: is_thumbnail,
        data,
        mime: String::new(),
        show: true,
        hash,
    }
}

/// The two rows that a finished upload is stored under: the main picture
/// first, then the thumbnail, both under the upload's picture, side and
/// fingerprint.
pub fn upload_rows(upload: FinishedUpload) -> (rows: (Blob, Blob))
    ensures
        rows.0.id == upload.picture_id as i32,
        rows.0.side == upload.side as i32,
        !rows.0.thumbnail,
        rows.0.data@ == upload.main_bytes@,
        rows.0.mime@ == Seq::<char>::empty(),
        rows.0.show,
        rows.0.hash == upload.hash,
        rows.1.id == upload.picture_id as i32,
        rows.1.side == upload.side as i32,
        rows.1.thumbnail,
        rows.1.data@ == upload.thumb_bytes@,
        rows.1.mime@ == Seq::<char>::empty(),
        rows.1.show,
        rows.1.hash == upload.hash,
{
    let id = upload.picture_id as i32;
    let side = upload.side as i32;
    let hash = upload.hash;
    let main = blob_row(id, side, false, upload.main_bytes, hash);
    let thumbnail = blob_row(id, side, true, upload.thumb_bytes, hash);
    (main, thumbnail)
}

/// What the rows `(picture, side, shown, fingerprint)` say of one side of
/// one picture: the last row for it decides; without a row the side is not
/// shown and has fingerprint 0.
pub open spec fn side_state(rows: Seq<(i32, i32, bool, i32)>, id: i32, side: int) -> (bool, i32)
    decreases rows.len(),
{
    if rows.len() == 0 {
        (false, 0i32)
    } else if rows.last().0 == id && rows.last().1 == side {
        (rows.last().2, rows.last().3)
    } else {
        side_state(rows.drop_last(), id, side)
    }
}

/// Every row of the picture `id` is for side 0 or side 1.
pub open spec fn sides_in_range(rows: Seq<(i32, i32, bool, i32)>, id: i32) -> bool {
    forall|k: int| 0 <= k < rows.len() && (#[trigger] rows[k]).0 == id ==> 0 <= rows[k].1 < 2
}

/// What is shown of one picture: for each of its two sides, what the rows
/// say of it.
pub fn picture_with_shows(picture: &Picture, rows: &Vec<(i32, i32, bool, i32)>) -> (shown:
    PictureWithShows)
    requires
        sides_in_range(rows@, picture.id),
    ensures
        shown.id == picture.id,
        shown.word@ == picture.word@,
        shown.shows@ == seq![
            side_state(rows@, picture.id, 0).0,
            side_state(rows@, picture.id, 1).0,
        ],
        shown.hashs@ == seq![
            side_state(rows@, picture.id, 0).1,
            side_state(rows@, picture.id, 1).1,
        ],
{
    let mut shows: Vec<bool> = vec![false, false];
    let mut hashs: Vec<i32> = vec![0, 0];
    let mut k: usize = 0;
    while k < rows.len()
        invariant
            k <= rows@.len(),
            sides_in_range(rows@, picture.id),
            shows@.len() == 2,
            hashs@.len() == 2,
            forall|side: int|
                0 <= side < 2 ==> (#[trigger] shows@[side], hashs@[side]) == side_state(
                    rows@.take(k as int),
                    picture.id,
                    side,
                ),
        decreases rows@.len() - k,
    {
        let (row_id, row_side, row_show, row_hash) = rows[k];
        proof {
            assert(rows@.take(k + 1).drop_last() =~= rows@.take(k as int));
            assert(rows@.take(k + 1).last() == rows@[k as int]);
        }
        if row_id == picture.id {
            shows[row_side as usize] = row_show;
            hashs[row_side as usize] = row_hash;
        }
        k += 1;
    }
    proof {
        assert(rows@.take(rows@.len() as int) =~= rows@);
        assert(shows@ =~= seq![
            side_state(rows@, picture.id, 0).0,
            side_state(rows@, picture.id, 1).0,
        ]);
        assert(hashs@ =~= seq![
            side_state(rows@, picture.id, 0).1,
            side_state(rows@, picture.id, 1).1,
        ]);
    }
    PictureWithShows { id: picture.id, word: picture.word.clone(), shows, hashs }
}

/// What is shown of the catalogue: each picture, in order, with what the
/// rows say of its sides.
pub fn pictures_with_shows(pictures: &Vec<Picture>, rows: &Vec<(i32, i32, bool, i32)>) -> (shown:
    Vec<PictureWithShows>)
    requires
        forall|i: int| 0 <= i < pictures@.len() ==> sides_in_range(rows@, (#[trigger] pictures@[i]).id),
    ensures
        shown@.len() == pictures@.len(),
        forall|i: int|
            0 <= i < pictures@.len() ==> {
                &&& (#[trigger] shown@[i]).id == pictures@[i].id
                &&& shown@[i].word@ == pictures@[i].word@
                &&& shown@[i].shows@ == seq![
                    side_state(rows@, pictures@[i].id, 0).0,
                    side_state(rows@, pictures@[i].id, 1).0,
                ]
                &&& shown@[i].hashs@ == seq![
                    side_state(rows@, pictures@[i].id, 0).1,
                    side_state(rows@, pictures@[i].id, 1).1,
                ]
            },
{
    let mut shown: Vec<PictureWithShows> = Vec::new();
    let mut i: usize = 0;
    while i < pictures.len()
        invariant
            i <= pictures@.len(),
            shown@.len() == i,
            forall|j: int|
                0 <= j < pictures@.len() ==> sides_in_range(rows@, (#[trigger] pictures@[j]).id),
            forall|j: int|
                0 <= j < i ==> {
                    &&& (#[trigger] shown@[j]).id == pictures@[j].id
                    &&& shown@[j].word@ == pictures@[j].word@
                    &&& shown@[j].shows@ == seq![
                        side_state(rows@, pictures@[j].id, 0).0,
                        side_state(rows@, pictures@[j].id, 1).0,
                    ]
                    &&& shown@[j].hashs@ == seq![
                        side_state(rows@, pictures@[j].id, 0).1,
                        side_state(rows@, pictures@[j].id, 1).1,
                    ]
                },
        decreases pictures@.len() - i,
    {
        shown.push(picture_with_shows(&pictures[i], rows));
        i += 1;
    }
    shown
}

} // verus!
