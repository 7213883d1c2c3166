//! Chunked picture uploads.
//!
//! A client announces the size of a picture, sends it in chunks and asks for
//! it to be finished. The library keeps the sessions of the uploads under
//! way ([`uploader`]), puts the chunks together, and turns the assembled
//! bytes into a main picture, a thumbnail and a fingerprint
//! ([`image_process`]). [`coordinator`] offers the three requests as one
//! front; [`reassembly`], [`orientation`] and [`variant`] hold what is
//! proved of whole uploads, of orientations and of sizes.
//!
//! Pictures are decoded, turned, resampled and encoded by the `image`
//! crate, metadata is read by `kamadak-exif`, bytes are hashed by `seahash`,
//! identifiers are drawn by `rand`, and base64 is decoded by `base64`. What
//! is taken on trust of them is stated where they are called: in
//! [`picture`], [`metadata`], [`hasher`], [`uploader`] and [`transport`].

pub mod catalog;
pub mod coordinator;
pub mod error;
pub mod hasher;
pub mod image_process;
pub mod metadata;
pub mod orientation;
pub mod picture;
pub mod reassembly;
pub mod transport;
pub mod uploader;
pub mod variant;
