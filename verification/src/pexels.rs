//! Stock footage: the shape of a video offered by the stock-footage
//! service.
//!
//! Searching and downloading are network work and run in the embedding;
//! the library only fixes what a result holds.

use vstd::prelude::*;

verus! {

/// One video offered by the stock-footage service.
#[derive(Clone, Debug)]
pub struct PexelsVideo {
    /// The service's identifier for the video.
    pub id: u64,
    /// Width in pixels.
    pub width: u32,
    /// Height in pixels.
    pub height: u32,
    /// Duration in seconds.
    pub duration: u32,
    /// Page of the video on the service.
    pub url: String,
    /// Direct download address of the best quality on offer.
    pub video_url: String,
    /// Thumbnail address.
    pub image: String,
    /// Name of the user who uploaded it.
    pub user: String,
}

} // verus!
