//! Uploads of one feed: the item type, the fields the content API must
//! supply for it, and the validation that turns raw playlist entries into
//! items the engine can dispatch.

use vstd::prelude::*;

verus! {

/// A required field that a content-API response failed to carry.
#[derive(Clone, Copy, PartialEq, Eq, Structural, Debug)]
pub enum MissingContent {
    ContentDetails,
    VideoId,
    VideoPublishedAt,
    VideoDuration,
    Snippet,
    CategoryId,
    VideoCategories,
    VideoCategoryTitle,
    Localized,
    VideoTitle,
    ChannelTitle,
}

impl MissingContent {
    /// Diagnostic name of the missing field.
    pub fn as_text(&self) -> (r: &'static str)
        ensures
            r@ == self.spec_text(),
    {
        match self {
            MissingContent::ContentDetails => "ContentDetails",
            MissingContent::VideoId => "VideoId",
            MissingContent::VideoPublishedAt => "VideoPublishedAt",
            MissingContent::VideoDuration => "VideoDuration",
            MissingContent::Snippet => "Snippet",
            MissingContent::CategoryId => "CategoryId",
            MissingContent::VideoCategories => "VideoCategories",
            MissingContent::VideoCategoryTitle => "VideoCategoryTitle",
            MissingContent::Localized => "Localized",
            MissingContent::VideoTitle => "VideoTitle",
            MissingContent::ChannelTitle => "ChannelTitle",
        }
    }

    pub open spec fn spec_text(&self) -> Seq<char> {
        match self {
            MissingContent::ContentDetails => "ContentDetails"@,
            MissingContent::VideoId => "VideoId"@,
            MissingContent::VideoPublishedAt => "VideoPublishedAt"@,
            MissingContent::VideoDuration => "VideoDuration"@,
            MissingContent::Snippet => "Snippet"@,
            MissingContent::CategoryId => "CategoryId"@,
            MissingContent::VideoCategories => "VideoCategories"@,
            MissingContent::VideoCategoryTitle => "VideoCategoryTitle"@,
            MissingContent::Localized => "Localized"@,
            MissingContent::VideoTitle => "VideoTitle"@,
            MissingContent::ChannelTitle => "ChannelTitle"@,
        }
    }
}

/// Reading a feed failed: either the content API call itself, or an entry
/// that lacks a required field. The API failure is carried as its message.
#[derive(Debug)]
pub enum UploadsError {
    YouTube3(String),
    MissingContent(MissingContent),
}

/// One upload observed in a feed. `published_at` is the publish instant in
/// seconds; items of one feed are dispatched in `published_at` order.
pub struct Video {
    pub id: String,
    pub published_at: u64,
}

/// An upload as mathematical values.
pub struct VideoView {
    pub id: Seq<char>,
    pub published_at: u64,
}

impl View for Video {
    type V = VideoView;

    open spec fn view(&self) -> VideoView {
        VideoView { id: self.id@, published_at: self.published_at }
    }
}

/// The per-item fields of one raw playlist entry, each possibly absent.
pub struct ItemDetails {
    pub video_id: Option<String>,
    pub video_published_at: Option<u64>,
}

/// Two uploads are the same observation when id and publish instant agree.
pub open spec fn video_eq(a: Video, b: Video) -> bool {
    a@ == b@
}

impl Video {
    /// An exact copy of this item.
    pub fn duplicate(&self) -> (r: Video)
        ensures
            video_eq(r, *self),
    {
        Video { id: self.id.clone(), published_at: self.published_at }
    }

    /// Validates one raw entry: both the id and the publish instant must be
    /// present, and the id is reported missing first, as the feed reader
    /// treats an absent id as the more fundamental defect.
    pub fn try_from(value: ItemDetails) -> (r: Result<Video, MissingContent>)
        ensures
            value.video_id is Some && value.video_published_at is Some ==> r is Ok
                && r->Ok_0.id@ == value.video_id->Some_0@
                && r->Ok_0.published_at == value.video_published_at->Some_0,
            value.video_id is None ==> r == Result::<Video, MissingContent>::Err(
                MissingContent::VideoId,
            ),
            value.video_id is Some && value.video_published_at is None ==> r == Result::<
                Video,
                MissingContent,
            >::Err(MissingContent::VideoPublishedAt),
    {
        let ItemDetails { video_id, video_published_at } = value;
        let id = match video_id {
            Some(id) => id,
            None => {
                return Err(MissingContent::VideoId);
            },
        };
        let published_at = match video_published_at {
            Some(t) => t,
            None => {
                return Err(MissingContent::VideoPublishedAt);
            },
        };
        Ok(Video { id, published_at })
    }
}

/// Feed pages arrive newest first; dispatch needs oldest first, so that a
/// cursor advanced past an upload implies every older upload was already
/// attempted. This turns a page around.
pub fn reverse_videos(videos: &Vec<Video>) -> (r: Vec<Video>)
    ensures
        r@.len() == videos@.len(),
        forall|i: int|
            0 <= i < r@.len() ==> (#[trigger] r@[i])@ == videos@[videos@.len() - 1 - i]@,
{
    let n = videos.len();
    let mut r: Vec<Video> = Vec::new();
    for i in 0..n
        invariant
            n == videos@.len(),
            r@.len() == i,
            forall|j: int| 0 <= j < i ==> (#[trigger] r@[j])@ == videos@[n - 1 - j]@,
    {
        r.push(videos[n - 1 - i].duplicate());
    }
    r
}

/// What validation of one raw playlist entry yields: the entry itself may be
/// absent (its detail block was not returned), or a field inside it may be.
pub open spec fn spec_item_error(item: Option<ItemDetails>) -> Option<MissingContent> {
    match item {
        Option::None => Some(MissingContent::ContentDetails),
        Option::Some(d) => {
            if d.video_id is None {
                Some(MissingContent::VideoId)
            } else if d.video_published_at is None {
                Some(MissingContent::VideoPublishedAt)
            } else {
                None
            }
        },
    }
}

/// Validates a whole page of raw playlist entries, in order. The first
/// defective entry decides the error; an absent page (`None` from the API)
/// reads as an empty feed.
pub fn videos_from_items(items: Vec<Option<ItemDetails>>) -> (r: Result<Vec<Video>, MissingContent>)
    ensures
        (r is Ok) <==> (forall|i: int|
            0 <= i < items@.len() ==> spec_item_error(#[trigger] items@[i]) is None),
        r is Ok ==> r->Ok_0@.len() == items@.len(),
        r is Ok ==> forall|i: int|
            0 <= i < items@.len() ==> video_eq(
                #[trigger] r->Ok_0@[i],
                Video {
                    id: items@[i]->Some_0.video_id->Some_0,
                    published_at: items@[i]->Some_0.video_published_at->Some_0,
                },
            ),
        r is Err ==> exists|i: int|
            0 <= i < items@.len() && spec_item_error(#[trigger] items@[i]) == Some(r->Err_0)
                && (forall|j: int| 0 <= j < i ==> spec_item_error(#[trigger] items@[j]) is None),
{
    let mut out: Vec<Video> = Vec::new();
    let n = items.len();
    for k in 0..n
        invariant
            n == items@.len(),
            out@.len() == k,
            forall|j: int| 0 <= j < k ==> spec_item_error(#[trigger] items@[j]) is None,
            forall|j: int|
                0 <= j < k ==> video_eq(
                    #[trigger] out@[j],
                    Video {
                        id: items@[j]->Some_0.video_id->Some_0,
                        published_at: items@[j]->Some_0.video_published_at->Some_0,
                    },
                ),
    {
        let details = match &items[k] {
            Some(d) => d,
            None => {
                return Err(MissingContent::ContentDetails);
            },
        };
        let id = match &details.video_id {
            Some(id) => id.clone(),
            None => {
                return Err(MissingContent::VideoId);
            },
        };
        let published_at = match details.video_published_at {
            Some(t) => t,
            None => {
                return Err(MissingContent::VideoPublishedAt);
            },
        };
        out.push(Video { id, published_at });
    }
    Ok(out)
}

} // verus!
