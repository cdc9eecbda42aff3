//! The records that the portal's two search endpoints answer with.
//!
//! Each record keeps the layout of the portal's JSON, so a field here is a
//! member there. The view of a record is the same record over sequences.

use vstd::prelude::*;

verus! {

/// The views of the elements of `items`, in order.
pub open spec fn views<T: View>(items: Seq<T>) -> Seq<T::V> {
    items.map_values(|item: T| item@)
}

/// The view of what `item` holds, if it holds anything.
pub open spec fn view_of_option<T: View>(item: Option<T>) -> Option<T::V> {
    match item {
        Some(inner) => Some(inner@),
        None => None,
    }
}

/// The picture stream of a track.
#[derive(Debug, PartialEq, Eq)]
pub struct Video {
    pub id: String,
    /// Width and height as the portal words them, such as `1920x1080`.
    pub resolution: String,
}

pub struct VideoView {
    pub id: Seq<char>,
    pub resolution: Seq<char>,
}

impl View for Video {
    type V = VideoView;

    open spec fn view(&self) -> VideoView {
        VideoView { id: self.id@, resolution: self.resolution@ }
    }
}

/// One media file of an episode. A track without a picture stream has no
/// `video`.
#[derive(Debug, PartialEq, Eq)]
pub struct MediaEntry {
    pub id: String,
    pub mimetype: String,
    pub url: String,
    pub video: Option<Video>,
}

pub struct MediaEntryView {
    pub id: Seq<char>,
    pub mimetype: Seq<char>,
    pub url: Seq<char>,
    pub video: Option<VideoView>,
}

impl View for MediaEntry {
    type V = MediaEntryView;

    open spec fn view(&self) -> MediaEntryView {
        MediaEntryView {
            id: self.id@,
            mimetype: self.mimetype@,
            url: self.url@,
            video: view_of_option(self.video),
        }
    }
}

/// The media files of an episode, in the portal's order.
#[derive(Debug, PartialEq, Eq)]
pub struct Media {
    pub track: Vec<MediaEntry>,
}

pub struct MediaView {
    pub track: Seq<MediaEntryView>,
}

impl View for Media {
    type V = MediaView;

    open spec fn view(&self) -> MediaView {
        MediaView { track: views(self.track@) }
    }
}

/// What an episode consists of.
#[derive(Debug, PartialEq, Eq)]
pub struct MediaPackage {
    /// The running time.
    pub duration: u32,
    pub id: String,
    pub media: Media,
}

pub struct MediaPackageView {
    pub duration: u32,
    pub id: Seq<char>,
    pub media: MediaView,
}

impl View for MediaPackage {
    type V = MediaPackageView;

    open spec fn view(&self) -> MediaPackageView {
        MediaPackageView { duration: self.duration, id: self.id@, media: self.media@ }
    }
}

/// One episode: a recorded lecture.
#[derive(Debug, PartialEq, Eq)]
pub struct QueryResult {
    pub id: String,
    pub title: String,
    pub creator: Option<String>,
    /// When it was recorded, as the portal words it.
    pub created: String,
    pub mediapackage: MediaPackage,
}

pub struct QueryResultView {
    pub id: Seq<char>,
    pub title: Seq<char>,
    pub creator: Option<Seq<char>>,
    pub created: Seq<char>,
    pub mediapackage: MediaPackageView,
}

impl View for QueryResult {
    type V = QueryResultView;

    open spec fn view(&self) -> QueryResultView {
        QueryResultView {
            id: self.id@,
            title: self.title@,
            creator: view_of_option(self.creator),
            created: self.created@,
            mediapackage: self.mediapackage@,
        }
    }
}

/// One page of episodes with the portal's counts. `total` counts all
/// episodes that match and may exceed the number of `results`.
#[derive(Debug, PartialEq, Eq)]
pub struct SearchResults {
    pub offset: u32,
    pub limit: u32,
    pub total: u32,
    pub search_time: u32,
    pub results: Vec<QueryResult>,
}

pub struct SearchResultsView {
    pub offset: u32,
    pub limit: u32,
    pub total: u32,
    pub search_time: u32,
    pub results: Seq<QueryResultView>,
}

impl View for SearchResults {
    type V = SearchResultsView;

    open spec fn view(&self) -> SearchResultsView {
        SearchResultsView {
            offset: self.offset,
            limit: self.limit,
            total: self.total,
            search_time: self.search_time,
            results: views(self.results@),
        }
    }
}

/// The answer to a request for the episodes of a series.
#[derive(Debug, PartialEq, Eq)]
pub struct SeriesRequest {
    pub search_results: SearchResults,
}

pub struct SeriesRequestView {
    pub search_results: SearchResultsView,
}

impl View for SeriesRequest {
    type V = SeriesRequestView;

    open spec fn view(&self) -> SeriesRequestView {
        SeriesRequestView { search_results: self.search_results@ }
    }
}

/// One value of a catalogue field.
#[derive(Debug, PartialEq, Eq)]
pub struct FieldValue {
    pub value: String,
}

pub struct FieldValueView {
    pub value: Seq<char>,
}

impl View for FieldValue {
    type V = FieldValueView;

    open spec fn view(&self) -> FieldValueView {
        FieldValueView { value: self.value@ }
    }
}

/// The catalogue fields of a series. The portal gives every field as a list
/// of values, of which only the first counts.
#[derive(Debug, PartialEq, Eq)]
pub struct SearchEntry {
    pub identifier: Vec<FieldValue>,
    pub creator: Option<Vec<FieldValue>>,
    pub title: Vec<FieldValue>,
}

pub struct SearchEntryView {
    pub identifier: Seq<FieldValueView>,
    pub creator: Option<Seq<FieldValueView>>,
    pub title: Seq<FieldValueView>,
}

impl View for SearchEntry {
    type V = SearchEntryView;

    open spec fn view(&self) -> SearchEntryView {
        SearchEntryView {
            identifier: views(self.identifier@),
            creator: match self.creator {
                Some(values) => Some(views(values@)),
                None => None,
            },
            title: views(self.title@),
        }
    }
}

/// One series as the portal lists it: its catalogue fields under the
/// catalogue's name.
#[derive(Debug, PartialEq, Eq)]
pub struct PurlEntry {
    pub body: SearchEntry,
}

pub struct PurlEntryView {
    pub body: SearchEntryView,
}

impl View for PurlEntry {
    type V = PurlEntryView;

    open spec fn view(&self) -> PurlEntryView {
        PurlEntryView { body: self.body@ }
    }
}

/// The answer to a search for series, in the portal's order.
#[derive(Debug, PartialEq, Eq)]
pub struct SearchRequest {
    pub catalogs: Vec<PurlEntry>,
}

pub struct SearchRequestView {
    pub catalogs: Seq<PurlEntryView>,
}

impl View for SearchRequest {
    type V = SearchRequestView;

    open spec fn view(&self) -> SearchRequestView {
        SearchRequestView { catalogs: views(self.catalogs@) }
    }
}

/// A series in short: the first value of each catalogue field.
#[derive(Debug, PartialEq, Eq)]
pub struct SeriesSummary {
    pub identifier: String,
    pub title: String,
    pub creator: Option<String>,
}

pub struct SeriesSummaryView {
    pub identifier: Seq<char>,
    pub title: Seq<char>,
    pub creator: Option<Seq<char>>,
}

impl View for SeriesSummary {
    type V = SeriesSummaryView;

    open spec fn view(&self) -> SeriesSummaryView {
        SeriesSummaryView {
            identifier: self.identifier@,
            title: self.title@,
            creator: view_of_option(self.creator),
        }
    }
}

impl SearchEntryView {
    /// The series in short. There is none where the identifier or the title
    /// has no value, or where a creator is listed without a value.
    pub open spec fn summary(self) -> Option<SeriesSummaryView> {
        if self.identifier.len() == 0 || self.title.len() == 0 {
            None
        } else {
            match self.creator {
                None => Some(
                    SeriesSummaryView {
                        identifier: self.identifier[0].value,
                        title: self.title[0].value,
                        creator: None,
                    },
                ),
                Some(values) => if values.len() == 0 {
                    None
                } else {
                    Some(
                        SeriesSummaryView {
                            identifier: self.identifier[0].value,
                            title: self.title[0].value,
                            creator: Some(values[0].value),
                        },
                    )
                },
            }
        }
    }
}

/// The links to the picture streams among `tracks`, in order: for every
/// track that has a `video`, the resolution as the label and the track's
/// address. A track without a `video` gives no link.
pub open spec fn video_links(tracks: Seq<MediaEntryView>) -> Seq<(Seq<char>, Seq<char>)>
    decreases tracks.len(),
{
    if tracks.len() == 0 {
        Seq::empty()
    } else {
        let before = video_links(tracks.drop_last());
        match tracks.last().video {
            Some(video) => before.push((video.resolution, tracks.last().url)),
            None => before,
        }
    }
}

/// The views of links.
pub open spec fn links_view(links: Seq<(String, String)>) -> Seq<(Seq<char>, Seq<char>)> {
    links.map_values(|link: (String, String)| (link.0@, link.1@))
}

impl QueryResult {
    /// The links to the episode's picture streams, each a label and an
    /// address, in the order of the tracks.
    pub fn video_links(&self) -> (links: Vec<(String, String)>)
        ensures
            links_view(links@) == video_links(self@.mediapackage.media.track),
    {
        let tracks = &self.mediapackage.media.track;
        let ghost all = self@.mediapackage.media.track;
        let mut links: Vec<(String, String)> = Vec::new();
        let mut i: usize = 0;
        assert(links_view(links@) =~= video_links(all.take(0)));
        while i < tracks.len()
            invariant
                i <= tracks.len(),
                all == views(tracks@),
                links_view(links@) == video_links(all.take(i as int)),
            decreases tracks.len() - i,
        {
            let ghost before = links@;
            assert(all.take(i + 1).drop_last() == all.take(i as int));
            assert(all.take(i + 1).last() == tracks@[i as int]@);
            match &tracks[i].video {
                Some(video) => {
                    links.push((video.resolution.clone(), tracks[i].url.clone()));
                    assert(links_view(links@) =~= links_view(before).push(
                        (video.resolution@, tracks@[i as int].url@),
                    ));
                },
                None => {},
            }
            i += 1;
        }
        assert(all.take(i as int) == all);
        links
    }
}

/// The series of `entries` in short, in order; none unless every entry has
/// a summary.
pub open spec fn summaries(entries: Seq<PurlEntryView>) -> Option<Seq<SeriesSummaryView>> {
    if forall|i: int| 0 <= i < entries.len() ==> (#[trigger] entries[i]).body.summary() is Some {
        Some(Seq::new(entries.len(), |i: int| entries[i].body.summary()->0))
    } else {
        None
    }
}

impl SearchRequest {
    /// The series that were found, each in short, in the portal's order.
    /// There is no such list where one of them has no summary.
    pub fn summaries(&self) -> (found: Option<Vec<SeriesSummary>>)
        ensures
            match found {
                Some(list) => summaries(self@.catalogs) == Some(views(list@)),
                None => summaries(self@.catalogs) is None,
            },
    {
        let ghost all = self@.catalogs;
        let mut list: Vec<SeriesSummary> = Vec::new();
        let mut i: usize = 0;
        while i < self.catalogs.len()
            invariant
                i <= self.catalogs.len(),
                list@.len() == i,
                all == views(self.catalogs@),
                forall|k: int|
                    0 <= k < i ==> (#[trigger] all[k]).body.summary() == Some(list@[k]@),
            decreases self.catalogs.len() - i,
        {
            assert(all[i as int] == self.catalogs@[i as int]@);
            match self.catalogs[i].body.summary() {
                Some(short) => {
                    list.push(short);
                },
                None => {
                    assert(all[i as int].body.summary() is None);
                    return None;
                },
            }
            i += 1;
        }
        assert forall|k: int| 0 <= k < all.len() implies (#[trigger] all[k]).body.summary()
            is Some by {
            assert(all[k].body.summary() == Some(list@[k]@));
        }
        assert(summaries(all)->0 =~= views(list@));
        Some(list)
    }
}

impl SearchEntry {
    /// The series in short: the first value of the identifier, of the title
    /// and, where one is listed, of the creator.
    pub fn summary(&self) -> (short: Option<SeriesSummary>)
        ensures
            view_of_option(short) == self@.summary(),
    {
        if self.identifier.len() == 0 || self.title.len() == 0 {
            return None;
        }
        let creator = match &self.creator {
            None => None,
            Some(values) => {
                if values.len() == 0 {
                    return None;
                }
                Some(values[0].value.clone())
            },
        };
        Some(
            SeriesSummary {
                identifier: self.identifier[0].value.clone(),
                title: self.title[0].value.clone(),
                creator,
            },
        )
    }
}

} // verus!
