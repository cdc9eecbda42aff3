//! Reading the portal's records out of JSON documents.
//!
//! A record is an object; its fields are members of that object under the
//! portal's names. A member that the record does not know is passed over. A
//! field that may be absent is absent where the member is missing or `null`.
//! Anything else that does not fit (a missing member, a string where a
//! number belongs, a number that is no integer or does not fit 32 bits,
//! anything but an array where a list belongs) means that the document does
//! not spell the record.

use crate::json::{Json, JsonView};
use crate::model::{
    view_of_option, views, FieldValue, FieldValueView, Media, MediaEntry, MediaEntryView,
    MediaPackage, MediaPackageView, MediaView, PurlEntry, PurlEntryView, QueryResult,
    QueryResultView, SearchEntry, SearchEntryView, SearchRequest, SearchRequestView,
    SearchResults, SearchResultsView, SeriesRequest, SeriesRequestView, Video, VideoView,
};
use vstd::prelude::*;

verus! {

/// A record that can be read out of a JSON document.
pub trait FromJson: Sized + View {
    /// The record that `document` spells, if it spells one.
    spec fn decoded(document: JsonView) -> Option<Self::V>;

    /// Reads the record that `document` spells.
    fn from_json(document: &Json) -> (record: Option<Self>)
        ensures
            view_of_option(record) == Self::decoded(document@),
    ;
}

/// The string that the member `name` holds.
pub open spec fn text_member(document: JsonView, name: Seq<char>) -> Option<Seq<char>> {
    match document.member(name) {
        Some(value) => value.text(),
        None => None,
    }
}

/// The string that the member `name` holds, where the member may be absent.
pub open spec fn optional_text_member(document: JsonView, name: Seq<char>) -> Option<
    Option<Seq<char>>,
> {
    match document.present(name) {
        None => Some(None),
        Some(value) => match value.text() {
            Some(text) => Some(Some(text)),
            None => None,
        },
    }
}

/// The number that the member `name` holds.
pub open spec fn number_member(document: JsonView, name: Seq<char>) -> Option<u32> {
    match document.member(name) {
        Some(value) => value.number(),
        None => None,
    }
}

/// The record that the member `name` holds.
pub open spec fn record_member<T: FromJson>(document: JsonView, name: Seq<char>) -> Option<T::V> {
    match document.member(name) {
        Some(value) => T::decoded(value),
        None => None,
    }
}

/// The record that the member `name` holds, where the member may be absent.
pub open spec fn optional_record_member<T: FromJson>(
    document: JsonView,
    name: Seq<char>,
) -> Option<Option<T::V>> {
    match document.present(name) {
        None => Some(None),
        Some(value) => match T::decoded(value) {
            Some(record) => Some(Some(record)),
            None => None,
        },
    }
}

/// The records that `items` spell, in order; none unless every one of them
/// spells a record.
pub open spec fn each_decoded<T: FromJson>(items: Seq<JsonView>) -> Option<Seq<T::V>> {
    if forall|i: int| 0 <= i < items.len() ==> (#[trigger] T::decoded(items[i])) is Some {
        Some(Seq::new(items.len(), |i: int| T::decoded(items[i])->0))
    } else {
        None
    }
}

/// The records that `value` lists, where it is an array.
pub open spec fn list_decoded<T: FromJson>(value: JsonView) -> Option<Seq<T::V>> {
    match value.items() {
        Some(items) => each_decoded::<T>(items),
        None => None,
    }
}

/// The records that the member `name` lists.
pub open spec fn list_member<T: FromJson>(document: JsonView, name: Seq<char>) -> Option<
    Seq<T::V>,
> {
    match document.member(name) {
        Some(value) => list_decoded::<T>(value),
        None => None,
    }
}

/// The records that the member `name` lists, where the member may be absent.
pub open spec fn optional_list_member<T: FromJson>(
    document: JsonView,
    name: Seq<char>,
) -> Option<Option<Seq<T::V>>> {
    match document.present(name) {
        None => Some(None),
        Some(value) => match list_decoded::<T>(value) {
            Some(records) => Some(Some(records)),
            None => None,
        },
    }
}

/// The string that the member `name` holds.
pub fn text_of(document: &Json, name: &str) -> (text: Option<String>)
    ensures
        view_of_option(text) == text_member(document@, name@),
{
    match document.member(name) {
        Some(value) => match value.text() {
            Some(text) => Some(text.clone()),
            None => None,
        },
        None => None,
    }
}

/// The string that the member `name` holds, where the member may be absent.
/// The outer `None` says that the member holds something else.
pub fn optional_text_of(document: &Json, name: &str) -> (text: Option<Option<String>>)
    ensures
        match text {
            Some(inner) => optional_text_member(document@, name@) == Some(view_of_option(inner)),
            None => optional_text_member(document@, name@) is None,
        },
{
    match document.present(name) {
        None => Some(None),
        Some(value) => match value.text() {
            Some(text) => Some(Some(text.clone())),
            None => None,
        },
    }
}

/// The number that the member `name` holds.
pub fn number_of(document: &Json, name: &str) -> (number: Option<u32>)
    ensures
        number == number_member(document@, name@),
{
    match document.member(name) {
        Some(value) => value.number(),
        None => None,
    }
}

/// The record that the member `name` holds.
pub fn record_of<T: FromJson>(document: &Json, name: &str) -> (record: Option<T>)
    ensures
        view_of_option(record) == record_member::<T>(document@, name@),
{
    match document.member(name) {
        Some(value) => T::from_json(value),
        None => None,
    }
}

/// The record that the member `name` holds, where the member may be absent.
/// The outer `None` says that the member holds something else.
pub fn optional_record_of<T: FromJson>(document: &Json, name: &str) -> (record: Option<Option<T>>)
    ensures
        match record {
            Some(inner) => optional_record_member::<T>(document@, name@) == Some(
                view_of_option(inner),
            ),
            None => optional_record_member::<T>(document@, name@) is None,
        },
{
    match document.present(name) {
        None => Some(None),
        Some(value) => match T::from_json(value) {
            Some(record) => Some(Some(record)),
            None => None,
        },
    }
}

/// The records that `value` lists, where it is an array.
pub fn list_from<T: FromJson>(value: &Json) -> (records: Option<Vec<T>>)
    ensures
        match records {
            Some(list) => list_decoded::<T>(value@) == Some(views(list@)),
            None => list_decoded::<T>(value@) is None,
        },
{
    let items = match value.items() {
        Some(items) => items,
        None => {
            return None;
        },
    };
    let ghost spelled = value@.items()->0;
    let mut list: Vec<T> = Vec::new();
    let mut i: usize = 0;
    while i < items.len()
        invariant
            i <= items.len(),
            list@.len() == i,
            value@.items() == Some(spelled),
            spelled == items@.map_values(|j: Json| j@),
            forall|k: int| 0 <= k < i ==> T::decoded(#[trigger] spelled[k]) == Some(list@[k]@),
        decreases items.len() - i,
    {
        assert(spelled[i as int] == items@[i as int]@);
        match T::from_json(&items[i]) {
            Some(record) => {
                list.push(record);
            },
            None => {
                assert(T::decoded(spelled[i as int]) is None);
                return None;
            },
        }
        i += 1;
    }
    assert forall|k: int| 0 <= k < spelled.len() implies (#[trigger] T::decoded(
        spelled[k],
    )) is Some by {
        assert(T::decoded(spelled[k]) == Some(list@[k]@));
    }
    assert(each_decoded::<T>(spelled)->0 =~= views(list@));
    Some(list)
}

/// The records that the member `name` lists.
pub fn list_of<T: FromJson>(document: &Json, name: &str) -> (records: Option<Vec<T>>)
    ensures
        match records {
            Some(list) => list_member::<T>(document@, name@) == Some(views(list@)),
            None => list_member::<T>(document@, name@) is None,
        },
{
    match document.member(name) {
        Some(value) => list_from(value),
        None => None,
    }
}

/// The records that the member `name` lists, where the member may be absent.
/// The outer `None` says that the member holds something else.
pub fn optional_list_of<T: FromJson>(document: &Json, name: &str) -> (records: Option<
    Option<Vec<T>>,
>)
    ensures
        match records {
            Some(Some(list)) => optional_list_member::<T>(document@, name@) == Some(
                Some(views(list@)),
            ),
            Some(None) => optional_list_member::<T>(document@, name@) == Some(
                None::<Seq<T::V>>,
            ),
            None => optional_list_member::<T>(document@, name@) is None,
        },
{
    match document.present(name) {
        None => Some(None),
        Some(value) => match list_from(value) {
            Some(list) => Some(Some(list)),
            None => None,
        },
    }
}

impl FromJson for Video {
    open spec fn decoded(document: JsonView) -> Option<VideoView> {
        match (text_member(document, "id"@), text_member(document, "resolution"@)) {
            (Some(id), Some(resolution)) => Some(VideoView { id, resolution }),
            _ => None,
        }
    }

    fn from_json(document: &Json) -> (record: Option<Video>) {
        let id = match text_of(document, "id") {
            Some(v) => v,
            None => {
                return None;
            },
        };
        let resolution = match text_of(document, "resolution") {
            Some(v) => v,
            None => {
                return None;
            },
        };
        Some(Video { id, resolution })
    }
}

impl FromJson for MediaEntry {
    open spec fn decoded(document: JsonView) -> Option<MediaEntryView> {
        match (
            text_member(document, "id"@),
            text_member(document, "mimetype"@),
            text_member(document, "url"@),
            optional_record_member::<Video>(document, "video"@),
        ) {
            (Some(id), Some(mimetype), Some(url), Some(video)) => Some(
                MediaEntryView { id, mimetype, url, video },
            ),
            _ => None,
        }
    }

    fn from_json(document: &Json) -> (record: Option<MediaEntry>) {
        let id = match text_of(document, "id") {
            Some(v) => v,
            None => {
                return None;
            },
        };
        let mimetype = match text_of(document, "mimetype") {
            Some(v) => v,
            None => {
                return None;
            },
        };
        let url = match text_of(document, "url") {
            Some(v) => v,
            None => {
                return None;
            },
        };
        let video = match optional_record_of::<Video>(document, "video") {
            Some(v) => v,
            None => {
                return None;
            },
        };
        Some(MediaEntry { id, mimetype, url, video })
    }
}

impl FromJson for Media {
    open spec fn decoded(document: JsonView) -> Option<MediaView> {
        match list_member::<MediaEntry>(document, "track"@) {
            Some(track) => Some(MediaView { track }),
            None => None,
        }
    }

    fn from_json(document: &Json) -> (record: Option<Media>) {
        match list_of::<MediaEntry>(document, "track") {
            Some(track) => Some(Media { track }),
            None => None,
        }
    }
}

impl FromJson for MediaPackage {
    open spec fn decoded(document: JsonView) -> Option<MediaPackageView> {
        match (
            number_member(document, "duration"@),
            text_member(document, "id"@),
            record_member::<Media>(document, "media"@),
        ) {
            (Some(duration), Some(id), Some(media)) => Some(
                MediaPackageView { duration, id, media },
            ),
            _ => None,
        }
    }

    fn from_json(document: &Json) -> (record: Option<MediaPackage>) {
        let duration = match number_of(document, "duration") {
            Some(v) => v,
            None => {
                return None;
            },
        };
        let id = match text_of(document, "id") {
            Some(v) => v,
            None => {
                return None;
            },
        };
        let media = match record_of::<Media>(document, "media") {
            Some(v) => v,
            None => {
                return None;
            },
        };
        Some(MediaPackage { duration, id, media })
    }
}

impl FromJson for QueryResult {
    open spec fn decoded(document: JsonView) -> Option<QueryResultView> {
        match (
            text_member(document, "id"@),
            text_member(document, "dcTitle"@),
            optional_text_member(document, "dcCreator"@),
            text_member(document, "dcCreated"@),
            record_member::<MediaPackage>(document, "mediapackage"@),
        ) {
            (Some(id), Some(title), Some(creator), Some(created), Some(mediapackage)) => Some(
                QueryResultView { id, title, creator, created, mediapackage },
            ),
            _ => None,
        }
    }

    fn from_json(document: &Json) -> (record: Option<QueryResult>) {
        let id = match text_of(document, "id") {
            Some(v) => v,
            None => {
                return None;
            },
        };
        let title = match text_of(document, "dcTitle") {
            Some(v) => v,
            None => {
                return None;
            },
        };
        let creator = match optional_text_of(document, "dcCreator") {
            Some(v) => v,
            None => {
                return None;
            },
        };
        let created = match text_of(document, "dcCreated") {
            Some(v) => v,
            None => {
                return None;
            },
        };
        let mediapackage = match record_of::<MediaPackage>(document, "mediapackage") {
            Some(v) => v,
            None => {
                return None;
            },
        };
        Some(QueryResult { id, title, creator, created, mediapackage })
    }
}

impl FromJson for SearchResults {
    open spec fn decoded(document: JsonView) -> Option<SearchResultsView> {
        match (
            number_member(document, "offset"@),
            number_member(document, "limit"@),
            number_member(document, "total"@),
            number_member(document, "searchTime"@),
            list_member::<QueryResult>(document, "result"@),
        ) {
            (Some(offset), Some(limit), Some(total), Some(search_time), Some(results)) => Some(
                SearchResultsView { offset, limit, total, search_time, results },
            ),
            _ => None,
        }
    }

    fn from_json(document: &Json) -> (record: Option<SearchResults>) {
        let offset = match number_of(document, "offset") {
            Some(v) => v,
            None => {
                return None;
            },
        };
        let limit = match number_of(document, "limit") {
            Some(v) => v,
            None => {
                return None;
            },
        };
        let total = match number_of(document, "total") {
            Some(v) => v,
            None => {
                return None;
            },
        };
        let search_time = match number_of(document, "searchTime") {
            Some(v) => v,
            None => {
                return None;
            },
        };
        let results = match list_of::<QueryResult>(document, "result") {
            Some(v) => v,
            None => {
                return None;
            },
        };
        Some(SearchResults { offset, limit, total, search_time, results })
    }
}

impl FromJson for SeriesRequest {
    open spec fn decoded(document: JsonView) -> Option<SeriesRequestView> {
        match record_member::<SearchResults>(document, "search-results"@) {
            Some(search_results) => Some(SeriesRequestView { search_results }),
            None => None,
        }
    }

    fn from_json(document: &Json) -> (record: Option<SeriesRequest>) {
        match record_of::<SearchResults>(document, "search-results") {
            Some(search_results) => Some(SeriesRequest { search_results }),
            None => None,
        }
    }
}

impl FromJson for FieldValue {
    open spec fn decoded(document: JsonView) -> Option<FieldValueView> {
        match text_member(document, "value"@) {
            Some(value) => Some(FieldValueView { value }),
            None => None,
        }
    }

    fn from_json(document: &Json) -> (record: Option<FieldValue>) {
        match text_of(document, "value") {
            Some(value) => Some(FieldValue { value }),
            None => None,
        }
    }
}

impl FromJson for SearchEntry {
    open spec fn decoded(document: JsonView) -> Option<SearchEntryView> {
        match (
            list_member::<FieldValue>(document, "identifier"@),
            optional_list_member::<FieldValue>(document, "creator"@),
            list_member::<FieldValue>(document, "title"@),
        ) {
            (Some(identifier), Some(creator), Some(title)) => Some(
                SearchEntryView { identifier, creator, title },
            ),
            _ => None,
        }
    }

    fn from_json(document: &Json) -> (record: Option<SearchEntry>) {
        let identifier = match list_of::<FieldValue>(document, "identifier") {
            Some(v) => v,
            None => {
                return None;
            },
        };
        let creator = match optional_list_of::<FieldValue>(document, "creator") {
            Some(v) => v,
            None => {
                return None;
            },
        };
        let title = match list_of::<FieldValue>(document, "title") {
            Some(v) => v,
            None => {
                return None;
            },
        };
        Some(SearchEntry { identifier, creator, title })
    }
}

impl FromJson for PurlEntry {
    open spec fn decoded(document: JsonView) -> Option<PurlEntryView> {
        match record_member::<SearchEntry>(document, "http://purl.org/dc/terms/"@) {
            Some(body) => Some(PurlEntryView { body }),
            None => None,
        }
    }

    fn from_json(document: &Json) -> (record: Option<PurlEntry>) {
        match record_of::<SearchEntry>(document, "http://purl.org/dc/terms/") {
            Some(body) => Some(PurlEntry { body }),
            None => None,
        }
    }
}

impl FromJson for SearchRequest {
    open spec fn decoded(document: JsonView) -> Option<SearchRequestView> {
        match list_member::<PurlEntry>(document, "catalogs"@) {
            Some(catalogs) => Some(SearchRequestView { catalogs }),
            None => None,
        }
    }

    fn from_json(document: &Json) -> (record: Option<SearchRequest>) {
        match list_of::<PurlEntry>(document, "catalogs") {
            Some(catalogs) => Some(SearchRequest { catalogs }),
            None => None,
        }
    }
}

/// A track has a picture stream exactly where its document has a `video`
/// member that is not `null`, and then address and resolution are the
/// document's own strings, whatever they hold.
pub proof fn lemma_video_follows_the_member(document: JsonView)
    requires
        MediaEntry::decoded(document) is Some,
    ensures
        MediaEntry::decoded(document)->0.video is Some <==> document.present("video"@) is Some,
        Some(MediaEntry::decoded(document)->0.url) == text_member(document, "url"@),
        MediaEntry::decoded(document)->0.video matches Some(video) ==> Some(video.resolution)
            == text_member(document.present("video"@)->0, "resolution"@),
{
}

/// A series has a creator exactly where its document has a `creator` member
/// that is not `null`.
pub proof fn lemma_creator_follows_the_member(document: JsonView)
    requires
        SearchEntry::decoded(document) is Some,
    ensures
        SearchEntry::decoded(document)->0.creator is Some <==> document.present("creator"@)
            is Some,
{
}

} // verus!
