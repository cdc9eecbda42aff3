use tube_client::decode::{
    list_from, list_of, number_of, optional_list_of, optional_record_of, optional_text_of,
    record_of, text_of, FromJson,
};
use tube_client::json::Json;
use tube_client::model::{
    FieldValue, Media, MediaEntry, MediaPackage, PurlEntry, QueryResult, SearchEntry,
    SearchRequest, SearchResults, SeriesRequest, Video,
};

fn text(s: &str) -> Json {
    Json::Text(s.to_owned())
}

fn object(members: Vec<(&str, Json)>) -> Json {
    Json::Object(members.into_iter().map(|(name, value)| (name.to_owned(), value)).collect())
}

fn values(items: Vec<&str>) -> Json {
    Json::Array(items.into_iter().map(|s| object(vec![("value", text(s))])).collect())
}

fn video_track() -> Json {
    object(vec![
        ("id", text("track-1")),
        ("mimetype", text("video/mp4")),
        ("url", text("https://tube.tugraz.at/static/a.mp4")),
        ("video", object(vec![("id", text("video-1")), ("resolution", text("1280x720"))])),
    ])
}

fn audio_track() -> Json {
    object(vec![
        ("id", text("track-2")),
        ("mimetype", text("audio/mp3")),
        ("url", text("not a url")),
    ])
}

fn episode() -> Json {
    object(vec![
        ("id", text("ep-1")),
        ("dcTitle", text("Lecture 1")),
        ("dcCreator", text("Ada")),
        ("dcCreated", text("2023-03-01T10:00:00Z")),
        ("mediapackage", object(vec![
            ("duration", Json::Number(Some(5400000))),
            ("id", text("ep-1")),
            ("media", object(vec![("track", Json::Array(vec![video_track(), audio_track()]))])),
        ])),
    ])
}

#[test]
fn video_needs_both_strings() {
    let both = object(vec![("id", text("v")), ("resolution", text("1920x1080"))]);
    assert_eq!(
        Video::from_json(&both),
        Some(Video { id: "v".to_owned(), resolution: "1920x1080".to_owned() })
    );
    assert_eq!(Video::from_json(&object(vec![("id", text("v"))])), None);
    assert_eq!(
        Video::from_json(&object(vec![("id", text("v")), ("resolution", Json::Number(Some(1)))])),
        None
    );
    assert_eq!(
        Video::from_json(&object(vec![("id", Json::Null), ("resolution", text("x"))])),
        None
    );
    assert_eq!(Video::from_json(&Json::Array(vec![text("v"), text("x")])), None);
}

#[test]
fn unknown_members_are_passed_over() {
    let more = object(vec![
        ("extra", Json::Bool(true)),
        ("id", text("v")),
        ("resolution", text("1x1")),
    ]);
    assert_eq!(
        Video::from_json(&more),
        Some(Video { id: "v".to_owned(), resolution: "1x1".to_owned() })
    );
}

#[test]
fn a_track_is_video_bearing_only_with_a_video_member() {
    let with = MediaEntry::from_json(&video_track()).unwrap();
    assert_eq!(
        with.video,
        Some(Video { id: "video-1".to_owned(), resolution: "1280x720".to_owned() })
    );
    assert_eq!(with.url, "https://tube.tugraz.at/static/a.mp4");
    let without = MediaEntry::from_json(&audio_track()).unwrap();
    assert_eq!(without.video, None);
    assert_eq!(without.url, "not a url");
    assert_eq!(without.mimetype, "audio/mp3");
}

#[test]
fn a_null_video_is_no_video_and_a_broken_one_spoils_the_track() {
    let null = object(vec![
        ("id", text("t")),
        ("mimetype", text("m")),
        ("url", text("u")),
        ("video", Json::Null),
    ]);
    assert_eq!(MediaEntry::from_json(&null).map(|t| t.video), Some(None));
    let broken = object(vec![
        ("id", text("t")),
        ("mimetype", text("m")),
        ("url", text("u")),
        ("video", object(vec![("id", text("v"))])),
    ]);
    assert_eq!(MediaEntry::from_json(&broken), None);
}

#[test]
fn media_lists_its_tracks_in_order() {
    let media = Media::from_json(&object(vec![(
        "track",
        Json::Array(vec![audio_track(), video_track()]),
    )]))
    .unwrap();
    assert_eq!(media.track.len(), 2);
    assert_eq!(media.track[0].id, "track-2");
    assert_eq!(media.track[1].id, "track-1");
    assert_eq!(Media::from_json(&object(vec![("track", video_track())])), None);
    assert_eq!(Media::from_json(&object(vec![])), None);
    assert_eq!(
        Media::from_json(&object(vec![("track", Json::Array(vec![]))])),
        Some(Media { track: vec![] })
    );
}

#[test]
fn one_broken_track_spoils_the_list() {
    let tracks = Json::Array(vec![video_track(), object(vec![("id", text("t"))]), audio_track()]);
    assert_eq!(list_from::<MediaEntry>(&tracks), None);
    assert_eq!(Media::from_json(&object(vec![("track", tracks)])), None);
}

#[test]
fn media_package_needs_a_duration_that_fits() {
    let package = |duration: Json| {
        object(vec![
            ("duration", duration),
            ("id", text("p")),
            ("media", object(vec![("track", Json::Array(vec![]))])),
        ])
    };
    assert_eq!(
        MediaPackage::from_json(&package(Json::Number(Some(4294967295)))).map(|p| p.duration),
        Some(4294967295)
    );
    assert_eq!(MediaPackage::from_json(&package(Json::Number(Some(4294967296)))), None);
    assert_eq!(MediaPackage::from_json(&package(Json::Number(None))), None);
    assert_eq!(MediaPackage::from_json(&package(text("5400000"))), None);
}

#[test]
fn episode_maps_the_portals_names() {
    let ep = QueryResult::from_json(&episode()).unwrap();
    assert_eq!(ep.id, "ep-1");
    assert_eq!(ep.title, "Lecture 1");
    assert_eq!(ep.creator, Some("Ada".to_owned()));
    assert_eq!(ep.created, "2023-03-01T10:00:00Z");
    assert_eq!(ep.mediapackage.duration, 5400000);
    assert_eq!(ep.mediapackage.media.track.len(), 2);
}

#[test]
fn episode_may_lack_a_creator_but_not_a_title() {
    let no_creator = object(vec![
        ("id", text("ep-1")),
        ("dcTitle", text("Lecture 1")),
        ("dcCreated", text("2023")),
        ("mediapackage", object(vec![
            ("duration", Json::Number(Some(1))),
            ("id", text("ep-1")),
            ("media", object(vec![("track", Json::Array(vec![]))])),
        ])),
    ]);
    assert_eq!(QueryResult::from_json(&no_creator).map(|e| e.creator), Some(None));
    let no_title = object(vec![
        ("id", text("ep-1")),
        ("dcCreated", text("2023")),
        ("mediapackage", object(vec![
            ("duration", Json::Number(Some(1))),
            ("id", text("ep-1")),
            ("media", object(vec![("track", Json::Array(vec![]))])),
        ])),
    ]);
    assert_eq!(QueryResult::from_json(&no_title), None);
}

#[test]
fn search_results_keep_the_portals_counts() {
    let page = object(vec![
        ("offset", Json::Number(Some(0))),
        ("limit", Json::Number(Some(20))),
        ("total", Json::Number(Some(57))),
        ("searchTime", Json::Number(Some(3))),
        ("result", Json::Array(vec![episode()])),
    ]);
    let results = SearchResults::from_json(&page).unwrap();
    assert_eq!(results.offset, 0);
    assert_eq!(results.limit, 20);
    assert_eq!(results.total, 57);
    assert_eq!(results.search_time, 3);
    assert_eq!(results.results.len(), 1);
    let wrapped = SeriesRequest::from_json(&object(vec![("search-results", page)])).unwrap();
    assert_eq!(wrapped.search_results.total, 57);
    assert_eq!(SeriesRequest::from_json(&object(vec![("search_results", Json::Null)])), None);
}

#[test]
fn search_entry_takes_creator_as_optional() {
    let full = object(vec![
        ("identifier", values(vec!["s-1"])),
        ("creator", values(vec!["Ada"])),
        ("title", values(vec!["Analysis"])),
    ]);
    let entry = SearchEntry::from_json(&full).unwrap();
    assert_eq!(entry.identifier, vec![FieldValue { value: "s-1".to_owned() }]);
    assert_eq!(entry.creator, Some(vec![FieldValue { value: "Ada".to_owned() }]));
    assert_eq!(entry.title, vec![FieldValue { value: "Analysis".to_owned() }]);
    let bare = object(vec![
        ("identifier", values(vec!["s-1"])),
        ("title", values(vec!["Analysis"])),
    ]);
    assert_eq!(SearchEntry::from_json(&bare).map(|e| e.creator), Some(None));
    let broken = object(vec![
        ("identifier", values(vec!["s-1"])),
        ("creator", text("Ada")),
        ("title", values(vec!["Analysis"])),
    ]);
    assert_eq!(SearchEntry::from_json(&broken), None);
    let no_title = object(vec![("identifier", values(vec!["s-1"]))]);
    assert_eq!(SearchEntry::from_json(&no_title), None);
}

#[test]
fn series_are_listed_under_the_catalogue_name() {
    let series = object(vec![(
        "http://purl.org/dc/terms/",
        object(vec![("identifier", values(vec!["s-1"])), ("title", values(vec!["Analysis"]))]),
    )]);
    assert!(PurlEntry::from_json(&series).is_some());
    assert_eq!(PurlEntry::from_json(&object(vec![("body", Json::Null)])), None);
    let found = SearchRequest::from_json(&object(vec![("catalogs", Json::Array(vec![series]))]));
    assert_eq!(found.map(|f| f.catalogs.len()), Some(1));
    assert_eq!(SearchRequest::from_json(&object(vec![])), None);
}

#[test]
fn field_helpers_tell_absent_from_wrong() {
    let doc = object(vec![
        ("s", text("x")),
        ("n", Json::Number(Some(7))),
        ("z", Json::Null),
        ("l", values(vec!["a", "b"])),
        ("v", object(vec![("value", text("w"))])),
    ]);
    assert_eq!(text_of(&doc, "s"), Some("x".to_owned()));
    assert_eq!(text_of(&doc, "n"), None);
    assert_eq!(text_of(&doc, "missing"), None);
    assert_eq!(number_of(&doc, "n"), Some(7));
    assert_eq!(number_of(&doc, "s"), None);
    assert_eq!(optional_text_of(&doc, "s"), Some(Some("x".to_owned())));
    assert_eq!(optional_text_of(&doc, "z"), Some(None));
    assert_eq!(optional_text_of(&doc, "missing"), Some(None));
    assert_eq!(optional_text_of(&doc, "n"), None);
    assert_eq!(record_of::<FieldValue>(&doc, "v"), Some(FieldValue { value: "w".to_owned() }));
    assert_eq!(record_of::<FieldValue>(&doc, "z"), None);
    assert_eq!(optional_record_of::<FieldValue>(&doc, "z"), Some(None));
    assert_eq!(optional_record_of::<FieldValue>(&doc, "s"), None);
    assert_eq!(list_of::<FieldValue>(&doc, "l").map(|l| l.len()), Some(2));
    assert_eq!(list_of::<FieldValue>(&doc, "v"), None);
    assert_eq!(optional_list_of::<FieldValue>(&doc, "missing"), Some(None));
    assert_eq!(optional_list_of::<FieldValue>(&doc, "l").map(|l| l.map(|v| v.len())), Some(Some(2)));
    assert_eq!(optional_list_of::<FieldValue>(&doc, "s"), None);
}
