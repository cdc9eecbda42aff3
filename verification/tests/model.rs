use tube_client::model::{
    FieldValue, Media, MediaEntry, MediaPackage, PurlEntry, QueryResult, SearchEntry,
    SearchRequest, SeriesSummary, Video,
};

fn value(s: &str) -> FieldValue {
    FieldValue { value: s.to_owned() }
}

fn track(id: &str, url: &str, resolution: Option<&str>) -> MediaEntry {
    MediaEntry {
        id: id.to_owned(),
        mimetype: "video/mp4".to_owned(),
        url: url.to_owned(),
        video: resolution.map(|r| Video { id: format!("v-{}", id), resolution: r.to_owned() }),
    }
}

fn episode(tracks: Vec<MediaEntry>) -> QueryResult {
    QueryResult {
        id: "ep".to_owned(),
        title: "Lecture".to_owned(),
        creator: None,
        created: "2023".to_owned(),
        mediapackage: MediaPackage {
            duration: 1,
            id: "ep".to_owned(),
            media: Media { track: tracks },
        },
    }
}

#[test]
fn summary_takes_the_first_value_of_each_field() {
    let entry = SearchEntry {
        identifier: vec![value("s-1"), value("s-2")],
        creator: Some(vec![value("Ada"), value("Grace")]),
        title: vec![value("Analysis")],
    };
    assert_eq!(
        entry.summary(),
        Some(SeriesSummary {
            identifier: "s-1".to_owned(),
            title: "Analysis".to_owned(),
            creator: Some("Ada".to_owned()),
        })
    );
}

#[test]
fn summary_without_creator_has_none() {
    let entry =
        SearchEntry { identifier: vec![value("s-1")], creator: None, title: vec![value("T")] };
    assert_eq!(
        entry.summary(),
        Some(SeriesSummary { identifier: "s-1".to_owned(), title: "T".to_owned(), creator: None })
    );
}

#[test]
fn there_is_no_summary_where_a_listed_field_has_no_value() {
    let no_id = SearchEntry { identifier: vec![], creator: None, title: vec![value("T")] };
    assert_eq!(no_id.summary(), None);
    let no_title = SearchEntry { identifier: vec![value("s")], creator: None, title: vec![] };
    assert_eq!(no_title.summary(), None);
    let no_creator =
        SearchEntry { identifier: vec![value("s")], creator: Some(vec![]), title: vec![value("T")] };
    assert_eq!(no_creator.summary(), None);
}

#[test]
fn video_links_skip_tracks_without_a_picture() {
    let ep = episode(vec![
        track("1", "https://a/1.mp4", Some("1920x1080")),
        track("2", "https://a/2.mp3", None),
        track("3", "https://a/3.mp4", Some("1280x720")),
    ]);
    assert_eq!(
        ep.video_links(),
        vec![
            ("1920x1080".to_owned(), "https://a/1.mp4".to_owned()),
            ("1280x720".to_owned(), "https://a/3.mp4".to_owned()),
        ]
    );
    assert!(episode(vec![]).video_links().is_empty());
    assert!(episode(vec![track("2", "u", None)]).video_links().is_empty());
}

#[test]
fn summaries_keep_the_portals_order() {
    let entry = |id: &str, creator: Option<&str>| PurlEntry {
        body: SearchEntry {
            identifier: vec![value(id)],
            creator: creator.map(|c| vec![value(c)]),
            title: vec![value("T")],
        },
    };
    let found = SearchRequest { catalogs: vec![entry("b", None), entry("a", Some("Ada"))] };
    assert_eq!(
        found.summaries(),
        Some(vec![
            SeriesSummary { identifier: "b".to_owned(), title: "T".to_owned(), creator: None },
            SeriesSummary {
                identifier: "a".to_owned(),
                title: "T".to_owned(),
                creator: Some("Ada".to_owned()),
            },
        ])
    );
    assert_eq!(SearchRequest { catalogs: vec![] }.summaries(), Some(vec![]));
}

#[test]
fn one_series_without_summary_spoils_the_list() {
    let good = PurlEntry {
        body: SearchEntry { identifier: vec![value("a")], creator: None, title: vec![value("T")] },
    };
    let bad = PurlEntry {
        body: SearchEntry { identifier: vec![], creator: None, title: vec![value("T")] },
    };
    assert_eq!(SearchRequest { catalogs: vec![good, bad] }.summaries(), None);
}
