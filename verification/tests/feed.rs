use showfeed::feed::Feed;
use showfeed::feed::Season;
use showfeed::feed::Show;
use showfeed::numeral::u32_to_string;

fn season(id: u32, number: u32, url: &str, premiere_date: Option<&str>) -> Season {
    Season {
        id,
        number,
        url: url.to_string(),
        premiere_date: premiere_date.map(|d| d.to_string()),
    }
}

#[test]
fn end_to_end_example() {
    let show = Show { id: 1, name: "X".to_string() };
    let seasons = vec![
        season(10, 1, "u1", Some("2020-01-01")),
        season(11, 2, "u2", None),
    ];
    let feed = Feed::from(show, &seasons);

    assert_eq!(feed.title, "X");
    assert_eq!(feed.icon, "https://static.tvmaze.com/images/favico/favicon.ico");
    assert_eq!(feed.version, "https://jsonfeed.org/version/1.1");
    assert_eq!(feed.items.len(), 1);
    assert_eq!(feed.items[0].id, "10");
    assert_eq!(feed.items[0].title, "X - Saison 1");
    assert_eq!(feed.items[0].url, "u1");
    assert_eq!(feed.items[0].date_published, "2020-01-01T00:00:00-00:00");
}

#[test]
fn date_published_format() {
    let show = Show { id: 2, name: "Y".to_string() };
    let seasons = vec![season(7, 3, "u", Some("2020-05-01"))];
    let feed = Feed::from(show, &seasons);
    assert_eq!(feed.items[0].date_published, "2020-05-01T00:00:00-00:00");
}

#[test]
fn items_count_equals_dated_seasons() {
    let show = Show { id: 3, name: "Z".to_string() };
    let seasons = vec![
        season(1, 1, "a", Some("2001-01-01")),
        season(2, 2, "b", None),
        season(3, 3, "c", Some("2003-03-03")),
        season(4, 4, "d", None),
    ];
    let feed = Feed::from(show, &seasons);
    assert!(feed.items.len() <= seasons.len());
    assert_eq!(feed.items.len(), 2);
}

#[test]
fn items_keep_season_order() {
    let show = Show { id: 4, name: "W".to_string() };
    let seasons = vec![
        season(30, 3, "s3", Some("2003-01-01")),
        season(10, 1, "s1", None),
        season(20, 2, "s2", Some("2002-01-01")),
        season(40, 4, "s4", Some("2004-01-01")),
    ];
    let feed = Feed::from(show, &seasons);
    let ids: Vec<&str> = feed.items.iter().map(|it| it.id.as_str()).collect();
    assert_eq!(ids, vec!["30", "20", "40"]);
}

#[test]
fn empty_season_list_gives_empty_feed() {
    let show = Show { id: 5, name: "Empty".to_string() };
    let seasons: Vec<Season> = Vec::new();
    let feed = Feed::from(show, &seasons);
    assert_eq!(feed.items.len(), 0);
    assert_eq!(feed.title, "Empty");
}

#[test]
fn empty_premiere_date_is_still_present() {
    let show = Show { id: 6, name: "V".to_string() };
    let seasons = vec![season(9, 1, "u", Some(""))];
    let feed = Feed::from(show, &seasons);
    assert_eq!(feed.items.len(), 1);
    assert_eq!(feed.items[0].date_published, "T00:00:00-00:00");
}

#[test]
fn title_wording_is_fixed() {
    let show = Show { id: 7, name: "Mon émission".to_string() };
    let seasons = vec![season(12, 11, "u", Some("1999-09-09"))];
    let feed = Feed::from(show, &seasons);
    assert_eq!(feed.items[0].title, "Mon émission - Saison 11");
}

#[test]
fn decimal_rendering() {
    assert_eq!(u32_to_string(0), "0");
    assert_eq!(u32_to_string(7), "7");
    assert_eq!(u32_to_string(10), "10");
    assert_eq!(u32_to_string(123456789), "123456789");
    assert_eq!(u32_to_string(u32::MAX), "4294967295");
}
