use roku_ecp::{Search, SearchType};

fn pair(key: &str, value: &str) -> (String, String) {
    (key.to_string(), value.to_string())
}

#[test]
fn keyword_alone() {
    let search = Search::new("cats".to_string());
    assert_eq!(search.build(), vec![pair("keyword", "cats")]);
}

#[test]
fn keyword_may_be_empty() {
    let search = Search::new(String::new());
    assert_eq!(search.build(), vec![pair("keyword", "")]);
}

#[test]
fn every_filter_in_wire_order() {
    let mut search = Search::new("the wire".to_string());
    search
        .launch(true)
        .match_any(false)
        .provider_id("12".to_string())
        .provider_id("13".to_string())
        .provider("netflix".to_string())
        .provider("hulu".to_string())
        .search_type(SearchType::TvShow)
        .season(3)
        .show_unavailable(true)
        .title("The Wire".to_string())
        .tmsid("SH0123".to_string());
    assert_eq!(
        search.build(),
        vec![
            pair("keyword", "the wire"),
            pair("launch", "true"),
            pair("match-any", "false"),
            pair("provider-id", "12,13"),
            pair("provider", "netflix,hulu"),
            pair("type", "tv-show"),
            pair("season", "3"),
            pair("show-unavailable", "true"),
            pair("title", "The Wire"),
            pair("tmsid", "SH0123"),
        ]
    );
}

#[test]
fn setter_order_does_not_change_the_wire_order() {
    let mut search = Search::new("the wire".to_string());
    search
        .tmsid("SH0123".to_string())
        .title("The Wire".to_string())
        .show_unavailable(true)
        .season(3)
        .search_type(SearchType::TvShow)
        .provider("netflix".to_string())
        .provider_id("12".to_string())
        .match_any(false)
        .launch(true);
    assert_eq!(
        search.build(),
        vec![
            pair("keyword", "the wire"),
            pair("launch", "true"),
            pair("match-any", "false"),
            pair("provider-id", "12"),
            pair("provider", "netflix"),
            pair("type", "tv-show"),
            pair("season", "3"),
            pair("show-unavailable", "true"),
            pair("title", "The Wire"),
            pair("tmsid", "SH0123"),
        ]
    );
}

#[test]
fn only_what_was_set_appears() {
    let mut search = Search::new("k".to_string());
    search.season(2).launch(false);
    assert_eq!(
        search.build(),
        vec![pair("keyword", "k"), pair("launch", "false"), pair("season", "2")]
    );
}

#[test]
fn booleans_are_true_and_false() {
    for flag in [true, false] {
        let word = if flag { "true" } else { "false" };
        let mut search = Search::new("k".to_string());
        search.launch(flag).match_any(flag).show_unavailable(flag);
        assert_eq!(
            search.build(),
            vec![
                pair("keyword", "k"),
                pair("launch", word),
                pair("match-any", word),
                pair("show-unavailable", word),
            ]
        );
    }
}

#[test]
fn first_item_creates_the_list() {
    let mut search = Search::new("k".to_string());
    search.provider("netflix".to_string());
    assert_eq!(search.build(), vec![pair("keyword", "k"), pair("provider", "netflix")]);

    let mut search = Search::new("k".to_string());
    search.provider_id("12".to_string());
    assert_eq!(search.build(), vec![pair("keyword", "k"), pair("provider-id", "12")]);
}

#[test]
fn later_items_are_appended() {
    let mut search = Search::new("k".to_string());
    search.provider("a".to_string());
    search.provider("b".to_string());
    search.provider("c".to_string());
    search.provider_id("1".to_string());
    search.provider_id("2".to_string());
    assert_eq!(
        search.build(),
        vec![pair("keyword", "k"), pair("provider-id", "1,2"), pair("provider", "a,b,c")]
    );
}

#[test]
fn commas_inside_items_are_not_escaped() {
    let mut search = Search::new("k".to_string());
    search.provider("a,b".to_string()).provider("c".to_string());
    assert_eq!(search.build(), vec![pair("keyword", "k"), pair("provider", "a,b,c")]);
}

#[test]
fn search_type_tokens() {
    let kinds = vec![
        (SearchType::Movie, "movie"),
        (SearchType::TvShow, "tv-show"),
        (SearchType::Person, "person"),
        (SearchType::Channel, "channel"),
        (SearchType::Game, "game"),
    ];
    for (kind, token) in kinds {
        assert_eq!(kind.as_str(), token);
        let mut search = Search::new("k".to_string());
        search.search_type(kind);
        assert_eq!(search.build(), vec![pair("keyword", "k"), pair("type", token)]);
    }
}

#[test]
fn season_is_a_decimal_numeral() {
    for (season, numeral) in [(0u32, "0"), (1, "1"), (10, "10"), (12, "12"), (4294967295, "4294967295")] {
        let mut search = Search::new("k".to_string());
        search.season(season);
        assert_eq!(search.build(), vec![pair("keyword", "k"), pair("season", numeral)]);
    }
}

#[test]
fn a_scalar_filter_set_twice_keeps_the_last_value() {
    let mut search = Search::new("k".to_string());
    search
        .launch(true)
        .launch(false)
        .season(1)
        .season(2)
        .title("a".to_string())
        .title("b".to_string())
        .tmsid("x".to_string())
        .tmsid("y".to_string())
        .search_type(SearchType::Movie)
        .search_type(SearchType::Game);
    assert_eq!(
        search.build(),
        vec![
            pair("keyword", "k"),
            pair("launch", "false"),
            pair("type", "game"),
            pair("season", "2"),
            pair("title", "b"),
            pair("tmsid", "y"),
        ]
    );
}

#[test]
fn values_pass_through_unchanged() {
    let mut search = Search::new("a b&c=d".to_string());
    search.title("x?y#z".to_string()).tmsid("é語".to_string());
    assert_eq!(
        search.build(),
        vec![pair("keyword", "a b&c=d"), pair("title", "x?y#z"), pair("tmsid", "é語")]
    );
}
