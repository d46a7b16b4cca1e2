//! The parameters of a content search and their wire form.

use crate::text::{
    bool_string, bool_token, comma_joined, decimal, decimal_string, join_with_commas,
    lemma_bool_token, texts,
};
use vstd::prelude::*;
use vstd::string::*;

verus! {

/// The kind of content to search for.
#[derive(Debug, Clone, Copy, PartialEq, Eq, Structural)]
pub enum SearchType {
    Movie,
    TvShow,
    Person,
    Channel,
    Game,
}

impl SearchType {
    /// The wire token of this kind.
    pub open spec fn token(self) -> Seq<char> {
        match self {
            SearchType::Movie => "movie"@,
            SearchType::TvShow => "tv-show"@,
            SearchType::Person => "person"@,
            SearchType::Channel => "channel"@,
            SearchType::Game => "game"@,
        }
    }

    /// The wire token of this kind.
    pub fn as_str(&self) -> (s: &'static str)
        ensures
            s@ == self.token(),
    {
        match self {
            SearchType::Movie => "movie",
            SearchType::TvShow => "tv-show",
            SearchType::Person => "person",
            SearchType::Channel => "channel",
            SearchType::Game => "game",
        }
    }
}

/// One call of a setter of the builder: the filter it names and the value given.
pub enum Setting {
    Launch(bool),
    MatchAny(bool),
    Provider(Seq<char>),
    ProviderId(Seq<char>),
    Type(SearchType),
    Season(u32),
    ShowUnavailable(bool),
    Title(Seq<char>),
    Tmsid(Seq<char>),
}

/// What a search holds: the keyword and, for each filter, whether it was set
/// and to what.
pub struct SearchView {
    pub keyword: Seq<char>,
    pub launch: Option<bool>,
    pub match_any: Option<bool>,
    pub providers: Option<Seq<Seq<char>>>,
    pub provider_ids: Option<Seq<Seq<char>>>,
    pub search_type: Option<SearchType>,
    pub season: Option<u32>,
    pub show_unavailable: Option<bool>,
    pub title: Option<Seq<char>>,
    pub tmsid: Option<Seq<char>>,
}

/// A list filter after one more item: the item goes to the end of the list,
/// which is created when the filter was not set before.
pub open spec fn appended(list: Option<Seq<Seq<char>>>, item: Seq<char>) -> Option<Seq<Seq<char>>> {
    match list {
        Some(items) => Some(items.push(item)),
        None => Some(seq![item]),
    }
}

/// The pair of a filter in the wire form: one pair where the filter is set,
/// none where it is not.
pub open spec fn entry(key: Seq<char>, value: Option<Seq<char>>) -> Seq<(Seq<char>, Seq<char>)> {
    match value {
        Some(v) => seq![(key, v)],
        None => Seq::empty(),
    }
}

/// The wire value of a boolean filter.
pub open spec fn flag_value(flag: Option<bool>) -> Option<Seq<char>> {
    match flag {
        Some(b) => Some(bool_token(b)),
        None => None,
    }
}

/// The wire value of a list filter: its items joined by commas.
pub open spec fn list_value(list: Option<Seq<Seq<char>>>) -> Option<Seq<char>> {
    match list {
        Some(items) => Some(comma_joined(items)),
        None => None,
    }
}

/// The wire value of the content kind filter.
pub open spec fn type_value(kind: Option<SearchType>) -> Option<Seq<char>> {
    match kind {
        Some(t) => Some(t.token()),
        None => None,
    }
}

/// The wire value of a numeric filter: its decimal numeral.
pub open spec fn number_value(number: Option<u32>) -> Option<Seq<char>> {
    match number {
        Some(n) => Some(decimal(n as nat)),
        None => None,
    }
}

impl SearchView {
    /// A search for a keyword with no filter set.
    pub open spec fn fresh(keyword: Seq<char>) -> SearchView {
        SearchView {
            keyword,
            launch: None,
            match_any: None,
            providers: None,
            provider_ids: None,
            search_type: None,
            season: None,
            show_unavailable: None,
            title: None,
            tmsid: None,
        }
    }

    /// The search after one setter call.
    pub open spec fn set(self, setting: Setting) -> SearchView {
        match setting {
            Setting::Launch(b) => SearchView { launch: Some(b), ..self },
            Setting::MatchAny(b) => SearchView { match_any: Some(b), ..self },
            Setting::Provider(p) => SearchView { providers: appended(self.providers, p), ..self },
            Setting::ProviderId(p) => SearchView {
                provider_ids: appended(self.provider_ids, p),
                ..self
            },
            Setting::Type(t) => SearchView { search_type: Some(t), ..self },
            Setting::Season(n) => SearchView { season: Some(n), ..self },
            Setting::ShowUnavailable(b) => SearchView { show_unavailable: Some(b), ..self },
            Setting::Title(t) => SearchView { title: Some(t), ..self },
            Setting::Tmsid(t) => SearchView { tmsid: Some(t), ..self },
        }
    }

    /// The wire value under a key: the keyword always, a filter when it is
    /// set, nothing under any other key.
    pub open spec fn value(self, key: Seq<char>) -> Option<Seq<char>> {
        if key == "keyword"@ {
            Some(self.keyword)
        } else if key == "launch"@ {
            flag_value(self.launch)
        } else if key == "match-any"@ {
            flag_value(self.match_any)
        } else if key == "provider-id"@ {
            list_value(self.provider_ids)
        } else if key == "provider"@ {
            list_value(self.providers)
        } else if key == "type"@ {
            type_value(self.search_type)
        } else if key == "season"@ {
            number_value(self.season)
        } else if key == "show-unavailable"@ {
            flag_value(self.show_unavailable)
        } else if key == "title"@ {
            self.title
        } else if key == "tmsid"@ {
            self.tmsid
        } else {
            None
        }
    }

    /// The wire form: the keyword pair, then one pair for each filter that is
    /// set, in the order that the protocol fixes.
    pub open spec fn pairs(self) -> Seq<(Seq<char>, Seq<char>)> {
        seq![("keyword"@, self.keyword)] + entry("launch"@, flag_value(self.launch)) + entry(
            "match-any"@,
            flag_value(self.match_any),
        ) + entry("provider-id"@, list_value(self.provider_ids)) + entry(
            "provider"@,
            list_value(self.providers),
        ) + entry("type"@, type_value(self.search_type)) + entry(
            "season"@,
            number_value(self.season),
        ) + entry("show-unavailable"@, flag_value(self.show_unavailable)) + entry(
            "title"@,
            self.title,
        ) + entry("tmsid"@, self.tmsid)
    }
}

/// The search parameter builder: a keyword and the filters set so far.
pub struct Search {
    keyword: String,
    launch: Option<bool>,
    match_any: Option<bool>,
    providers: Option<Vec<String>>,
    provider_ids: Option<Vec<String>>,
    search_type: Option<SearchType>,
    season: Option<u32>,
    show_unavailable: Option<bool>,
    title: Option<String>,
    tmsid: Option<String>,
}

/// The character sequences of an optional list of strings.
pub open spec fn list_texts(list: Option<Vec<String>>) -> Option<Seq<Seq<char>>> {
    match list {
        Some(items) => Some(texts(items@)),
        None => None,
    }
}

/// The character sequence of an optional string.
pub open spec fn optional_text(text: Option<String>) -> Option<Seq<char>> {
    match text {
        Some(t) => Some(t@),
        None => None,
    }
}

/// The character sequences of a sequence of string pairs.
pub open spec fn pair_texts(pairs: Seq<(String, String)>) -> Seq<(Seq<char>, Seq<char>)> {
    pairs.map_values(|p: (String, String)| (p.0@, p.1@))
}

/// Appends the pair of a filter, if the filter is set.
fn push_entry(pairs: &mut Vec<(String, String)>, key: &str, value: Option<String>)
    ensures
        pair_texts(final(pairs)@) == pair_texts(old(pairs)@) + entry(key@, optional_text(value)),
{
    if let Some(v) = value {
        pairs.push((String::from_str(key), v));
    }
    assert(pair_texts(pairs@) =~= pair_texts(old(pairs)@) + entry(key@, optional_text(value)));
}

fn flag_string(flag: Option<bool>) -> (value: Option<String>)
    ensures
        optional_text(value) == flag_value(flag),
{
    match flag {
        Some(b) => Some(bool_string(b)),
        None => None,
    }
}

fn list_string(list: Option<Vec<String>>) -> (value: Option<String>)
    ensures
        optional_text(value) == list_value(list_texts(list)),
{
    match list {
        Some(items) => Some(join_with_commas(&items)),
        None => None,
    }
}

fn type_string(kind: Option<SearchType>) -> (value: Option<String>)
    ensures
        optional_text(value) == type_value(kind),
{
    match kind {
        Some(t) => Some(String::from_str(t.as_str())),
        None => None,
    }
}

fn number_string(number: Option<u32>) -> (value: Option<String>)
    ensures
        optional_text(value) == number_value(number),
{
    match number {
        Some(n) => Some(decimal_string(n)),
        None => None,
    }
}

impl View for Search {
    type V = SearchView;

    closed spec fn view(&self) -> SearchView {
        SearchView {
            keyword: self.keyword@,
            launch: self.launch,
            match_any: self.match_any,
            providers: list_texts(self.providers),
            provider_ids: list_texts(self.provider_ids),
            search_type: self.search_type,
            season: self.season,
            show_unavailable: self.show_unavailable,
            title: optional_text(self.title),
            tmsid: optional_text(self.tmsid),
        }
    }
}

impl Search {
    /// A search for a keyword, with no filter set.
    pub fn new(keyword: String) -> (search: Search)
        ensures
            search@ == SearchView::fresh(keyword@),
    {
        Search {
            keyword,
            launch: None,
            match_any: None,
            provider_ids: None,
            providers: None,
            search_type: None,
            season: None,
            show_unavailable: None,
            title: None,
            tmsid: None,
        }
    }

    /// The wire form of the search: the ordered key and value pairs that go
    /// into the query of the search request.
    pub fn build(self) -> (pairs: Vec<(String, String)>)
        ensures
            pair_texts(pairs@) == self@.pairs(),
    {
        let mut ret: Vec<(String, String)> = Vec::new();
        ret.push((String::from_str("keyword"), self.keyword));
        assert(pair_texts(ret@) =~= seq![("keyword"@, self.keyword@)]);
        push_entry(&mut ret, "launch", flag_string(self.launch));
        push_entry(&mut ret, "match-any", flag_string(self.match_any));
        push_entry(&mut ret, "provider-id", list_string(self.provider_ids));
        push_entry(&mut ret, "provider", list_string(self.providers));
        push_entry(&mut ret, "type", type_string(self.search_type));
        push_entry(&mut ret, "season", number_string(self.season));
        push_entry(&mut ret, "show-unavailable", flag_string(self.show_unavailable));
        push_entry(&mut ret, "title", self.title);
        push_entry(&mut ret, "tmsid", self.tmsid);
        ret
    }

    /// Sets whether the first result is launched.
    pub fn launch(&mut self, launch: bool) -> (ret: &mut Self)
        ensures
            ret@ == old(self)@.set(Setting::Launch(launch)),
            *final(self) == *final(ret),
    {
        self.launch = Some(launch);
        self
    }

    /// Sets whether any of the terms may match.
    pub fn match_any(&mut self, match_any: bool) -> (ret: &mut Self)
        ensures
            ret@ == old(self)@.set(Setting::MatchAny(match_any)),
            *final(self) == *final(ret),
    {
        self.match_any = Some(match_any);
        self
    }

    /// Adds a provider name to the provider filter.
    pub fn provider(&mut self, provider: String) -> (ret: &mut Self)
        ensures
            ret@ == old(self)@.set(Setting::Provider(provider@)),
            *final(self) == *final(ret),
    {
        let ghost item = provider@;
        let ghost before = list_texts(self.providers);
        match &mut self.providers {
            Some(providers) => {
                providers.push(provider);
            },
            None => {
                let mut providers = Vec::new();
                providers.push(provider);
                self.providers = Some(providers);
            },
        }
        assert(list_texts(self.providers) == appended(before, item)) by {
            let after = list_texts(self.providers)->0;
            assert(after =~= appended(before, item)->0);
        }
        self
    }

    /// Adds a provider identifier to the provider identifier filter.
    pub fn provider_id(&mut self, provider_id: String) -> (ret: &mut Self)
        ensures
            ret@ == old(self)@.set(Setting::ProviderId(provider_id@)),
            *final(self) == *final(ret),
    {
        let ghost item = provider_id@;
        let ghost before = list_texts(self.provider_ids);
        match &mut self.provider_ids {
            Some(provider_ids) => {
                provider_ids.push(provider_id);
            },
            None => {
                let mut provider_ids = Vec::new();
                provider_ids.push(provider_id);
                self.provider_ids = Some(provider_ids);
            },
        }
        assert(list_texts(self.provider_ids) == appended(before, item)) by {
            let after = list_texts(self.provider_ids)->0;
            assert(after =~= appended(before, item)->0);
        }
        self
    }

    /// Sets the kind of content to search for.
    pub fn search_type(&mut self, search_type: SearchType) -> (ret: &mut Self)
        ensures
            ret@ == old(self)@.set(Setting::Type(search_type)),
            *final(self) == *final(ret),
    {
        self.search_type = Some(search_type);
        self
    }

    /// Sets the season number.
    pub fn season(&mut self, season: u32) -> (ret: &mut Self)
        ensures
            ret@ == old(self)@.set(Setting::Season(season)),
            *final(self) == *final(ret),
    {
        self.season = Some(season);
        self
    }

    /// Sets whether unavailable content is shown.
    pub fn show_unavailable(&mut self, show_unavailable: bool) -> (ret: &mut Self)
        ensures
            ret@ == old(self)@.set(Setting::ShowUnavailable(show_unavailable)),
            *final(self) == *final(ret),
    {
        self.show_unavailable = Some(show_unavailable);
        self
    }

    /// Sets the title.
    pub fn title(&mut self, title: String) -> (ret: &mut Self)
        ensures
            ret@ == old(self)@.set(Setting::Title(title@)),
            *final(self) == *final(ret),
    {
        self.title = Some(title);
        self
    }

    /// Sets the content identifier.
    pub fn tmsid(&mut self, tmsid: String) -> (ret: &mut Self)
        ensures
            ret@ == old(self)@.set(Setting::Tmsid(tmsid@)),
            *final(self) == *final(ret),
    {
        self.tmsid = Some(tmsid);
        self
    }
}

/// The place of a key in the order that the protocol fixes for the pairs of
/// a search, from 0 for the keyword; -1 for any other key.
pub open spec fn key_rank(key: Seq<char>) -> int {
    if key == "keyword"@ {
        0
    } else if key == "launch"@ {
        1
    } else if key == "match-any"@ {
        2
    } else if key == "provider-id"@ {
        3
    } else if key == "provider"@ {
        4
    } else if key == "type"@ {
        5
    } else if key == "season"@ {
        6
    } else if key == "show-unavailable"@ {
        7
    } else if key == "title"@ {
        8
    } else if key == "tmsid"@ {
        9
    } else {
        -1
    }
}

impl Setting {
    /// The place in the wire order of the filter that this setter call names.
    pub open spec fn rank(self) -> int {
        match self {
            Setting::Launch(_) => 1,
            Setting::MatchAny(_) => 2,
            Setting::ProviderId(_) => 3,
            Setting::Provider(_) => 4,
            Setting::Type(_) => 5,
            Setting::Season(_) => 6,
            Setting::ShowUnavailable(_) => 7,
            Setting::Title(_) => 8,
            Setting::Tmsid(_) => 9,
        }
    }
}

impl SearchView {
    /// The search after a sequence of setter calls, first call first.
    pub open spec fn set_each(self, settings: Seq<Setting>) -> SearchView
        decreases settings.len(),
    {
        if settings.len() == 0 {
            self
        } else {
            self.set_each(settings.drop_last()).set(settings.last())
        }
    }
}

/// The ten keys are different from each other, and each has its place.
pub proof fn lemma_key_ranks()
    ensures
        key_rank("keyword"@) == 0,
        key_rank("launch"@) == 1,
        key_rank("match-any"@) == 2,
        key_rank("provider-id"@) == 3,
        key_rank("provider"@) == 4,
        key_rank("type"@) == 5,
        key_rank("season"@) == 6,
        key_rank("show-unavailable"@) == 7,
        key_rank("title"@) == 8,
        key_rank("tmsid"@) == 9,
{
    reveal_strlit("keyword");
    reveal_strlit("launch");
    reveal_strlit("match-any");
    reveal_strlit("provider-id");
    reveal_strlit("provider");
    reveal_strlit("type");
    reveal_strlit("season");
    reveal_strlit("show-unavailable");
    reveal_strlit("title");
    reveal_strlit("tmsid");
    assert("keyword"@.len() == 7);
    assert("launch"@.len() == 6);
    assert("match-any"@.len() == 9);
    assert("provider-id"@.len() == 11);
    assert("provider"@.len() == 8);
    assert("type"@.len() == 4);
    assert("season"@.len() == 6);
    assert("show-unavailable"@.len() == 16);
    assert("title"@.len() == 5);
    assert("tmsid"@.len() == 5);
    assert("launch"@[0] != "season"@[0]);
    assert("title"@[1] != "tmsid"@[1]);
}

/// The pairs lie in wire order, each key below the bound.
spec fn ordered_below(pairs: Seq<(Seq<char>, Seq<char>)>, bound: int) -> bool {
    &&& forall|i: int| 0 <= i < pairs.len() ==> 0 <= key_rank(#[trigger] pairs[i].0) < bound
    &&& forall|i: int, j: int|
        0 <= i < j < pairs.len() ==> key_rank(#[trigger] pairs[i].0) < key_rank(
            #[trigger] pairs[j].0,
        )
}

proof fn lemma_ordered_step(
    pairs: Seq<(Seq<char>, Seq<char>)>,
    bound: int,
    key: Seq<char>,
    value: Option<Seq<char>>,
)
    requires
        ordered_below(pairs, bound),
        0 <= bound <= key_rank(key),
    ensures
        ordered_below(pairs + entry(key, value), key_rank(key) + 1),
{
    let next = pairs + entry(key, value);
    assert forall|i: int| 0 <= i < next.len() implies 0 <= key_rank(#[trigger] next[i].0)
        < key_rank(key) + 1 by {
        if i < pairs.len() {
            assert(next[i] == pairs[i]);
        } else {
            assert(next[i] == entry(key, value)[0]);
        }
    }
    assert forall|i: int, j: int| 0 <= i < j < next.len() implies key_rank(#[trigger] next[i].0)
        < key_rank(#[trigger] next[j].0) by {
        assert(next[i] == pairs[i]);
        if j < pairs.len() {
            assert(next[j] == pairs[j]);
        } else {
            assert(next[j] == entry(key, value)[0]);
        }
    }
}

/// The keyword pair always comes first, and the pairs that follow it keep the
/// order that the protocol fixes, whatever the order in which the filters were
/// set: the keys are among the ten known ones and their places rise strictly.
pub proof fn lemma_pairs_order(v: SearchView)
    ensures
        v.pairs().len() >= 1,
        v.pairs()[0] == ("keyword"@, v.keyword),
        forall|i: int| 0 <= i < v.pairs().len() ==> 0 <= key_rank(#[trigger] v.pairs()[i].0) <= 9,
        forall|i: int, j: int|
            0 <= i < j < v.pairs().len() ==> key_rank(#[trigger] v.pairs()[i].0) < key_rank(
                #[trigger] v.pairs()[j].0,
            ),
{
    lemma_key_ranks();
    let keyword_only = seq![("keyword"@, v.keyword)];
    assert(ordered_below(keyword_only, 1));
    let upto_launch = keyword_only + entry("launch"@, flag_value(v.launch));
    lemma_ordered_step(keyword_only, 1, "launch"@, flag_value(v.launch));
    let upto_match_any = upto_launch + entry("match-any"@, flag_value(v.match_any));
    lemma_ordered_step(upto_launch, 2, "match-any"@, flag_value(v.match_any));
    let upto_provider_id = upto_match_any + entry("provider-id"@, list_value(v.provider_ids));
    lemma_ordered_step(upto_match_any, 3, "provider-id"@, list_value(v.provider_ids));
    let upto_provider = upto_provider_id + entry("provider"@, list_value(v.providers));
    lemma_ordered_step(upto_provider_id, 4, "provider"@, list_value(v.providers));
    let upto_type = upto_provider + entry("type"@, type_value(v.search_type));
    lemma_ordered_step(upto_provider, 5, "type"@, type_value(v.search_type));
    let upto_season = upto_type + entry("season"@, number_value(v.season));
    lemma_ordered_step(upto_type, 6, "season"@, number_value(v.season));
    let upto_show_unavailable = upto_season + entry(
        "show-unavailable"@,
        flag_value(v.show_unavailable),
    );
    lemma_ordered_step(upto_season, 7, "show-unavailable"@, flag_value(v.show_unavailable));
    let upto_title = upto_show_unavailable + entry("title"@, v.title);
    lemma_ordered_step(upto_show_unavailable, 8, "title"@, v.title);
    let upto_tmsid = upto_title + entry("tmsid"@, v.tmsid);
    lemma_ordered_step(upto_title, 9, "tmsid"@, v.tmsid);
    assert(upto_tmsid == v.pairs());
    assert(upto_tmsid[0] == keyword_only[0]);
}

/// Every pair holds the wire value of its key.
spec fn agrees(pairs: Seq<(Seq<char>, Seq<char>)>, v: SearchView) -> bool {
    forall|i: int| 0 <= i < pairs.len() ==> v.value(#[trigger] pairs[i].0) == Some(pairs[i].1)
}

/// The pairs hold the key with its wire value, if it has one.
spec fn holds(pairs: Seq<(Seq<char>, Seq<char>)>, v: SearchView, key: Seq<char>) -> bool {
    v.value(key) is Some ==> exists|i: int|
        0 <= i < pairs.len() && #[trigger] pairs[i] == (key, v.value(key)->0)
}

proof fn lemma_content_step(
    pairs: Seq<(Seq<char>, Seq<char>)>,
    v: SearchView,
    key: Seq<char>,
)
    requires
        agrees(pairs, v),
    ensures
        agrees(pairs + entry(key, v.value(key)), v),
        holds(pairs + entry(key, v.value(key)), v, key),
        forall|other: Seq<char>|
            holds(pairs, v, other) ==> holds(pairs + entry(key, v.value(key)), v, other),
{
    let next = pairs + entry(key, v.value(key));
    assert forall|i: int| 0 <= i < next.len() implies v.value(#[trigger] next[i].0) == Some(
        next[i].1,
    ) by {
        if i < pairs.len() {
            assert(next[i] == pairs[i]);
        } else {
            assert(next[i] == entry(key, v.value(key))[0]);
        }
    }
    if v.value(key) is Some {
        assert(next[pairs.len() as int] == (key, v.value(key)->0));
    }
    assert forall|other: Seq<char>| holds(pairs, v, other) implies holds(next, v, other) by {
        if v.value(other) is Some {
            let i = choose|i: int|
                0 <= i < pairs.len() && #[trigger] pairs[i] == (other, v.value(other)->0);
            assert(next[i] == pairs[i]);
        }
    }
}

/// The pairs are the keys that have a wire value, each with that value: a
/// filter appears exactly when it is set, and nothing else appears.
pub proof fn lemma_pairs_content(v: SearchView)
    ensures
        forall|i: int|
            0 <= i < v.pairs().len() ==> v.value(#[trigger] v.pairs()[i].0) == Some(
                v.pairs()[i].1,
            ),
        forall|key: Seq<char>|
            v.value(key) is Some ==> exists|i: int|
                0 <= i < v.pairs().len() && #[trigger] v.pairs()[i] == (key, v.value(key)->0),
{
    lemma_key_ranks();
    let keyword_only = seq![("keyword"@, v.keyword)];
    assert(agrees(keyword_only, v));
    assert(holds(keyword_only, v, "keyword"@)) by {
        assert(keyword_only[0] == ("keyword"@, v.value("keyword"@)->0));
    }
    let upto_launch = keyword_only + entry("launch"@, v.value("launch"@));
    lemma_content_step(keyword_only, v, "launch"@);
    let upto_match_any = upto_launch + entry("match-any"@, v.value("match-any"@));
    lemma_content_step(upto_launch, v, "match-any"@);
    let upto_provider_id = upto_match_any + entry("provider-id"@, v.value("provider-id"@));
    lemma_content_step(upto_match_any, v, "provider-id"@);
    let upto_provider = upto_provider_id + entry("provider"@, v.value("provider"@));
    lemma_content_step(upto_provider_id, v, "provider"@);
    let upto_type = upto_provider + entry("type"@, v.value("type"@));
    lemma_content_step(upto_provider, v, "type"@);
    let upto_season = upto_type + entry("season"@, v.value("season"@));
    lemma_content_step(upto_type, v, "season"@);
    let upto_show_unavailable = upto_season + entry("show-unavailable"@, v.value("show-unavailable"@));
    lemma_content_step(upto_season, v, "show-unavailable"@);
    let upto_title = upto_show_unavailable + entry("title"@, v.value("title"@));
    lemma_content_step(upto_show_unavailable, v, "title"@);
    let upto_tmsid = upto_title + entry("tmsid"@, v.value("tmsid"@));
    lemma_content_step(upto_title, v, "tmsid"@);
    assert(upto_tmsid == v.pairs());
    assert forall|key: Seq<char>| v.value(key) is Some implies exists|i: int|
        0 <= i < v.pairs().len() && #[trigger] v.pairs()[i] == (key, v.value(key)->0) by {
        assert(holds(upto_tmsid, v, key));
    }
}

/// A search that was just created has the keyword pair and no other.
pub proof fn lemma_fresh_pairs(keyword: Seq<char>)
    ensures
        SearchView::fresh(keyword).pairs() == seq![("keyword"@, keyword)],
{
    assert(SearchView::fresh(keyword).pairs() =~= seq![("keyword"@, keyword)]);
}

/// Setter calls for different filters can be made in either order: the search
/// that results, and so its wire form, is the same.
pub proof fn lemma_setters_commute(v: SearchView, a: Setting, b: Setting)
    requires
        a.rank() != b.rank(),
    ensures
        v.set(a).set(b) == v.set(b).set(a),
        v.set(a).set(b).pairs() == v.set(b).set(a).pairs(),
{
    let left = v.set(a).set(b);
    let right = v.set(b).set(a);
    assert(left.keyword == right.keyword);
    assert(left.launch == right.launch);
    assert(left.match_any == right.match_any);
    assert(left.providers == right.providers);
    assert(left.provider_ids == right.provider_ids);
    assert(left.search_type == right.search_type);
    assert(left.season == right.season);
    assert(left.show_unavailable == right.show_unavailable);
    assert(left.title == right.title);
    assert(left.tmsid == right.tmsid);
}

/// The value under the key of a boolean filter is `true` or `false`, spelled
/// so, and is `true` exactly when the filter is set to true.
pub proof fn lemma_flag_pairs(v: SearchView, i: int)
    requires
        0 <= i < v.pairs().len(),
        v.pairs()[i].0 == "launch"@ || v.pairs()[i].0 == "match-any"@ || v.pairs()[i].0
            == "show-unavailable"@,
    ensures
        v.pairs()[i].1 == seq!['t', 'r', 'u', 'e'] || v.pairs()[i].1 == seq![
            'f',
            'a',
            'l',
            's',
            'e',
        ],
        v.pairs()[i].0 == "launch"@ ==> (v.pairs()[i].1 == seq!['t', 'r', 'u', 'e'] <==> v.launch
            == Some(true)),
        v.pairs()[i].0 == "match-any"@ ==> (v.pairs()[i].1 == seq!['t', 'r', 'u', 'e']
            <==> v.match_any == Some(true)),
        v.pairs()[i].0 == "show-unavailable"@ ==> (v.pairs()[i].1 == seq!['t', 'r', 'u', 'e']
            <==> v.show_unavailable == Some(true)),
{
    lemma_key_ranks();
    lemma_pairs_content(v);
    lemma_bool_token(true);
    lemma_bool_token(false);
}

/// The setter calls that add the given items, in order, to the provider filter.
pub open spec fn provider_calls(items: Seq<Seq<char>>) -> Seq<Setting> {
    items.map_values(|item: Seq<char>| Setting::Provider(item))
}

/// The setter calls that add the given items, in order, to the provider
/// identifier filter.
pub open spec fn provider_id_calls(items: Seq<Seq<char>>) -> Seq<Setting> {
    items.map_values(|item: Seq<char>| Setting::ProviderId(item))
}

/// After one or more items were added to a list filter that was not set, the
/// value under its key is those items, in the order of the calls, joined by
/// commas.
pub proof fn lemma_list_pairs(v: SearchView, items: Seq<Seq<char>>)
    requires
        items.len() >= 1,
    ensures
        v.providers is None ==> v.set_each(provider_calls(items)).value("provider"@) == Some(
            comma_joined(items),
        ),
        v.provider_ids is None ==> v.set_each(provider_id_calls(items)).value("provider-id"@)
            == Some(comma_joined(items)),
{
    lemma_key_ranks();
    if v.providers is None {
        lemma_provider_calls(v, items);
    }
    if v.provider_ids is None {
        lemma_provider_id_calls(v, items);
    }
}

proof fn lemma_provider_calls(v: SearchView, items: Seq<Seq<char>>)
    requires
        items.len() >= 1,
        v.providers is None,
    ensures
        v.set_each(provider_calls(items)).providers == Some(items),
    decreases items.len(),
{
    let calls = provider_calls(items);
    assert(calls.drop_last() =~= provider_calls(items.drop_last()));
    if items.len() == 1 {
        assert(v.set_each(calls.drop_last()) == v);
        assert(seq![items.last()] =~= items);
    } else {
        lemma_provider_calls(v, items.drop_last());
        assert(items.drop_last().push(items.last()) =~= items);
    }
}

proof fn lemma_provider_id_calls(v: SearchView, items: Seq<Seq<char>>)
    requires
        items.len() >= 1,
        v.provider_ids is None,
    ensures
        v.set_each(provider_id_calls(items)).provider_ids == Some(items),
    decreases items.len(),
{
    let calls = provider_id_calls(items);
    assert(calls.drop_last() =~= provider_id_calls(items.drop_last()));
    if items.len() == 1 {
        assert(v.set_each(calls.drop_last()) == v);
        assert(seq![items.last()] =~= items);
    } else {
        lemma_provider_id_calls(v, items.drop_last());
        assert(items.drop_last().push(items.last()) =~= items);
    }
}

} // verus!
