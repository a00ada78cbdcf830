use series_troxide::cast_widget::{
    age_line, expansion_label, Action as CastWidgetAction, Age, Cast, CastAction, CastMessage, CastPoster,
    CastWidget, Character, DisplayImage, Expansion, Message as CastWidgetMessage, Person,
};
use series_troxide::discover_search::{
    Action as SearchAction, LoadState, Message as SearchMessage, Search, SearchResult, SearchResultMessage,
    SearchResultsView,
};
use series_troxide::discover_view::searching::{
    Action as OverlayAction, Message as OverlayMessage, ResultsView, Search as OverlaySearch,
};
use series_troxide::discover_view::{
    Action as DiscoverAction, BaseTheme, ContainerTheme, Discover, EpisodePosterMessage, Message as DiscoverMessage,
    PaletteKind, PosterAction, ScheduledEpisode,
};
use series_troxide::gui::{
    Action as GuiAction, Menu, MenuItem, Message as GuiMessage, TabsAction, TitleBar, TitleBarMessage, TroxideGui,
};
use series_troxide::my_shows_tab::{
    Action as TabAction, Message as TabMessage, MyShowsAction, MyShowsKind, MyShowsMessage, MyShowsTab,
};
use series_troxide::search_view::{Action as PageSearchAction, Message as PageSearchMessage, Search as PageSearch};
use series_troxide::series_information::SeriesMainInformation;
use series_troxide::series_page::PageSwitch;
use series_troxide::series_widget::{
    remove_parent, tracking_button, Action as SeriesAction, Message as SeriesMessage, People, PeopleAction, PeopleMessage, Series,
    SuggestionAction, SuggestionMessage,
};
use series_troxide::tab_searching::Message as SearcherMessage;
use series_troxide::tabs::TabId;
use series_troxide::view::View;

fn series(id: u32, name: &str) -> SeriesMainInformation {
    SeriesMainInformation {
        id,
        name: name.to_string(),
        status: "Running".to_string(),
        genres: vec!["Drama".to_string()],
        average_runtime: None,
        language: None,
        premiered: Some("2019-09-01".to_string()),
        ended: None,
        summary: None,
        network: None,
        web_channel: None,
        kind: None,
        image: Some(format!("https://img/{}", id)),
    }
}

fn cast(name: &str, character_image: Option<&str>) -> Cast {
    Cast {
        person: Person {
            name: name.to_string(),
            gender: None,
            birthday: Some("2000-01-01".to_string()),
            deathday: None,
            country: None,
            image: Some("https://person".to_string()),
        },
        character: Character { name: "Hero".to_string(), image: character_image.map(|s| s.to_string()) },
    }
}

#[test]
fn window_title_follows_the_page_or_the_tab() {
    let mut gui = TroxideGui::new();
    assert_eq!(gui.title(), "Series Troxide - Discover");
    assert!(!gui.shows_back_button());
    match gui.update(GuiMessage::SeriesPageRequested(series(3, "Dark"))) {
        GuiAction::SeriesPage(switch) => assert_eq!(switch, PageSwitch::Created(3)),
        other => panic!("unexpected action {:?}", other),
    }
    assert_eq!(gui.title(), "Series Troxide - Dark");
    assert!(gui.shows_back_button());
    assert!(matches!(gui.update(GuiMessage::TitleBar(TitleBarMessage::BackButtonPressed)), GuiAction::RestoreTabScrollers));
    assert_eq!(gui.title(), "Series Troxide - Discover");
    gui.update(GuiMessage::SeriesPageRequested(series(3, "Dark")));
    match gui.update(GuiMessage::TitleBar(TitleBarMessage::TabSelected(1))) {
        GuiAction::Tabs(TabsAction::LoadWatchlist) => {},
        other => panic!("unexpected action {:?}", other),
    }
    assert_eq!(gui.active_tab, TabId::Watchlist);
    assert_eq!(gui.title_bar.active_tab, 1);
    assert!(!gui.shows_back_button());
    assert_eq!(gui.title(), "Series Troxide - Watchlist");
}

#[test]
fn back_button_returns_to_the_previous_page() {
    let mut gui = TroxideGui::new();
    gui.update(GuiMessage::SeriesPageRequested(series(1, "One")));
    gui.update(GuiMessage::SeriesPageRequested(series(2, "Two")));
    assert!(matches!(
        gui.update(GuiMessage::TitleBar(TitleBarMessage::BackButtonPressed)),
        GuiAction::RestoreSeriesPageScroller(1)
    ));
    assert_eq!(gui.title(), "Series Troxide - One");
}

#[test]
fn title_bar_menu_and_view() {
    let mut bar = TitleBar::new();
    bar.update(TitleBarMessage::TabSelected(3));
    assert!(bar.is_highlighted(3));
    assert!(!bar.is_highlighted(0));
    let mut menu = Menu::default();
    assert_eq!(menu.menu_item_selected, MenuItem::Discover);
    menu.update(MenuItem::Statistics);
    assert_eq!(menu.menu_item_selected, MenuItem::Statistics);
    assert_eq!(Menu::label(MenuItem::MyShows), " My Shows");
    assert_eq!(View::default(), View::Search);
}

#[test]
fn my_shows_tab_lists_and_search() {
    let (mut tab, actions) = MyShowsTab::new();
    assert_eq!(actions.len(), 4);
    assert!(matches!(actions[0], TabAction::Untracked(MyShowsAction::LoadSeries(MyShowsKind::Untracked))));
    tab.update(TabMessage::Ended(MyShowsMessage::SeriesInformationReceived(Some(vec![
        series(2, "Zorro"),
        series(1, "Archer"),
    ]))));
    let names: Vec<&str> = tab.ended_releases.series_posters.iter().map(|s| s.name.as_str()).collect();
    assert_eq!(names, vec!["Archer", "Zorro"]);
    match tab.update(TabMessage::Ended(MyShowsMessage::SeriesPosterPressed(1))) {
        TabAction::Ended(MyShowsAction::OpenSeries(id)) => assert_eq!(id, 2),
        other => panic!("unexpected action {:?}", other),
    }
    tab.update(TabMessage::Searcher(SearcherMessage::SearchTermChanged("zorro".to_string())));
    assert_eq!(tab.ended_releases.matched_id_collection, Some(vec![2]));
    assert_eq!(tab.waiting_releases.matched_id_collection, Some(vec![]));
    tab.update(TabMessage::Searcher(SearcherMessage::SearchTermChanged(String::new())));
    assert_eq!(tab.ended_releases.matched_id_collection, None);
}

#[test]
fn discover_search_runs_once_per_term() {
    let mut search = Search::new();
    assert_eq!(search.load_state, LoadState::NotLoaded);
    assert!(matches!(search.update(SearchMessage::TermChanged("dark".to_string())), SearchAction::Nothing));
    match search.update(SearchMessage::TermSearched) {
        SearchAction::SearchSeries(term) => assert_eq!(term, "dark"),
        other => panic!("unexpected action {:?}", other),
    }
    assert_eq!(search.load_state, LoadState::Loading);
    assert!(matches!(search.view_state(), SearchResultsView::Loading));
    let mut without_image = series(6, "Dark Matter");
    without_image.image = None;
    match search.update(SearchMessage::SearchResultsReceived(Ok(vec![series(5, "Dark"), without_image]))) {
        SearchAction::LoadImages(urls) => assert_eq!(urls, vec![Some("https://img/5".to_string()), None]),
        other => panic!("unexpected action {:?}", other),
    }
    assert!(matches!(search.view_state(), SearchResultsView::Results(2)));
    search.update(SearchMessage::SearchResult(0, SearchResultMessage::ImageLoaded(Some(vec![1, 2]))));
    match &search.search_results {
        Ok(list) => {
            assert_eq!(list[0].image, Some(vec![1, 2]));
            assert_eq!(list[1].index, 1);
            assert_eq!(list[1].image, None);
        },
        Err(e) => panic!("unexpected error {}", e),
    }
    search.update(SearchMessage::EscapeKeyPressed);
    assert!(matches!(search.view_state(), SearchResultsView::Hidden));
    // the same term again shows the results without searching again
    assert!(matches!(search.update(SearchMessage::TermSearched), SearchAction::Nothing));
    assert_eq!(search.load_state, LoadState::Loaded);
    match search.update(SearchMessage::SearchResult(0, SearchResultMessage::SeriesResultPressed)) {
        SearchAction::OpenSeries(info) => {
            assert_eq!(info.id, 5);
            assert_eq!(info.name, "Dark");
        },
        other => panic!("unexpected action {:?}", other),
    }
    assert_eq!(search.load_state, LoadState::NotLoaded);
    search.update(SearchMessage::SearchResultsReceived(Err("offline".to_string())));
    match search.view_state() {
        SearchResultsView::Error(e) => assert_eq!(e, "offline"),
        other => panic!("unexpected view {:?}", other),
    }
}

#[test]
fn search_result_keeps_its_series() {
    let (mut result, url) = SearchResult::new(3, series(9, "Nine"));
    assert_eq!(url, Some("https://img/9".to_string()));
    assert_eq!(result.index, 3);
    assert_eq!(result.update(SearchResultMessage::ImageLoaded(None)).map(|i| i.id), None);
    let opened = result.update(SearchResultMessage::SeriesResultPressed);
    assert_eq!(opened.map(|i| i.name), Some("Nine".to_string()));
}

#[test]
fn discover_page_and_overlay() {
    let (mut discover, action) = Discover::new();
    assert!(matches!(action, DiscoverAction::LoadSchedule));
    match discover.update(DiscoverMessage::ScheduleLoaded(vec![ScheduledEpisode {
        name: "Pilot".to_string(),
        show_url: "https://show/1".to_string(),
    }])) {
        DiscoverAction::Posters(actions) => {
            assert_eq!(actions.len(), 1);
            assert!(matches!(&actions[0], PosterAction::LoadSeriesInformation(url) if url == "https://show/1"));
        },
        other => panic!("unexpected action {:?}", other),
    }
    match discover.update(DiscoverMessage::EpisodePosterAction(0, EpisodePosterMessage::SeriesInformationLoaded(series(1, "One")))) {
        DiscoverAction::Poster(PosterAction::LoadImage(url)) => assert_eq!(url, "https://img/1"),
        other => panic!("unexpected action {:?}", other),
    }
    assert!(discover.new_episodes[0].is_pressable());
    match discover.update(DiscoverMessage::EpisodePosterAction(0, EpisodePosterMessage::EpisodePosterPressed)) {
        DiscoverAction::Poster(PosterAction::SelectSeries(id)) => assert_eq!(id, 1),
        other => panic!("unexpected action {:?}", other),
    }
    discover.update(DiscoverMessage::ShowOverlay);
    assert!(discover.show_overlay);
    discover.update(DiscoverMessage::HideOverlay);
    assert!(!discover.show_overlay);
    match discover.update(DiscoverMessage::SearchAction(OverlayMessage::SeriesResultPressed(8))) {
        DiscoverAction::SeriesResultSelected(id) => assert_eq!(id, 8),
        other => panic!("unexpected action {:?}", other),
    }
    assert_eq!(ContainerTheme.background_palette(BaseTheme::Dark), PaletteKind::Dark);
}

#[test]
fn overlay_search_hides_on_empty_term() {
    let mut search = OverlaySearch::new();
    assert!(matches!(search.update(OverlayMessage::SearchTermChanged("a".to_string())), OverlayAction::Nothing));
    assert!(matches!(search.update(OverlayMessage::SearchTermSearched), OverlayAction::SearchAndShowOverlay(_)));
    match search.update(OverlayMessage::SearchSuccess(vec![series(4, "Four")])) {
        OverlayAction::LoadImagesAndShowOverlay(urls) => assert_eq!(urls, vec![Some("https://img/4".to_string())]),
        other => panic!("unexpected action {:?}", other),
    }
    assert_eq!(search.view_state(), ResultsView::Results(1));
    assert!(matches!(search.update(OverlayMessage::SearchTermChanged(String::new())), OverlayAction::HideOverlay));
    assert_eq!(search.view_state(), ResultsView::Hidden);
    let mut page = PageSearch::new();
    page.update(PageSearchMessage::SearchTermChanged("x".to_string()));
    assert!(matches!(page.update(PageSearchMessage::SearchTermSearched), PageSearchAction::Search(_)));
    assert!(!page.shows_results());
}

#[test]
fn cast_widget_expansion_and_posters() {
    let (mut widget, action) = CastWidget::new(9);
    assert!(matches!(action, CastWidgetAction::LoadCast(9)));
    let many: Vec<Cast> = (0..25).map(|i| cast(&format!("Actor {}", i), None)).collect();
    widget.update(CastWidgetMessage::CastReceived(many));
    assert_eq!(widget.shown_count(), 20);
    assert_eq!(widget.expansion_widget(), Some(Expansion::ShowMore));
    assert_eq!(expansion_label(Expansion::ShowMore), "show more");
    widget.update(CastWidgetMessage::Expand);
    assert_eq!(widget.shown_count(), 25);
    assert_eq!(widget.expansion_widget(), Some(Expansion::ShowLess));
    widget.update(CastWidgetMessage::Shrink);
    assert_eq!(widget.shown_count(), 20);
}

#[test]
fn cast_poster_switches_images() {
    let (mut poster, action) = CastPoster::new(0, cast("Actor", Some("https://character")));
    assert!(matches!(&action, CastAction::LoadPersonImage(url) if url == "https://person"));
    assert_eq!(poster.image_switch_button(), Some(true));
    match poster.update(CastMessage::SwitchDisplayImage) {
        CastAction::LoadCharacterImage(url) => assert_eq!(url, "https://character"),
        other => panic!("unexpected action {:?}", other),
    }
    assert_eq!(poster.current_display_image, DisplayImage::Character);
    assert_eq!(poster.image_switch_button(), Some(false));
    poster.update(CastMessage::CharacterImageLoaded(Some(vec![1])));
    assert_eq!(poster.shown_image(), Some(&vec![1]));
    poster.update(CastMessage::SwitchDisplayImage);
    assert_eq!(poster.current_display_image, DisplayImage::Person);
    assert_eq!(poster.shown_image(), None);
    assert!(matches!(poster.update(CastMessage::SwitchDisplayImage), CastAction::Nothing));
    assert_eq!(poster.character_text(), "as Hero");
}

#[test]
fn age_of_a_person() {
    let person = cast("Actor", None).person;
    // 2001-01-01T00:00:00Z: 366 days after the birthday, that is 1 year and 6 days;
    // the age shows the smallest part
    let now = 978307200;
    assert_eq!(age_line(&person, now), Some(Age::Age("6 Days".to_string())));
    let birth = 946684800;
    assert_eq!(age_line(&person, birth + 30), Some(Age::JustBorn));
    assert_eq!(age_line(&person, birth + 120), Some(Age::Age("2 Minutes".to_string())));
    let mut dead = cast("Actor", None).person;
    dead.deathday = Some("2010-01-01".to_string());
    assert_eq!(age_line(&dead, now), None);
}

#[test]
fn series_page_parts() {
    let (mut page, loading) = Series::new(series(7, "Seven"));
    assert_eq!(loading.image, Some("https://img/7".to_string()));
    assert_eq!(loading.episode_list_of, 7);
    assert!(matches!(&loading.suggestion, SuggestionAction::LoadSeriesByGenres(g) if g == &vec!["Drama".to_string()]));
    match page.update(SeriesMessage::TrackSeries) {
        SeriesAction::MarkTracked { series_id, series_name } => {
            assert_eq!(series_id, 7);
            assert_eq!(series_name, "Seven");
        },
        other => panic!("unexpected action {:?}", other),
    }
    assert!(matches!(page.update(SeriesMessage::UntrackSeries), SeriesAction::MarkUntracked(7)));
    page.update(SeriesMessage::SeriesSuggestion(SuggestionMessage::SeriesByGenresLoaded(vec![
        series(1, "One"),
        series(7, "Seven"),
        series(2, "Two"),
    ])));
    let ids: Vec<u32> = page.series_suggestion_widget.suggested_series.iter().map(|s| s.id).collect();
    assert_eq!(ids, vec![1, 2]);
    assert!(page.series_suggestion_widget.shows_posters());
    match page.update(SeriesMessage::PeopleWidget(PeopleMessage::PeopleToggled(true))) {
        SeriesAction::People(PeopleAction::FetchCrew(id)) => assert_eq!(id, 7),
        other => panic!("unexpected action {:?}", other),
    }
    assert_eq!(page.people_widget.current_people, People::Crew);
    assert_eq!(page.people_widget.people_not_found(), "No Crew Found!");
    assert!(matches!(
        page.update(SeriesMessage::PeopleWidget(PeopleMessage::PeopleToggled(false))),
        SeriesAction::People(PeopleAction::Nothing)
    ));
    assert_eq!(page.people_widget.current_people.to_string(), "Cast");
    assert_eq!(page.get_series_main_information().name, "Seven");
}

#[test]
fn poster_is_blurred_only_while_the_background_is_missing() {
    let (mut page, _) = Series::new(series(8, "Eight"));
    assert!(matches!(page.update(SeriesMessage::SeriesImageLoaded(Some(vec![1]))), SeriesAction::BlurPoster));
    assert_eq!(page.series_image, Some(vec![1]));
    assert!(matches!(page.update(SeriesMessage::SeriesImageLoaded(None)), SeriesAction::Nothing));
    page.update(SeriesMessage::SeriesBackgroundLoaded(Some(vec![2])));
    assert!(matches!(page.update(SeriesMessage::SeriesImageLoaded(Some(vec![3]))), SeriesAction::Nothing));
}

#[test]
fn parent_series_is_removed_once() {
    let mut list = vec![series(1, "A"), series(2, "B"), series(1, "A again")];
    remove_parent(&mut list, 1);
    let names: Vec<&str> = list.iter().map(|s| s.name.as_str()).collect();
    assert_eq!(names, vec!["B", "A again"]);
    let mut none = vec![series(3, "C")];
    remove_parent(&mut none, 9);
    assert_eq!(none.len(), 1);
}

#[test]
fn tracking_button_toggles_tracking() {
    assert!(matches!(tracking_button(true), SeriesMessage::UntrackSeries));
    assert!(matches!(tracking_button(false), SeriesMessage::TrackSeries));
}
