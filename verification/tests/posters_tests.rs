use series_troxide::gui::TabsController;
use series_troxide::series_information::SeriesMainInformation;
use series_troxide::theme::TroxideTheme;
use series_troxide::troxide_widget::{Action, GenericPoster, GenericPosterMessage, Message, SeriesPoster};

fn series(id: u32, name: &str, image: Option<&str>) -> SeriesMainInformation {
    SeriesMainInformation {
        id,
        name: name.to_string(),
        status: "Running".to_string(),
        genres: vec!["Drama".to_string(), "Crime".to_string()],
        average_runtime: Some(50),
        language: Some("English".to_string()),
        premiered: Some("2008-01-20".to_string()),
        ended: None,
        summary: None,
        network: None,
        web_channel: None,
        kind: None,
        image: image.map(|s| s.to_string()),
    }
}

#[test]
fn generic_poster_loads_its_image() {
    let (mut poster, url) = GenericPoster::new(series(1, "Breaking Bad", Some("https://img/1")));
    assert_eq!(url, Some("https://img/1".to_string()));
    assert_eq!(poster.get_image(), None);
    poster.update(GenericPosterMessage::ImageLoaded(Some(vec![7, 8, 9])));
    assert_eq!(poster.get_image(), Some(&vec![7, 8, 9]));
    assert_eq!(poster.get_series_info().id, 1);
    let opened = poster.open_series_page();
    assert_eq!(opened.name, "Breaking Bad");
    assert_eq!(opened.genres, vec!["Drama".to_string(), "Crime".to_string()]);
}

#[test]
fn series_poster_without_image_loads_nothing() {
    let (poster, action) = SeriesPoster::new(4, series(2, "Lost", None));
    assert!(matches!(action, Action::Nothing));
    assert_eq!(poster.index, 4);
    assert!(!poster.expanded);
    assert!(!poster.is_hidden());
}

#[test]
fn series_poster_messages() {
    let (mut poster, action) = SeriesPoster::new(0, series(3, "Dark", Some("https://img/3")));
    match action {
        Action::LoadImage(url) => assert_eq!(url, "https://img/3"),
        other => panic!("unexpected action {:?}", other),
    }
    assert_eq!(poster.image_height(), 140);
    assert!(matches!(poster.update(Message::Expand), Action::Nothing));
    assert!(poster.expanded);
    assert_eq!(poster.image_height(), 170);
    assert!(matches!(poster.update(Message::Expand), Action::Nothing));
    assert!(!poster.expanded);
    match poster.update(Message::SeriesPosterPressed) {
        Action::OpenSeriesPage(info) => assert_eq!(info.id, 3),
        other => panic!("unexpected action {:?}", other),
    }
    match poster.update(Message::Hide) {
        Action::HideSeries { series_id, series_name, premiered } => {
            assert_eq!(series_id, 3);
            assert_eq!(series_name, "Dark");
            assert_eq!(premiered, Some("2008-01-20".to_string()));
        },
        other => panic!("unexpected action {:?}", other),
    }
    assert!(!poster.is_hidden());
    assert!(matches!(poster.update(Message::SeriesHidden), Action::Nothing));
    assert!(poster.is_hidden());
    poster.update(Message::Poster(GenericPosterMessage::ImageLoaded(Some(vec![1]))));
    assert_eq!(poster.poster.get_image(), Some(&vec![1]));
}

#[test]
fn series_poster_texts() {
    assert_eq!(SeriesPoster::premier_text(Some("2008-01-20")), Some("Premiered: 2008-01-20".to_string()));
    assert_eq!(SeriesPoster::premier_text(None), None);
    assert_eq!(
        SeriesPoster::genres_text(&["Drama".to_string(), "Crime".to_string()]),
        Some("Drama | Crime".to_string())
    );
    assert_eq!(SeriesPoster::genres_text(&[]), None);
}

#[test]
fn light_theme_by_default() {
    assert_eq!(TroxideTheme::default(), TroxideTheme::Light);
    assert_ne!(TroxideTheme::default(), TroxideTheme::Dark);
}

#[test]
fn tab_labels_in_title_bar_order() {
    let tabs = TabsController::new();
    let icons: [&'static [u8]; 5] = [b"d", b"w", b"m", b"s", b"g"];
    let labels = tabs.get_labels(icons);
    let texts: Vec<&str> = labels.iter().map(|l| l.text).collect();
    assert_eq!(texts, vec!["Discover", "Watchlist", "My Shows", "Statistics", "Settings"]);
    assert_eq!(labels[2].icon, b"m");
}
