use series_troxide::series_information::{
    average_runtime_widget, ended_widget, genres_widget, language_widget, network_widget, premiered_widget,
    rating_widget, series_type_widget, status_widget, summary_text_from_rendering, summary_widget, webchannel_widget, Network,
    SeriesMainInformation, SeriesStatus, WebChannel,
};

fn series(id: u32, name: &str, status: &str) -> SeriesMainInformation {
    SeriesMainInformation {
        id,
        name: name.to_string(),
        status: status.to_string(),
        genres: vec![],
        average_runtime: None,
        language: None,
        premiered: None,
        ended: None,
        summary: None,
        network: None,
        web_channel: None,
        kind: None,
        image: None,
    }
}

#[test]
fn status_is_read_from_its_text() {
    assert_eq!(SeriesStatus::new(&series(1, "a", "Running")), SeriesStatus::Running);
    assert_eq!(SeriesStatus::new(&series(1, "a", "Ended")), SeriesStatus::Ended);
    assert_eq!(SeriesStatus::new(&series(1, "a", "To Be Determined")), SeriesStatus::ToBeDetermined);
    assert_eq!(SeriesStatus::new(&series(1, "a", "In Development")), SeriesStatus::InDevelopment);
    assert_eq!(SeriesStatus::new(&series(1, "a", "running")), SeriesStatus::Other);
    assert_eq!(SeriesStatus::new(&series(1, "a", "")), SeriesStatus::Other);
}

#[test]
fn metadata_texts() {
    let mut info = series(1, "Show", "Running");
    assert!(status_widget(&info).contains("Running"));
    assert_eq!(language_widget(&info), "unavailable");
    assert_eq!(premiered_widget(&info), "unavailable");
    assert_eq!(ended_widget(&info), None);
    assert_eq!(genres_widget(&info), None);
    assert_eq!(network_widget(&info), None);
    assert_eq!(webchannel_widget(&info), None);

    info.language = Some("English".to_string());
    info.premiered = Some("2020-01-01".to_string());
    info.average_runtime = Some(45);
    info.genres = vec!["Drama".to_string(), "Thriller".to_string()];
    info.network = Some(Network { name: "HBO".to_string(), country_name: "United States".to_string() });
    info.web_channel = Some(WebChannel { name: "Netflix".to_string() });
    assert_eq!(language_widget(&info), "English");
    assert_eq!(premiered_widget(&info), "2020-01-01");
    assert!(average_runtime_widget(&info).contains("45"));
    assert_eq!(genres_widget(&info), Some("Drama | Thriller".to_string()));
    assert!(network_widget(&info).unwrap().contains("HBO"));
    assert!(webchannel_widget(&info).unwrap().contains("Netflix"));
}

#[test]
fn rating_stars() {
    assert_eq!(rating_widget(7, false), (7, false, 3));
    assert_eq!(rating_widget(7, true), (7, true, 2));
    assert_eq!(rating_widget(10, false), (10, false, 0));
    assert_eq!(rating_widget(0, false), (0, false, 10));
}

#[test]
fn summary_uses_the_rendered_text_or_the_raw_one() {
    let raw = "<p>Hello</p>".to_string();
    assert_eq!(summary_text_from_rendering(&raw, Some("Hello".to_string())), "Hello");
    assert_eq!(summary_text_from_rendering(&raw, None), "<p>Hello</p>");
}

#[test]
fn summary_is_rendered_from_html() {
    let mut info = series(1, "Show", "Running");
    info.summary = Some("<p>A <b>great</b> show.</p>".to_string());
    let text = summary_widget(&info);
    assert!(text.contains("great"));
    assert!(!text.contains("<p>"));
}

#[test]
fn series_type_shown_when_known() {
    let mut info = series(1, "Dark", "Ended");
    assert_eq!(series_type_widget(&info), None);
    info.kind = Some("Scripted".to_string());
    assert_eq!(series_type_widget(&info), Some("Scripted".to_string()));
}
