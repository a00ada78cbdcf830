use std::borrow::Cow;

use series_troxide::assets::get_static_cow_from_asset;
use series_troxide::helpers::{
    genres_with_pipes, parse_season_episode_number, season_episode_str_gen, u32_to_string, usize_to_string,
};
use series_troxide::message::IndexedMessage;

#[test]
fn season_episode_numbers_get_a_leading_zero_below_ten() {
    assert_eq!(parse_season_episode_number(0), "00");
    assert_eq!(parse_season_episode_number(7), "07");
    assert_eq!(parse_season_episode_number(10), "10");
    assert_eq!(parse_season_episode_number(123), "123");
}

#[test]
fn season_episode_code() {
    assert_eq!(season_episode_str_gen(2, 3), "S02E03");
    assert_eq!(season_episode_str_gen(12, 104), "S12E104");
}

#[test]
fn genres_are_joined_with_pipes() {
    let genres = vec!["Drama".to_string(), "Comedy".to_string(), "Horror".to_string()];
    assert_eq!(genres_with_pipes(&genres), "Drama | Comedy | Horror");
    assert_eq!(genres_with_pipes(&["Drama".to_string()]), "Drama");
    assert_eq!(genres_with_pipes(&[]), "");
}

#[test]
fn decimal_texts() {
    assert_eq!(u32_to_string(0), "0");
    assert_eq!(u32_to_string(4294967295), "4294967295");
    assert_eq!(usize_to_string(1024), "1024");
}

#[test]
fn static_asset_is_borrowed() {
    let cow = get_static_cow_from_asset(b"abc");
    assert!(matches!(cow, Cow::Borrowed(_)));
    assert_eq!(&*cow, b"abc");
}

#[test]
fn indexed_message_keeps_index_and_message() {
    let message = IndexedMessage::new(4usize, "pressed");
    assert_eq!(message.index(), 4);
    assert_eq!(message.message(), "pressed");
}
