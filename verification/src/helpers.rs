//! Formatting helpers for season and episode numbers and genre lists.

use vstd::prelude::*;

pub mod time;

verus! {

/// The character of a single decimal digit.
pub open spec fn digit_char(d: nat) -> char {
    if d == 0 { '0' }
    else if d == 1 { '1' }
    else if d == 2 { '2' }
    else if d == 3 { '3' }
    else if d == 4 { '4' }
    else if d == 5 { '5' }
    else if d == 6 { '6' }
    else if d == 7 { '7' }
    else if d == 8 { '8' }
    else { '9' }
}

/// The decimal representation of `n`, without leading zeros.
pub open spec fn decimal(n: nat) -> Seq<char>
    decreases n,
{
    if n < 10 {
        seq![digit_char(n)]
    } else {
        decimal(n / 10).push(digit_char(n % 10))
    }
}

fn digit_str(d: u32) -> (s: &'static str)
    requires
        d < 10,
    ensures
        s@ == seq![digit_char(d as nat)],
{
    proof {
        reveal_strlit("0");
        reveal_strlit("1");
        reveal_strlit("2");
        reveal_strlit("3");
        reveal_strlit("4");
        reveal_strlit("5");
        reveal_strlit("6");
        reveal_strlit("7");
        reveal_strlit("8");
        reveal_strlit("9");
    }
    match d {
        0 => "0",
        1 => "1",
        2 => "2",
        3 => "3",
        4 => "4",
        5 => "5",
        6 => "6",
        7 => "7",
        8 => "8",
        _ => "9",
    }
}

/// Appends the decimal representation of `n` to `s`.
pub fn push_decimal(s: &mut String, n: u32)
    ensures
        final(s)@ == old(s)@ + decimal(n as nat),
    decreases n,
{
    if n >= 10 {
        push_decimal(s, n / 10);
    }
    s.append(digit_str(n % 10));
}

/// The decimal representation of `n` as a `String`.
pub fn u32_to_string(n: u32) -> (s: String)
    ensures
        s@ == decimal(n as nat),
{
    let mut s = String::new();
    push_decimal(&mut s, n);
    proof {
        assert(s@ =~= decimal(n as nat));
    }
    s
}

/// Appends the decimal representation of `n` to `s`.
pub fn push_decimal_usize(s: &mut String, n: usize)
    ensures
        final(s)@ == old(s)@ + decimal(n as nat),
    decreases n,
{
    if n >= 10 {
        push_decimal_usize(s, n / 10);
    }
    s.append(digit_str((n % 10) as u32));
}

/// The decimal representation of `n` as a `String`.
pub fn usize_to_string(n: usize) -> (s: String)
    ensures
        s@ == decimal(n as nat),
{
    let mut s = String::new();
    push_decimal_usize(&mut s, n);
    proof {
        assert(s@ =~= decimal(n as nat));
    }
    s
}

/// How a season or an episode number is displayed: numbers below ten get a
/// leading zero.
pub open spec fn number_text(number: nat) -> Seq<char> {
    if number < 10 {
        seq!['0'] + decimal(number)
    } else {
        decimal(number)
    }
}

/// The `SxxEyy` code of an episode.
pub open spec fn season_episode_text(season_number: nat, episode_number: nat) -> Seq<char> {
    seq!['S'] + number_text(season_number) + seq!['E'] + number_text(episode_number)
}

/// Parses the episode number or season number to proper number to be
/// displayed.
///
/// This prefixes a zero if a number is less than 10, and nothing otherwise.
pub fn parse_season_episode_number(number: u32) -> (s: String)
    ensures
        s@ == number_text(number as nat),
{
    let mut s = String::new();
    if number < 10 {
        proof {
            reveal_strlit("0");
        }
        s.append("0");
    }
    push_decimal(&mut s, number);
    proof {
        assert(s@ =~= number_text(number as nat));
    }
    s
}

/// Generates the season and episode string.
///
/// Season number 2 and episode number 3 give `S02E03`.
pub fn season_episode_str_gen(season_number: u32, episode_number: u32) -> (s: String)
    ensures
        s@ == season_episode_text(season_number as nat, episode_number as nat),
{
    let mut s = String::new();
    proof {
        reveal_strlit("S");
        reveal_strlit("E");
    }
    s.append("S");
    let season = parse_season_episode_number(season_number);
    s.append(season.as_str());
    s.append("E");
    let episode = parse_season_episode_number(episode_number);
    s.append(episode.as_str());
    proof {
        assert(s@ =~= season_episode_text(season_number as nat, episode_number as nat));
    }
    s
}

/// The separator placed between two genres.
pub open spec fn genre_separator() -> Seq<char> {
    seq![' ', '|', ' ']
}

/// The items of `list` joined by `sep`.
pub open spec fn join(list: Seq<Seq<char>>, sep: Seq<char>) -> Seq<char>
    decreases list.len(),
{
    if list.len() == 0 {
        Seq::empty()
    } else if list.len() == 1 {
        list[0]
    } else {
        join(list.drop_last(), sep) + sep + list.last()
    }
}

/// The views of a list of strings.
pub open spec fn string_views(strings: Seq<String>) -> Seq<Seq<char>> {
    strings.map_values(|s: String| s@)
}

/// Joins the genres with ` | ` between each two of them.
pub fn genres_with_pipes(genres: &[String]) -> (s: String)
    ensures
        s@ == join(string_views(genres@), genre_separator()),
{
    let mut genres_string = String::new();
    let ghost views = string_views(genres@);
    let mut i: usize = 0;
    while i < genres.len()
        invariant
            i <= genres.len(),
            views == string_views(genres@),
            genres_string@ == join(views.take(i as int), genre_separator()),
        decreases genres.len() - i,
    {
        proof {
            reveal_strlit(" | ");
            assert(views.take(i + 1).drop_last() =~= views.take(i as int));
        }
        if i != 0 {
            genres_string.append(" | ");
        }
        genres_string.append(genres[i].as_str());
        i = i + 1;
    }
    proof {
        assert(views.take(genres.len() as int) =~= views);
    }
    genres_string
}

} // verus!
