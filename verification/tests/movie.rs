use oxidize::card::{Colour, Field};
use oxidize::movie::{
    decoded_or_missing, has_poster, heading, imdb_url, is_no_poster_mark, lookup_url,
    movie_colour, movie_fields, not_found_text, Movie,
};

fn field(name: &str, value: &str, inline: bool) -> Field {
    Field::new(name.to_string(), value.to_string(), inline)
}

fn alien() -> Movie {
    Movie {
        title: "Alien".to_string(),
        plot: "A crew meets a life form.".to_string(),
        year: "1979".to_string(),
        rated: "R".to_string(),
        released: "22 Jun 1979".to_string(),
        runtime: "117 min".to_string(),
        genre: "Horror, Sci-Fi".to_string(),
        director: "Ridley Scott".to_string(),
        writer: "Dan O'Bannon".to_string(),
        actors: "Sigourney Weaver".to_string(),
        country: "United Kingdom".to_string(),
        awards: "Won 1 Oscar".to_string(),
        imdb_rating: "8.5".to_string(),
        imdb_id: "tt0078748".to_string(),
        box_office: "$81,900,459".to_string(),
        production: "N/A".to_string(),
        poster: "https://posters.example/alien.jpg".to_string(),
        response: "True".to_string(),
    }
}

#[test]
fn lookup_address_is_filled_in() {
    assert_eq!(
        lookup_url("KEY", "Alien"),
        "http://www.omdbapi.com/?apikey=KEY&t=Alien&type=movie"
    );
    assert_eq!(lookup_url("", ""), "http://www.omdbapi.com/?apikey=&t=&type=movie");
}

#[test]
fn missing_movie_is_empty_and_not_found() {
    let missing = Movie::missing();
    assert_eq!(missing.response, "False");
    assert_eq!(missing.title, "");
    assert_eq!(missing.poster, "");
    assert_eq!(missing.imdb_id, "");
    assert!(!missing.is_found());
}

#[test]
fn only_the_response_false_means_not_found() {
    assert!(alien().is_found());
    let mut movie = alien();
    movie.response = "False".to_string();
    assert!(!movie.is_found());
    movie.response = "false".to_string();
    assert!(movie.is_found());
    movie.response = String::new();
    assert!(movie.is_found());
}

#[test]
fn unreadable_answer_counts_as_missing() {
    assert_eq!(decoded_or_missing(None), Movie::missing());
    assert_eq!(decoded_or_missing(Some(alien())), alien());
}

#[test]
fn unknown_title_is_named_in_the_reply() {
    assert_eq!(not_found_text("Alien 9"), "No movie with title: \"Alien 9\" found.");
}

#[test]
fn heading_holds_title_and_year() {
    assert_eq!(heading(&alien()), "Alien (1979)");
    assert_eq!(heading(&Movie::missing()), " ()");
}

#[test]
fn page_address_ends_in_the_id() {
    assert_eq!(imdb_url("tt0078748"), "https://imdb.com/title/tt0078748");
    assert_eq!(imdb_url(""), "https://imdb.com/title/");
}

#[test]
fn colour_is_the_database_yellow() {
    assert_eq!(movie_colour(), Colour { r: 245, g: 197, b: 24 });
}

#[test]
fn poster_mark_is_matched_in_any_case() {
    assert!(has_poster("https://posters.example/alien.jpg"));
    assert!(!has_poster("N/A"));
    assert!(!has_poster("n/a"));
    assert!(!has_poster("n/A"));
    assert!(has_poster(""));
    assert!(has_poster("N/A "));
    assert!(has_poster("NA"));
}

#[test]
fn poster_mark_itself_is_exact() {
    assert!(is_no_poster_mark("n/a"));
    assert!(!is_no_poster_mark("N/A"));
    assert!(!is_no_poster_mark("n/a "));
    assert!(!is_no_poster_mark(""));
}

#[test]
fn movie_has_twelve_fields_in_order() {
    assert_eq!(
        movie_fields(&alien()),
        vec![
            field("IMDB Rating: ", "‚≠ê 8.5", false),
            field("Country", "United Kingdom", true),
            field("Rated", "R", true),
            field("Runtime", "117 min", true),
            field("Genre", "Horror, Sci-Fi", false),
            field("Actors", "Sigourney Weaver", false),
            field("Released", "22 Jun 1979", false),
            field("Production", "N/A", true),
            field("Director", "Ridley Scott", true),
            field("Writer", "Dan O'Bannon", true),
            field("Awards", "Won 1 Oscar", false),
            field("Box Office", "$81,900,459", true),
        ]
    );
}
