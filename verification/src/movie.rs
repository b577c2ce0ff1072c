//! The movie lookup: where a title is asked for, whether the answer names a
//! movie, and how the movie is put into words. Asking the movie database and
//! sending the reply is the caller's work.

use vstd::prelude::*;
use vstd::string::StringExecFns;

use crate::card::{push_field, Colour, Field, FieldView};
use crate::text::{concat2, concat3, concat4, concat5, str_equal};

verus! {

/// What the movie database tells about a title. Every part is text as the
/// database gives it.
#[derive(Clone, Debug, PartialEq, Eq)]
pub struct Movie {
    pub title: String,
    pub plot: String,
    pub year: String,
    pub rated: String,
    pub released: String,
    pub runtime: String,
    pub genre: String,
    pub director: String,
    pub writer: String,
    pub actors: String,
    pub country: String,
    pub awards: String,
    pub imdb_rating: String,
    pub imdb_id: String,
    pub box_office: String,
    pub production: String,
    /// Address of the poster, or `N/A`.
    pub poster: String,
    /// `False` where the database knows no such title.
    pub response: String,
}

/// Mathematical value of a [`Movie`].
pub struct MovieView {
    pub title: Seq<char>,
    pub plot: Seq<char>,
    pub year: Seq<char>,
    pub rated: Seq<char>,
    pub released: Seq<char>,
    pub runtime: Seq<char>,
    pub genre: Seq<char>,
    pub director: Seq<char>,
    pub writer: Seq<char>,
    pub actors: Seq<char>,
    pub country: Seq<char>,
    pub awards: Seq<char>,
    pub imdb_rating: Seq<char>,
    pub imdb_id: Seq<char>,
    pub box_office: Seq<char>,
    pub production: Seq<char>,
    pub poster: Seq<char>,
    pub response: Seq<char>,
}

impl View for Movie {
    type V = MovieView;

    open spec fn view(&self) -> MovieView {
        MovieView {
            title: self.title@,
            plot: self.plot@,
            year: self.year@,
            rated: self.rated@,
            released: self.released@,
            runtime: self.runtime@,
            genre: self.genre@,
            director: self.director@,
            writer: self.writer@,
            actors: self.actors@,
            country: self.country@,
            awards: self.awards@,
            imdb_rating: self.imdb_rating@,
            imdb_id: self.imdb_id@,
            box_office: self.box_office@,
            production: self.production@,
            poster: self.poster@,
            response: self.response@,
        }
    }
}

impl DeepView for Movie {
    type V = MovieView;

    open spec fn deep_view(&self) -> MovieView {
        self@
    }
}

/// The answer that stands for "no such title": every part empty, and the
/// response `False`.
pub open spec fn missing_movie() -> MovieView {
    MovieView {
        title: Seq::empty(),
        plot: Seq::empty(),
        year: Seq::empty(),
        rated: Seq::empty(),
        released: Seq::empty(),
        runtime: Seq::empty(),
        genre: Seq::empty(),
        director: Seq::empty(),
        writer: Seq::empty(),
        actors: Seq::empty(),
        country: Seq::empty(),
        awards: Seq::empty(),
        imdb_rating: Seq::empty(),
        imdb_id: Seq::empty(),
        box_office: Seq::empty(),
        production: Seq::empty(),
        poster: Seq::empty(),
        response: "False"@,
    }
}

impl MovieView {
    /// The database knows the title: its response is anything but `False`.
    pub open spec fn is_found(self) -> bool {
        self.response != "False"@
    }
}

impl Movie {
    /// The answer that stands for "no such title".
    pub fn missing() -> (movie: Movie)
        ensures
            movie@ == missing_movie(),
    {
        Movie {
            title: String::new(),
            plot: String::new(),
            year: String::new(),
            rated: String::new(),
            released: String::new(),
            runtime: String::new(),
            genre: String::new(),
            director: String::new(),
            writer: String::new(),
            actors: String::new(),
            country: String::new(),
            awards: String::new(),
            imdb_rating: String::new(),
            imdb_id: String::new(),
            box_office: String::new(),
            production: String::new(),
            poster: String::new(),
            response: String::from_str("False"),
        }
    }

    /// Whether the database knows the title.
    pub fn is_found(&self) -> (r: bool)
        ensures
            r == self@.is_found(),
    {
        !str_equal(self.response.as_str(), "False")
    }
}

/// What to go on with after the answer was read: the movie it held, or, where
/// it could not be read as a movie, the answer for "no such title".
pub fn decoded_or_missing(decoded: Option<Movie>) -> (movie: Movie)
    ensures
        movie@ == match decoded {
            Some(read) => read@,
            None => missing_movie(),
        },
{
    match decoded {
        Some(read) => read,
        None => Movie::missing(),
    }
}

/// Where a title is asked for.
pub open spec fn lookup_address(api_key: Seq<char>, title: Seq<char>) -> Seq<char> {
    "http://www.omdbapi.com/?apikey="@ + api_key + "&t="@ + title + "&type=movie"@
}

/// The address at which a title is asked for.
pub fn lookup_url(api_key: &str, title: &str) -> (url: String)
    ensures
        url@ == lookup_address(api_key@, title@),
{
    concat5("http://www.omdbapi.com/?apikey=", api_key, "&t=", title, "&type=movie")
}

/// The reply for a title that the database does not know.
pub open spec fn not_found_message(title: Seq<char>) -> Seq<char> {
    "No movie with title: \""@ + title + "\" found."@
}

/// Writes the reply for a title that the database does not know.
pub fn not_found_text(title: &str) -> (text: String)
    ensures
        text@ == not_found_message(title@),
{
    concat3("No movie with title: \"", title, "\" found.")
}

/// The heading of a movie: its title, and its year in brackets.
pub open spec fn heading_text(movie: MovieView) -> Seq<char> {
    movie.title + " ("@ + movie.year + ")"@
}

/// Writes the heading of a movie.
pub fn heading(movie: &Movie) -> (text: String)
    ensures
        text@ == heading_text(movie@),
{
    concat4(movie.title.as_str(), " (", movie.year.as_str(), ")")
}

/// The address of the movie's page at the movie database.
pub open spec fn imdb_address(imdb_id: Seq<char>) -> Seq<char> {
    "https://imdb.com/title/"@ + imdb_id
}

/// Writes the address of the movie's page at the movie database.
pub fn imdb_url(imdb_id: &str) -> (url: String)
    ensures
        url@ == imdb_address(imdb_id@),
{
    concat2("https://imdb.com/title/", imdb_id)
}

/// The colour of a movie reply.
pub fn movie_colour() -> (colour: Colour)
    ensures
        colour == (Colour { r: 245, g: 197, b: 24 }),
{
    Colour { r: 245, g: 197, b: 24 }
}

/// The text in lower case, as the standard library's Unicode case mapping
/// of strings gives it.
pub uninterp spec fn lowercase_text(text: Seq<char>) -> Seq<char>;

/// Calls `str::to_lowercase`. The contract only gives the outcome its name.
#[verifier::external_body]
fn lowercase(text: &str) -> (lowered: String)
    ensures
        lowered@ == lowercase_text(text@),
{
    text.to_lowercase()
}

/// Whether a poster entry, already in lower case, is the database's mark for
/// "no poster".
pub fn is_no_poster_mark(lowered: &str) -> (r: bool)
    ensures
        r == (lowered@ == "n/a"@),
{
    str_equal(lowered, "n/a")
}

/// Whether the poster entry is an address to show: anything that, put in
/// lower case, is not the mark for "no poster".
pub fn has_poster(poster: &str) -> (r: bool)
    ensures
        r == (lowercase_text(poster@) != "n/a"@),
{
    let lowered = lowercase(poster);
    !is_no_poster_mark(lowered.as_str())
}

/// A field that stands on a row of its own.
pub open spec fn wide(name: Seq<char>, value: Seq<char>) -> FieldView {
    FieldView { name, value, inline: false }
}

/// A field that may share a row.
pub open spec fn narrow(name: Seq<char>, value: Seq<char>) -> FieldView {
    FieldView { name, value, inline: true }
}

/// The twelve fields of a movie, in the order in which they are shown.
pub open spec fn movie_field_list(movie: MovieView) -> Seq<FieldView> {
    seq![
        wide("IMDB Rating: "@, "‚≠ê "@ + movie.imdb_rating),
        narrow("Country"@, movie.country),
        narrow("Rated"@, movie.rated),
        narrow("Runtime"@, movie.runtime),
        wide("Genre"@, movie.genre),
        wide("Actors"@, movie.actors),
        wide("Released"@, movie.released),
        narrow("Production"@, movie.production),
        narrow("Director"@, movie.director),
        narrow("Writer"@, movie.writer),
        wide("Awards"@, movie.awards),
        narrow("Box Office"@, movie.box_office),
    ]
}

/// Builds the twelve fields of a movie.
pub fn movie_fields(movie: &Movie) -> (fields: Vec<Field>)
    ensures
        fields.deep_view() == movie_field_list(movie@),
{
    let mut fields: Vec<Field> = Vec::new();
    push_field(&mut fields, "IMDB Rating: ", concat2("‚≠ê ", movie.imdb_rating.as_str()), false);
    push_field(&mut fields, "Country", movie.country.clone(), true);
    push_field(&mut fields, "Rated", movie.rated.clone(), true);
    push_field(&mut fields, "Runtime", movie.runtime.clone(), true);
    push_field(&mut fields, "Genre", movie.genre.clone(), false);
    push_field(&mut fields, "Actors", movie.actors.clone(), false);
    push_field(&mut fields, "Released", movie.released.clone(), false);
    push_field(&mut fields, "Production", movie.production.clone(), true);
    push_field(&mut fields, "Director", movie.director.clone(), true);
    push_field(&mut fields, "Writer", movie.writer.clone(), true);
    push_field(&mut fields, "Awards", movie.awards.clone(), false);
    push_field(&mut fields, "Box Office", movie.box_office.clone(), true);
    fields
}

} // verus!
