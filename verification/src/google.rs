//! The web search: where a query is asked for, how each result is put into
//! words, and which colour the reply takes. Asking the search service and
//! sending the reply is the caller's work.

use rand::seq::SliceRandom;
use vstd::prelude::*;

use crate::card::{Colour, Field, FieldView};
use crate::text::{concat4, concat5, decimal, decimal_text};

verus! {

/// How many results a search asks for.
pub const RESULT_COUNT: u64 = 5;

/// One result of a search.
#[derive(Clone, Debug, PartialEq, Eq)]
pub struct SearchResult {
    pub title: String,
    pub link: String,
    pub snippet: String,
}

/// Mathematical value of a [`SearchResult`].
pub struct SearchResultView {
    pub title: Seq<char>,
    pub link: Seq<char>,
    pub snippet: Seq<char>,
}

impl View for SearchResult {
    type V = SearchResultView;

    open spec fn view(&self) -> SearchResultView {
        SearchResultView { title: self.title@, link: self.link@, snippet: self.snippet@ }
    }
}

impl DeepView for SearchResult {
    type V = SearchResultView;

    open spec fn deep_view(&self) -> SearchResultView {
        self@
    }
}

/// Where a query is asked for.
pub open spec fn search_address(api_key: Seq<char>, engine_id: Seq<char>, query: Seq<char>) -> Seq<
    char,
> {
    "https://customsearch.googleapis.com/customsearch/v1?key="@ + api_key + "&cx="@ + engine_id
        + "&num="@ + decimal_text(RESULT_COUNT as nat) + "&q="@ + query
}

/// The address at which a query is asked for.
pub fn search_url(api_key: &str, engine_id: &str, query: &str) -> (url: String)
    ensures
        url@ == search_address(api_key@, engine_id@, query@),
{
    let count = decimal(RESULT_COUNT);
    let head = concat5(
        "https://customsearch.googleapis.com/customsearch/v1?key=",
        api_key,
        "&cx=",
        engine_id,
        "&num=",
    );
    concat4(head.as_str(), count.as_str(), "&q=", query)
}

/// The field that shows one result: its title as the heading, and below it a
/// link to the page and the snippet, each on a line.
pub open spec fn result_field_of(result: SearchResultView) -> FieldView {
    FieldView {
        name: result.title,
        value: "**[Link]("@ + result.link + ")**\n"@ + result.snippet,
        inline: false,
    }
}

/// Builds the field that shows one result.
pub fn result_field(result: &SearchResult) -> (field: Field)
    ensures
        field@ == result_field_of(result@),
{
    Field::new(
        result.title.clone(),
        concat4("**[Link](", result.link.as_str(), ")**\n", result.snippet.as_str()),
        false,
    )
}

/// Builds one field for each result, in the order of the results.
pub fn result_fields(results: &Vec<SearchResult>) -> (fields: Vec<Field>)
    ensures
        fields.deep_view() == results.deep_view().map_values(
            |result: SearchResultView| result_field_of(result),
        ),
{
    let ghost shown = results.deep_view().map_values(
        |result: SearchResultView| result_field_of(result),
    );
    let mut fields: Vec<Field> = Vec::new();
    let mut i: usize = 0;
    while i < results.len()
        invariant
            i <= results.len(),
            fields.len() == i,
            shown == results.deep_view().map_values(
                |result: SearchResultView| result_field_of(result),
            ),
            forall|j: int| 0 <= j < i ==> (#[trigger] fields[j])@ == shown[j],
        decreases results.len() - i,
    {
        let field = result_field(&results[i]);
        assert(shown[i as int] == result_field_of(results.deep_view()[i as int]));
        fields.push(field);
        i += 1;
    }
    assert(fields.deep_view() =~= shown);
    fields
}

/// The four colours that a search reply can take: blue, red, yellow and
/// green.
pub open spec fn palette_view() -> Seq<Colour> {
    seq![
        Colour { r: 66, g: 133, b: 244 },
        Colour { r: 219, g: 68, b: 55 },
        Colour { r: 244, g: 180, b: 0 },
        Colour { r: 15, g: 157, b: 88 },
    ]
}

/// The four colours that a search reply can take.
pub fn palette() -> (colours: Vec<Colour>)
    ensures
        colours@ == palette_view(),
{
    let mut colours: Vec<Colour> = Vec::new();
    colours.push(Colour { r: 66, g: 133, b: 244 });
    colours.push(Colour { r: 219, g: 68, b: 55 });
    colours.push(Colour { r: 244, g: 180, b: 0 });
    colours.push(Colour { r: 15, g: 157, b: 88 });
    assert(colours@ =~= palette_view());
    colours
}

/// Calls rand: `SliceRandom::choose` on the colours, with the generator of
/// the current thread (`thread_rng`). The choice is random, so the contract
/// states only what holds of every outcome: nothing is chosen from no
/// colours, and what is chosen from some colours is one of them.
#[verifier::external_body]
fn choose_colour(colours: &[Colour]) -> (chosen: Option<Colour>)
    ensures
        colours@.len() == 0 ==> chosen is None,
        colours@.len() > 0 ==> chosen is Some && colours@.contains(chosen->0),
{
    colours.choose(&mut rand::thread_rng()).copied()
}

/// Picks the colour of a search reply at random. Whatever the choice, it is
/// one of the four colours of the palette.
pub fn pick_colour() -> (colour: Colour)
    ensures
        palette_view().contains(colour),
{
    let colours = palette();
    match choose_colour(colours.as_slice()) {
        Some(colour) => colour,
        None => colours[0],
    }
}

} // verus!
