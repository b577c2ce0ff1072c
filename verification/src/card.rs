//! Plain values for the parts of a rich reply: a titled field and a colour.
//! The caller turns them into whatever its chat framework builds replies
//! from.

use vstd::prelude::*;

use crate::text::concat3;

verus! {

/// One titled field of a rich reply.
#[derive(Clone, Debug, PartialEq, Eq)]
pub struct Field {
    /// The field's heading.
    pub name: String,
    /// The field's text.
    pub value: String,
    /// Whether the field may share a row with its neighbours.
    pub inline: bool,
}

/// Mathematical value of a [`Field`].
pub struct FieldView {
    pub name: Seq<char>,
    pub value: Seq<char>,
    pub inline: bool,
}

impl View for Field {
    type V = FieldView;

    open spec fn view(&self) -> FieldView {
        FieldView { name: self.name@, value: self.value@, inline: self.inline }
    }
}

impl DeepView for Field {
    type V = FieldView;

    open spec fn deep_view(&self) -> FieldView {
        self@
    }
}

impl Field {
    /// A field with the given heading, text and placement.
    pub fn new(name: String, value: String, inline: bool) -> (field: Field)
        ensures
            field@ == (FieldView { name: name@, value: value@, inline }),
    {
        Field { name, value, inline }
    }
}

/// A colour by its red, green and blue parts.
#[derive(Clone, Copy, Debug, PartialEq, Eq, Structural)]
pub struct Colour {
    pub r: u8,
    pub g: u8,
    pub b: u8,
}

/// The sequence that holds the field where there is a text for it, and
/// nothing where there is none.
pub open spec fn optional_field(name: Seq<char>, value: Option<Seq<char>>, inline: bool) -> Seq<
    FieldView,
> {
    match value {
        Some(value) => seq![FieldView { name, value, inline }],
        None => Seq::empty(),
    }
}

/// Appends a field to a list of fields.
pub fn push_field(fields: &mut Vec<Field>, name: &str, value: String, inline: bool)
    ensures
        final(fields).deep_view() == old(fields).deep_view() + seq![
            FieldView { name: name@, value: value@, inline },
        ],
{
    let field = Field::new(name.to_owned(), value, inline);
    fields.push(field);
    assert(fields.deep_view() =~= old(fields).deep_view() + seq![field@]);
}

/// Appends a field to a list of fields where there is a text for it, and
/// leaves the list as it is where there is none.
pub fn push_optional_field(fields: &mut Vec<Field>, name: &str, value: Option<String>, inline: bool)
    ensures
        final(fields).deep_view() == old(fields).deep_view() + optional_field(
            name@,
            value.deep_view(),
            inline,
        ),
{
    match value {
        Some(value) => push_field(fields, name, value, inline),
        None => {
            assert(fields.deep_view() =~= old(fields).deep_view() + Seq::<FieldView>::empty());
        },
    }
}

/// The footer of a rich reply: the bot's name, a bar, and the name of the
/// service that the reply draws on.
pub open spec fn footer_of(bot_name: Seq<char>, service: Seq<char>) -> Seq<char> {
    bot_name + " | "@ + service
}

/// Writes the footer of a rich reply.
pub fn footer_text(bot_name: &str, service: &str) -> (text: String)
    ensures
        text@ == footer_of(bot_name@, service@),
{
    concat3(bot_name, " | ", service)
}

} // verus!
