//! Rich messages as plain data, ready to be handed to the platform.

use crate::structs::clone_opt_string;
use vstd::prelude::*;

verus! {

/// The accent colour of a message.
#[derive(Clone, Copy, Debug, PartialEq, Eq, Structural)]
pub enum Color {
    Blue,
    Red,
}

/// A titled line of a message.
#[derive(Debug, PartialEq, Eq)]
pub struct EmbedField {
    pub name: String,
    pub value: String,
    pub inline: bool,
}

/// What a field says.
pub struct EmbedFieldView {
    pub name: Seq<char>,
    pub value: Seq<char>,
    pub inline: bool,
}

impl View for EmbedField {
    type V = EmbedFieldView;

    open spec fn view(&self) -> EmbedFieldView {
        EmbedFieldView { name: self.name@, value: self.value@, inline: self.inline }
    }
}

impl DeepView for EmbedField {
    type V = EmbedFieldView;

    open spec fn deep_view(&self) -> EmbedFieldView {
        self@
    }
}

impl Clone for EmbedField {
    fn clone(&self) -> (r: Self)
        ensures
            r == *self,
    {
        EmbedField { name: self.name.clone(), value: self.value.clone(), inline: self.inline }
    }
}

/// A rich message: a heading with an icon, and below it a text, titled
/// lines and an image, as far as there are any. A message with `timestamp`
/// set is stamped with the time at which it is sent.
#[derive(Debug, PartialEq, Eq)]
pub struct Embed {
    pub author_name: String,
    pub author_icon_url: String,
    pub author_url: Option<String>,
    pub description: Option<String>,
    pub fields: Vec<EmbedField>,
    pub image: Option<String>,
    pub color: Color,
    pub timestamp: bool,
}

/// What a rich message says.
pub struct EmbedView {
    pub author_name: Seq<char>,
    pub author_icon_url: Seq<char>,
    pub author_url: Option<Seq<char>>,
    pub description: Option<Seq<char>>,
    pub fields: Seq<EmbedFieldView>,
    pub image: Option<Seq<char>>,
    pub color: Color,
    pub timestamp: bool,
}

impl View for Embed {
    type V = EmbedView;

    open spec fn view(&self) -> EmbedView {
        EmbedView {
            author_name: self.author_name@,
            author_icon_url: self.author_icon_url@,
            author_url: self.author_url.deep_view(),
            description: self.description.deep_view(),
            fields: self.fields.deep_view(),
            image: self.image.deep_view(),
            color: self.color,
            timestamp: self.timestamp,
        }
    }
}

impl DeepView for Embed {
    type V = EmbedView;

    open spec fn deep_view(&self) -> EmbedView {
        self@
    }
}

impl Clone for Embed {
    fn clone(&self) -> (r: Self)
        ensures
            r@ == self@,
    {
        let fields = self.fields.clone();
        let r = Embed {
            author_name: self.author_name.clone(),
            author_icon_url: self.author_icon_url.clone(),
            author_url: clone_opt_string(&self.author_url),
            description: clone_opt_string(&self.description),
            fields,
            image: clone_opt_string(&self.image),
            color: self.color,
            timestamp: self.timestamp,
        };
        assert(r@.fields =~= self@.fields);
        r
    }
}

/// The field with the given title and text.
pub open spec fn spec_field(name: Seq<char>, value: Seq<char>, inline: bool) -> EmbedFieldView {
    EmbedFieldView { name, value, inline }
}

} // verus!
