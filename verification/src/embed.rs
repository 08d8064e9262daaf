//! What an embed holds: the rich block of text that the chat platform shows
//! under a message.

use vstd::prelude::*;

verus! {

/// A color, as red, green and blue.
pub type Color = (u8, u8, u8);

/// One titled field of an embed.
#[derive(Debug, Clone, PartialEq, Eq)]
pub struct EmbedField {
    pub name: String,
    pub value: String,
    /// Whether the field may share its row with others.
    pub inline: bool,
}

/// Mathematical value of an [`EmbedField`].
pub ghost struct EmbedFieldView {
    pub name: Seq<char>,
    pub value: Seq<char>,
    pub inline: bool,
}

impl View for EmbedField {
    type V = EmbedFieldView;

    open spec fn view(&self) -> EmbedFieldView {
        EmbedFieldView { name: self.name@, value: self.value@, inline: self.inline }
    }
}

impl DeepView for EmbedField {
    type V = EmbedFieldView;

    open spec fn deep_view(&self) -> EmbedFieldView {
        self@
    }
}

/// Whom an embed names as the author of what it shows.
#[derive(Debug, Clone, PartialEq, Eq)]
pub struct EmbedAuthor {
    pub name: String,
    /// Where the name leads.
    pub url: String,
    /// Where the author's picture is; empty where there is none.
    pub icon_url: String,
}

/// Mathematical value of an [`EmbedAuthor`].
pub ghost struct EmbedAuthorView {
    pub name: Seq<char>,
    pub url: Seq<char>,
    pub icon_url: Seq<char>,
}

impl View for EmbedAuthor {
    type V = EmbedAuthorView;

    open spec fn view(&self) -> EmbedAuthorView {
        EmbedAuthorView { name: self.name@, url: self.url@, icon_url: self.icon_url@ }
    }
}

impl DeepView for EmbedAuthor {
    type V = EmbedAuthorView;

    open spec fn deep_view(&self) -> EmbedAuthorView {
        self@
    }
}

/// What an embed is to show; what is `None` is left out.
#[derive(Debug, Clone, PartialEq, Eq)]
pub struct Embed {
    pub author: Option<EmbedAuthor>,
    pub title: Option<String>,
    pub description: Option<String>,
    pub url: Option<String>,
    pub color: Option<Color>,
    /// The fields, in the order in which they are shown.
    pub fields: Vec<EmbedField>,
    /// A moment, written as the platform writes moments.
    pub timestamp: Option<String>,
    pub footer: Option<String>,
    pub thumbnail: Option<String>,
}

/// Mathematical value of an [`Embed`].
pub ghost struct EmbedView {
    pub author: Option<EmbedAuthorView>,
    pub title: Option<Seq<char>>,
    pub description: Option<Seq<char>>,
    pub url: Option<Seq<char>>,
    pub color: Option<Color>,
    pub fields: Seq<EmbedFieldView>,
    pub timestamp: Option<Seq<char>>,
    pub footer: Option<Seq<char>>,
    pub thumbnail: Option<Seq<char>>,
}

impl View for Embed {
    type V = EmbedView;

    open spec fn view(&self) -> EmbedView {
        EmbedView {
            author: self.author.deep_view(),
            title: self.title.deep_view(),
            description: self.description.deep_view(),
            url: self.url.deep_view(),
            color: self.color,
            fields: self.fields.deep_view(),
            timestamp: self.timestamp.deep_view(),
            footer: self.footer.deep_view(),
            thumbnail: self.thumbnail.deep_view(),
        }
    }
}

impl EmbedView {
    /// The embed that shows nothing.
    pub open spec fn empty() -> EmbedView {
        EmbedView {
            author: None,
            title: None,
            description: None,
            url: None,
            color: None,
            fields: Seq::empty(),
            timestamp: None,
            footer: None,
            thumbnail: None,
        }
    }

    /// This embed with one more field at its end.
    pub open spec fn with_field(
        self,
        name: Seq<char>,
        value: Seq<char>,
        inline: bool,
    ) -> EmbedView {
        EmbedView { fields: self.fields.push(EmbedFieldView { name, value, inline }), ..self }
    }
}

impl Embed {
    /// The embed that shows nothing.
    pub fn new() -> (embed: Embed)
        ensures
            embed@ == EmbedView::empty(),
    {
        let embed = Embed {
            author: None,
            title: None,
            description: None,
            url: None,
            color: None,
            fields: Vec::new(),
            timestamp: None,
            footer: None,
            thumbnail: None,
        };
        assert(embed@.fields =~= Seq::empty());
        embed
    }

    /// Adds a field at the end.
    pub fn field(&mut self, name: String, value: String, inline: bool)
        ensures
            final(self)@ == old(self)@.with_field(name@, value@, inline),
    {
        self.fields.push(EmbedField { name, value, inline });
        assert(self@.fields =~= old(self)@.fields.push(
            EmbedFieldView { name: name@, value: value@, inline },
        ));
    }
}

} // verus!
