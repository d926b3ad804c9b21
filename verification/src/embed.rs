//! How a message is shown inside a starboard embed: the author line, the
//! text, one picture, one thumbnail, and the fields of the message's own
//! embeds.
use crate::starboard::{embed_author, image_word, is_image, StarboardEmbedType};
use crate::text::contains;
use vstd::prelude::*;

verus! {

/// What the starboard reads of an embed of the message.
pub struct EmbedParts {
    pub title: Option<String>,
    pub description: Option<String>,
    pub image: Option<String>,
    pub thumbnail: Option<String>,
    /// Name, value and whether the field is inline.
    pub fields: Vec<(String, String, bool)>,
}

/// What the starboard reads of a message.
pub struct MessageParts {
    pub author_name: String,
    pub content: String,
    /// Content type (if known) and address of each attachment.
    pub attachments: Vec<(Option<String>, String)>,
    pub embeds: Vec<EmbedParts>,
}

/// What the embed shows.
pub struct EmbedPlan {
    pub author: String,
    pub description: String,
    /// The embed shows the forwarded message itself (not the one it answers);
    /// it is then coloured.
    pub original: bool,
    pub image: Option<String>,
    pub thumbnail: Option<String>,
    pub fields: Vec<(String, String, bool)>,
}

/// A text field read as characters.
pub open spec fn opt_text(o: Option<String>) -> Option<Seq<char>> {
    match o {
        Some(s) => Some(s@),
        None => None,
    }
}

/// A field read as characters.
pub open spec fn field_view(f: (String, String, bool)) -> (Seq<char>, Seq<char>, bool) {
    (f.0@, f.1@, f.2)
}

/// An attachment read as characters.
pub open spec fn attachment_view(a: (Option<String>, String)) -> (Option<Seq<char>>, Seq<char>) {
    (opt_text(a.0), a.1@)
}

/// An embed of the message, as characters.
pub struct EmbedPartsView {
    pub title: Option<Seq<char>>,
    pub description: Option<Seq<char>>,
    pub image: Option<Seq<char>>,
    pub thumbnail: Option<Seq<char>>,
    pub fields: Seq<(Seq<char>, Seq<char>, bool)>,
}

/// A message, as characters.
pub struct MessagePartsView {
    pub author_name: Seq<char>,
    pub content: Seq<char>,
    pub attachments: Seq<(Option<Seq<char>>, Seq<char>)>,
    pub embeds: Seq<EmbedPartsView>,
}

/// What the embed shows, as characters.
pub struct EmbedPlanView {
    pub author: Seq<char>,
    pub description: Seq<char>,
    pub original: bool,
    pub image: Option<Seq<char>>,
    pub thumbnail: Option<Seq<char>>,
    pub fields: Seq<(Seq<char>, Seq<char>, bool)>,
}

impl View for EmbedParts {
    type V = EmbedPartsView;

    open spec fn view(&self) -> EmbedPartsView {
        EmbedPartsView {
            title: opt_text(self.title),
            description: opt_text(self.description),
            image: opt_text(self.image),
            thumbnail: opt_text(self.thumbnail),
            fields: self.fields@.map_values(|f: (String, String, bool)| field_view(f)),
        }
    }
}

impl View for MessageParts {
    type V = MessagePartsView;

    open spec fn view(&self) -> MessagePartsView {
        MessagePartsView {
            author_name: self.author_name@,
            content: self.content@,
            attachments: self.attachments@.map_values(
                |a: (Option<String>, String)| attachment_view(a),
            ),
            embeds: self.embeds@.map_values(|e: EmbedParts| e@),
        }
    }
}

impl View for EmbedPlan {
    type V = EmbedPlanView;

    open spec fn view(&self) -> EmbedPlanView {
        EmbedPlanView {
            author: self.author@,
            description: self.description@,
            original: self.original,
            image: opt_text(self.image),
            thumbnail: opt_text(self.thumbnail),
            fields: self.fields@.map_values(|f: (String, String, bool)| field_view(f)),
        }
    }
}

/// Whether an attachment with this content type is a picture.
pub open spec fn is_picture(content_type: Option<Seq<char>>) -> bool {
    match content_type {
        Some(t) => contains(t, image_word()),
        None => false,
    }
}

/// The address of the last picture among the attachments.
pub open spec fn last_attachment_image(atts: Seq<(Option<Seq<char>>, Seq<char>)>) -> Option<
    Seq<char>,
>
    decreases atts.len(),
{
    if atts.len() == 0 {
        None
    } else if is_picture(atts.last().0) {
        Some(atts.last().1)
    } else {
        last_attachment_image(atts.drop_last())
    }
}

/// The last image among the message's embeds.
pub open spec fn last_embed_image(embeds: Seq<EmbedPartsView>) -> Option<Seq<char>>
    decreases embeds.len(),
{
    if embeds.len() == 0 {
        None
    } else if embeds.last().image is Some {
        embeds.last().image
    } else {
        last_embed_image(embeds.drop_last())
    }
}

/// The last thumbnail among the message's embeds.
pub open spec fn last_embed_thumbnail(embeds: Seq<EmbedPartsView>) -> Option<Seq<char>>
    decreases embeds.len(),
{
    if embeds.len() == 0 {
        None
    } else if embeds.last().thumbnail is Some {
        embeds.last().thumbnail
    } else {
        last_embed_thumbnail(embeds.drop_last())
    }
}

/// A missing text read as empty.
pub open spec fn or_empty(o: Option<Seq<char>>) -> Seq<char> {
    match o {
        Some(t) => t,
        None => Seq::<char>::empty(),
    }
}

/// The fields one embed of the message contributes: its title and
/// description as a field that is not inline, then its own fields.
pub open spec fn embed_rows(e: EmbedPartsView) -> Seq<(Seq<char>, Seq<char>, bool)> {
    seq![(or_empty(e.title), or_empty(e.description), false)] + e.fields
}

/// The fields of all the message's embeds, in order.
pub open spec fn embed_fields(embeds: Seq<EmbedPartsView>) -> Seq<(Seq<char>, Seq<char>, bool)>
    decreases embeds.len(),
{
    if embeds.len() == 0 {
        Seq::empty()
    } else {
        embed_fields(embeds.drop_last()) + embed_rows(embeds.last())
    }
}

/// What the embed of a message shows: the author line, the message text,
/// the colour of the forwarded message, the last picture of the embeds or
/// else of the attachments, the last thumbnail of the embeds, and the
/// fields of the embeds in order.
pub open spec fn spec_embed_plan(kind: StarboardEmbedType, m: MessagePartsView) -> EmbedPlanView {
    EmbedPlanView {
        author: match kind {
            StarboardEmbedType::Reply => "Пиздит на "@ + m.author_name,
            StarboardEmbedType::Original => m.author_name,
        },
        description: m.content,
        original: kind == StarboardEmbedType::Original,
        image: match last_embed_image(m.embeds) {
            Some(u) => Some(u),
            None => last_attachment_image(m.attachments),
        },
        thumbnail: last_embed_thumbnail(m.embeds),
        fields: embed_fields(m.embeds),
    }
}

fn clone_opt(o: &Option<String>) -> (r: Option<String>)
    ensures
        opt_text(r) == opt_text(*o),
{
    match o {
        Some(s) => Some(s.clone()),
        None => None,
    }
}

fn text_or_empty(o: &Option<String>) -> (r: String)
    ensures
        r@ == or_empty(opt_text(*o)),
{
    match o {
        Some(s) => s.clone(),
        None => String::new(),
    }
}

/// What the embed of a message shows.
pub fn embed_plan(kind: StarboardEmbedType, m: &MessageParts) -> (p: EmbedPlan)
    ensures
        p@ == spec_embed_plan(kind, m@),
{
    let ghost mv = m@;
    let mut attachment_image: Option<String> = None;
    let mut i: usize = 0;
    while i < m.attachments.len()
        invariant
            mv == m@,
            i <= m.attachments.len(),
            opt_text(attachment_image) == last_attachment_image(mv.attachments.take(i as int)),
        decreases m.attachments.len() - i,
    {
        let ghost prev = mv.attachments.take(i as int);
        assert(mv.attachments.take(i + 1).drop_last() =~= prev);
        assert(mv.attachments.take(i + 1).last() == attachment_view(m.attachments@[i as int]));
        let picture = match &m.attachments[i].0 {
            Some(t) => is_image(Some(t.as_str())),
            None => is_image(None),
        };
        if picture {
            attachment_image = Some(m.attachments[i].1.clone());
        }
        i += 1;
    }
    assert(mv.attachments.take(m.attachments.len() as int) =~= mv.attachments);

    let mut embed_image: Option<String> = None;
    let mut thumbnail: Option<String> = None;
    let mut fields: Vec<(String, String, bool)> = Vec::new();
    let mut j: usize = 0;
    while j < m.embeds.len()
        invariant
            mv == m@,
            j <= m.embeds.len(),
            opt_text(embed_image) == last_embed_image(mv.embeds.take(j as int)),
            opt_text(thumbnail) == last_embed_thumbnail(mv.embeds.take(j as int)),
            fields@.map_values(|f: (String, String, bool)| field_view(f)) == embed_fields(
                mv.embeds.take(j as int),
            ),
        decreases m.embeds.len() - j,
    {
        let e = &m.embeds[j];
        let ghost ev = e@;
        let ghost prev = mv.embeds.take(j as int);
        assert(mv.embeds.take(j + 1).drop_last() =~= prev);
        assert(mv.embeds.take(j + 1).last() == ev);
        if e.image.is_some() {
            embed_image = clone_opt(&e.image);
        }
        if e.thumbnail.is_some() {
            thumbnail = clone_opt(&e.thumbnail);
        }
        let ghost before = fields@.map_values(|f: (String, String, bool)| field_view(f));
        fields.push((text_or_empty(&e.title), text_or_empty(&e.description), false));
        assert(fields@.map_values(|f: (String, String, bool)| field_view(f)) =~= before + seq![
            (or_empty(ev.title), or_empty(ev.description), false),
        ] + ev.fields.take(0));
        let mut k: usize = 0;
        while k < e.fields.len()
            invariant
                e == &m.embeds[j as int],
                ev == e@,
                k <= e.fields.len(),
                fields@.map_values(|f: (String, String, bool)| field_view(f)) == before + seq![
                    (or_empty(ev.title), or_empty(ev.description), false),
                ] + ev.fields.take(k as int),
            decreases e.fields.len() - k,
        {
            let f = &e.fields[k];
            let ghost cur = fields@.map_values(|f: (String, String, bool)| field_view(f));
            fields.push((f.0.clone(), f.1.clone(), f.2));
            assert(ev.fields[k as int] == field_view(e.fields@[k as int]));
            assert(fields@.map_values(|f: (String, String, bool)| field_view(f)) =~= cur.push(
                ev.fields[k as int],
            ));
            assert(ev.fields.take(k + 1) =~= ev.fields.take(k as int).push(ev.fields[k as int]));
            k += 1;
            assert(fields@.map_values(|f: (String, String, bool)| field_view(f)) =~= before + seq![
                (or_empty(ev.title), or_empty(ev.description), false),
            ] + ev.fields.take(k as int));
        }
        assert(ev.fields.take(e.fields.len() as int) =~= ev.fields);
        assert(fields@.map_values(|f: (String, String, bool)| field_view(f)) =~= embed_fields(
            mv.embeds.take(j + 1),
        ));
        j += 1;
    }
    assert(mv.embeds.take(m.embeds.len() as int) =~= mv.embeds);

    let image = match embed_image {
        Some(u) => Some(u),
        None => attachment_image,
    };
    EmbedPlan {
        author: embed_author(kind, m.author_name.as_str()),
        description: m.content.clone(),
        original: match kind {
            StarboardEmbedType::Reply => false,
            StarboardEmbedType::Original => true,
        },
        image,
        thumbnail,
        fields,
    }
}

} // verus!
