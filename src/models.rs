//! The catalog's data: cards, their image links and a search response.
use vstd::prelude::*;

verus! {

/// The image links of one printing, one per resolution tier.
pub struct ImageUris {
    pub small: String,
    pub normal: String,
    pub large: String,
    pub png: String,
    pub art_crop: String,
    pub border_crop: String,
}

impl Clone for ImageUris {
    fn clone(&self) -> (r: Self)
        ensures
            r == *self,
    {
        ImageUris {
            small: self.small.clone(),
            normal: self.normal.clone(),
            large: self.large.clone(),
            png: self.png.clone(),
            art_crop: self.art_crop.clone(),
            border_crop: self.border_crop.clone(),
        }
    }
}

/// One printing of a card as the catalog describes it.
///
/// `image_texture` is the handle of the decoded bitmap: the render layer
/// attaches it once it has consumed the printing's download.
pub struct Card {
    pub set: String,
    pub name: String,
    pub id: String,
    pub image_uris: Option<ImageUris>,
    pub prints_search_uri: String,
    pub type_line: Option<String>,
    pub oracle_text: Option<String>,
    pub image_texture: Option<u64>,
}

/// A printing takes part in the image fetch only when it has image links.
pub open spec fn has_image(c: Card) -> bool {
    c.image_uris is Some
}

fn clone_opt_string(s: &Option<String>) -> (r: Option<String>)
    ensures
        r == *s,
{
    match s {
        Some(v) => Some(v.clone()),
        None => None,
    }
}

impl Clone for Card {
    fn clone(&self) -> (r: Self)
        ensures
            r == *self,
    {
        let image_uris = match &self.image_uris {
            Some(u) => Some(u.clone()),
            None => None,
        };
        Card {
            set: self.set.clone(),
            name: self.name.clone(),
            id: self.id.clone(),
            image_uris,
            prints_search_uri: self.prints_search_uri.clone(),
            type_line: clone_opt_string(&self.type_line),
            oracle_text: clone_opt_string(&self.oracle_text),
            image_texture: self.image_texture,
        }
    }
}

impl Card {
    /// Whether the printing has image links.
    pub fn has_image_reference(&self) -> (r: bool)
        ensures
            r == has_image(*self),
    {
        self.image_uris.is_some()
    }
}

/// A decoded search or printings response: the cards in catalog order and
/// the total the catalog reported, if any.
pub struct ScryfallSearchResponse {
    pub data: Vec<Card>,
    pub total_cards: Option<u32>,
}

impl Default for ScryfallSearchResponse {
    fn default() -> (r: Self)
        ensures
            r.data@.len() == 0,
            r.total_cards is None,
    {
        ScryfallSearchResponse { data: Vec::new(), total_cards: None }
    }
}

} // verus!
