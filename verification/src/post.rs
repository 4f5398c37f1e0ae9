//! The data that a feed hands over for one post.

use vstd::prelude::*;

verus! {

/// A link in a post's text: the short form and the display form under which
/// it may occur there, and the address it stands for.
#[derive(Debug)]
pub struct LinkEntity {
    pub short_url: String,
    pub display_url: String,
    pub expanded_url: String,
}

/// A piece of media in a post's text: the short form and the display form
/// under which it may occur there, and the address of the media itself.
#[derive(Debug)]
pub struct MediaEntity {
    pub short_url: String,
    pub display_url: String,
    pub resolved_media_url: String,
}

/// How often a post was reshared and liked.
#[derive(Clone, Copy, Debug, PartialEq, Eq, Structural)]
pub struct Counts {
    pub reshare_count: u64,
    pub like_count: u64,
}

/// One feed item.
#[derive(Debug)]
pub struct Post {
    /// The feed's identifier of the post; newer posts have greater ones.
    pub id: u64,
    /// The author's display name, where the feed gave one.
    pub author: Option<String>,
    /// The author's handle; empty where the feed gave none.
    pub handle: String,
    /// When the post was made, in seconds since the Unix epoch.
    pub created_at: i64,
    pub body: String,
    pub counts: Counts,
    pub source_label: Option<String>,
    pub location_label: Option<String>,
    pub reply_target_handle: Option<String>,
    pub reply_target_id: Option<u64>,
    pub repost_of: Option<Box<Post>>,
    pub quote_of: Option<Box<Post>>,
    pub link_entities: Vec<LinkEntity>,
    pub media_entities: Option<Vec<MediaEntity>>,
}

impl Post {
    /// A post is a repost or a quote or neither, never both; the post it
    /// carries is not nested any further.
    pub open spec fn well_formed(&self) -> bool {
        &&& !(self.repost_of is Some && self.quote_of is Some)
        &&& self.repost_of matches Some(inner) ==> inner.repost_of is None && inner.quote_of is None
        &&& self.quote_of matches Some(inner) ==> inner.repost_of is None && inner.quote_of is None
    }

    /// Tells whether the post is well formed.
    pub fn is_well_formed(&self) -> (r: bool)
        ensures
            r == self.well_formed(),
    {
        let flat_repost = match &self.repost_of {
            Some(inner) => inner.repost_of.is_none() && inner.quote_of.is_none(),
            None => true,
        };
        let flat_quote = match &self.quote_of {
            Some(inner) => inner.repost_of.is_none() && inner.quote_of.is_none(),
            None => true,
        };
        !(self.repost_of.is_some() && self.quote_of.is_some()) && flat_repost && flat_quote
    }

    /// The display name, or a placeholder where there is none.
    pub open spec fn author_text(&self) -> Seq<char> {
        match self.author {
            Some(name) => name@,
            None => "<unknown>"@,
        }
    }
}

} // verus!
