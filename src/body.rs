//! Request and response bodies.
use vstd::prelude::*;
use vstd::utf8::encode_utf8;

verus! {

/// Media type of a body.
#[derive(Debug, Clone, Copy, PartialEq, Eq, Structural)]
pub enum ContentType {
    Json,
    Text,
    FormUrlEncoded,
    FormData,
    Xml,
    Binary,
}

/// A body: its text and its media type.
#[derive(Debug, Clone)]
pub struct Body {
    pub content: String,
    pub content_type: ContentType,
}

impl Default for Body {
    /// An empty text body.
    fn default() -> (r: Body)
        ensures
            r.content@.len() == 0,
            r.content_type == ContentType::Text,
    {
        Body { content: String::new(), content_type: ContentType::Text }
    }
}

impl Body {
    pub fn json(content: String) -> (r: Body)
        ensures
            r.content == content,
            r.content_type == ContentType::Json,
    {
        Body { content, content_type: ContentType::Json }
    }

    pub fn text(content: String) -> (r: Body)
        ensures
            r.content == content,
            r.content_type == ContentType::Text,
    {
        Body { content, content_type: ContentType::Text }
    }

    pub fn from_string(content: String, content_type: ContentType) -> (r: Body)
        ensures
            r.content == content,
            r.content_type == content_type,
    {
        Body { content, content_type }
    }

    pub fn content(&self) -> (r: &str)
        ensures
            r@ == self.content@,
    {
        self.content.as_str()
    }

    pub fn content_type(&self) -> (r: ContentType)
        ensures
            r == self.content_type,
    {
        self.content_type
    }

    pub fn is_empty(&self) -> (r: bool)
        ensures
            r == (self.content@.len() == 0),
    {
        self.content.as_str().is_empty()
    }

    /// Length of the text in bytes (UTF-8).
    pub fn len(&self) -> (r: usize)
        ensures
            r == encode_utf8(self.content@).len() as usize,
    {
        self.content.as_str().len()
    }
}

} // verus!
