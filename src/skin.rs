use vstd::prelude::*;
use vstd::string::*;

verus! {

/// A skeleton description file, by encoding.
#[derive(Debug, Clone, PartialEq, Eq)]
pub enum SkeletonFile {
    Binary(String),
    Json(String),
}

/// Why an operator's skin could not be set up.
#[derive(Debug, Clone, PartialEq, Eq)]
pub enum Error {
    AtlasFileNotFound(String),
    SkeletonFileNotFound(String),
    TextureFileNotFound(String),
}

impl Error {
    pub open spec fn text(&self) -> Seq<char> {
        match self {
            Error::AtlasFileNotFound(e) => "Atlas error: "@ + e@,
            Error::SkeletonFileNotFound(e) => "Skeleton error: "@ + e@,
            Error::TextureFileNotFound(e) => "Texture error: "@ + e@,
        }
    }

    pub fn describe(&self) -> (r: String)
        ensures
            r@ == self.text(),
    {
        let (head, detail) = match self {
            Error::AtlasFileNotFound(e) => ("Atlas error: ", e),
            Error::SkeletonFileNotFound(e) => ("Skeleton error: ", e),
            Error::TextureFileNotFound(e) => ("Texture error: ", e),
        };
        let mut r = String::from_str(head);
        r.append(detail.as_str());
        r
    }
}

} // verus!
