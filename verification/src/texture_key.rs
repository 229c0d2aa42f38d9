//! Keys of the texture cache: textures loaded from the same path share one
//! GPU texture, and the default and error textures have keys of their own.

use vstd::prelude::*;
use vstd::std_specs::convert::FromSpecImpl;

verus! {

#[derive(Clone, Debug, PartialEq, Eq, Hash)]
enum KeyVariants {
    Path(String),
    Default,
    Error,
}

/// What a cache key stands for.
pub enum KeyKind {
    /// A texture loaded from the file at this path.
    Path(Seq<char>),
    /// The default texture.
    Default,
    /// The texture shown when loading fails.
    Error,
}

/// The key under which a texture is cached.
#[derive(Clone, Debug, PartialEq, Eq, Hash)]
pub struct TextureCacheKey {
    inner: KeyVariants,
}

impl TextureCacheKey {
    /// What the key stands for.
    pub closed spec fn kind(&self) -> KeyKind {
        match self.inner {
            KeyVariants::Path(p) => KeyKind::Path(p@),
            KeyVariants::Default => KeyKind::Default,
            KeyVariants::Error => KeyKind::Error,
        }
    }

    /// The key of the error texture.
    pub fn error() -> (r: Self)
        ensures
            r.kind() == KeyKind::Error,
    {
        Self { inner: KeyVariants::Error }
    }

    /// The key of the texture loaded from `path`.
    pub fn from_path(path: String) -> (r: Self)
        ensures
            r.kind() == KeyKind::Path(path@),
    {
        Self { inner: KeyVariants::Path(path) }
    }

    /// Whether this is the key of the error texture.
    pub fn is_error(&self) -> (r: bool)
        ensures
            r == (self.kind() == KeyKind::Error),
    {
        match &self.inner {
            KeyVariants::Error => true,
            _ => false,
        }
    }
}

impl Default for TextureCacheKey {
    fn default() -> (r: Self)
        ensures
            r.kind() == KeyKind::Default,
    {
        Self { inner: KeyVariants::Default }
    }
}

impl From<String> for TextureCacheKey {
    fn from(path: String) -> (r: Self)
        ensures
            r.kind() == KeyKind::Path(path@),
    {
        Self { inner: KeyVariants::Path(path) }
    }
}

impl FromSpecImpl<String> for TextureCacheKey {
    open spec fn obeys_from_spec() -> bool {
        true
    }

    closed spec fn from_spec(path: String) -> TextureCacheKey {
        TextureCacheKey { inner: KeyVariants::Path(path) }
    }
}


} // verus!
