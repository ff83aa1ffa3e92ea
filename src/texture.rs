use std::collections::BTreeMap;
use vstd::prelude::*;

verus! {

broadcast use vstd::std_specs::btree::group_btree_axioms, vstd::laws_cmp::group_laws_cmp;

/// Identifier of a texture, as assigned by the geometry layer.
pub type TextureId = usize;

/// Pixel width and height of a texture.
pub type TextureSize = (u32, u32);

/// Known pixel sizes, by texture.
pub type TextureSizes = BTreeMap<TextureId, TextureSize>;

/// Width used for a texture whose size is not known.
pub const DEFAULT_TEXTURE_WIDTH: u32 = 256;

/// Height used for a texture whose size is not known.
pub const DEFAULT_TEXTURE_HEIGHT: u32 = 256;

/// Whether `pattern` occurs in `text` as a run of consecutive characters.
pub open spec fn has_substring(text: Seq<char>, pattern: Seq<char>) -> bool {
    exists|i: int|
        0 <= i && i + pattern.len() <= text.len() && #[trigger] text.subrange(i, i + pattern.len())
            == pattern
}

/// The part of a texture name that marks a deliberately empty placeholder texture.
pub open spec fn placeholder_marker() -> Seq<char> {
    seq!['T', 'B', '_', 'e', 'm', 'p', 't', 'y']
}

/// Whether a texture name denotes a placeholder texture.
pub open spec fn is_placeholder_name(name: Seq<char>) -> bool {
    has_substring(name, placeholder_marker())
}

/// Relies on `str::contains` with a `&str` pattern: true exactly when the
/// pattern matches a sub-slice of the text.
#[verifier::external_body]
fn str_contains(text: &str, pattern: &str) -> (r: bool)
    ensures
        r == has_substring(text@, pattern@),
{
    text.contains(pattern)
}

/// The size that a texture is mapped with: its known size, else the default.
pub open spec fn resolved_size_spec(texture: TextureId, sizes: Map<TextureId, TextureSize>) -> TextureSize {
    if sizes.contains_key(texture) {
        sizes[texture]
    } else {
        (DEFAULT_TEXTURE_WIDTH, DEFAULT_TEXTURE_HEIGHT)
    }
}

/// Whether resolving a texture's size deserves a diagnostic: its size is not
/// known, and its name (if it has one) does not mark a placeholder.
pub open spec fn warns_spec(
    texture: TextureId,
    names: Map<TextureId, String>,
    sizes: Map<TextureId, TextureSize>,
) -> bool {
    !sizes.contains_key(texture) && !(names.contains_key(texture) && is_placeholder_name(
        names[texture]@,
    ))
}

/// The outcome of resolving the size of one texture.
#[derive(Clone, Copy, Debug, PartialEq, Eq)]
pub struct ResolvedTextureSize {
    /// The size to map the texture with.
    pub size: TextureSize,
    /// Whether a diagnostic should be emitted because the default size was used.
    pub warn: bool,
}

/// Resolves the pixel size of `texture`: the known size when there is one,
/// else 256x256, flagged for a diagnostic unless the texture's name contains
/// `TB_empty`.
pub fn resolve_texture_size(
    texture: TextureId,
    names: &BTreeMap<TextureId, String>,
    sizes: &TextureSizes,
) -> (r: ResolvedTextureSize)
    ensures
        r.size == resolved_size_spec(texture, sizes@),
        r.warn == warns_spec(texture, names@, sizes@),
{
    match sizes.get(&texture) {
        Some(size) => ResolvedTextureSize { size: *size, warn: false },
        None => {
            let warn = match names.get(&texture) {
                Some(name) => !str_contains(name.as_str(), "TB_empty"),
                None => true,
            };
            proof {
                reveal_strlit("TB_empty");
                assert("TB_empty"@ =~= placeholder_marker());
            }
            ResolvedTextureSize {
                size: (DEFAULT_TEXTURE_WIDTH, DEFAULT_TEXTURE_HEIGHT),
                warn,
            }
        },
    }
}

} // verus!
