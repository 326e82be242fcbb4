//! Bookkeeping of the painter: which GPU texture holds each editor texture, and when the
//! vertex and index buffers must grow.
use vstd::prelude::*;
use std::collections::HashMap;

verus! {

broadcast use vstd::std_specs::hash::group_hash_axioms;

/// An editor texture: one the editor manages, or one supplied by the user.
#[derive(PartialEq, Eq, Structural, Clone, Copy, Debug)]
pub enum TextureKey {
    Managed(u64),
    User(u64),
}

/// The number a texture is filed under: managed textures by their id, user textures by
/// their id above 2^64, so that no two textures share a number.
pub open spec fn key_code(k: TextureKey) -> u128 {
    match k {
        TextureKey::Managed(id) => id as u128,
        TextureKey::User(id) => (0x1_0000_0000_0000_0000 + id) as u128,
    }
}

impl TextureKey {
    pub fn code(&self) -> (r: u128)
        ensures
            r == key_code(*self),
    {
        match *self {
            TextureKey::Managed(id) => id as u128,
            TextureKey::User(id) => 0x1_0000_0000_0000_0000u128 + id as u128,
        }
    }
}

/// Distinct textures are filed under distinct numbers.
pub proof fn law_key_code_injective(a: TextureKey, b: TextureKey)
    ensures
        key_code(a) == key_code(b) <==> a == b,
{
}

/// The GPU texture held for each editor texture.
pub struct TextureRegistry<V> {
    map: HashMap<u128, V>,
}

impl<V> TextureRegistry<V> {
    /// The GPU texture held for `k`, if any.
    pub closed spec fn lookup(&self, k: TextureKey) -> Option<V> {
        if self.map@.contains_key(key_code(k)) {
            Some(self.map@[key_code(k)])
        } else {
            None
        }
    }

    /// No texture is held.
    pub fn new() -> (r: Self)
        ensures
            forall|k: TextureKey| #[trigger] r.lookup(k) is None,
    {
        TextureRegistry { map: HashMap::new() }
    }

    /// Holds `tex` for `k` and hands back the texture held for `k` before, which the caller
    /// deletes. Every other texture is left as it was.
    pub fn insert(&mut self, k: TextureKey, tex: V) -> (previous: Option<V>)
        ensures
            previous == old(self).lookup(k),
            final(self).lookup(k) == Some(tex),
            forall|j: TextureKey| j != k ==> #[trigger] final(self).lookup(j) == old(self).lookup(j),
    {
        let r = self.map.insert(k.code(), tex);
        proof {
            assert forall|j: TextureKey| j != k implies #[trigger] self.lookup(j) == old(self).lookup(j) by {
                law_key_code_injective(j, k);
            }
        }
        r
    }

    /// The texture held for `k`, if any.
    pub fn get(&self, k: TextureKey) -> (r: Option<&V>)
        ensures
            r matches Some(t) ==> self.lookup(k) == Some(*t),
            r is None ==> self.lookup(k) is None,
    {
        let code = k.code();
        self.map.get(&code)
    }

    /// Stops holding a texture for `k` and hands back the one held, which the caller deletes.
    pub fn remove(&mut self, k: TextureKey) -> (removed: Option<V>)
        ensures
            removed == old(self).lookup(k),
            final(self).lookup(k) is None,
            forall|j: TextureKey| j != k ==> #[trigger] final(self).lookup(j) == old(self).lookup(j),
    {
        let code = k.code();
        let r = self.map.remove(&code);
        proof {
            assert forall|j: TextureKey| j != k implies #[trigger] self.lookup(j) == old(self).lookup(j) by {
                law_key_code_injective(j, k);
            }
        }
        r
    }
}

/// Number of vertices (and of indices) the painter's buffers start with room for.
pub const INITIAL_BUFFER_ELEMENTS: usize = 32 * 1024;

/// Whether a buffer of `buffer_bytes` bytes is too small for `count` elements of
/// `element_size` bytes each, so that it must be replaced by one with room for `count`.
pub fn needs_larger_buffer(buffer_bytes: usize, count: usize, element_size: usize) -> (r: bool)
    requires
        count * element_size <= usize::MAX,
    ensures
        r == (buffer_bytes < count * element_size),
{
    let needed = count * element_size;
    buffer_bytes < needed
}

/// How the shader samples a texture for one mesh.
#[derive(PartialEq, Eq, Structural, Clone, Copy, Debug)]
pub enum SampleMode {
    /// Nearest texel (shader code 0).
    Nearest,
    /// Plain filtered lookup, used for the editor's font texture (shader code 1).
    Plain,
    /// Sharpened bilinear filtering for upscaling (shader code 2).
    Sharp,
    /// Area averaging for downscaling (shader code 3).
    Area,
}

/// The sampling for a mesh: the editor's default texture is sampled plainly; a downscaled
/// texture is averaged when its minification filter is linear; an integer upscale takes the
/// nearest texel; any other upscale is sharpened when its magnification filter is linear.
/// Textures with nearest filtering always take the nearest texel.
pub fn sample_mode(
    default_texture: bool,
    downscaled: bool,
    integer_scale: bool,
    min_linear: bool,
    mag_linear: bool,
) -> (r: SampleMode)
    ensures
        r == (if default_texture {
            SampleMode::Plain
        } else if downscaled {
            if min_linear {
                SampleMode::Area
            } else {
                SampleMode::Nearest
            }
        } else if integer_scale {
            SampleMode::Nearest
        } else if mag_linear {
            SampleMode::Sharp
        } else {
            SampleMode::Nearest
        }),
{
    if default_texture {
        SampleMode::Plain
    } else if downscaled {
        if min_linear {
            SampleMode::Area
        } else {
            SampleMode::Nearest
        }
    } else if integer_scale {
        SampleMode::Nearest
    } else if mag_linear {
        SampleMode::Sharp
    } else {
        SampleMode::Nearest
    }
}

/// A scissor rectangle in the backend's coordinates: origin at the bottom left.
#[derive(PartialEq, Eq, Structural, Clone, Copy, Debug)]
pub struct Scissor {
    pub x: i32,
    pub y: i32,
    pub width: i32,
    pub height: i32,
}

/// The scissor rectangle for a clip rectangle given in whole pixels from the top left of a
/// screen `screen_height` pixels high: the y axis is flipped, and each value is handed to
/// the backend as the `i32` that `as` gives.
pub fn scissor(min_x: u32, min_y: u32, max_x: u32, max_y: u32, screen_height: u32) -> (r: Scissor)
    requires
        min_x <= max_x,
        min_y <= max_y,
        max_y <= screen_height,
    ensures
        r.x == min_x as i32,
        r.y == (screen_height - max_y) as i32,
        r.width == (max_x - min_x) as i32,
        r.height == (max_y - min_y) as i32,
{
    Scissor {
        x: min_x as i32,
        y: (screen_height - max_y) as i32,
        width: (max_x - min_x) as i32,
        height: (max_y - min_y) as i32,
    }
}

} // verus!
