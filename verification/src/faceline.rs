use vstd::prelude::*;

use crate::error::Error;
use crate::mask::texture_loads;
use crate::mii::{Mii, BEARD_TYPE, FACELINE_MAKE, FACELINE_WRINKLE};
use crate::resource::{lemma_texture_load_exclusive, texture_load, ResourceArchive, Texture, TexturePart};

verus! {

/// Whether the faceline needs a generated texture: makeup, wrinkles, or a
/// beard drawn as a texture (beard types 4 and 5) rather than as a shape.
pub fn is_enabled(mii: &Mii) -> (res: bool)
    ensures
        res == (mii.fields@[FACELINE_MAKE as int] != 0 || mii.fields@[FACELINE_WRINKLE as int] != 0
            || mii.fields@[BEARD_TYPE as int] >= 4),
{
    mii.fields[FACELINE_MAKE] != 0 || mii.fields[FACELINE_WRINKLE] != 0 || mii.fields[BEARD_TYPE]
        >= 4
}

/// How a faceline overlay is blended over the skin.
#[derive(Clone, Copy, Debug, PartialEq, Eq, Structural)]
pub enum OverlayColor {
    /// The texture's own colors.
    Direct,
    /// Coverage in black.
    Black,
    /// Coverage in the beard color.
    Beard,
}

/// A texture drawn over the faceline's skin color.
#[derive(Clone, Debug)]
pub struct Overlay {
    pub part: TexturePart,
    pub index: u8,
    pub color: OverlayColor,
    pub texture: Texture,
}

/// The overlays of a faceline texture, bottom first: makeup, wrinkles and a
/// texture beard, each where the Mii has it.
pub open spec fn overlay_sources(mii: Mii) -> Seq<(TexturePart, u8, OverlayColor)> {
    let f = mii.fields@;
    (if f[FACELINE_MAKE as int] != 0 {
        seq![(TexturePart::FaceMakeup, f[FACELINE_MAKE as int], OverlayColor::Direct)]
    } else {
        Seq::empty()
    }) + (if f[FACELINE_WRINKLE as int] != 0 {
        seq![(TexturePart::Faceline, f[FACELINE_WRINKLE as int], OverlayColor::Black)]
    } else {
        Seq::empty()
    }) + (if f[BEARD_TYPE as int] >= 4 {
        seq![(TexturePart::Beard, (f[BEARD_TYPE as int] - 3) as u8, OverlayColor::Beard)]
    } else {
        Seq::empty()
    })
}

/// `res` is what loading the overlays of `mii` from the archive `bytes`
/// gives: every overlay with its texture, or the error of the first texture
/// that fails to load.
pub open spec fn overlays_loaded(bytes: Seq<u8>, mii: Mii, res: Result<Vec<Overlay>, Error>) -> bool {
    let sources = overlay_sources(mii);
    match res {
        Ok(overlays) => overlays@.len() == sources.len() && forall|i: int|
            0 <= i < overlays@.len() ==> {
                let (part, index, color) = sources[i];
                &&& (#[trigger] overlays@[i]).part == part
                &&& overlays@[i].index == index
                &&& overlays@[i].color == color
                &&& texture_load(bytes, part, index as int, Ok(overlays@[i].texture))
            },
        Err(error) => exists|k: int|
            0 <= k < sources.len() && (forall|j: int|
                0 <= j < k ==> texture_loads(bytes, #[trigger] sources[j].0, sources[j].1))
                && texture_load(bytes, sources[k].0, sources[k].1 as int, Err(error)),
    }
}

/// Loading the overlays either succeeds or fails.
pub proof fn lemma_overlays_exclusive(bytes: Seq<u8>, mii: Mii, error: Error, overlays: Vec<Overlay>)
    requires
        overlays_loaded(bytes, mii, Err(error)),
    ensures
        !overlays_loaded(bytes, mii, Ok(overlays)),
{
    let sources = overlay_sources(mii);
    let k = choose|k: int|
        0 <= k < sources.len() && (forall|j: int|
            0 <= j < k ==> texture_loads(bytes, #[trigger] sources[j].0, sources[j].1))
            && texture_load(bytes, sources[k].0, sources[k].1 as int, Err(error));
    if overlays_loaded(bytes, mii, Ok(overlays)) {
        assert(overlays@[k].part == sources[k].0);
        lemma_texture_load_exclusive(bytes, sources[k].0, sources[k].1 as int, error, overlays@[k].texture);
    }
}

/// Width and height of a faceline texture for a texture resolution: half as
/// wide as tall.
pub fn texture_size(resolution: u16) -> (res: (u16, u16))
    ensures
        res == ((resolution / 2) as u16, resolution),
{
    (resolution / 2, resolution)
}

/// Loads the overlays of the faceline texture in order, stopping at the
/// first texture that fails to load.
pub fn overlays(archive: &ResourceArchive, mii: &Mii) -> (res: Result<Vec<Overlay>, Error>)
    ensures
        overlays_loaded(archive@, *mii, res),
{
    let mut sources: Vec<(TexturePart, u8, OverlayColor)> = Vec::new();
    if mii.fields[FACELINE_MAKE] != 0 {
        sources.push((TexturePart::FaceMakeup, mii.fields[FACELINE_MAKE], OverlayColor::Direct));
    }
    if mii.fields[FACELINE_WRINKLE] != 0 {
        sources.push((TexturePart::Faceline, mii.fields[FACELINE_WRINKLE], OverlayColor::Black));
    }
    if mii.fields[BEARD_TYPE] >= 4 {
        sources.push((TexturePart::Beard, mii.fields[BEARD_TYPE] - 3, OverlayColor::Beard));
    }
    let ghost expected = overlay_sources(*mii);
    assert(sources@ =~= expected);
    let mut overlays: Vec<Overlay> = Vec::new();
    let mut i: usize = 0;
    while i < sources.len()
        invariant
            i <= sources@.len(),
            sources@ == expected,
            expected == overlay_sources(*mii),
            overlays@.len() == i,
            forall|j: int|
                0 <= j < i ==> {
                    let (part, index, color) = expected[j];
                    &&& (#[trigger] overlays@[j]).part == part
                    &&& overlays@[j].index == index
                    &&& overlays@[j].color == color
                    &&& texture_load(archive@, part, index as int, Ok(overlays@[j].texture))
                },
        decreases sources@.len() - i,
    {
        let (part, index, color) = sources[i];
        match archive.load_texture(part, index as usize) {
            Ok(texture) => overlays.push(Overlay { part, index, color, texture }),
            Err(error) => {
                assert forall|j: int| 0 <= j < i implies texture_loads(
                    archive@,
                    #[trigger] expected[j].0,
                    expected[j].1,
                ) by {
                    assert(texture_load(archive@, expected[j].0, expected[j].1 as int, Ok(overlays@[j].texture)));
                }
                return Err(error);
            },
        }
        i = i + 1;
    }
    Ok(overlays)
}

} // verus!
