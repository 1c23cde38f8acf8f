use vstd::prelude::*;
use crate::engine::texture::{ImageData, PixelFormat};

verus! {

/// The images that one material of a model refers to, each by its index in
/// the model's list of images.
#[derive(Clone, Copy, Debug, PartialEq, Eq, Structural)]
pub struct MaterialTextures {
    pub base_color: Option<usize>,
    pub normal: Option<usize>,
    pub metallic_roughness: Option<usize>,
    pub occlusion: Option<usize>,
}

/// The four texture slots of a material.
#[derive(Clone, Copy, Debug, PartialEq, Eq, Structural)]
pub enum TextureSlot {
    BaseColor,
    Normal,
    MetallicRoughness,
    Occlusion,
}

impl MaterialTextures {
    /// The image index that this material gives to `slot`, if any.
    pub open spec fn slot(self, slot: TextureSlot) -> Option<usize> {
        match slot {
            TextureSlot::BaseColor => self.base_color,
            TextureSlot::Normal => self.normal,
            TextureSlot::MetallicRoughness => self.metallic_roughness,
            TextureSlot::Occlusion => self.occlusion,
        }
    }
}

/// The image a slot ends up with when the materials are visited in order and
/// each one that sets the slot overrides the earlier ones: the last setting.
pub open spec fn last_texture(materials: Seq<MaterialTextures>, slot: TextureSlot) -> Option<usize>
    decreases materials.len(),
{
    if materials.len() == 0 {
        None
    } else {
        match materials.last().slot(slot) {
            Some(i) => Some(i),
            None => last_texture(materials.drop_last(), slot),
        }
    }
}

/// The index of the image to use: the requested one when it exists among
/// `image_count` images, otherwise none (and a fallback is used).
pub open spec fn chosen_image(index: Option<usize>, image_count: nat) -> Option<usize> {
    match index {
        Some(i) => if i < image_count { Some(i) } else { None },
        None => None,
    }
}

/// The four images of a model (colour, normal, metallic-roughness and
/// occlusion), ready to become textures.
#[derive(Debug)]
pub struct ModelImages {
    pub diffuse: ImageData,
    pub normal: ImageData,
    pub metallic_roughness: ImageData,
    pub occlusion: ImageData,
}

/// Fallback colour of a missing base-colour image: opaque white.
pub const FALLBACK_DIFFUSE: [u8; 4] = [255, 255, 255, 255];

/// Fallback of a missing normal map: the unperturbed normal.
pub const FALLBACK_NORMAL: [u8; 4] = [128, 128, 255, 255];

/// Fallback of a missing metallic-roughness map: half rough, not metallic.
pub const FALLBACK_METALLIC_ROUGHNESS: [u8; 4] = [0, 128, 0, 255];

/// Fallback of a missing occlusion map: no occlusion.
pub const FALLBACK_OCCLUSION: [u8; 4] = [255, 255, 255, 255];

/// Whether `image` is the one-pixel RGBA image of colour `pixel`.
pub open spec fn is_solid_pixel(image: ImageData, pixel: [u8; 4]) -> bool {
    &&& image.pixels@ == pixel@
    &&& image.format == PixelFormat::R8G8B8A8
    &&& image.width == 1
    &&& image.height == 1
}

/// Whether `a` holds the same image as `b`.
pub open spec fn same_image(a: ImageData, b: ImageData) -> bool {
    &&& a.pixels@ == b.pixels@
    &&& a.format == b.format
    &&& a.width == b.width
    &&& a.height == b.height
}

/// Whether `image` is what a slot gets: the chosen image of `images`, or the
/// one-pixel `fallback` when none is chosen.
pub open spec fn resolved_image(
    image: ImageData,
    images: Seq<ImageData>,
    index: Option<usize>,
    fallback: [u8; 4],
) -> bool {
    match chosen_image(index, images.len()) {
        Some(i) => same_image(image, images[i as int]),
        None => is_solid_pixel(image, fallback),
    }
}

impl ImageData {
    /// A copy of the image.
    pub fn duplicate(&self) -> (copy: ImageData)
        ensures
            same_image(copy, *self),
    {
        let mut pixels: Vec<u8> = Vec::new();
        let mut i: usize = 0;
        while i < self.pixels.len()
            invariant
                i <= self.pixels.len(),
                pixels@ == self.pixels@.take(i as int),
            decreases self.pixels.len() - i,
        {
            pixels.push(self.pixels[i]);
            i = i + 1;
            assert(pixels@ =~= self.pixels@.take(i as int));
        }
        assert(pixels@ =~= self.pixels@);
        ImageData { pixels, format: self.format, width: self.width, height: self.height }
    }

    /// The one-pixel RGBA image of colour `pixel`.
    pub fn solid(pixel: [u8; 4]) -> (image: ImageData)
        ensures
            is_solid_pixel(image, pixel),
    {
        let mut pixels: Vec<u8> = Vec::new();
        pixels.push(pixel[0]);
        pixels.push(pixel[1]);
        pixels.push(pixel[2]);
        pixels.push(pixel[3]);
        assert(pixels@ =~= pixel@);
        ImageData { pixels, format: PixelFormat::R8G8B8A8, width: 1, height: 1 }
    }
}

/// Finds, for one slot, the image that the last material setting it refers to.
pub fn select_texture(materials: &Vec<MaterialTextures>, slot: TextureSlot) -> (index: Option<usize>)
    ensures
        index == last_texture(materials@, slot),
{
    let mut index: Option<usize> = None;
    let mut m: usize = 0;
    while m < materials.len()
        invariant
            m <= materials.len(),
            index == last_texture(materials@.take(m as int), slot),
        decreases materials.len() - m,
    {
        let found = match slot {
            TextureSlot::BaseColor => materials[m].base_color,
            TextureSlot::Normal => materials[m].normal,
            TextureSlot::MetallicRoughness => materials[m].metallic_roughness,
            TextureSlot::Occlusion => materials[m].occlusion,
        };
        if found.is_some() {
            index = found;
        }
        proof {
            assert(materials@.take(m + 1).drop_last() =~= materials@.take(m as int));
        }
        m = m + 1;
    }
    assert(materials@.take(materials.len() as int) =~= materials@);
    index
}

/// The texture sources of a model: for each slot the last material that sets it.
pub fn select_textures(materials: &Vec<MaterialTextures>) -> (t: MaterialTextures)
    ensures
        t.base_color == last_texture(materials@, TextureSlot::BaseColor),
        t.normal == last_texture(materials@, TextureSlot::Normal),
        t.metallic_roughness == last_texture(materials@, TextureSlot::MetallicRoughness),
        t.occlusion == last_texture(materials@, TextureSlot::Occlusion),
{
    MaterialTextures {
        base_color: select_texture(materials, TextureSlot::BaseColor),
        normal: select_texture(materials, TextureSlot::Normal),
        metallic_roughness: select_texture(materials, TextureSlot::MetallicRoughness),
        occlusion: select_texture(materials, TextureSlot::Occlusion),
    }
}

/// The image for a slot: a copy of `images[index]` when `index` names one of
/// them, else the one-pixel image of colour `fallback`.
pub fn get_image(images: &Vec<ImageData>, index: Option<usize>, fallback: [u8; 4]) -> (image:
    ImageData)
    ensures
        resolved_image(image, images@, index, fallback),
{
    if let Some(i) = index {
        if i < images.len() {
            return images[i].duplicate();
        }
    }
    ImageData::solid(fallback)
}

/// The four images of a model, chosen from its materials, with the fallback
/// colours where a material gives none or names a missing image.
pub fn model_images(images: &Vec<ImageData>, materials: &Vec<MaterialTextures>) -> (m: ModelImages)
    ensures
        resolved_image(
            m.diffuse,
            images@,
            last_texture(materials@, TextureSlot::BaseColor),
            FALLBACK_DIFFUSE,
        ),
        resolved_image(
            m.normal,
            images@,
            last_texture(materials@, TextureSlot::Normal),
            FALLBACK_NORMAL,
        ),
        resolved_image(
            m.metallic_roughness,
            images@,
            last_texture(materials@, TextureSlot::MetallicRoughness),
            FALLBACK_METALLIC_ROUGHNESS,
        ),
        resolved_image(
            m.occlusion,
            images@,
            last_texture(materials@, TextureSlot::Occlusion),
            FALLBACK_OCCLUSION,
        ),
{
    let t = select_textures(materials);
    ModelImages {
        diffuse: get_image(images, t.base_color, FALLBACK_DIFFUSE),
        normal: get_image(images, t.normal, FALLBACK_NORMAL),
        metallic_roughness: get_image(images, t.metallic_roughness, FALLBACK_METALLIC_ROUGHNESS),
        occlusion: get_image(images, t.occlusion, FALLBACK_OCCLUSION),
    }
}

/// A slot that some material sets never falls back to an earlier material:
/// the result is what the last setting material says.
pub proof fn law_last_material_wins(
    materials: Seq<MaterialTextures>,
    slot: TextureSlot,
    m: int,
)
    requires
        0 <= m < materials.len(),
        materials[m].slot(slot) is Some,
        forall|j: int| m < j < materials.len() ==> (#[trigger] materials[j].slot(slot)) is None,
    ensures
        last_texture(materials, slot) == materials[m].slot(slot),
    decreases materials.len(),
{
    if m < materials.len() - 1 {
        assert(materials.drop_last()[m] == materials[m]);
        assert forall|j: int| m < j < materials.drop_last().len() implies (
        #[trigger] materials.drop_last()[j].slot(slot)) is None by {
            assert(materials.drop_last()[j] == materials[j]);
        }
        assert(materials[materials.len() - 1].slot(slot) is None);
        law_last_material_wins(materials.drop_last(), slot, m);
    }
}

/// A slot that no material sets is left empty.
pub proof fn law_unset_slot_stays_empty(materials: Seq<MaterialTextures>, slot: TextureSlot)
    requires
        forall|j: int| 0 <= j < materials.len() ==> (#[trigger] materials[j].slot(slot)) is None,
    ensures
        last_texture(materials, slot) is None,
    decreases materials.len(),
{
    if materials.len() > 0 {
        assert forall|j: int| 0 <= j < materials.drop_last().len() implies (
        #[trigger] materials.drop_last()[j].slot(slot)) is None by {
            assert(materials.drop_last()[j] == materials[j]);
        }
        assert(materials[materials.len() - 1].slot(slot) is None);
        law_unset_slot_stays_empty(materials.drop_last(), slot);
    }
}



/// Each slot reads the material field of the same name: for every list of
/// materials, the colour, normal, metallic-roughness and occlusion images are
/// those of the last material whose `base_color`, `normal`,
/// `metallic_roughness` or `occlusion` field (respectively) is set.
pub proof fn law_slots_read_their_fields(materials: Seq<MaterialTextures>, m: MaterialTextures)
    ensures
        last_texture(materials.push(m), TextureSlot::BaseColor) == (if m.base_color is Some {
            m.base_color
        } else {
            last_texture(materials, TextureSlot::BaseColor)
        }),
        last_texture(materials.push(m), TextureSlot::Normal) == (if m.normal is Some {
            m.normal
        } else {
            last_texture(materials, TextureSlot::Normal)
        }),
        last_texture(materials.push(m), TextureSlot::MetallicRoughness) == (
        if m.metallic_roughness is Some {
            m.metallic_roughness
        } else {
            last_texture(materials, TextureSlot::MetallicRoughness)
        }),
        last_texture(materials.push(m), TextureSlot::Occlusion) == (if m.occlusion is Some {
            m.occlusion
        } else {
            last_texture(materials, TextureSlot::Occlusion)
        }),
        last_texture(Seq::empty(), TextureSlot::BaseColor) is None,
        last_texture(Seq::empty(), TextureSlot::Normal) is None,
        last_texture(Seq::empty(), TextureSlot::MetallicRoughness) is None,
        last_texture(Seq::empty(), TextureSlot::Occlusion) is None,
{
    assert(materials.push(m).drop_last() =~= materials);
}

/// The image of a slot is a copy of the requested image when the index names
/// one of the images, and otherwise the one-pixel RGBA image of the fallback
/// colour.
pub proof fn law_image_or_fallback(
    image: ImageData,
    images: Seq<ImageData>,
    index: Option<usize>,
    fallback: [u8; 4],
)
    requires
        resolved_image(image, images, index, fallback),
    ensures
        (index matches Some(i) && i < images.len()) ==> image.pixels@ == images[index->0 as int].pixels@
            && image.format == images[index->0 as int].format && image.width == images[index->0 as int].width
            && image.height == images[index->0 as int].height,
        !(index matches Some(i) && i < images.len()) ==> image.pixels@ == seq![
            fallback[0],
            fallback[1],
            fallback[2],
            fallback[3],
        ] && image.format == PixelFormat::R8G8B8A8 && image.width == 1 && image.height == 1,
{
    if !(index matches Some(i) && i < images.len()) {
        assert(fallback@ =~= seq![fallback[0], fallback[1], fallback[2], fallback[3]]);
    }
}

/// One drawable part of a mesh: how many vertices it adds to the model, and
/// its triangle indices, counted from its own first vertex (a part may come
/// without indices).
#[derive(Debug)]
pub struct PrimitiveIndices {
    pub vertex_count: usize,
    pub indices: Option<Vec<u32>>,
}

/// The indices of a part, empty when it has none.
pub open spec fn part_indices(p: PrimitiveIndices) -> Seq<u32> {
    match p.indices {
        Some(v) => v@,
        None => Seq::empty(),
    }
}

/// Number of vertices of all the parts together.
pub open spec fn total_vertices(parts: Seq<PrimitiveIndices>) -> int
    decreases parts.len(),
{
    if parts.len() == 0 {
        0
    } else {
        total_vertices(parts.drop_last()) + parts.last().vertex_count
    }
}

/// The first vertex of part `p` in the model's vertex list, as the 32-bit
/// offset added to its indices (the count of the earlier parts, truncated to
/// 32 bits).
pub open spec fn part_offset(parts: Seq<PrimitiveIndices>, p: int) -> u32 {
    total_vertices(parts.take(p)) as u32
}

/// The indices of a part moved by `offset`.
pub open spec fn rebased(indices: Seq<u32>, offset: u32) -> Seq<u32> {
    indices.map_values(|x: u32| (x + offset) as u32)
}

/// The model's index list: the parts' indices in order, each moved to the
/// place where that part's vertices start.
pub open spec fn merged_indices(parts: Seq<PrimitiveIndices>) -> Seq<u32>
    decreases parts.len(),
{
    if parts.len() == 0 {
        Seq::empty()
    } else {
        merged_indices(parts.drop_last()) + rebased(
            part_indices(parts.last()),
            total_vertices(parts.drop_last()) as u32,
        )
    }
}

/// No moved index exceeds what a 32-bit index can hold.
pub open spec fn indices_fit(parts: Seq<PrimitiveIndices>) -> bool {
    forall|p: int, k: int|
        #![trigger part_indices(parts[p])[k]]
        0 <= p < parts.len() && 0 <= k < part_indices(parts[p]).len() ==> part_indices(parts[p])[k]
            + part_offset(parts, p) <= u32::MAX
}

/// Every part's indices name vertices of that part.
pub open spec fn parts_well_formed(parts: Seq<PrimitiveIndices>) -> bool {
    forall|p: int, k: int|
        0 <= p < parts.len() && 0 <= k < part_indices(parts[p]).len() ==> part_indices(parts[p])[k]
            < parts[p].vertex_count
}

/// The vertex count of a prefix never exceeds that of the whole.
pub proof fn lemma_total_vertices_prefix(parts: Seq<PrimitiveIndices>, p: int)
    requires
        0 <= p <= parts.len(),
    ensures
        0 <= total_vertices(parts.take(p)) <= total_vertices(parts),
    decreases parts.len(),
{
    if parts.len() > 0 {
        if p == parts.len() {
            assert(parts.take(p) =~= parts);
            lemma_total_vertices_prefix(parts.drop_last(), parts.len() - 1);
            assert(parts.drop_last().take(parts.len() - 1) =~= parts.drop_last());
        } else {
            lemma_total_vertices_prefix(parts.drop_last(), p);
            assert(parts.drop_last().take(p) =~= parts.take(p));
        }
    }
}


/// Number of indices of all the parts together.
pub open spec fn total_indices(parts: Seq<PrimitiveIndices>) -> int
    decreases parts.len(),
{
    if parts.len() == 0 {
        0
    } else {
        total_indices(parts.drop_last()) + part_indices(parts.last()).len()
    }
}

/// The counts add up part by part: no parts have no vertices and no
/// indices, and one more part adds its own vertex count and its own number
/// of indices.
pub proof fn law_counts_add_up(parts: Seq<PrimitiveIndices>, part: PrimitiveIndices)
    ensures
        total_vertices(Seq::empty()) == 0,
        total_indices(Seq::empty()) == 0,
        total_vertices(parts.push(part)) == total_vertices(parts) + part.vertex_count,
        total_indices(parts.push(part)) == total_indices(parts) + part_indices(part).len(),
{
    assert(parts.push(part).drop_last() =~= parts);
}

/// One part more adds exactly that part's indices.
pub proof fn lemma_total_indices_step(parts: Seq<PrimitiveIndices>, p: int)
    requires
        0 <= p < parts.len(),
    ensures
        total_indices(parts.take(p + 1)) == total_indices(parts.take(p)) + part_indices(
            parts[p],
        ).len(),
{
    assert(parts.take(p + 1).drop_last() =~= parts.take(p));
    assert(parts.take(p + 1).last() == parts[p]);
}

/// A prefix has no more indices than the whole.
pub proof fn lemma_total_indices_prefix(parts: Seq<PrimitiveIndices>, p: int)
    requires
        0 <= p <= parts.len(),
    ensures
        0 <= total_indices(parts.take(p)) <= total_indices(parts),
    decreases parts.len(),
{
    if parts.len() > 0 {
        if p == parts.len() {
            assert(parts.take(p) =~= parts);
            lemma_total_indices_prefix(parts.drop_last(), parts.len() - 1);
            assert(parts.drop_last().take(parts.len() - 1) =~= parts.drop_last());
        } else {
            lemma_total_indices_prefix(parts.drop_last(), p);
            assert(parts.drop_last().take(p) =~= parts.take(p));
        }
    }
}

/// The merged list holds exactly the indices of all parts.
pub proof fn lemma_merged_length(parts: Seq<PrimitiveIndices>)
    ensures
        merged_indices(parts).len() == total_indices(parts),
    decreases parts.len(),
{
    if parts.len() > 0 {
        lemma_merged_length(parts.drop_last());
    }
}

/// Where each index of each part lands: the `k`-th index of part `p` sits
/// after the indices of the parts before `p`, and equals that index plus the
/// number of vertices of the parts before `p` (both taken as 32-bit numbers,
/// as a vertex count is cut to 32 bits before it is added).
pub proof fn law_merged_index_positions(parts: Seq<PrimitiveIndices>, p: int, k: int)
    requires
        0 <= p < parts.len(),
        0 <= k < part_indices(parts[p]).len(),
    ensures
        merged_indices(parts).len() == total_indices(parts),
        0 <= total_indices(parts.take(p)) + k < merged_indices(parts).len(),
        merged_indices(parts)[total_indices(parts.take(p)) + k] == (part_indices(parts[p])[k]
            + (total_vertices(parts.take(p)) as u32)) as u32,
    decreases parts.len(),
{
    lemma_merged_length(parts);
    lemma_total_indices_step(parts, p);
    lemma_total_indices_prefix(parts, p);
    lemma_total_indices_prefix(parts, p + 1);
    let init = parts.drop_last();
    lemma_merged_length(init);
    if p < parts.len() - 1 {
        assert(init.take(p) =~= parts.take(p));
        assert(init[p] == parts[p]);
        law_merged_index_positions(init, p, k);
    } else {
        assert(parts.take(p) =~= init);
    }
}

/// Concatenates the indices of the parts of a model, moving each part's
/// indices past the vertices of the parts before it.
pub fn merge_primitive_indices(parts: &Vec<PrimitiveIndices>) -> (merged: Vec<u32>)
    requires
        total_vertices(parts@) <= usize::MAX,
        indices_fit(parts@),
    ensures
        merged@ == merged_indices(parts@),
        merged@.len() == total_indices(parts@),
        forall|p: int, k: int|
            0 <= p < parts@.len() && 0 <= k < part_indices(parts@[p]).len() ==> merged@[total_indices(
                parts@.take(p),
            ) + k] == part_indices(parts@[p])[k] + (total_vertices(parts@.take(p)) as u32),
{
    let mut merged: Vec<u32> = Vec::new();
    let mut total: usize = 0;
    let mut p: usize = 0;
    while p < parts.len()
        invariant
            p <= parts.len(),
            total_vertices(parts@) <= usize::MAX,
            indices_fit(parts@),
            total == total_vertices(parts@.take(p as int)),
            merged@ == merged_indices(parts@.take(p as int)),
        decreases parts.len() - p,
    {
        let ghost before = merged@;
        let ghost prefix = parts@.take(p as int);
        let ghost next = parts@.take(p + 1);
        proof {
            assert(next.drop_last() =~= prefix);
            assert(next.last() == parts@[p as int]);
            lemma_total_vertices_prefix(parts@, p + 1);
        }
        let offset = total as u32;
        match &parts[p].indices {
            Some(idx) => {
                let mut k: usize = 0;
                while k < idx.len()
                    invariant
                        k <= idx.len(),
                        p < parts.len(),
                        parts@[p as int].indices == Some(*idx),
                        indices_fit(parts@),
                        offset == part_offset(parts@, p as int),
                        merged@ == before + rebased(idx@, offset).take(k as int),
                    decreases idx.len() - k,
                {
                    assert(part_indices(parts@[p as int])[k as int] + part_offset(parts@, p as int)
                        <= u32::MAX);
                    merged.push(idx[k] + offset);
                    k = k + 1;
                    assert(merged@ =~= before + rebased(idx@, offset).take(k as int));
                }
                assert(rebased(idx@, offset).take(idx.len() as int) =~= rebased(idx@, offset));
            },
            None => {
                assert(merged@ =~= before + rebased(Seq::<u32>::empty(), offset));
            },
        }
        total = total + parts[p].vertex_count;
        p = p + 1;
    }
    assert(parts@.take(parts.len() as int) =~= parts@);
    proof {
        lemma_merged_length(parts@);
        assert forall|q: int, k: int|
            0 <= q < parts@.len() && 0 <= k < part_indices(parts@[q]).len() implies merged@[total_indices(
            parts@.take(q),
        ) + k] == part_indices(parts@[q])[k] + (total_vertices(parts@.take(q)) as u32) by {
            law_merged_index_positions(parts@, q, k);
            assert(part_indices(parts@[q])[k] + part_offset(parts@, q) <= u32::MAX);
        }
    }
    merged
}

/// Tells whether `merge_primitive_indices` may be called on `parts`: whether
/// the vertex count fits in memory and every moved index fits in 32 bits.
pub fn can_merge_indices(parts: &Vec<PrimitiveIndices>) -> (ok: bool)
    ensures
        ok == (total_vertices(parts@) <= usize::MAX && indices_fit(parts@)),
{
    let mut total: usize = 0;
    let mut p: usize = 0;
    while p < parts.len()
        invariant
            p <= parts.len(),
            total == total_vertices(parts@.take(p as int)),
            forall|q: int, k: int|
                0 <= q < p && 0 <= k < part_indices(parts@[q]).len() ==> part_indices(parts@[q])[k]
                    + part_offset(parts@, q) <= u32::MAX,
        decreases parts.len() - p,
    {
        proof {
            assert(parts@.take(p + 1).drop_last() =~= parts@.take(p as int));
        }
        let offset = total as u32;
        match &parts[p].indices {
            Some(idx) => {
                let mut k: usize = 0;
                while k < idx.len()
                    invariant
                        k <= idx.len(),
                        p < parts.len(),
                        parts@[p as int].indices == Some(*idx),
                        offset == part_offset(parts@, p as int),
                        forall|j: int| 0 <= j < k ==> idx@[j] + offset <= u32::MAX,
                    decreases idx.len() - k,
                {
                    if idx[k] as u64 + offset as u64 > u32::MAX as u64 {
                        assert(part_indices(parts@[p as int])[k as int] + part_offset(
                            parts@,
                            p as int,
                        ) > u32::MAX);
                        return false;
                    }
                    k = k + 1;
                }
            },
            None => {},
        }
        match total.checked_add(parts[p].vertex_count) {
            Some(t) => {
                total = t;
            },
            None => {
                proof {
                    lemma_total_vertices_prefix(parts@, p + 1);
                }
                return false;
            },
        }
        p = p + 1;
    }
    assert(parts@.take(parts.len() as int) =~= parts@);
    true
}

/// When every part's indices name its own vertices and the model has at most
/// 2^32 - 1 vertices, merging is allowed and every merged index names a
/// vertex of the model.
pub proof fn law_merged_indices_in_bounds(parts: Seq<PrimitiveIndices>)
    requires
        parts_well_formed(parts),
        total_vertices(parts) <= u32::MAX,
    ensures
        indices_fit(parts),
        forall|k: int| 0 <= k < merged_indices(parts).len() ==> #[trigger] merged_indices(parts)[k]
            < total_vertices(parts),
    decreases parts.len(),
{
    assert forall|p: int, k: int|
        0 <= p < parts.len() && 0 <= k < part_indices(parts[p]).len() implies part_indices(
        parts[p])[k] + part_offset(parts, p) <= u32::MAX by {
        lemma_total_vertices_prefix(parts, p);
        lemma_total_vertices_prefix(parts, p + 1);
        assert(parts.take(p + 1).drop_last() =~= parts.take(p));
        assert(parts.take(p + 1).last() == parts[p]);
    }
    if parts.len() > 0 {
        let init = parts.drop_last();
        let last = parts.last();
        assert forall|p: int, k: int|
            0 <= p < init.len() && 0 <= k < part_indices(init[p]).len() implies part_indices(
            init[p])[k] < init[p].vertex_count by {
            assert(init[p] == parts[p]);
        }
        assert(last == parts[parts.len() - 1]);
        law_merged_indices_in_bounds(init);
        lemma_total_vertices_prefix(init, 0);
        let offset = total_vertices(init) as u32;
        assert(offset == total_vertices(init));
        let tail = rebased(part_indices(last), offset);
        assert forall|k: int| 0 <= k < merged_indices(parts).len() implies #[trigger] merged_indices(
            parts)[k] < total_vertices(parts) by {
            let head = merged_indices(init);
            if k >= head.len() {
                let j = k - head.len();
                assert(part_indices(last)[j] < last.vertex_count);
                assert(tail[j] == (part_indices(last)[j] + offset) as u32);
            }
        }
    }
}

/// Merging keeps every index: the model has as many indices as its parts together.
pub proof fn law_merge_keeps_count(parts: Seq<PrimitiveIndices>)
    ensures
        merged_indices(parts).len() == parts.fold_left(0int, |n: int, p: PrimitiveIndices| n + part_indices(p).len()),
    decreases parts.len(),
{
    if parts.len() > 0 {
        law_merge_keeps_count(parts.drop_last());
    }
}

} // verus!
