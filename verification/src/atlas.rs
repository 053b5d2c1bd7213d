//! A glyph atlas: sprites laid out side by side in one texture, with a gap
//! around each, so that a line of text can be drawn in one call.

use vstd::prelude::*;

verus! {

/// The gap kept around every sprite, in pixels. It prevents neighbouring
/// sprites from bleeding into each other when the texture is sampled.
pub const ATLAS_GAP: usize = 2;

/// A bitmap of RGBA pixels, row by row.
#[derive(Clone, Debug)]
pub struct Sprite {
    pub bmp_width: usize,
    pub bmp_height: usize,
    pub bmp: Vec<u8>,
}

/// A sprite as plain data.
pub struct SpriteView {
    pub width: int,
    pub height: int,
    pub bmp: Seq<u8>,
}

impl View for Sprite {
    type V = SpriteView;

    open spec fn view(&self) -> SpriteView {
        SpriteView {
            width: self.bmp_width as int,
            height: self.bmp_height as int,
            bmp: self.bmp@,
        }
    }
}

impl SpriteView {
    /// Whether the bitmap holds four bytes for each pixel.
    pub open spec fn filled(self) -> bool {
        self.bmp.len() >= 4 * (self.height * self.width)
    }
}

/// A shaped glyph: its id in the font and its rendered sprite.
#[derive(Clone, Debug)]
pub struct Glyph {
    pub glyph_id: u32,
    pub sprite: Sprite,
}

/// The rectangle of a sprite within the texture, in pixels. Its sides divided
/// by the texture's width and height are the sprite's texture coordinates.
#[derive(Clone, Copy, Debug, PartialEq, Eq, Structural)]
pub struct PixelRect {
    pub x: usize,
    pub y: usize,
    pub w: usize,
    pub h: usize,
}

/// Why no texture can be made of an atlas.
#[derive(Clone, Copy, Debug, PartialEq, Eq, Structural)]
pub enum AtlasError {
    /// The atlas holds no glyph.
    AtlasIsEmpty,
}

/// Collects glyphs and places each new one to the right of the last.
#[derive(Clone, Debug)]
pub struct Atlas {
    pub glyph_ids: Vec<u32>,
    pub sprites: Vec<Sprite>,
    /// The left edge of each sprite within the texture.
    pub x_pos: Vec<usize>,
    pub width: usize,
    pub height: usize,
}

/// An atlas as plain data.
pub struct AtlasView {
    pub glyph_ids: Seq<u32>,
    pub sprites: Seq<SpriteView>,
    pub x_pos: Seq<int>,
    pub width: int,
    pub height: int,
}

impl View for Atlas {
    type V = AtlasView;

    open spec fn view(&self) -> AtlasView {
        AtlasView {
            glyph_ids: self.glyph_ids@,
            sprites: Seq::new(self.sprites@.len(), |i: int| self.sprites@[i]@),
            x_pos: Seq::new(self.x_pos@.len(), |i: int| self.x_pos@[i] as int),
            width: self.width as int,
            height: self.height as int,
        }
    }
}

impl AtlasView {
    /// The atlas without glyphs: nothing but the gap.
    pub open spec fn empty() -> AtlasView {
        AtlasView {
            glyph_ids: Seq::empty(),
            sprites: Seq::empty(),
            x_pos: Seq::empty(),
            width: ATLAS_GAP as int,
            height: 2 * ATLAS_GAP,
        }
    }

    /// The layout rules: one sprite and one position per glyph, no glyph
    /// twice, every sprite inside the texture with the gap on all its sides,
    /// and each sprite to the right of those before it.
    pub open spec fn wf(self) -> bool {
        &&& self.glyph_ids.len() == self.sprites.len()
        &&& self.glyph_ids.len() == self.x_pos.len()
        &&& self.glyph_ids.no_duplicates()
        &&& ATLAS_GAP <= self.width
        &&& 2 * ATLAS_GAP <= self.height
        &&& forall|i: int|
            0 <= i < self.sprites.len() ==> {
                &&& 0 <= (#[trigger] self.sprites[i]).width
                &&& 0 <= self.sprites[i].height
                &&& self.sprites[i].height + 2 * ATLAS_GAP <= self.height
            }
        &&& forall|i: int|
            0 <= i < self.x_pos.len() ==> {
                &&& ATLAS_GAP <= #[trigger] self.x_pos[i]
                &&& self.x_pos[i] + self.sprites[i].width + ATLAS_GAP <= self.width
            }
        &&& forall|i: int, j: int|
            0 <= i < j < self.x_pos.len() ==> #[trigger] self.x_pos[i] + self.sprites[i].width
                + ATLAS_GAP <= #[trigger] self.x_pos[j]
    }

    /// The atlas after one glyph is offered: unchanged where the glyph is
    /// already there, else with the sprite at the right end, the atlas wider
    /// by the sprite and a gap, and as high as its highest sprite and two
    /// gaps.
    pub open spec fn with_glyph(self, glyph_id: u32, sprite: SpriteView) -> AtlasView {
        if self.glyph_ids.contains(glyph_id) {
            self
        } else {
            AtlasView {
                glyph_ids: self.glyph_ids.push(glyph_id),
                sprites: self.sprites.push(sprite),
                x_pos: self.x_pos.push(self.width),
                width: self.width + sprite.width + ATLAS_GAP,
                height: if self.height >= sprite.height + 2 * ATLAS_GAP {
                    self.height
                } else {
                    sprite.height + 2 * ATLAS_GAP
                },
            }
        }
    }

    /// The atlas after a line of glyphs is offered, one after the other.
    pub open spec fn with_glyphs(self, glyphs: Seq<Glyph>) -> AtlasView
        decreases glyphs.len(),
    {
        if glyphs.len() == 0 {
            self
        } else {
            self.with_glyphs(glyphs.drop_last()).with_glyph(
                glyphs.last().glyph_id,
                glyphs.last().sprite@,
            )
        }
    }
}

/// Offering a glyph keeps the layout rules.
pub proof fn lemma_with_glyph_wf(atlas: AtlasView, glyph_id: u32, sprite: SpriteView)
    requires
        atlas.wf(),
        0 <= sprite.width,
        0 <= sprite.height,
    ensures
        atlas.with_glyph(glyph_id, sprite).wf(),
        atlas.width <= atlas.with_glyph(glyph_id, sprite).width,
        atlas.height <= atlas.with_glyph(glyph_id, sprite).height,
{
    let after = atlas.with_glyph(glyph_id, sprite);
    if !atlas.glyph_ids.contains(glyph_id) {
        let n = atlas.glyph_ids.len() as int;
        assert forall|i: int, j: int| 0 <= i < j < after.glyph_ids.len() implies after.glyph_ids[i]
            != after.glyph_ids[j] by {
            if j == n {
                assert(atlas.glyph_ids[i] == after.glyph_ids[i]);
            } else {
                assert(atlas.glyph_ids[i] == after.glyph_ids[i]);
                assert(atlas.glyph_ids[j] == after.glyph_ids[j]);
            }
        }
        assert forall|i: int| 0 <= i < after.sprites.len() implies 0 <= (
        #[trigger] after.sprites[i]).width && 0 <= after.sprites[i].height && after.sprites[i].height
            + 2 * ATLAS_GAP <= after.height by {
            if i < n {
                assert(after.sprites[i] == atlas.sprites[i]);
            }
        }
        assert forall|i: int| 0 <= i < after.x_pos.len() implies ATLAS_GAP
            <= #[trigger] after.x_pos[i] && after.x_pos[i] + after.sprites[i].width + ATLAS_GAP
            <= after.width by {
            if i < n {
                assert(after.x_pos[i] == atlas.x_pos[i]);
                assert(after.sprites[i] == atlas.sprites[i]);
            }
        }
        assert forall|i: int, j: int| 0 <= i < j < after.x_pos.len() implies #[trigger] after.x_pos[i]
            + after.sprites[i].width + ATLAS_GAP <= #[trigger] after.x_pos[j] by {
            assert(after.x_pos[i] == atlas.x_pos[i]);
            assert(after.sprites[i] == atlas.sprites[i]);
            if j < n {
                assert(after.x_pos[j] == atlas.x_pos[j]);
            }
        }
    }
}

/// Offering a line of glyphs keeps the layout rules, and the atlas never
/// shrinks on the way: after any part of the line it is no larger than after
/// the whole.
pub proof fn lemma_with_glyphs_grows(atlas: AtlasView, glyphs: Seq<Glyph>, part: int)
    requires
        atlas.wf(),
        0 <= part <= glyphs.len(),
    ensures
        atlas.with_glyphs(glyphs.take(part)).wf(),
        atlas.with_glyphs(glyphs.take(part)).width <= atlas.with_glyphs(glyphs).width,
        atlas.with_glyphs(glyphs.take(part)).height <= atlas.with_glyphs(glyphs).height,
    decreases glyphs.len(),
{
    if glyphs.len() == 0 {
        assert(glyphs.take(part) =~= glyphs);
    } else if part == glyphs.len() {
        assert(glyphs.take(part) =~= glyphs);
        lemma_with_glyphs_grows(atlas, glyphs.drop_last(), part - 1);
        assert(glyphs.drop_last().take(part - 1) =~= glyphs.drop_last());
        lemma_with_glyph_wf(
            atlas.with_glyphs(glyphs.drop_last()),
            glyphs.last().glyph_id,
            glyphs.last().sprite@,
        );
    } else {
        lemma_with_glyphs_grows(atlas, glyphs.drop_last(), part);
        assert(glyphs.drop_last().take(part) =~= glyphs.take(part));
        lemma_with_glyphs_grows(
            atlas,
            glyphs.drop_last(),
            glyphs.drop_last().len() as int,
        );
        assert(glyphs.drop_last().take(glyphs.drop_last().len() as int) =~= glyphs.drop_last());
        lemma_with_glyph_wf(
            atlas.with_glyphs(glyphs.drop_last()),
            glyphs.last().glyph_id,
            glyphs.last().sprite@,
        );
    }
}

/// The position of a glyph id among those collected: the first index that
/// holds it, or nothing where none does.
pub fn glyph_index(glyph_ids: &Vec<u32>, glyph_id: u32) -> (r: Option<usize>)
    ensures
        match r {
            Some(i) => i < glyph_ids@.len() && glyph_ids@[i as int] == glyph_id && forall|j: int|
                0 <= j < i ==> glyph_ids@[j] != glyph_id,
            None => !glyph_ids@.contains(glyph_id),
        },
{
    let mut i: usize = 0;
    while i < glyph_ids.len()
        invariant
            i <= glyph_ids.len(),
            forall|j: int| 0 <= j < i ==> glyph_ids@[j] != glyph_id,
        decreases glyph_ids.len() - i,
    {
        if glyph_ids[i] == glyph_id {
            return Some(i);
        }
        i = i + 1;
    }
    None
}

impl Sprite {
    /// A copy of the sprite.
    pub fn duplicate(&self) -> (r: Sprite)
        ensures
            r@ == self@,
    {
        let mut bmp: Vec<u8> = Vec::new();
        let mut i: usize = 0;
        while i < self.bmp.len()
            invariant
                i <= self.bmp.len(),
                bmp@ == self.bmp@.take(i as int),
            decreases self.bmp.len() - i,
        {
            bmp.push(self.bmp[i]);
            proof {
                assert(bmp@ =~= self.bmp@.take(i + 1));
            }
            i = i + 1;
        }
        proof {
            assert(bmp@ =~= self.bmp@);
        }
        Sprite { bmp_width: self.bmp_width, bmp_height: self.bmp_height, bmp }
    }
}

impl Atlas {
    /// An atlas without glyphs.
    pub fn new() -> (r: Atlas)
        ensures
            r@ == AtlasView::empty(),
            r@.wf(),
    {
        let r = Atlas {
            glyph_ids: Vec::new(),
            sprites: Vec::new(),
            x_pos: Vec::new(),
            width: ATLAS_GAP,
            height: 2 * ATLAS_GAP,
        };
        proof {
            assert(r@.sprites =~= Seq::<SpriteView>::empty());
            assert(r@.x_pos =~= Seq::<int>::empty());
        }
        r
    }

    /// Adds one glyph at the right end, unless its id is already there.
    pub fn push_glyph(&mut self, glyph: &Glyph)
        requires
            old(self)@.wf(),
            old(self)@.with_glyph(glyph.glyph_id, glyph.sprite@).width <= usize::MAX,
            old(self)@.with_glyph(glyph.glyph_id, glyph.sprite@).height <= usize::MAX,
        ensures
            final(self)@ == old(self)@.with_glyph(glyph.glyph_id, glyph.sprite@),
            final(self)@.wf(),
    {
        proof {
            lemma_with_glyph_wf(self@, glyph.glyph_id, glyph.sprite@);
        }
        if glyph_index(&self.glyph_ids, glyph.glyph_id).is_some() {
            return ;
        }
        let ghost before = self@;
        self.glyph_ids.push(glyph.glyph_id);
        self.sprites.push(glyph.sprite.duplicate());
        self.x_pos.push(self.width);

        let height: usize = ATLAS_GAP + glyph.sprite.bmp_height + ATLAS_GAP;
        if height > self.height {
            self.height = height;
        }
        self.width = self.width + (glyph.sprite.bmp_width + ATLAS_GAP);
        proof {
            let after = before.with_glyph(glyph.glyph_id, glyph.sprite@);
            assert(self@.sprites =~= after.sprites);
            assert(self@.x_pos =~= after.x_pos);
        }
    }

    /// Whether a line of shaped text can be added: whether the atlas with it
    /// is still no wider and no higher than a `usize` can say.
    pub fn can_push(&self, glyphs: &Vec<Glyph>) -> (ok: bool)
        requires
            self@.wf(),
        ensures
            ok == (self@.with_glyphs(glyphs@).width <= usize::MAX && self@.with_glyphs(
                glyphs@,
            ).height <= usize::MAX),
    {
        let ghost start = self@;
        let mut ids: Vec<u32> = Vec::new();
        let mut n: usize = 0;
        while n < self.glyph_ids.len()
            invariant
                n <= self.glyph_ids.len(),
                ids@ == self.glyph_ids@.take(n as int),
            decreases self.glyph_ids.len() - n,
        {
            ids.push(self.glyph_ids[n]);
            proof {
                assert(ids@ =~= self.glyph_ids@.take(n + 1));
            }
            n = n + 1;
        }
        let mut width: usize = self.width;
        let mut height: usize = self.height;
        let mut i: usize = 0;
        proof {
            assert(self.glyph_ids@.take(n as int) =~= self.glyph_ids@);
            assert(glyphs@.take(0) =~= Seq::<Glyph>::empty());
        }
        while i < glyphs.len()
            invariant
                i <= glyphs.len(),
                start == self@,
                start.wf(),
                ids@ == start.with_glyphs(glyphs@.take(i as int)).glyph_ids,
                width == start.with_glyphs(glyphs@.take(i as int)).width,
                height == start.with_glyphs(glyphs@.take(i as int)).height,
            decreases glyphs.len() - i,
        {
            proof {
                assert(glyphs@.take(i + 1).drop_last() =~= glyphs@.take(i as int));
                lemma_with_glyphs_grows(start, glyphs@, i + 1);
            }
            let glyph = &glyphs[i];
            if glyph_index(&ids, glyph.glyph_id).is_none() {
                if glyph.sprite.bmp_width > usize::MAX - ATLAS_GAP || width > usize::MAX - ATLAS_GAP
                    - glyph.sprite.bmp_width {
                    return false;
                }
                if glyph.sprite.bmp_height > usize::MAX - 2 * ATLAS_GAP {
                    return false;
                }
                ids.push(glyph.glyph_id);
                width = width + (glyph.sprite.bmp_width + ATLAS_GAP);
                let sprite_height: usize = glyph.sprite.bmp_height + 2 * ATLAS_GAP;
                if sprite_height > height {
                    height = sprite_height;
                }
            }
            i = i + 1;
        }
        proof {
            assert(glyphs@.take(i as int) =~= glyphs@);
        }
        true
    }

    /// Adds a line of shaped text, glyph by glyph.
    pub fn push(&mut self, glyphs: &Vec<Glyph>)
        requires
            old(self)@.wf(),
            old(self)@.with_glyphs(glyphs@).width <= usize::MAX,
            old(self)@.with_glyphs(glyphs@).height <= usize::MAX,
        ensures
            final(self)@ == old(self)@.with_glyphs(glyphs@),
            final(self)@.wf(),
    {
        let ghost start = self@;
        let mut i: usize = 0;
        proof {
            assert(glyphs@.take(0) =~= Seq::<Glyph>::empty());
        }
        while i < glyphs.len()
            invariant
                i <= glyphs.len(),
                start.wf(),
                start.with_glyphs(glyphs@).width <= usize::MAX,
                start.with_glyphs(glyphs@).height <= usize::MAX,
                self@ == start.with_glyphs(glyphs@.take(i as int)),
                self@.wf(),
            decreases glyphs.len() - i,
        {
            proof {
                assert(glyphs@.take(i + 1).drop_last() =~= glyphs@.take(i as int));
                lemma_with_glyphs_grows(start, glyphs@, i + 1);
            }
            self.push_glyph(&glyphs[i]);
            i = i + 1;
        }
        proof {
            assert(glyphs@.take(i as int) =~= glyphs@);
        }
    }
}

/// The place of one byte of a pixel in an RGBA image of the given width that
/// is stored row by row: four bytes a pixel.
pub open spec fn texel_index(width: int, row: int, col: int, channel: int) -> int {
    4 * (row * width + col) + channel
}

/// Whether a pixel lies in the rectangle with its corner at `(x, y)`.
pub open spec fn in_rect(x: int, y: int, width: int, height: int, row: int, col: int) -> bool {
    y <= row < y + height && x <= col < x + width
}

/// One byte of an image after a sprite was copied to `(x, y)`: the sprite's
/// byte inside the sprite's rectangle, the image's own outside it.
pub open spec fn blit_texel(
    image: Seq<u8>,
    width: int,
    sprite: SpriteView,
    x: int,
    y: int,
    row: int,
    col: int,
    channel: int,
) -> u8 {
    if in_rect(x, y, sprite.width, sprite.height, row, col) {
        sprite.bmp[texel_index(sprite.width, row - y, col - x, channel)]
    } else {
        image[texel_index(width, row, col, channel)]
    }
}

/// One byte of an image while a sprite is being copied: `rows` rows of the
/// sprite are done, and `cols` pixels of the next.
spec fn partial_blit_texel(
    image: Seq<u8>,
    width: int,
    sprite: SpriteView,
    x: int,
    y: int,
    rows: int,
    cols: int,
    row: int,
    col: int,
    channel: int,
) -> u8 {
    if in_rect(x, y, sprite.width, sprite.height, row, col) && (row - y < rows || (row - y == rows
        && col - x < cols)) {
        sprite.bmp[texel_index(sprite.width, row - y, col - x, channel)]
    } else {
        image[texel_index(width, row, col, channel)]
    }
}

/// Two bytes of an image share a place only if they are the same byte of the
/// same pixel.
pub proof fn lemma_texel_index_injective(
    width: int,
    r1: int,
    c1: int,
    k1: int,
    r2: int,
    c2: int,
    k2: int,
)
    requires
        0 <= c1 < width,
        0 <= c2 < width,
        0 <= k1 < 4,
        0 <= k2 < 4,
    ensures
        texel_index(width, r1, c1, k1) == texel_index(width, r2, c2, k2) ==> r1 == r2 && c1 == c2
            && k1 == k2,
{
    if texel_index(width, r1, c1, k1) == texel_index(width, r2, c2, k2) {
        assert(r1 * width + c1 == r2 * width + c2);
        if r1 < r2 {
            assert(r2 * width >= r1 * width + width) by (nonlinear_arith)
                requires
                    r2 >= r1 + 1,
                    width > 0,
            ;
        } else if r2 < r1 {
            assert(r1 * width >= r2 * width + width) by (nonlinear_arith)
                requires
                    r1 >= r2 + 1,
                    width > 0,
            ;
        }
    }
}

/// Every byte of a pixel inside an image lies inside the image's buffer.
pub proof fn lemma_texel_index_bound(width: int, height: int, row: int, col: int, channel: int)
    requires
        0 <= row < height,
        0 <= col < width,
        0 <= channel < 4,
    ensures
        0 <= row * width + col < height * width,
        0 <= texel_index(width, row, col, channel) < 4 * (height * width),
{
    assert(0 <= row * width && row * width + width <= height * width) by (nonlinear_arith)
        requires
            0 <= row,
            row + 1 <= height,
            width > 0,
    ;
}

/// Copies a sprite to the position `(x, y)` of an RGBA image that is
/// `atlas_width` pixels wide. The sprite must lie inside the image. A sprite
/// without pixels leaves the image as it was.
pub fn copy_image(sprite: &Sprite, x: usize, y: usize, atlas: &mut Vec<u8>, atlas_width: usize)
    requires
        sprite@.filled(),
        x + sprite.bmp_width <= atlas_width,
        4 * ((y + sprite.bmp_height) * atlas_width) <= old(atlas)@.len(),
    ensures
        final(atlas)@.len() == old(atlas)@.len(),
        sprite.bmp_width == 0 || sprite.bmp_height == 0 ==> final(atlas)@ == old(atlas)@,
        forall|row: int, col: int, channel: int|
            0 <= row && 0 <= col < atlas_width && 0 <= channel < 4 && texel_index(
                atlas_width as int,
                row,
                col,
                channel,
            ) < old(atlas)@.len() ==> final(atlas)@[#[trigger] texel_index(
                atlas_width as int,
                row,
                col,
                channel,
            )] == blit_texel(
                old(atlas)@,
                atlas_width as int,
                sprite@,
                x as int,
                y as int,
                row,
                col,
                channel,
            ),
{
    let ghost image = atlas@;
    let ghost aw = atlas_width as int;
    let width: usize = sprite.bmp_width;
    let height: usize = sprite.bmp_height;
    let src_len: usize = sprite.bmp.len();
    let dest_len: usize = atlas.len();
    let mut i: usize = 0;
    while i < height
        invariant
            i <= height,
            src_len == sprite.bmp@.len(),
            dest_len == image.len(),
            width == sprite.bmp_width,
            height == sprite.bmp_height,
            aw == atlas_width,
            sprite@.filled(),
            x + width <= atlas_width,
            4 * ((y + height) * aw) <= image.len(),
            atlas@.len() == image.len(),
            i == 0 || width == 0 ==> atlas@ == image,
            forall|row: int, col: int, channel: int|
                0 <= row && 0 <= col < aw && 0 <= channel < 4 && texel_index(aw, row, col, channel)
                    < image.len() ==> atlas@[#[trigger] texel_index(aw, row, col, channel)]
                    == partial_blit_texel(
                    image,
                    aw,
                    sprite@,
                    x as int,
                    y as int,
                    i as int,
                    0,
                    row,
                    col,
                    channel,
                ),
        decreases height - i,
    {
        let mut j: usize = 0;
        while j < width
            invariant
                i < height,
                j <= width,
                src_len == sprite.bmp@.len(),
                dest_len == image.len(),
                width == sprite.bmp_width,
                height == sprite.bmp_height,
                aw == atlas_width,
                sprite@.filled(),
                x + width <= atlas_width,
                4 * ((y + height) * aw) <= image.len(),
                atlas@.len() == image.len(),
                (i == 0 && j == 0) || width == 0 ==> atlas@ == image,
                forall|row: int, col: int, channel: int|
                    0 <= row && 0 <= col < aw && 0 <= channel < 4 && texel_index(
                        aw,
                        row,
                        col,
                        channel,
                    ) < image.len() ==> atlas@[#[trigger] texel_index(aw, row, col, channel)]
                        == partial_blit_texel(
                        image,
                        aw,
                        sprite@,
                        x as int,
                        y as int,
                        i as int,
                        j as int,
                        row,
                        col,
                        channel,
                    ),
            decreases width - j,
        {
            proof {
                lemma_texel_index_bound(width as int, height as int, i as int, j as int, 3);
                lemma_texel_index_bound(aw, y + height, y + i, x + j, 3);
                assert((y + height) * aw >= y + height) by (nonlinear_arith)
                    requires
                        aw >= 1,
                        y + height >= 0,
                ;
            }
            let src_y: usize = i * width;
            let off_src: usize = 4 * (src_y + j);
            let dest_y: usize = (y + i) * atlas_width;
            let off_dest: usize = 4 * (dest_y + j + x);
            let ghost mid = atlas@;
            let b0: u8 = sprite.bmp[off_src];
            let b1: u8 = sprite.bmp[off_src + 1];
            let b2: u8 = sprite.bmp[off_src + 2];
            let b3: u8 = sprite.bmp[off_src + 3];
            atlas.set(off_dest, b0);
            atlas.set(off_dest + 1, b1);
            atlas.set(off_dest + 2, b2);
            atlas.set(off_dest + 3, b3);
            proof {
                assert(off_src == texel_index(width as int, i as int, j as int, 0));
                assert(off_dest == texel_index(aw, y + i, x + j, 0));
                assert forall|row: int, col: int, channel: int|
                    0 <= row && 0 <= col < aw && 0 <= channel < 4 && texel_index(
                        aw,
                        row,
                        col,
                        channel,
                    ) < image.len() implies atlas@[#[trigger] texel_index(aw, row, col, channel)]
                    == partial_blit_texel(
                    image,
                    aw,
                    sprite@,
                    x as int,
                    y as int,
                    i as int,
                    j + 1,
                    row,
                    col,
                    channel,
                ) by {
                    lemma_texel_index_injective(aw, row, col, channel, y + i, x + j, 0);
                    lemma_texel_index_injective(aw, row, col, channel, y + i, x + j, 1);
                    lemma_texel_index_injective(aw, row, col, channel, y + i, x + j, 2);
                    lemma_texel_index_injective(aw, row, col, channel, y + i, x + j, 3);
                    let at = texel_index(aw, row, col, channel);
                    if row == y + i && col == x + j {
                        assert(at == off_dest + channel);
                        assert(texel_index(width as int, row - y, col - x, channel) == off_src
                            + channel);
                    } else {
                        assert(at != off_dest && at != off_dest + 1 && at != off_dest + 2 && at
                            != off_dest + 3);
                        assert(atlas@[at] == mid[at]);
                    }
                }
            }
            j = j + 1;
        }
        i = i + 1;
    }
}

/// One byte of the texture once the first `count` sprites are drawn, each at
/// its position and one gap below the top: the sprite's byte inside a
/// sprite, and outside all of them white in the first pixel and nothing
/// elsewhere. The first pixel is kept white for drawing lines.
pub open spec fn rendered_texel(atlas: AtlasView, count: int, row: int, col: int, channel: int) -> u8
    decreases count,
{
    if count <= 0 {
        if row == 0 && col == 0 {
            255u8
        } else {
            0u8
        }
    } else if in_rect(
        atlas.x_pos[count - 1],
        ATLAS_GAP as int,
        atlas.sprites[count - 1].width,
        atlas.sprites[count - 1].height,
        row,
        col,
    ) {
        atlas.sprites[count - 1].bmp[texel_index(
            atlas.sprites[count - 1].width,
            row - ATLAS_GAP,
            col - atlas.x_pos[count - 1],
            channel,
        )]
    } else {
        rendered_texel(atlas, count - 1, row, col, channel)
    }
}

/// A buffer of `len` zero bytes.
pub fn blank_image(len: usize) -> (image: Vec<u8>)
    ensures
        image@.len() == len,
        forall|i: int| 0 <= i < len ==> image@[i] == 0,
{
    let mut image: Vec<u8> = Vec::new();
    let mut i: usize = 0;
    while i < len
        invariant
            i <= len,
            image@.len() == i,
            forall|k: int| 0 <= k < i ==> image@[k] == 0,
        decreases len - i,
    {
        image.push(0);
        i = i + 1;
    }
    image
}

impl Atlas {
    /// Whether every sprite holds four bytes for each of its pixels.
    pub open spec fn sprites_filled(&self) -> bool {
        forall|k: int| 0 <= k < self@.sprites.len() ==> (#[trigger] self@.sprites[k]).filled()
    }

    /// The rectangle of each sprite within the texture, in the order of the
    /// glyphs: at its position, one gap below the top, as large as the sprite.
    pub fn compute_uvs(&self) -> (uvs: Vec<PixelRect>)
        ensures
            uvs@.len() == if self.sprites@.len() <= self.x_pos@.len() {
                self.sprites@.len()
            } else {
                self.x_pos@.len()
            },
            forall|k: int|
                0 <= k < uvs@.len() ==> #[trigger] uvs@[k] == (PixelRect {
                    x: self.x_pos@[k],
                    y: ATLAS_GAP,
                    w: self.sprites@[k].bmp_width,
                    h: self.sprites@[k].bmp_height,
                }),
    {
        let count: usize = if self.sprites.len() <= self.x_pos.len() {
            self.sprites.len()
        } else {
            self.x_pos.len()
        };
        let mut uvs: Vec<PixelRect> = Vec::new();
        let mut k: usize = 0;
        while k < count
            invariant
                k <= count,
                count <= self.sprites@.len(),
                count <= self.x_pos@.len(),
                uvs@.len() == k,
                forall|i: int|
                    0 <= i < k ==> #[trigger] uvs@[i] == (PixelRect {
                        x: self.x_pos@[i],
                        y: ATLAS_GAP,
                        w: self.sprites@[i].bmp_width,
                        h: self.sprites@[i].bmp_height,
                    }),
            decreases count - k,
        {
            uvs.push(
                PixelRect {
                    x: self.x_pos[k],
                    y: ATLAS_GAP,
                    w: self.sprites[k].bmp_width,
                    h: self.sprites[k].bmp_height,
                },
            );
            k = k + 1;
        }
        uvs
    }

    /// What is asked of the GPU for this atlas: a texture of the atlas's width
    /// and height, each cut to 16 bits, with the image that `render` draws.
    /// An atlas without glyphs has no texture.
    pub fn texture_request(&self) -> (r: Result<(u16, u16, Vec<u8>), AtlasError>)
        requires
            self.glyph_ids@.len() > 0 ==> self@.wf() && self.sprites_filled() && 4 * (self@.height
                * self@.width) <= usize::MAX,
        ensures
            r is Err <==> self.glyph_ids@.len() == 0,
            r matches Err(e) ==> e == AtlasError::AtlasIsEmpty,
            r matches Ok((width, height, image)) ==> {
                &&& width == self.width as u16
                &&& height == self.height as u16
                &&& image@.len() == 4 * (self@.height * self@.width)
                &&& forall|row: int, col: int, channel: int|
                    0 <= row < self@.height && 0 <= col < self@.width && 0 <= channel < 4
                        ==> image@[#[trigger] texel_index(self@.width, row, col, channel)]
                        == rendered_texel(self@, self@.sprites.len() as int, row, col, channel)
            },
    {
        if self.glyph_ids.len() == 0 {
            return Err(AtlasError::AtlasIsEmpty);
        }
        let image = self.render();
        let width: u16 = #[verifier::truncate]
        (self.width as u16);
        let height: u16 = #[verifier::truncate]
        (self.height as u16);
        Ok((width, height, image))
    }

    /// Draws the texture: an RGBA image as wide and as high as the atlas,
    /// with every sprite at its position, one gap below the top.
    pub fn render(&self) -> (image: Vec<u8>)
        requires
            self@.wf(),
            self.sprites_filled(),
            4 * (self@.height * self@.width) <= usize::MAX,
        ensures
            image@.len() == 4 * (self@.height * self@.width),
            forall|row: int, col: int, channel: int|
                0 <= row < self@.height && 0 <= col < self@.width && 0 <= channel < 4
                    ==> image@[#[trigger] texel_index(self@.width, row, col, channel)]
                    == rendered_texel(self@, self@.sprites.len() as int, row, col, channel),
    {
        let ghost view = self@;
        let ghost w = self.width as int;
        let ghost h = self.height as int;
        proof {
            lemma_texel_index_bound(w, h, 0, 0, 3);
        }
        let mut image = blank_image(4 * (self.height * self.width));
        image.set(0, 255);
        image.set(1, 255);
        image.set(2, 255);
        image.set(3, 255);
        proof {
            assert forall|row: int, col: int, channel: int|
                0 <= row < h && 0 <= col < w && 0 <= channel < 4 implies image@[#[trigger] texel_index(
                w,
                row,
                col,
                channel,
            )] == rendered_texel(view, 0, row, col, channel) by {
                lemma_texel_index_bound(w, h, row, col, channel);
                lemma_texel_index_injective(w, row, col, channel, 0, 0, 0);
                lemma_texel_index_injective(w, row, col, channel, 0, 0, 1);
                lemma_texel_index_injective(w, row, col, channel, 0, 0, 2);
                lemma_texel_index_injective(w, row, col, channel, 0, 0, 3);
            }
        }
        let mut k: usize = 0;
        while k < self.sprites.len()
            invariant
                k <= self.sprites.len(),
                view == self@,
                w == self.width,
                h == self.height,
                view.wf(),
                self.sprites_filled(),
                image@.len() == 4 * (h * w),
                forall|row: int, col: int, channel: int|
                    0 <= row < h && 0 <= col < w && 0 <= channel < 4 ==> image@[#[trigger] texel_index(
                        w,
                        row,
                        col,
                        channel,
                    )] == rendered_texel(view, k as int, row, col, channel),
            decreases self.sprites.len() - k,
        {
            let ghost before = image@;
            let ghost sprite = view.sprites[k as int];
            let ghost x = view.x_pos[k as int];
            proof {
                assert(sprite == self.sprites@[k as int]@);
                assert(x == self.x_pos@[k as int]);
                assert(sprite.filled());
                assert((ATLAS_GAP + sprite.height) * w <= h * w) by (nonlinear_arith)
                    requires
                        ATLAS_GAP + sprite.height <= h,
                        0 <= w,
                ;
            }
            copy_image(&self.sprites[k], self.x_pos[k], ATLAS_GAP, &mut image, self.width);
            proof {
                assert forall|row: int, col: int, channel: int|
                    0 <= row < h && 0 <= col < w && 0 <= channel < 4 implies image@[#[trigger] texel_index(
                    w,
                    row,
                    col,
                    channel,
                )] == rendered_texel(view, k + 1, row, col, channel) by {
                    lemma_texel_index_bound(w, h, row, col, channel);
                    assert(image@[texel_index(w, row, col, channel)] == blit_texel(
                        before,
                        w,
                        sprite,
                        x,
                        ATLAS_GAP as int,
                        row,
                        col,
                        channel,
                    ));
                }
            }
            k = k + 1;
        }
        image
    }
}

} // verus!
