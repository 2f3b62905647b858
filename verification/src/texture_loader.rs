//! Texture atlases: a packed RGBA image cut into a grid of equal cells, the
//! addressing of its tiles, and the cache of tiles already cut out.

use vstd::prelude::*;
use vstd::string::*;
use std::collections::HashMap;
use crate::decimal::{decimal, u32_to_decimal};

verus! {

broadcast use vstd::std_specs::hash::group_hash_axioms;

/// The directory below which all assets lie.
pub const ASSET_FOLDER: &'static str = "./src/assets";

/// What a texture is: its size in pixels and its RGBA bytes, row by row
/// from the top, four bytes to a pixel.
pub struct TextureView {
    pub width: nat,
    pub height: nat,
    pub pixels: Seq<u8>,
}

/// An RGBA image held in memory.
#[derive(Debug)]
pub struct Texture {
    pub width: u32,
    pub height: u32,
    pub pixels: Vec<u8>,
}

impl View for Texture {
    type V = TextureView;

    open spec fn view(&self) -> TextureView {
        TextureView {
            width: self.width as nat,
            height: self.height as nat,
            pixels: self.pixels@,
        }
    }
}

/// The bytes of the `w` by `h` rectangle whose top left pixel is `(x, y)`
/// in an image `width` pixels wide.
pub open spec fn crop(pixels: Seq<u8>, width: nat, x: nat, y: nat, w: nat, h: nat) -> Seq<u8> {
    Seq::new(
        4 * w * h,
        |k: int| pixels[((y + k / (4 * w as int)) * width + x) * 4 + k % (4 * w as int)],
    )
}

impl Texture {
    /// The buffer holds exactly four bytes for each pixel.
    pub open spec fn wf(&self) -> bool {
        self.pixels@.len() == 4 * self.width * self.height
    }

    /// A texture of the given size over `pixels`, if the buffer has the
    /// length that the size asks for.
    pub fn new(width: u32, height: u32, pixels: Vec<u8>) -> (out: Option<Texture>)
        ensures
            out is Some <==> pixels@.len() == 4 * width * height,
            out is Some ==> out->0.wf() && out->0@ == (TextureView {
                width: width as nat,
                height: height as nat,
                pixels: pixels@,
            }),
    {
        assert(width * height <= 0xFFFF_FFFE_0000_0001u64 && 4 * width * height == 4 * (width
            * height)) by (nonlinear_arith)
            requires
                width <= 0xFFFF_FFFFu32,
                height <= 0xFFFF_FFFFu32,
        ;
        let area: u64 = (width as u64) * (height as u64);
        let len: u64 = pixels.len() as u64;
        if len % 4 == 0 && len / 4 == area {
            Some(Texture { width, height, pixels })
        } else {
            None
        }
    }

    /// The texture that the bytes of an image file hold.
    pub fn from_encoded(encoded: &[u8]) -> (out: Result<Texture, LoadError>)
        ensures
            match decoded(encoded@) {
                None => out is Err && out->Err_0 == LoadError::Undecodable,
                Some(image) => if image.2.len() == 4 * image.0 * image.1 {
                    &&& out is Ok
                    &&& out->Ok_0.wf()
                    &&& out->Ok_0@ == (TextureView {
                        width: image.0,
                        height: image.1,
                        pixels: image.2,
                    })
                } else {
                    out is Err && out->Err_0 == LoadError::BadBuffer
                },
            },
    {
        match decode_rgba(encoded) {
            Ok(image) => match Texture::new(image.0, image.1, image.2) {
                Some(texture) => Ok(texture),
                None => Err(LoadError::BadBuffer),
            },
            Err(_) => Err(LoadError::Undecodable),
        }
    }

    /// The one-pixel transparent texture.
    pub fn empty() -> (out: Texture)
        ensures
            out.wf(),
            out@ == (TextureView { width: 1, height: 1, pixels: seq![0u8, 0u8, 0u8, 0u8] }),
    {
        let mut pixels: Vec<u8> = Vec::new();
        pixels.push(0);
        pixels.push(0);
        pixels.push(0);
        pixels.push(0);
        assert(pixels@ =~= seq![0u8, 0u8, 0u8, 0u8]);
        Texture { width: 1, height: 1, pixels }
    }
}

/// Why an atlas could not be made from the bytes of a file.
#[derive(Clone, Copy, Debug, PartialEq, Eq, Structural)]
pub enum LoadError {
    /// The bytes are not an image in a known format.
    Undecodable,
    /// The decoded buffer does not hold four bytes for each pixel.
    BadBuffer,
}

/// Whole cells of size `cell` along a side of length `len`.
pub open spec fn cells_along(len: nat, cell: nat) -> nat {
    len / cell
}

/// What an atlas is: its name, its image, the size of a cell, the tiles
/// cut out so far by flat id, and the texture that stands in for a tile
/// that does not exist.
pub struct AtlasView {
    pub name: Seq<char>,
    pub image: TextureView,
    pub cell_width: nat,
    pub cell_height: nat,
    pub cache: Map<u64, TextureView>,
    pub fallback: TextureView,
}

impl AtlasView {
    /// Whole cells from top to bottom.
    pub open spec fn rows(self) -> nat {
        cells_along(self.image.height, self.cell_height)
    }

    /// Whole cells from left to right.
    pub open spec fn columns(self) -> nat {
        cells_along(self.image.width, self.cell_width)
    }

    pub open spec fn tile_count(self) -> nat {
        self.rows() * self.columns()
    }

    /// A flat id counts cells from zero, row by row from the top left.
    pub open spec fn valid_id(self, id: int) -> bool {
        0 <= id < self.tile_count()
    }

    /// A coordinate pair counts columns and rows from one.
    pub open spec fn valid_coord(self, col: int, row: int) -> bool {
        1 <= col <= self.columns() && 1 <= row <= self.rows()
    }

    /// The flat id of the cell at a coordinate pair.
    pub open spec fn linear_index(self, col: int, row: int) -> int {
        (row - 1) * self.columns() + (col - 1)
    }

    /// The cell with flat id `id`, cut out of the image.
    pub open spec fn tile(self, id: int) -> TextureView {
        TextureView {
            width: self.cell_width,
            height: self.cell_height,
            pixels: crop(
                self.image.pixels,
                self.image.width,
                ((id % self.columns() as int) * self.cell_width) as nat,
                ((id / self.columns() as int) * self.cell_height) as nat,
                self.cell_width,
                self.cell_height,
            ),
        }
    }

    /// A cell has a positive size, the image holds four bytes for each
    /// pixel, and every cached tile is the cell of its id.
    pub open spec fn wf(self) -> bool {
        &&& self.cell_width > 0
        &&& self.cell_height > 0
        &&& self.image.pixels.len() == 4 * self.image.width * self.image.height
        &&& self.cache_consistent()
    }

    /// Every cached tile is the cell of its id.
    pub open spec fn cache_consistent(self) -> bool {
        forall|id: u64| #[trigger]
            self.cache.contains_key(id) ==> self.valid_id(id as int) && self.cache[id] == self.tile(
                id as int,
            )
    }

    /// The atlas after the tile `id` has been asked for: a valid id is in
    /// the cache, and nothing else has changed.
    pub open spec fn sliced(self, id: int) -> AtlasView {
        if self.valid_id(id) {
            AtlasView { cache: self.cache.insert(id as u64, self.tile(id)), ..self }
        } else {
            self
        }
    }

    /// The atlas with every cell in the cache.
    pub open spec fn fully_sliced(self) -> AtlasView {
        AtlasView {
            cache: Map::new(|id: u64| self.valid_id(id as int), |id: u64| self.tile(id as int)),
            ..self
        }
    }

    /// What asking for the tile `id` gives: the cell, or the fallback
    /// texture where no such cell exists.
    pub open spec fn slice_result(self, id: int) -> TextureView {
        if self.valid_id(id) {
            self.tile(id)
        } else {
            self.fallback
        }
    }
}

/// Cell `i` of `n` whole cells lies inside the side it was counted on.
pub proof fn lemma_cell_fits(i: nat, len: nat, cell: nat)
    requires
        cell > 0,
        i < cells_along(len, cell),
    ensures
        i * cell + cell <= len,
{
    let n = len / cell;
    vstd::arithmetic::div_mod::lemma_fundamental_div_mod(len as int, cell as int);
    assert((i + 1) * cell <= n * cell) by (nonlinear_arith)
        requires
            i + 1 <= n,
            cell > 0,
    ;
    assert((i + 1) * cell == i * cell + cell) by (nonlinear_arith);
    assert(cell * n == n * cell) by (nonlinear_arith);
}

/// The number of addressable tiles never shrinks when the image grows and
/// the cell size stays.
pub proof fn lemma_tile_count_monotone(
    width: nat,
    height: nat,
    wider: nat,
    taller: nat,
    cell_width: nat,
    cell_height: nat,
)
    requires
        cell_width > 0,
        cell_height > 0,
        width <= wider,
        height <= taller,
    ensures
        cells_along(height, cell_height) * cells_along(width, cell_width) <= cells_along(
            taller,
            cell_height,
        ) * cells_along(wider, cell_width),
{
    vstd::arithmetic::div_mod::lemma_div_is_ordered(width as int, wider as int, cell_width as int);
    vstd::arithmetic::div_mod::lemma_div_is_ordered(
        height as int,
        taller as int,
        cell_height as int,
    );
    let r1 = height / cell_height;
    let r2 = taller / cell_height;
    let c1 = width / cell_width;
    let c2 = wider / cell_width;
    assert(r1 * c1 <= r2 * c2) by (nonlinear_arith)
        requires
            r1 <= r2,
            c1 <= c2,
    ;
}

/// The RGBA rendering of an encoded image: its width, its height and its
/// bytes, or `None` where the bytes are not an image in a known format.
pub uninterp spec fn decoded(bytes: Seq<u8>) -> Option<(nat, nat, Seq<u8>)>;

/// `image::ImageError`: why the decoder gave up. Nothing is read from it;
/// every such error becomes `LoadError::Undecodable`.
#[verifier::external_type_specification]
#[verifier::external_body]
pub struct ExImageError(image::ImageError);

/// `image::load_from_memory`, then `DynamicImage::into_rgba8`: guesses the
/// format of `bytes`, decodes them and converts the pixels to 8-bit RGBA.
/// The outcome is a function of the bytes alone; the contract gives it the
/// name `decoded` and says no more of it.
#[verifier::external_body]
fn decode_rgba(bytes: &[u8]) -> (out: Result<(u32, u32, Vec<u8>), image::ImageError>)
    ensures
        match out {
            Ok(image) => decoded(bytes@) == Some((image.0 as nat, image.1 as nat, image.2@)),
            Err(_) => decoded(bytes@) is None,
        },
{
    let image = image::load_from_memory(bytes)?.into_rgba8();
    Ok((image.width(), image.height(), image.into_raw()))
}

/// `GenericImageView::view` on an `image::RgbaImage` made of `data`, then
/// `SubImage::to_image`: copies the pixels of the rectangle, row by row,
/// into a buffer of its own. `RgbaImage::from_raw` refuses a buffer that
/// is shorter than the size asks for, and `view` panics on a rectangle
/// that leaves the image; the precondition excludes both. `data` is lent
/// to the image for the call and handed back as it was.
#[verifier::external_body]
fn crop_pixels(data: &mut Vec<u8>, width: u32, height: u32, x: u32, y: u32, w: u32, h: u32) -> (out:
    Vec<u8>)
    requires
        old(data)@.len() == 4 * width * height,
        x + w <= width,
        y + h <= height,
    ensures
        final(data)@ == old(data)@,
        out@ == crop(old(data)@, width as nat, x as nat, y as nat, w as nat, h as nat),
{
    let image = image::RgbaImage::from_raw(width, height, std::mem::take(data)).unwrap();
    let out = image::GenericImageView::view(&image, x, y, w, h).to_image().into_raw();
    *data = image.into_raw();
    out
}

/// `s` with every character in upper case, as Unicode defines it.
pub uninterp spec fn uppercase(s: Seq<char>) -> Seq<char>;

/// `str::to_uppercase`. The contract gives its result the name `uppercase`
/// and says no more of it.
#[verifier::external_body]
fn to_uppercase(s: &str) -> (out: String)
    ensures
        out@ == uppercase(s@),
{
    s.to_uppercase()
}

/// The warning for a tile that an atlas does not have: it names the atlas
/// and the size of its grid.
pub open spec fn out_of_range_text(name: Seq<char>, rows: nat, columns: nat) -> Seq<char> {
    "Failed to load Texture <"@ + name + ">: the Texture Position is out of range! Max Rows: "@
        + decimal(rows) + " Columns: "@ + decimal(columns)
}

/// Writes the warning for a tile that the atlas called `name` does not
/// have.
pub fn out_of_range_message(name: &str, rows: u32, columns: u32) -> (out: String)
    ensures
        out@ == out_of_range_text(name@, rows as nat, columns as nat),
{
    let mut out = String::from_str("Failed to load Texture <");
    out.append(name);
    out.append(">: the Texture Position is out of range! Max Rows: ");
    let rows_text = u32_to_decimal(rows);
    out.append(rows_text.as_str());
    out.append(" Columns: ");
    let columns_text = u32_to_decimal(columns);
    out.append(columns_text.as_str());
    out
}

/// A named atlas: the image, the size of its cells, and the tiles cut out
/// of it so far.
pub struct TextureAtlas {
    pub atlas_image: Texture,
    pub atlas_name: String,
    pub texture_size: [u32; 2],
    pub atlas_width: u32,
    pub atlas_height: u32,
    pub textures: HashMap<u64, Texture>,
    pub fallback: Texture,
}

impl View for TextureAtlas {
    type V = AtlasView;

    open spec fn view(&self) -> AtlasView {
        AtlasView {
            name: self.atlas_name@,
            image: self.atlas_image@,
            cell_width: self.texture_size[0] as nat,
            cell_height: self.texture_size[1] as nat,
            cache: self.textures@.map_values(|t: Texture| t@),
            fallback: self.fallback@,
        }
    }
}

impl TextureAtlas {
    /// The image and the fallback are whole, the recorded size is the
    /// image's, a cell has a positive size, and the cache holds only cells
    /// of this atlas.
    pub open spec fn wf(&self) -> bool {
        &&& self.fallback.wf()
        &&& self.atlas_width == self.atlas_image.width
        &&& self.atlas_height == self.atlas_image.height
        &&& self@.wf()
    }

    /// An atlas over an image that is already decoded. Fails where the
    /// buffer does not fit the size.
    pub fn from_pixels(
        atlas_name: &str,
        width: u32,
        height: u32,
        pixels: Vec<u8>,
        texture_size: [u32; 2],
    ) -> (out: Result<TextureAtlas, LoadError>)
        requires
            texture_size[0] > 0,
            texture_size[1] > 0,
        ensures
            match out {
                Ok(atlas) => {
                    &&& pixels@.len() == 4 * width * height
                    &&& atlas.wf()
                    &&& atlas@ == (AtlasView {
                        name: atlas_name@,
                        image: TextureView {
                            width: width as nat,
                            height: height as nat,
                            pixels: pixels@,
                        },
                        cell_width: texture_size[0] as nat,
                        cell_height: texture_size[1] as nat,
                        cache: Map::empty(),
                        fallback: TextureView {
                            width: 1,
                            height: 1,
                            pixels: seq![0u8, 0u8, 0u8, 0u8],
                        },
                    })
                },
                Err(e) => e == LoadError::BadBuffer && pixels@.len() != 4 * width * height,
            },
    {
        match Texture::new(width, height, pixels) {
            Some(image) => {
                let atlas = TextureAtlas {
                    atlas_image: image,
                    atlas_name: String::from_str(atlas_name),
                    texture_size,
                    atlas_width: width,
                    atlas_height: height,
                    textures: HashMap::new(),
                    fallback: Texture::empty(),
                };
                assert(atlas@.cache =~= Map::<u64, TextureView>::empty());
                Ok(atlas)
            },
            None => Err(LoadError::BadBuffer),
        }
    }

    /// An atlas from the bytes of an image file.
    pub fn new(atlas_name: &str, encoded: &[u8], texture_size: [u32; 2]) -> (out: Result<
        TextureAtlas,
        LoadError,
    >)
        requires
            texture_size[0] > 0,
            texture_size[1] > 0,
        ensures
            match decoded(encoded@) {
                None => out is Err && out->Err_0 == LoadError::Undecodable,
                Some(image) => if image.2.len() == 4 * image.0 * image.1 {
                    &&& out is Ok
                    &&& out->Ok_0.wf()
                    &&& out->Ok_0@ == (AtlasView {
                        name: atlas_name@,
                        image: TextureView { width: image.0, height: image.1, pixels: image.2 },
                        cell_width: texture_size[0] as nat,
                        cell_height: texture_size[1] as nat,
                        cache: Map::empty(),
                        fallback: TextureView {
                            width: 1,
                            height: 1,
                            pixels: seq![0u8, 0u8, 0u8, 0u8],
                        },
                    })
                } else {
                    out is Err && out->Err_0 == LoadError::BadBuffer
                },
            },
    {
        match decode_rgba(encoded) {
            Ok(image) => TextureAtlas::from_pixels(atlas_name, image.0, image.1, image.2, texture_size),
            Err(_) => Err(LoadError::Undecodable),
        }
    }

    /// The atlas's name.
    pub fn get_name(self) -> (out: String)
        ensures
            out@ == self@.name,
    {
        self.atlas_name
    }

    /// Whole cells from top to bottom.
    pub fn get_rows(&self) -> (out: u32)
        requires
            self.wf(),
        ensures
            out == self@.rows(),
    {
        self.atlas_height / self.texture_size[1]
    }

    /// Whole cells from left to right.
    pub fn get_columns(&self) -> (out: u32)
        requires
            self.wf(),
        ensures
            out == self@.columns(),
    {
        self.atlas_width / self.texture_size[0]
    }

    /// The number of addressable tiles.
    pub fn tile_count(&self) -> (out: u64)
        requires
            self.wf(),
        ensures
            out == self@.tile_count(),
    {
        let rows = self.get_rows() as u64;
        let columns = self.get_columns() as u64;
        assert(rows * columns <= u64::MAX) by (nonlinear_arith)
            requires
                rows <= 0xFFFF_FFFFu64,
                columns <= 0xFFFF_FFFFu64,
        ;
        rows * columns
    }

    /// Whether `id` is the flat id of a cell.
    pub fn has_tile(&self, id: i64) -> (out: bool)
        requires
            self.wf(),
        ensures
            out == self@.valid_id(id as int),
    {
        let count = self.tile_count();
        id >= 0 && (id as u64) < count
    }

    /// Whether the atlas has a cell in column `col` and row `row`, both
    /// counted from one.
    pub fn has_tile_at(&self, col: u32, row: u32) -> (out: bool)
        requires
            self.wf(),
        ensures
            out == self@.valid_coord(col as int, row as int),
    {
        col >= 1 && row >= 1 && col <= self.get_columns() && row <= self.get_rows()
    }

    /// The warning to log when a tile was asked for that the atlas does
    /// not have: it names the atlas in upper case and the size of its
    /// grid.
    pub fn out_of_range_warning(&self) -> (out: String)
        requires
            self.wf(),
        ensures
            out@ == out_of_range_text(uppercase(self@.name), self@.rows(), self@.columns()),
    {
        let name = to_uppercase(self.atlas_name.as_str());
        out_of_range_message(name.as_str(), self.get_rows(), self.get_columns())
    }

    /// Installs the texture that stands in for tiles that do not exist.
    pub fn set_fallback(&mut self, texture: Texture)
        requires
            old(self).wf(),
            texture.wf(),
        ensures
            final(self).wf(),
            final(self)@ == (AtlasView { fallback: texture@, ..old(self)@ }),
    {
        self.fallback = texture;
    }

    /// Cuts the cell `id` out of the image.
    fn crop_tile(&mut self, id: u64) -> (out: Texture)
        requires
            old(self).wf(),
            old(self)@.valid_id(id as int),
        ensures
            final(self).wf(),
            final(self)@ == old(self)@,
            out.wf(),
            out@ == old(self)@.tile(id as int),
    {
        let rows = self.get_rows() as u64;
        let columns = self.get_columns() as u64;
        let cell_width = self.texture_size[0];
        let cell_height = self.texture_size[1];
        let width = self.atlas_width;
        let height = self.atlas_height;
        assert(columns > 0 && id / columns < rows) by (nonlinear_arith)
            requires
                0 <= id < rows * columns,
                0 <= columns,
        ;
        let col = (id % columns) as u32;
        let row = (id / columns) as u32;
        proof {
            lemma_cell_fits(col as nat, width as nat, cell_width as nat);
            lemma_cell_fits(row as nat, height as nat, cell_height as nat);
        }
        let x = col * cell_width;
        let y = row * cell_height;
        let pixels = crop_pixels(
            &mut self.atlas_image.pixels,
            width,
            height,
            x,
            y,
            cell_width,
            cell_height,
        );
        let out = Texture { width: cell_width, height: cell_height, pixels };
        assert(self@ =~= old(self)@);
        out
    }

    /// The tile with a valid flat id, cut out now unless it is cached.
    fn slice_valid(&mut self, key: u64) -> (out: &Texture)
        requires
            old(self).wf(),
            old(self)@.valid_id(key as int),
        ensures
            final(self).wf(),
            final(self)@ == old(self)@.sliced(key as int),
            out.wf(),
            out@ == old(self)@.tile(key as int),
    {
        if !self.textures.contains_key(&key) {
            let tile = self.crop_tile(key);
            self.textures.insert(key, tile);
        } else {
            assert(old(self)@.cache.contains_key(key));
        }
        assert(self.textures@.contains_key(key));
        assert(self@.cache.contains_key(key));
        assert(self@.cache =~= old(self)@.cache.insert(key, old(self)@.tile(key as int)));
        let out = self.textures.get(&key).unwrap();
        assert(out@ == self@.cache[key]);
        out
    }

    /// The tile with flat id `id`, counted from zero, row by row from the
    /// top left. An id below zero or past the last cell gives the fallback
    /// texture and changes nothing. A valid id gives the cell, which stays
    /// in the cache; asked for again, it comes from there.
    pub fn slice(&mut self, id: i64) -> (out: &Texture)
        requires
            old(self).wf(),
        ensures
            final(self).wf(),
            final(self)@ == old(self)@.sliced(id as int),
            out.wf(),
            out@ == old(self)@.slice_result(id as int),
    {
        let count = self.tile_count();
        if id < 0 || id as u64 >= count {
            return &self.fallback;
        }
        self.slice_valid(id as u64)
    }

    /// The tile in column `col` and row `row`, both counted from one. A
    /// coordinate of zero or past the last column or row gives the fallback
    /// texture and changes nothing.
    pub fn slice_at(&mut self, col: u32, row: u32) -> (out: &Texture)
        requires
            old(self).wf(),
        ensures
            final(self).wf(),
            out.wf(),
            old(self)@.valid_coord(col as int, row as int) ==> {
                &&& final(self)@ == old(self)@.sliced(
                    old(self)@.linear_index(col as int, row as int),
                )
                &&& out@ == (TextureView {
                    width: old(self)@.cell_width,
                    height: old(self)@.cell_height,
                    pixels: crop(
                        old(self)@.image.pixels,
                        old(self)@.image.width,
                        ((col - 1) * old(self)@.cell_width) as nat,
                        ((row - 1) * old(self)@.cell_height) as nat,
                        old(self)@.cell_width,
                        old(self)@.cell_height,
                    ),
                })
            },
            !old(self)@.valid_coord(col as int, row as int) ==> {
                &&& final(self)@ == old(self)@
                &&& out@ == old(self)@.fallback
            },
    {
        let rows = self.get_rows();
        let columns = self.get_columns();
        if col == 0 || row == 0 || col > columns || row > rows {
            return &self.fallback;
        }
        proof {
            lemma_linear_index(self@, col as int, row as int);
        }
        assert(0 <= (row - 1) * columns + (col - 1) < rows * columns && 0 <= (row - 1) * columns
            && rows * columns <= u64::MAX) by (nonlinear_arith)
            requires
                1 <= col <= columns,
                1 <= row <= rows,
                rows <= 0xFFFF_FFFFu32,
                columns <= 0xFFFF_FFFFu32,
        ;
        let key = ((row - 1) as u64) * (columns as u64) + ((col - 1) as u64);
        self.slice_valid(key)
    }

    /// Cuts every cell of the atlas into the cache.
    pub fn load_texture_from_tileset_to_map(&mut self)
        requires
            old(self).wf(),
        ensures
            final(self).wf(),
            final(self)@ == old(self)@.fully_sliced(),
    {
        let count = self.tile_count();
        let mut id: u64 = 0;
        assert(self@.cache =~= Map::new(
            |k: u64| old(self)@.cache.contains_key(k) || k < id,
            |k: u64| old(self)@.tile(k as int),
        ));
        while id < count
            invariant
                self.wf(),
                old(self).wf(),
                count == old(self)@.tile_count(),
                id <= count,
                self@ == (AtlasView {
                    cache: Map::new(
                        |k: u64| old(self)@.cache.contains_key(k) || k < id,
                        |k: u64| old(self)@.tile(k as int),
                    ),
                    ..old(self)@
                }),
            decreases count - id,
        {
            self.slice_valid(id);
            id += 1;
            assert(self@.cache =~= Map::new(
                |k: u64| old(self)@.cache.contains_key(k) || k < id,
                |k: u64| old(self)@.tile(k as int),
            ));
        }
        assert(self@.cache =~= old(self)@.fully_sliced().cache);
    }

    /// The cached tile with flat id `id`, or the fallback texture where the
    /// cache holds none.
    pub fn load_texture_from_map(&self, id: u32) -> (out: &Texture)
        requires
            self.wf(),
        ensures
            out.wf(),
            out@ == if self@.cache.contains_key(id as u64) {
                self@.cache[id as u64]
            } else {
                self@.fallback
            },
    {
        let key = id as u64;
        match self.textures.get(&key) {
            Some(texture) => {
                assert(self@.cache.contains_key(key));
                texture
            },
            None => &self.fallback,
        }
    }
}

/// A valid coordinate pair names the cell whose flat id is its linear
/// index: the id is valid, its column is `col - 1` and its row `row - 1`.
pub proof fn lemma_linear_index(atlas: AtlasView, col: int, row: int)
    requires
        atlas.valid_coord(col, row),
    ensures
        atlas.valid_id(atlas.linear_index(col, row)),
        atlas.linear_index(col, row) % (atlas.columns() as int) == col - 1,
        atlas.linear_index(col, row) / (atlas.columns() as int) == row - 1,
{
    let columns = atlas.columns() as int;
    let rows = atlas.rows() as int;
    let id = atlas.linear_index(col, row);
    assert(0 <= id < rows * columns) by (nonlinear_arith)
        requires
            id == (row - 1) * columns + (col - 1),
            1 <= col <= columns,
            1 <= row <= rows,
    ;
    vstd::arithmetic::div_mod::lemma_fundamental_div_mod_converse(id, columns, row - 1, col - 1);
}

/// Asking twice for a tile is asking once: the second request changes
/// nothing and gives what the first gave. A tile that is already cached is
/// not cut out again: the atlas stays as it is.
pub proof fn lemma_slice_idempotent(atlas: AtlasView, id: i64)
    requires
        atlas.wf(),
    ensures
        atlas.sliced(id as int).wf(),
        atlas.sliced(id as int).sliced(id as int) == atlas.sliced(id as int),
        atlas.sliced(id as int).slice_result(id as int) == atlas.slice_result(id as int),
        atlas.cache.contains_key(id as u64) ==> atlas.sliced(id as int) == atlas,
{
    let once = atlas.sliced(id as int);
    assert(once.sliced(id as int).cache =~= once.cache);
    if atlas.cache.contains_key(id as u64) {
        assert(once.cache =~= atlas.cache);
    }
}

/// A tile holds the pixels of its cell and nothing else: the pixel in
/// column `px` and row `py` of the tile with flat id `id` is the pixel of
/// the image that lies `px` to the right and `py` below the top left
/// corner of the cell, and that pixel lies inside the image.
pub proof fn lemma_tile_pixel(atlas: AtlasView, id: int, px: int, py: int, channel: int)
    requires
        atlas.wf(),
        atlas.valid_id(id),
        0 <= px < atlas.cell_width,
        0 <= py < atlas.cell_height,
        0 <= channel < 4,
    ensures
        ({
            let x = (id % atlas.columns() as int) * atlas.cell_width + px;
            let y = (id / atlas.columns() as int) * atlas.cell_height + py;
            &&& 0 <= x < atlas.image.width
            &&& 0 <= y < atlas.image.height
            &&& 0 <= (y * atlas.image.width + x) * 4 + channel < atlas.image.pixels.len()
            &&& 0 <= (py * atlas.cell_width + px) * 4 + channel < atlas.tile(id).pixels.len()
            &&& atlas.tile(id).pixels[(py * atlas.cell_width + px) * 4 + channel]
                == atlas.image.pixels[(y * atlas.image.width + x) * 4 + channel]
        }),
{
    let columns = atlas.columns() as int;
    let rows = atlas.rows() as int;
    let cw = atlas.cell_width as int;
    let ch = atlas.cell_height as int;
    let width = atlas.image.width as int;
    let height = atlas.image.height as int;
    assert(columns > 0 && 0 <= id / columns < rows && 0 <= id % columns < columns) by (nonlinear_arith)
        requires
            0 <= id < rows * columns,
            0 <= columns,
    ;
    let col = id % columns;
    let row = id / columns;
    lemma_cell_fits(col as nat, width as nat, cw as nat);
    lemma_cell_fits(row as nat, height as nat, ch as nat);
    let x = col * cw + px;
    let y = row * ch + py;
    let k = (py * cw + px) * 4 + channel;
    assert(0 <= col * cw && 0 <= row * ch) by (nonlinear_arith)
        requires
            0 <= col,
            0 <= row,
            0 < cw,
            0 < ch,
    ;
    assert(k == py * (4 * cw) + (4 * px + channel)) by (nonlinear_arith)
        requires
            k == (py * cw + px) * 4 + channel,
    ;
    vstd::arithmetic::div_mod::lemma_fundamental_div_mod_converse(
        k,
        4 * cw,
        py,
        4 * px + channel,
    );
    assert(0 <= k < 4 * cw * ch) by (nonlinear_arith)
        requires
            k == py * (4 * cw) + (4 * px + channel),
            0 <= px < cw,
            0 <= py < ch,
            0 <= channel < 4,
    ;
    assert(0 <= (y * width + x) * 4 + channel < 4 * width * height) by (nonlinear_arith)
        requires
            0 <= x < width,
            0 <= y < height,
            0 <= channel < 4,
    ;
    assert(((row * ch) + k / (4 * cw)) * width + col * cw == y * width + x - px);
    assert(((row * ch + py) * width + col * cw) * 4 + (4 * px + channel) == (y * width + x) * 4
        + channel) by (nonlinear_arith)
        requires
            x == col * cw + px,
            y == row * ch + py,
    ;
}

} // verus!
