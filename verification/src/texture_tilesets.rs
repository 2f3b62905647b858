//! The registry of atlases: one entry for each named tileset, all cut into
//! cells of one size, each loaded when it is first needed.

use vstd::prelude::*;
use vstd::string::*;
use crate::loader::atlas_path;
use crate::texture_loader::{AtlasView, LoadError, Texture, TextureAtlas, TextureView, decoded, ASSET_FOLDER};

verus! {

/// The directory of the tileset images, below the asset directory.
pub const TILESET_FOLDER: &'static str = "textures/tilesets/";

/// What a registry entry is: the name it is asked for by, the stem of its
/// image file, and the atlas once it is loaded.
pub struct EntryView {
    pub name: Seq<char>,
    pub stem: Seq<char>,
    pub atlas: Option<AtlasView>,
}

/// One tileset of the registry.
pub struct RegistryEntry {
    pub name: String,
    pub stem: String,
    pub atlas: Option<TextureAtlas>,
}

impl View for RegistryEntry {
    type V = EntryView;

    open spec fn view(&self) -> EntryView {
        EntryView {
            name: self.name@,
            stem: self.stem@,
            atlas: match self.atlas {
                Some(atlas) => Some(atlas@),
                None => None,
            },
        }
    }
}

/// Why the registry did not take an image.
#[derive(Clone, Copy, Debug, PartialEq, Eq, Structural)]
pub enum RegistryError {
    /// No tileset of that name is registered.
    Unknown,
    /// The image could not be made into an atlas.
    Load(LoadError),
}

/// The place of `name` among `entries`, if it is there.
pub open spec fn find(entries: Seq<EntryView>, name: Seq<char>) -> Option<int> {
    if exists|i: int| 0 <= i < entries.len() && entries[i].name == name {
        Some(choose|i: int| 0 <= i < entries.len() && entries[i].name == name)
    } else {
        None
    }
}

/// How many tilesets the engine knows.
pub const KNOWN_TILESETS: usize = 22;

/// The name and the file stem of the `k`-th tileset that the engine knows.
pub open spec fn known_tileset(k: int) -> (Seq<char>, Seq<char>) {
    if k == 0 {
        ("BIKE_SHOP_INTERIOR_ATLAS"@, "bike_shop_interior"@)
    } else if k == 1 {
        ("BOAT_ATLAS"@, "boat"@)
    } else if k == 2 {
        ("CAVES_ATLAS"@, "caves"@)
    } else if k == 3 {
        ("DEPARTMENT_STORE_INTERIOR_ATLAS"@, "department_store_interior"@)
    } else if k == 4 {
        ("DUNGEON_CAVE_ATLAS"@, "dungeon_cave"@)
    } else if k == 5 {
        ("DUNGEON_FOREST_ATLAS"@, "dungeon_forest"@)
    } else if k == 6 {
        ("FACTORY_INTERIOR_ATLAS"@, "factory_interior"@)
    } else if k == 7 {
        ("GAME_CORNER_INTERIOR_ATLAS"@, "game_corner_interior"@)
    } else if k == 8 {
        ("GRAVEYARD_TOWER_INTERIOR_ATLAS"@, "graveyard_tower_interior"@)
    } else if k == 9 {
        ("GYMS_INTERIOR_ATLAS"@, "gyms_interior"@)
    } else if k == 10 {
        ("HARBOUR_INTERIOR_ATLAS"@, "harbour_interior"@)
    } else if k == 11 {
        ("INTERIOR_GENERAL_ATLAS"@, "interior_general"@)
    } else if k == 12 {
        ("MANSION_INTERIOR_ATLAS"@, "mansion_interior"@)
    } else if k == 13 {
        ("MART_INTERIOR_ATLAS"@, "mart_interior"@)
    } else if k == 14 {
        ("MULTIPLAYER_ROOMS_ATLAS"@, "multiplayer_rooms"@)
    } else if k == 15 {
        ("MUSEUM_INTERIOR_ATLAS"@, "museum_interior"@)
    } else if k == 16 {
        ("POKE_CENTRE_INTERIOR_ATLAS"@, "poke_centre_interior"@)
    } else if k == 17 {
        ("RUINS_INTERIOR_ATLAS"@, "ruins_interior"@)
    } else if k == 18 {
        ("TRAINER_TOWER_INTERIOR_ATLAS"@, "trainer_tower_interior"@)
    } else if k == 19 {
        ("UNDERGROUND_PATH_ATLAS"@, "underground_path"@)
    } else if k == 20 {
        ("UNDERWATER_ATLAS"@, "underwater"@)
    } else {
        ("OUTSIDE_ATLAS"@, "outside"@)
    }
}

/// The tilesets that the engine knows, each with the stem of its image
/// file.
pub fn known_tilesets() -> (out: Vec<(&'static str, &'static str)>)
    ensures
        out@.len() == KNOWN_TILESETS,
        forall|k: int|
            0 <= k < KNOWN_TILESETS ==> (#[trigger] out@[k]).0@ == known_tileset(k).0 && out@[k].1@
                == known_tileset(k).1,
{
    let mut out: Vec<(&'static str, &'static str)> = Vec::new();
    out.push(("BIKE_SHOP_INTERIOR_ATLAS", "bike_shop_interior"));
    out.push(("BOAT_ATLAS", "boat"));
    out.push(("CAVES_ATLAS", "caves"));
    out.push(("DEPARTMENT_STORE_INTERIOR_ATLAS", "department_store_interior"));
    out.push(("DUNGEON_CAVE_ATLAS", "dungeon_cave"));
    out.push(("DUNGEON_FOREST_ATLAS", "dungeon_forest"));
    out.push(("FACTORY_INTERIOR_ATLAS", "factory_interior"));
    out.push(("GAME_CORNER_INTERIOR_ATLAS", "game_corner_interior"));
    out.push(("GRAVEYARD_TOWER_INTERIOR_ATLAS", "graveyard_tower_interior"));
    out.push(("GYMS_INTERIOR_ATLAS", "gyms_interior"));
    out.push(("HARBOUR_INTERIOR_ATLAS", "harbour_interior"));
    out.push(("INTERIOR_GENERAL_ATLAS", "interior_general"));
    out.push(("MANSION_INTERIOR_ATLAS", "mansion_interior"));
    out.push(("MART_INTERIOR_ATLAS", "mart_interior"));
    out.push(("MULTIPLAYER_ROOMS_ATLAS", "multiplayer_rooms"));
    out.push(("MUSEUM_INTERIOR_ATLAS", "museum_interior"));
    out.push(("POKE_CENTRE_INTERIOR_ATLAS", "poke_centre_interior"));
    out.push(("RUINS_INTERIOR_ATLAS", "ruins_interior"));
    out.push(("TRAINER_TOWER_INTERIOR_ATLAS", "trainer_tower_interior"));
    out.push(("UNDERGROUND_PATH_ATLAS", "underground_path"));
    out.push(("UNDERWATER_ATLAS", "underwater"));
    out.push(("OUTSIDE_ATLAS", "outside"));
    out
}

/// No two known tilesets share a name.
pub proof fn lemma_known_names_distinct()
    ensures
        forall|i: int, j: int|
            0 <= i < j < KNOWN_TILESETS ==> (#[trigger] known_tileset(i)).0 != (#[trigger] known_tileset(
                j,
            )).0,
{
    reveal_strlit("BIKE_SHOP_INTERIOR_ATLAS");
    reveal_strlit("BOAT_ATLAS");
    reveal_strlit("CAVES_ATLAS");
    reveal_strlit("DEPARTMENT_STORE_INTERIOR_ATLAS");
    reveal_strlit("DUNGEON_CAVE_ATLAS");
    reveal_strlit("DUNGEON_FOREST_ATLAS");
    reveal_strlit("FACTORY_INTERIOR_ATLAS");
    reveal_strlit("GAME_CORNER_INTERIOR_ATLAS");
    reveal_strlit("GRAVEYARD_TOWER_INTERIOR_ATLAS");
    reveal_strlit("GYMS_INTERIOR_ATLAS");
    reveal_strlit("HARBOUR_INTERIOR_ATLAS");
    reveal_strlit("INTERIOR_GENERAL_ATLAS");
    reveal_strlit("MANSION_INTERIOR_ATLAS");
    reveal_strlit("MART_INTERIOR_ATLAS");
    reveal_strlit("MULTIPLAYER_ROOMS_ATLAS");
    reveal_strlit("MUSEUM_INTERIOR_ATLAS");
    reveal_strlit("POKE_CENTRE_INTERIOR_ATLAS");
    reveal_strlit("RUINS_INTERIOR_ATLAS");
    reveal_strlit("TRAINER_TOWER_INTERIOR_ATLAS");
    reveal_strlit("UNDERGROUND_PATH_ATLAS");
    reveal_strlit("UNDERWATER_ATLAS");
    reveal_strlit("OUTSIDE_ATLAS");
    // Their lengths tell most names apart, the first letter those of one
    // length.
    assert(known_tileset(0).0.len() == 24);
    assert(known_tileset(1).0.len() == 10);
    assert(known_tileset(2).0.len() == 11);
    assert(known_tileset(3).0.len() == 31);
    assert(known_tileset(4).0.len() == 18);
    assert(known_tileset(5).0.len() == 20);
    assert(known_tileset(6).0.len() == 22);
    assert(known_tileset(7).0.len() == 26);
    assert(known_tileset(8).0.len() == 30);
    assert(known_tileset(9).0.len() == 19);
    assert(known_tileset(10).0.len() == 22);
    assert(known_tileset(11).0.len() == 22);
    assert(known_tileset(12).0.len() == 22);
    assert(known_tileset(13).0.len() == 19);
    assert(known_tileset(14).0.len() == 23);
    assert(known_tileset(15).0.len() == 21);
    assert(known_tileset(16).0.len() == 26);
    assert(known_tileset(17).0.len() == 20);
    assert(known_tileset(18).0.len() == 28);
    assert(known_tileset(19).0.len() == 22);
    assert(known_tileset(20).0.len() == 16);
    assert(known_tileset(21).0.len() == 13);
    assert(known_tileset(5).0[0] != known_tileset(17).0[0]);
    assert(known_tileset(6).0[0] != known_tileset(10).0[0]);
    assert(known_tileset(6).0[0] != known_tileset(11).0[0]);
    assert(known_tileset(6).0[0] != known_tileset(12).0[0]);
    assert(known_tileset(6).0[0] != known_tileset(19).0[0]);
    assert(known_tileset(7).0[0] != known_tileset(16).0[0]);
    assert(known_tileset(9).0[0] != known_tileset(13).0[0]);
    assert(known_tileset(10).0[0] != known_tileset(11).0[0]);
    assert(known_tileset(10).0[0] != known_tileset(12).0[0]);
    assert(known_tileset(10).0[0] != known_tileset(19).0[0]);
    assert(known_tileset(11).0[0] != known_tileset(12).0[0]);
    assert(known_tileset(11).0[0] != known_tileset(19).0[0]);
    assert(known_tileset(12).0[0] != known_tileset(19).0[0]);
}

/// The atlases of the engine, by name.
pub struct AtlasRegistry {
    pub texture_size: [u32; 2],
    pub entries: Vec<RegistryEntry>,
}

impl View for AtlasRegistry {
    type V = Seq<EntryView>;

    open spec fn view(&self) -> Seq<EntryView> {
        self.entries@.map_values(|e: RegistryEntry| e@)
    }
}

impl AtlasRegistry {
    /// Cells have a positive size, no name is registered twice, and every
    /// loaded atlas is whole and cut into cells of the registry's size.
    pub open spec fn wf(&self) -> bool {
        &&& self.texture_size[0] > 0
        &&& self.texture_size[1] > 0
        &&& forall|i: int, j: int|
            0 <= i < j < self.entries@.len() ==> (#[trigger] self.entries@[i]).name@
                != (#[trigger] self.entries@[j]).name@
        &&& forall|i: int|
            0 <= i < self.entries@.len() ==> match (#[trigger] self.entries@[i]).atlas {
                Some(atlas) => {
                    &&& atlas.wf()
                    &&& atlas@.cell_width == self.texture_size[0]
                    &&& atlas@.cell_height == self.texture_size[1]
                },
                None => true,
            }
    }

    /// An empty registry for atlases with cells of the given size.
    pub fn new(texture_size: [u32; 2]) -> (out: Self)
        requires
            texture_size[0] > 0,
            texture_size[1] > 0,
        ensures
            out.wf(),
            out@.len() == 0,
            out.texture_size == texture_size,
    {
        AtlasRegistry { texture_size, entries: Vec::new() }
    }

    /// A registry of the tilesets that the engine knows, none loaded yet.
    pub fn with_known_tilesets(texture_size: [u32; 2]) -> (out: Self)
        requires
            texture_size[0] > 0,
            texture_size[1] > 0,
        ensures
            out.wf(),
            out.texture_size == texture_size,
            out@ == Seq::new(
                KNOWN_TILESETS as nat,
                |k: int|
                    EntryView { name: known_tileset(k).0, stem: known_tileset(k).1, atlas: None },
            ),
    {
        let table = known_tilesets();
        let mut out = AtlasRegistry::new(texture_size);
        let mut k: usize = 0;
        while k < table.len()
            invariant
                out.wf(),
                out.texture_size == texture_size,
                k <= KNOWN_TILESETS,
                table@.len() == KNOWN_TILESETS,
                forall|n: int|
                    0 <= n < KNOWN_TILESETS ==> (#[trigger] table@[n]).0@ == known_tileset(n).0
                        && table@[n].1@ == known_tileset(n).1,
                out@ == Seq::new(
                    k as nat,
                    |n: int|
                        EntryView {
                            name: known_tileset(n).0,
                            stem: known_tileset(n).1,
                            atlas: None,
                        },
                ),
            decreases KNOWN_TILESETS - k,
        {
            proof {
                lemma_known_names_distinct();
                assert(table@[k as int].0@ == known_tileset(k as int).0);
                if find(out@, table@[k as int].0@) is Some {
                    let i = find(out@, table@[k as int].0@)->0;
                    assert(known_tileset(i).0 == known_tileset(k as int).0);
                }
            }
            let added = out.register(table[k].0, table[k].1);
            assert(added);
            k += 1;
            assert(out@ =~= Seq::new(
                k as nat,
                |n: int|
                    EntryView { name: known_tileset(n).0, stem: known_tileset(n).1, atlas: None },
            ));
        }
        out
    }

    /// The place of the entry called `name`.
    pub fn position(&self, name: &str) -> (out: Option<usize>)
        requires
            self.wf(),
        ensures
            match out {
                Some(i) => i < self@.len() && self@[i as int].name == name@ && find(self@, name@)
                    == Some(i as int),
                None => find(self@, name@) is None,
            },
    {
        let key = String::from_str(name);
        let mut i: usize = 0;
        while i < self.entries.len()
            invariant
                self.wf(),
                key@ == name@,
                i <= self.entries@.len(),
                forall|k: int| 0 <= k < i ==> self@[k].name != name@,
            decreases self.entries@.len() - i,
        {
            if self.entries[i].name == key {
                assert(self@[i as int].name == name@);
                let ghost found = find(self@, name@)->0;
                assert(self.entries@[found].name@ == self.entries@[i as int].name@);
                return Some(i);
            }
            i += 1;
        }
        None
    }

    /// Registers the tileset `name`, whose image file has the stem `stem`.
    /// A name that is registered already stays as it is.
    pub fn register(&mut self, name: &str, stem: &str) -> (added: bool)
        requires
            old(self).wf(),
        ensures
            final(self).wf(),
            final(self).texture_size == old(self).texture_size,
            added == (find(old(self)@, name@) is None),
            added ==> final(self)@ == old(self)@.push(
                EntryView { name: name@, stem: stem@, atlas: None },
            ),
            !added ==> final(self)@ == old(self)@,
    {
        match self.position(name) {
            Some(_) => false,
            None => {
                let entry = RegistryEntry {
                    name: String::from_str(name),
                    stem: String::from_str(stem),
                    atlas: None,
                };
                proof {
                    assert forall|i: int| 0 <= i < self.entries@.len() implies (
                    #[trigger] self.entries@[i]).name@ != name@ by {
                        assert(self@[i].name == self.entries@[i].name@);
                    }
                }
                self.entries.push(entry);
                assert(self@ =~= old(self)@.push(
                    EntryView { name: name@, stem: stem@, atlas: None },
                ));
                true
            },
        }
    }

    /// The atlas called `name`, if it is registered and loaded.
    pub fn get_texture_atlas(&self, name: &str) -> (out: Option<&TextureAtlas>)
        requires
            self.wf(),
        ensures
            match out {
                Some(atlas) => {
                    &&& find(self@, name@) is Some
                    &&& self@[find(self@, name@)->0].atlas == Some(atlas@)
                    &&& atlas.wf()
                },
                None => find(self@, name@) is None || self@[find(self@, name@)->0].atlas is None,
            },
    {
        match self.position(name) {
            Some(i) => {
                assert(self@[i as int] == self.entries@[i as int]@);
                match &self.entries[i].atlas {
                    Some(atlas) => Some(atlas),
                    None => None,
                }
            },
            None => None,
        }
    }

    /// The image file to read for `name`: `Some` where the tileset is
    /// registered and not loaded yet.
    pub fn pending_path(&self, name: &str) -> (out: Option<String>)
        requires
            self.wf(),
        ensures
            match out {
                Some(path) => {
                    &&& find(self@, name@) is Some
                    &&& self@[find(self@, name@)->0].atlas is None
                    &&& path@ == ASSET_FOLDER@ + "/"@ + TILESET_FOLDER@ + self@[find(
                        self@,
                        name@,
                    )->0].stem + ".png"@
                },
                None => find(self@, name@) is None || self@[find(self@, name@)->0].atlas is Some,
            },
    {
        match self.position(name) {
            Some(i) => {
                assert(self@[i as int] == self.entries@[i as int]@);
                match &self.entries[i].atlas {
                    Some(_) => None,
                    None => Some(atlas_path(TILESET_FOLDER, self.entries[i].stem.as_str())),
                }
            },
            None => None,
        }
    }

    /// Hands the registry the bytes of the image file of `name`. The first
    /// image that decodes becomes the atlas of that name; once loaded, an
    /// atlas is never replaced. Returns whether this call loaded it.
    pub fn load(&mut self, name: &str, encoded: &[u8]) -> (out: Result<bool, RegistryError>)
        requires
            old(self).wf(),
        ensures
            final(self).wf(),
            final(self).texture_size == old(self).texture_size,
            final(self)@.len() == old(self)@.len(),
            match find(old(self)@, name@) {
                None => out == Err::<bool, RegistryError>(RegistryError::Unknown) && final(self)@
                    == old(self)@,
                Some(i) => if old(self)@[i].atlas is Some {
                    out == Ok::<bool, RegistryError>(false) && final(self)@ == old(self)@
                } else {
                    match decoded(encoded@) {
                        None => out == Err::<bool, RegistryError>(
                            RegistryError::Load(LoadError::Undecodable),
                        ) && final(self)@ == old(self)@,
                        Some(image) => if image.2.len() == 4 * image.0 * image.1 {
                            &&& out == Ok::<bool, RegistryError>(true)
                            &&& final(self)@ == old(self)@.update(
                                i,
                                EntryView {
                                    atlas: Some(
                                        AtlasView {
                                            name: old(self)@[i].stem,
                                            image: TextureView {
                                                width: image.0,
                                                height: image.1,
                                                pixels: image.2,
                                            },
                                            cell_width: old(self).texture_size[0] as nat,
                                            cell_height: old(self).texture_size[1] as nat,
                                            cache: Map::empty(),
                                            fallback: TextureView {
                                                width: 1,
                                                height: 1,
                                                pixels: seq![0u8, 0u8, 0u8, 0u8],
                                            },
                                        },
                                    ),
                                    ..old(self)@[i]
                                },
                            )
                        } else {
                            out == Err::<bool, RegistryError>(
                                RegistryError::Load(LoadError::BadBuffer),
                            ) && final(self)@ == old(self)@
                        },
                    }
                },
            },
    {
        let i = match self.position(name) {
            Some(i) => i,
            None => {
                return Err(RegistryError::Unknown);
            },
        };
        assert(self@[i as int] == self.entries@[i as int]@);
        if self.entries[i].atlas.is_some() {
            return Ok(false);
        }
        let loaded = TextureAtlas::new(self.entries[i].stem.as_str(), encoded, self.texture_size);
        match loaded {
            Ok(atlas) => {
                let entry = &mut self.entries[i];
                entry.atlas = Some(atlas);
                assert(self@ =~= old(self)@.update(i as int, self.entries@[i as int]@));
                Ok(true)
            },
            Err(e) => Err(RegistryError::Load(e)),
        }
    }

    /// The tile with flat id `id` of the atlas called `name`: `None` where
    /// no such atlas is loaded, else what the atlas gives for `id`.
    pub fn slice(&mut self, name: &str, id: i64) -> (out: Option<&Texture>)
        requires
            old(self).wf(),
        ensures
            final(self).wf(),
            final(self).texture_size == old(self).texture_size,
            final(self)@.len() == old(self)@.len(),
            match find(old(self)@, name@) {
                None => out is None && final(self)@ == old(self)@,
                Some(i) => match old(self)@[i].atlas {
                    None => out is None && final(self)@ == old(self)@,
                    Some(atlas) => {
                        &&& out is Some
                        &&& out->0@ == atlas.slice_result(id as int)
                        &&& final(self)@ == old(self)@.update(
                            i,
                            EntryView { atlas: Some(atlas.sliced(id as int)), ..old(self)@[i] },
                        )
                    },
                },
            },
    {
        let i = match self.position(name) {
            Some(i) => i,
            None => {
                return None;
            },
        };
        assert(self@[i as int] == self.entries@[i as int]@);
        let entry = &mut self.entries[i];
        match &mut entry.atlas {
            Some(atlas) => {
                let out = atlas.slice(id);
                Some(out)
            },
            None => None,
        }
    }
}

} // verus!
