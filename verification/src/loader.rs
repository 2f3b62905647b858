//! Where assets lie on disk.

use vstd::prelude::*;
use vstd::string::*;
use crate::texture_loader::ASSET_FOLDER;

verus! {

/// The file of a single texture: `<assets>/<texture_name>`.
pub fn texture_path(texture_name: &str) -> (out: String)
    ensures
        out@ == ASSET_FOLDER@ + "/"@ + texture_name@,
{
    let mut out = String::from_str(ASSET_FOLDER);
    out.append("/");
    out.append(texture_name);
    out
}

/// The file of an atlas: `<assets>/<path><atlas_name>.png`.
pub fn atlas_path(path: &str, atlas_name: &str) -> (out: String)
    ensures
        out@ == ASSET_FOLDER@ + "/"@ + path@ + atlas_name@ + ".png"@,
{
    let mut out = String::from_str(ASSET_FOLDER);
    out.append("/");
    out.append(path);
    out.append(atlas_name);
    out.append(".png");
    out
}

/// The file of a map: `<assets>/maps/<map>.ron`.
pub fn map_path(map: &str) -> (out: String)
    ensures
        out@ == ASSET_FOLDER@ + "/maps/"@ + map@ + ".ron"@,
{
    let mut out = String::from_str(ASSET_FOLDER);
    out.append("/maps/");
    out.append(map);
    out.append(".ron");
    out
}

} // verus!
