//! Telling asset files apart by their path: which are prefabs, and which lie
//! in the folders of gatherers or of fields.

use crate::strings::{str_ends_with, str_equal};
use vstd::prelude::*;

verus! {

/// A file system path, as its parent's components and its file name.
pub struct AssetPath {
    /// The components of the parent directory, or `None` when the path has
    /// no parent (it is a root or empty).
    pub parent: Option<Vec<String>>,
    /// The last component, or `None` when it is no file name (`..`).
    pub file_name: Option<String>,
}

/// The chars of a file name's extension that marks prefabs.
pub open spec fn prefab_suffix() -> Seq<char> {
    seq!['.', 'p', 'r', 'e', 'f', 'a', 'b']
}

/// The extension of `name` is `prefab`: the name ends with `.prefab` and
/// has something before that dot (a name like `.prefab` has no extension).
pub open spec fn has_prefab_extension(name: Seq<char>) -> bool {
    &&& name.len() > prefab_suffix().len()
    &&& name.subrange(name.len() - prefab_suffix().len(), name.len() as int) == prefab_suffix()
}

/// `components` ends with `suffix`, component by component.
pub open spec fn ends_with_components(components: Seq<String>, suffix: Seq<Seq<char>>) -> bool {
    &&& suffix.len() <= components.len()
    &&& forall|k: int|
        0 <= k < suffix.len() ==> (#[trigger] components[components.len() - suffix.len() + k])@
            == suffix[k]
}

/// The chars of each string of `s`.
pub open spec fn str_views(s: Seq<&str>) -> Seq<Seq<char>> {
    s.map_values(|x: &str| x@)
}

/// Whether `name` has the extension `prefab`.
fn name_is_prefab(name: &str) -> (r: bool)
    ensures
        r == has_prefab_extension(name@),
{
    let suffix = ".prefab";
    proof {
        reveal_strlit(".prefab");
    }
    assert(suffix@ == prefab_suffix());
    if !str_ends_with(name, suffix) {
        return false;
    }
    if str_equal(name, suffix) {
        return false;
    }
    proof {
        if name@.len() == suffix@.len() {
            assert(name@ =~= name@.subrange(0, name@.len() as int));
        }
    }
    true
}

/// Whether `components` ends with the components in `suffix`.
fn components_end_with(components: &Vec<String>, suffix: &Vec<&str>) -> (r: bool)
    ensures
        r == ends_with_components(components@, str_views(suffix@)),
{
    let ghost wanted = str_views(suffix@);
    if suffix.len() > components.len() {
        return false;
    }
    let n = components.len();
    let start = n - suffix.len();
    let mut k: usize = 0;
    while k < suffix.len()
        invariant
            wanted == str_views(suffix@),
            n == components@.len(),
            start + suffix@.len() == n,
            suffix@.len() <= components@.len(),
            k <= suffix@.len(),
            forall|j: int| 0 <= j < k ==> (#[trigger] components@[start + j])@ == wanted[j],
        decreases suffix@.len() - k,
    {
        if !str_equal(components[start + k].as_str(), suffix[k]) {
            assert(components@[components@.len() - wanted.len() + k as int]@ != wanted[k as int]);
            return false;
        }
        k = k + 1;
    }
    true
}

/// The path names a prefab file.
pub open spec fn spec_is_prefab_path(path: AssetPath) -> bool {
    path.file_name matches Some(name) && has_prefab_extension(name@)
}

/// The path lies in a folder that ends with the components `folder`.
pub open spec fn spec_in_folder(path: AssetPath, folder: Seq<Seq<char>>) -> bool {
    path.parent matches Some(parent) && ends_with_components(parent@, folder)
}

pub fn is_prefab_path(path: &AssetPath) -> (r: bool)
    ensures
        r == spec_is_prefab_path(*path),
{
    match &path.file_name {
        Some(name) => name_is_prefab(name.as_str()),
        None => false,
    }
}

/// The folder that holds the gatherer buildings.
pub open spec fn gatherers_folder() -> Seq<Seq<char>> {
    seq!["Assets"@, "Resources"@, "gamedata"@, "buildings"@, "gatherers"@]
}

/// The folder that holds the field modules.
pub open spec fn fields_folder() -> Seq<Seq<char>> {
    seq!["Assets"@, "Resources"@, "gamedata"@, "modules"@, "fields"@]
}

fn in_folder(path: &AssetPath, folder: &Vec<&str>) -> (r: bool)
    ensures
        r == spec_in_folder(*path, str_views(folder@)),
{
    match &path.parent {
        Some(parent) => components_end_with(parent, folder),
        None => false,
    }
}

/// A prefab in the gatherers' folder.
pub fn is_gatherer_path(path: &AssetPath) -> (r: bool)
    ensures
        r == (spec_is_prefab_path(*path) && spec_in_folder(*path, gatherers_folder())),
{
    let folder = vec!["Assets", "Resources", "gamedata", "buildings", "gatherers"];
    assert(str_views(folder@) =~= gatherers_folder());
    is_prefab_path(path) && in_folder(path, &folder)
}

/// A prefab in the fields' folder.
pub fn is_field_path(path: &AssetPath) -> (r: bool)
    ensures
        r == (spec_is_prefab_path(*path) && spec_in_folder(*path, fields_folder())),
{
    let folder = vec!["Assets", "Resources", "gamedata", "modules", "fields"];
    assert(str_views(folder@) =~= fields_folder());
    is_prefab_path(path) && in_folder(path, &folder)
}

} // verus!
