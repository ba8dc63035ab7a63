//! Turning the assets of the standard game into the serialized game data:
//! which assets belong to the standard game, the tier of each recipe and
//! product, and how every table entry refers to others by guid.

use crate::calculator::load::{guid_at, has_guid};
use crate::calculator::serialization::{Building, BuildingModule, ProductCategory, Recipe, RecipeEntry};
use crate::importer::assets::{assets_wf, Assets, BuildingDetail};
use crate::importer::mono_behaviour::{
    GameDataManifestMonoBehaviour, ProductCategoryModifierInfoMonoBehaviour,
    ProductDefinitionMonoBehaviour, RecipeMonoBehaviour,
};
use crate::importer::unity::Reference;
use vstd::prelude::*;

verus! {

/// The guid a reference points at, or `None` for a null reference.
pub open spec fn ref_guid(r: Reference) -> Option<Seq<char>> {
    match r.0 {
        Some(inner) => Some(inner.guid@),
        None => None,
    }
}

/// Manifest `m` lists the asset with guid `g`.
pub open spec fn lists(m: GameDataManifestMonoBehaviour, g: Seq<char>) -> bool {
    exists|k: int| 0 <= k < m.assets@.len() && #[trigger] ref_guid(m.assets@[k]) == Some(g)
}

/// The asset with guid `g` belongs to the standard game: the last of the
/// manifests common, 2130 and standard (in that order) that lists it is
/// the common or the standard one.
pub open spec fn in_standard<F>(a: Assets<F>, g: Seq<char>) -> bool {
    lists(a.roi_standard_manifest->0, g) || (lists(a.common_manifest->0, g) && !lists(
        a.roi_2130_manifest->0,
        g,
    ))
}

/// All three manifests were found.
pub open spec fn has_manifests<F>(a: Assets<F>) -> bool {
    a.common_manifest is Some && a.roi_2130_manifest is Some && a.roi_standard_manifest is Some
}

/// The smaller tier of two, either of which may be missing.
pub open spec fn min_tier(x: Option<i64>, y: Option<i64>) -> Option<i64> {
    match (x, y) {
        (Some(a), Some(b)) => Some(if a <= b {
            a
        } else {
            b
        }),
        (Some(a), None) => Some(a),
        (None, _) => y,
    }
}

/// Some reference in `refs` points at `g`.
pub open spec fn refers_to(refs: Seq<Reference>, g: Seq<char>) -> bool {
    exists|k: int| 0 <= k < refs.len() && #[trigger] ref_guid(refs[k]) == Some(g)
}

/// The least tier at which the first `u` unlocks that belong to the
/// standard game unlock recipe `g`.
pub open spec fn recipe_tier_upto<F>(a: Assets<F>, g: Seq<char>, u: int) -> Option<i64>
    decreases u,
{
    if u <= 0 {
        None
    } else {
        let unlock = a.tech_tree_recipe_unlocks@[u - 1];
        min_tier(
            recipe_tier_upto(a, g, u - 1),
            if in_standard(a, unlock.0@) && refers_to(unlock.1.recipes@, g) {
                Some(unlock.1.tier)
            } else {
                None
            },
        )
    }
}

/// The tier of recipe `g`: the least tier at which a standard unlock
/// unlocks it, if one does.
pub open spec fn recipe_tier<F>(a: Assets<F>, g: Seq<char>) -> Option<i64> {
    recipe_tier_upto(a, g, a.tech_tree_recipe_unlocks@.len() as int)
}

/// Some entry of `entries` is product `p`.
pub open spec fn entries_name(entries: Seq<crate::importer::mono_behaviour::RecipeEntry>, p: Seq<char>) -> bool {
    exists|k: int| 0 <= k < entries.len() && #[trigger] ref_guid(entries[k].definition) == Some(p)
}

/// The least tier of the standard recipes among the first `i` recipes that
/// have a tier and produce product `p`.
pub open spec fn product_tier_upto<F>(a: Assets<F>, p: Seq<char>, i: int) -> Option<i64>
    decreases i,
{
    if i <= 0 {
        None
    } else {
        let recipe = a.recipes@[i - 1];
        min_tier(
            product_tier_upto(a, p, i - 1),
            if in_standard(a, recipe.0@) && recipe_tier(a, recipe.0@) is Some && entries_name(
                recipe.1.result.entries@,
                p,
            ) {
                recipe_tier(a, recipe.0@)
            } else {
                None
            },
        )
    }
}

/// The tier of product `p`: the least tier of a standard recipe that has
/// a tier and produces it.
pub open spec fn product_tier<F>(a: Assets<F>, p: Seq<char>) -> Option<i64> {
    product_tier_upto(a, p, a.recipes@.len() as int)
}

/// Reference `r` points at the asset with guid `g`.
pub open spec fn names_guid(r: Reference, g: Seq<char>) -> bool {
    match r.0 {
        Some(inner) => inner.guid@ == g,
        None => false,
    }
}

/// Unlock `u` belongs to the standard game and lists recipe `g`.
pub open spec fn unlock_lists<F>(a: Assets<F>, u: int, g: Seq<char>) -> bool {
    &&& 0 <= u < a.tech_tree_recipe_unlocks@.len()
    &&& in_standard(a, a.tech_tree_recipe_unlocks@[u].0@)
    &&& exists|k: int|
        0 <= k < a.tech_tree_recipe_unlocks@[u].1.recipes@.len() && #[trigger] names_guid(
            a.tech_tree_recipe_unlocks@[u].1.recipes@[k],
            g,
        )
}

proof fn lemma_unlock_lists_unfold<F>(a: Assets<F>, u: int, g: Seq<char>)
    requires
        0 <= u < a.tech_tree_recipe_unlocks@.len(),
    ensures
        unlock_lists(a, u, g) == (in_standard(a, a.tech_tree_recipe_unlocks@[u].0@) && refers_to(
            a.tech_tree_recipe_unlocks@[u].1.recipes@,
            g,
        )),
{
    let refs = a.tech_tree_recipe_unlocks@[u].1.recipes@;
    if refers_to(refs, g) {
        let k = choose|k: int| 0 <= k < refs.len() && #[trigger] ref_guid(refs[k]) == Some(g);
        assert(names_guid(refs[k], g));
    }
    if exists|k: int| 0 <= k < refs.len() && #[trigger] names_guid(refs[k], g) {
        let k = choose|k: int| 0 <= k < refs.len() && #[trigger] names_guid(refs[k], g);
        assert(ref_guid(refs[k]) == Some(g));
    }
}

proof fn lemma_recipe_tier_upto_least<F>(a: Assets<F>, g: Seq<char>, n: int)
    requires
        0 <= n <= a.tech_tree_recipe_unlocks@.len(),
    ensures
        forall|u: int|
            0 <= u < n && #[trigger] unlock_lists(a, u, g) ==> (recipe_tier_upto(a, g, n) matches Some(
                t,
            ) && t <= a.tech_tree_recipe_unlocks@[u].1.tier),
        recipe_tier_upto(a, g, n) matches Some(t) ==> exists|u: int|
            0 <= u < n && #[trigger] unlock_lists(a, u, g) && a.tech_tree_recipe_unlocks@[u].1.tier == t,
    decreases n,
{
    if n > 0 {
        lemma_recipe_tier_upto_least(a, g, n - 1);
        lemma_unlock_lists_unfold(a, n - 1, g);
        let before = recipe_tier_upto(a, g, n - 1);
        if let Some(t) = recipe_tier_upto(a, g, n) {
            if unlock_lists(a, n - 1, g) && (before is None || a.tech_tree_recipe_unlocks@[n
                - 1].1.tier <= before->0) {
                assert(a.tech_tree_recipe_unlocks@[n - 1].1.tier == t);
            } else {
                let u = choose|u: int|
                    0 <= u < n - 1 && #[trigger] unlock_lists(a, u, g)
                        && a.tech_tree_recipe_unlocks@[u].1.tier == before->0;
                assert(unlock_lists(a, u, g));
            }
        }
    }
}

/// The tier of recipe `g` is the least tier at which a standard unlock
/// lists it: no standard unlock that lists `g` has a smaller tier, one of
/// them has exactly that tier, and `g` has no tier when none lists it.
pub proof fn lemma_recipe_tier_is_least<F>(a: Assets<F>, g: Seq<char>)
    ensures
        forall|u: int|
            #[trigger] unlock_lists(a, u, g) ==> (recipe_tier(a, g) matches Some(t) && t
                <= a.tech_tree_recipe_unlocks@[u].1.tier),
        recipe_tier(a, g) matches Some(t) ==> exists|u: int|
            #[trigger] unlock_lists(a, u, g) && a.tech_tree_recipe_unlocks@[u].1.tier == t,
{
    lemma_recipe_tier_upto_least(a, g, a.tech_tree_recipe_unlocks@.len() as int);
}

/// Recipe `i` belongs to the standard game, has a tier, and one of its
/// results is product `p`.
pub open spec fn tiered_recipe_makes<F>(a: Assets<F>, i: int, p: Seq<char>) -> bool {
    &&& 0 <= i < a.recipes@.len()
    &&& in_standard(a, a.recipes@[i].0@)
    &&& recipe_tier(a, a.recipes@[i].0@) is Some
    &&& exists|k: int|
        0 <= k < a.recipes@[i].1.result.entries@.len() && #[trigger] names_guid(
            a.recipes@[i].1.result.entries@[k].definition,
            p,
        )
}

proof fn lemma_product_tier_upto_least<F>(a: Assets<F>, p: Seq<char>, n: int)
    requires
        0 <= n <= a.recipes@.len(),
    ensures
        forall|i: int|
            0 <= i < n && #[trigger] tiered_recipe_makes(a, i, p) ==> (product_tier_upto(a, p, n) matches Some(
                t,
            ) && t <= recipe_tier(a, a.recipes@[i].0@)->0),
        product_tier_upto(a, p, n) matches Some(t) ==> exists|i: int|
            0 <= i < n && #[trigger] tiered_recipe_makes(a, i, p) && recipe_tier(a, a.recipes@[i].0@)
                == Some(t),
    decreases n,
{
    if n > 0 {
        lemma_product_tier_upto_least(a, p, n - 1);
        let entries = a.recipes@[n - 1].1.result.entries@;
        if entries_name(entries, p) {
            let k = choose|k: int| 0 <= k < entries.len() && #[trigger] ref_guid(entries[k].definition) == Some(p);
            assert(names_guid(entries[k].definition, p));
        }
        if exists|k: int| 0 <= k < entries.len() && #[trigger] names_guid(entries[k].definition, p) {
            let k = choose|k: int| 0 <= k < entries.len() && #[trigger] names_guid(entries[k].definition, p);
            assert(ref_guid(entries[k].definition) == Some(p));
        }
        let before = product_tier_upto(a, p, n - 1);
        if let Some(t) = product_tier_upto(a, p, n) {
            if tiered_recipe_makes(a, n - 1, p) && (before is None || recipe_tier(
                a,
                a.recipes@[n - 1].0@,
            )->0 <= before->0) {
                assert(recipe_tier(a, a.recipes@[n - 1].0@) == Some(t));
            } else {
                let i = choose|i: int|
                    0 <= i < n - 1 && #[trigger] tiered_recipe_makes(a, i, p) && recipe_tier(
                        a,
                        a.recipes@[i].0@,
                    ) == Some(before->0);
                assert(tiered_recipe_makes(a, i, p));
            }
        }
    }
}

/// The tier of product `p` is the least tier of the standard recipes that
/// have a tier and produce it: none of them has a smaller tier, one has
/// exactly that tier, and `p` has no tier when there is none.
pub proof fn lemma_product_tier_is_least<F>(a: Assets<F>, p: Seq<char>)
    ensures
        forall|i: int|
            #[trigger] tiered_recipe_makes(a, i, p) ==> (product_tier(a, p) matches Some(t) && t
                <= recipe_tier(a, a.recipes@[i].0@)->0),
        product_tier(a, p) matches Some(t) ==> exists|i: int|
            #[trigger] tiered_recipe_makes(a, i, p) && recipe_tier(a, a.recipes@[i].0@) == Some(t),
{
    lemma_product_tier_upto_least(a, p, a.recipes@.len() as int);
}

/// `str`'s `==` on two `String`s' contents.
fn same_guid(a: &String, b: &String) -> (r: bool)
    ensures
        r == (a@ == b@),
{
    *a == *b
}

/// Whether some reference in `refs` points at `g`.
fn refers_to_exec(refs: &Vec<Reference>, g: &String) -> (r: bool)
    ensures
        r == refers_to(refs@, g@),
{
    let mut k: usize = 0;
    while k < refs.len()
        invariant
            k <= refs@.len(),
            forall|j: int| 0 <= j < k ==> #[trigger] ref_guid(refs@[j]) != Some(g@),
        decreases refs@.len() - k,
    {
        match refs[k].guid() {
            Some(found) => {
                if same_guid(found, g) {
                    assert(ref_guid(refs@[k as int]) == Some(g@));
                    return true;
                }
            },
            None => {},
        }
        k = k + 1;
    }
    false
}

/// Whether the asset with guid `g` belongs to the standard game.
fn asset_in_standard<F>(a: &Assets<F>, g: &String) -> (r: bool)
    requires
        has_manifests(*a),
    ensures
        r == in_standard(*a, g@),
{
    let common = a.common_manifest.as_ref().unwrap();
    let roi_2130 = a.roi_2130_manifest.as_ref().unwrap();
    let standard = a.roi_standard_manifest.as_ref().unwrap();
    refers_to_exec(&standard.assets, g) || (refers_to_exec(&common.assets, g) && !refers_to_exec(
        &roi_2130.assets,
        g,
    ))
}

fn min_tier_exec(x: Option<i64>, y: Option<i64>) -> (r: Option<i64>)
    ensures
        r == min_tier(x, y),
{
    match (x, y) {
        (Some(a), Some(b)) => Some(
            if a <= b {
                a
            } else {
                b
            },
        ),
        (Some(a), None) => Some(a),
        (None, _) => y,
    }
}

/// The tier of recipe `g`.
fn recipe_tier_of<F>(a: &Assets<F>, g: &String) -> (r: Option<i64>)
    requires
        has_manifests(*a),
    ensures
        r == recipe_tier(*a, g@),
{
    let unlocks = &a.tech_tree_recipe_unlocks;
    let mut best: Option<i64> = None;
    let mut u: usize = 0;
    while u < unlocks.len()
        invariant
            has_manifests(*a),
            unlocks == &a.tech_tree_recipe_unlocks,
            u <= unlocks@.len(),
            best == recipe_tier_upto(*a, g@, u as int),
        decreases unlocks@.len() - u,
    {
        let unlock = &unlocks[u];
        let here = if asset_in_standard(a, &unlock.0) && refers_to_exec(&unlock.1.recipes, g) {
            Some(unlock.1.tier)
        } else {
            None
        };
        best = min_tier_exec(best, here);
        u = u + 1;
    }
    best
}

/// Whether some entry of `entries` is product `p`.
fn entries_name_exec(entries: &Vec<crate::importer::mono_behaviour::RecipeEntry>, p: &String) -> (r:
    bool)
    ensures
        r == entries_name(entries@, p@),
{
    let mut k: usize = 0;
    while k < entries.len()
        invariant
            k <= entries@.len(),
            forall|j: int| 0 <= j < k ==> #[trigger] ref_guid(entries@[j].definition) != Some(p@),
        decreases entries@.len() - k,
    {
        match entries[k].definition.guid() {
            Some(found) => {
                if same_guid(found, p) {
                    assert(ref_guid(entries@[k as int].definition) == Some(p@));
                    return true;
                }
            },
            None => {},
        }
        k = k + 1;
    }
    false
}

/// The tier of product `p`.
fn product_tier_of<F>(a: &Assets<F>, p: &String) -> (r: Option<i64>)
    requires
        has_manifests(*a),
    ensures
        r == product_tier(*a, p@),
{
    let recipes = &a.recipes;
    let mut best: Option<i64> = None;
    let mut i: usize = 0;
    while i < recipes.len()
        invariant
            has_manifests(*a),
            recipes == &a.recipes,
            i <= recipes@.len(),
            best == product_tier_upto(*a, p@, i as int),
        decreases recipes@.len() - i,
    {
        let recipe = &recipes[i];
        let here = if asset_in_standard(a, &recipe.0) {
            let tier = recipe_tier_of(a, &recipe.0);
            if tier.is_some() && entries_name_exec(&recipe.1.result.entries, p) {
                tier
            } else {
                None
            }
        } else {
            None
        };
        best = min_tier_exec(best, here);
        i = i + 1;
    }
    best
}

/// Why the assets do not make serialized game data.
#[derive(Debug, Clone, Copy, PartialEq, Eq)]
pub enum ExportError {
    /// One of the three game data manifests was not found.
    MissingManifest,
    /// A standard tech tree unlock has a null recipe reference.
    UnlockWithNullRecipe,
    /// A standard recipe that has a tier is missing, or one of its results
    /// has a null product reference.
    TieredRecipeUnresolved,
    /// A standard gatherer hub or factory has a null recipe reference.
    BuildingWithNullRecipe,
    /// There is not exactly one standard product category modifier info.
    ModifierInfoCount,
    /// A standard product has no tier, or its category cannot be found.
    ProductUnresolved,
    /// A standard recipe has no tier, a null product or module reference,
    /// or an ingredient amount that cannot be negated.
    RecipeUnresolved,
}

/// Some reference in `refs` is null.
pub open spec fn has_null(refs: Seq<Reference>) -> bool {
    exists|k: int| 0 <= k < refs.len() && #[trigger] ref_guid(refs[k]) is None
}

/// Some entry of `entries` has a null product reference.
pub open spec fn has_null_entry(entries: Seq<crate::importer::mono_behaviour::RecipeEntry>) -> bool {
    exists|k: int| 0 <= k < entries.len() && #[trigger] ref_guid(entries[k].definition) is None
}

/// A standard unlock has a null recipe reference.
pub open spec fn unlock_has_null<F>(a: Assets<F>) -> bool {
    exists|u: int|
        0 <= u < a.tech_tree_recipe_unlocks@.len() && in_standard(
            a,
            (#[trigger] a.tech_tree_recipe_unlocks@[u]).0@,
        ) && has_null(a.tech_tree_recipe_unlocks@[u].1.recipes@)
}

/// Recipe `g` is not in the recipe table, or one of its results has a
/// null product reference.
pub open spec fn recipe_broken<F>(a: Assets<F>, g: Seq<char>) -> bool {
    !has_guid(a.recipes@, g) || exists|i: int|
        #[trigger] guid_at(a.recipes@, g, i) && has_null_entry(a.recipes@[i].1.result.entries@)
}

/// The reference points at a standard recipe that is broken.
pub open spec fn standard_and_broken<F>(a: Assets<F>, g: Option<Seq<char>>) -> bool {
    match g {
        Some(g) => in_standard(a, g) && recipe_broken(a, g),
        None => false,
    }
}

/// A standard unlock unlocks a standard recipe that is broken.
pub open spec fn tiered_unresolved<F>(a: Assets<F>) -> bool {
    exists|u: int, k: int|
        0 <= u < a.tech_tree_recipe_unlocks@.len() && 0 <= k
            < a.tech_tree_recipe_unlocks@[u].1.recipes@.len() && in_standard(
            a,
            a.tech_tree_recipe_unlocks@[u].0@,
        ) && standard_and_broken(a, #[trigger] ref_guid(a.tech_tree_recipe_unlocks@[u].1.recipes@[k]))
}

/// The recipe references of a building detail: those of a gatherer hub or
/// a factory; none for a module or a building without detail.
pub open spec fn detail_recipes(detail: Option<BuildingDetail>) -> Seq<Reference> {
    match detail {
        Some(BuildingDetail::GathererHub(x)) => x.available_recipes@,
        Some(BuildingDetail::Factory(x)) => x.available_recipes@,
        _ => Seq::empty(),
    }
}

/// A standard building has a null recipe reference.
pub open spec fn building_has_null<F>(a: Assets<F>) -> bool {
    exists|i: int|
        0 <= i < a.buildings@.len() && in_standard(a, (#[trigger] a.buildings@[i]).0@) && has_null(
            detail_recipes(a.buildings@[i].1.1),
        )
}

/// The positions, in order, of the entries among the first `n` of `s` that
/// belong to the standard game.
pub open spec fn standard_positions<F, T>(a: Assets<F>, s: Seq<(String, T)>, n: int) -> Seq<int>
    decreases n,
{
    if n <= 0 {
        Seq::empty()
    } else {
        let before = standard_positions(a, s, n - 1);
        if in_standard(a, s[n - 1].0@) {
            before.push(n - 1)
        } else {
            before
        }
    }
}

/// Every position of a standard entry is a position of the table.
pub proof fn lemma_standard_positions_bounded<F, T>(a: Assets<F>, s: Seq<(String, T)>, n: int)
    requires
        n <= s.len(),
    ensures
        forall|j: int|
            0 <= j < standard_positions(a, s, n).len() ==> 0 <= #[trigger] standard_positions(a, s, n)[j]
                < n,
    decreases n,
{
    if n > 0 {
        lemma_standard_positions_bounded(a, s, n - 1);
        let before = standard_positions(a, s, n - 1);
        assert forall|j: int| 0 <= j < standard_positions(a, s, n).len() implies 0
            <= #[trigger] standard_positions(a, s, n)[j] < n by {
            if j < before.len() {
                assert(standard_positions(a, s, n)[j] == before[j]);
            }
        }
    }
}

proof fn lemma_standard_positions_standard<F, T>(a: Assets<F>, s: Seq<(String, T)>, n: int, j: int)
    requires
        n <= s.len(),
        0 <= j < standard_positions(a, s, n).len(),
    ensures
        in_standard(a, s[standard_positions(a, s, n)[j]].0@),
    decreases n,
{
    if n > 0 {
        let before = standard_positions(a, s, n - 1);
        if j < before.len() {
            lemma_standard_positions_standard(a, s, n - 1, j);
            if in_standard(a, s[n - 1].0@) {
                assert(standard_positions(a, s, n)[j] == before[j]);
            }
        }
    }
}

/// The category that provider `provider` gives at tier `tier`, if the
/// provider exists and its list has a non-null entry at that tier.
pub open spec fn provider_category<F>(a: Assets<F>, provider: Seq<char>, tier: i64) -> Option<Seq<char>> {
    let providers = a.product_definition_data_category_providers@;
    if has_guid(providers, provider) {
        let i = choose|i: int| guid_at(providers, provider, i);
        let table = providers[i].1.tier_to_category@;
        if 0 <= tier < table.len() {
            ref_guid(table[tier as int])
        } else {
            None
        }
    } else {
        None
    }
}

/// The category of product `p` at tier `tier`: its own category, or the one
/// its provider gives for the tier; exactly one of the two must be set.
pub open spec fn category_of<F>(a: Assets<F>, p: ProductDefinitionMonoBehaviour, tier: i64) -> Option<Seq<char>> {
    match (ref_guid(p.category), ref_guid(p.category_provider)) {
        (Some(c), None) => Some(c),
        (None, Some(provider)) => provider_category(a, provider, tier),
        _ => None,
    }
}

/// Standard product `p` has a tier and a category.
pub open spec fn product_resolves<F>(a: Assets<F>, p: (String, ProductDefinitionMonoBehaviour)) -> bool {
    match product_tier(a, p.0@) {
        Some(tier) => category_of(a, p.1, tier) is Some,
        None => false,
    }
}

pub open spec fn product_unresolved<F>(a: Assets<F>) -> bool {
    exists|i: int|
        0 <= i < a.products@.len() && in_standard(a, (#[trigger] a.products@[i]).0@)
            && !product_resolves(a, a.products@[i])
}

/// Some ingredient amount of `entries` is `i64::MIN`, which has no negation.
pub open spec fn has_unnegatable(entries: Seq<crate::importer::mono_behaviour::RecipeEntry>) -> bool {
    exists|k: int| 0 <= k < entries.len() && (#[trigger] entries[k]).amount == i64::MIN
}

/// Standard recipe `r` has a tier and can be written out.
pub open spec fn recipe_resolves<F>(a: Assets<F>, r: (String, RecipeMonoBehaviour)) -> bool {
    &&& recipe_tier(a, r.0@) is Some
    &&& !has_null_entry(r.1.ingredients.entries@)
    &&& !has_unnegatable(r.1.ingredients.entries@)
    &&& !has_null_entry(r.1.result.entries@)
    &&& !has_null(r.1.required_modules@)
}

pub open spec fn recipe_unresolved<F>(a: Assets<F>) -> bool {
    exists|i: int|
        0 <= i < a.recipes@.len() && in_standard(a, (#[trigger] a.recipes@[i]).0@)
            && !recipe_resolves(a, a.recipes@[i])
}

/// The first stage of the export that fails, if one does.
pub open spec fn export_failure<F>(a: Assets<F>) -> Option<ExportError> {
    if !has_manifests(a) {
        Some(ExportError::MissingManifest)
    } else if unlock_has_null(a) {
        Some(ExportError::UnlockWithNullRecipe)
    } else if tiered_unresolved(a) {
        Some(ExportError::TieredRecipeUnresolved)
    } else if building_has_null(a) {
        Some(ExportError::BuildingWithNullRecipe)
    } else if standard_positions(
        a,
        a.product_category_modifier_info@,
        a.product_category_modifier_info@.len() as int,
    ).len() != 1 {
        Some(ExportError::ModifierInfoCount)
    } else if product_unresolved(a) {
        Some(ExportError::ProductUnresolved)
    } else if recipe_unresolved(a) {
        Some(ExportError::RecipeUnresolved)
    } else {
        None
    }
}

/// Whether some reference in `refs` is null.
fn has_null_exec(refs: &Vec<Reference>) -> (r: bool)
    ensures
        r == has_null(refs@),
{
    let mut k: usize = 0;
    while k < refs.len()
        invariant
            k <= refs@.len(),
            forall|j: int| 0 <= j < k ==> #[trigger] ref_guid(refs@[j]) is Some,
        decreases refs@.len() - k,
    {
        if refs[k].0.is_none() {
            assert(ref_guid(refs@[k as int]) is None);
            return true;
        }
        k = k + 1;
    }
    false
}

/// Whether some entry of `entries` has a null product reference.
fn has_null_entry_exec(entries: &Vec<crate::importer::mono_behaviour::RecipeEntry>) -> (r: bool)
    ensures
        r == has_null_entry(entries@),
{
    let mut k: usize = 0;
    while k < entries.len()
        invariant
            k <= entries@.len(),
            forall|j: int| 0 <= j < k ==> #[trigger] ref_guid(entries@[j].definition) is Some,
        decreases entries@.len() - k,
    {
        if entries[k].definition.0.is_none() {
            assert(ref_guid(entries@[k as int].definition) is None);
            return true;
        }
        k = k + 1;
    }
    false
}

/// Whether a standard unlock has a null recipe reference.
fn unlock_has_null_exec<F>(a: &Assets<F>) -> (r: bool)
    requires
        has_manifests(*a),
    ensures
        r == unlock_has_null(*a),
{
    let unlocks = &a.tech_tree_recipe_unlocks;
    let mut u: usize = 0;
    while u < unlocks.len()
        invariant
            has_manifests(*a),
            unlocks == &a.tech_tree_recipe_unlocks,
            u <= unlocks@.len(),
            forall|j: int|
                0 <= j < u ==> !(in_standard(*a, (#[trigger] unlocks@[j]).0@) && has_null(
                    unlocks@[j].1.recipes@,
                )),
        decreases unlocks@.len() - u,
    {
        if asset_in_standard(a, &unlocks[u].0) && has_null_exec(&unlocks[u].1.recipes) {
            return true;
        }
        u = u + 1;
    }
    false
}

/// The position of the entry of `table` with guid `g`, the first if several.
fn find_guid<T>(table: &Vec<(String, T)>, g: &String) -> (r: Option<usize>)
    ensures
        match r {
            Some(i) => guid_at(table@, g@, i as int) && forall|j: int|
                0 <= j < i ==> !#[trigger] guid_at(table@, g@, j),
            None => !has_guid(table@, g@),
        },
{
    let mut i: usize = 0;
    while i < table.len()
        invariant
            i <= table@.len(),
            forall|j: int| 0 <= j < i ==> !#[trigger] guid_at(table@, g@, j),
        decreases table@.len() - i,
    {
        if same_guid(&table[i].0, g) {
            return Some(i);
        }
        i = i + 1;
    }
    proof {
        if has_guid(table@, g@) {
            let j = choose|j: int| guid_at(table@, g@, j);
            assert(!guid_at(table@, g@, j));
        }
    }
    None
}

/// Whether recipe `g` is broken.
fn recipe_broken_exec<F>(a: &Assets<F>, g: &String) -> (r: bool)
    requires
        crate::calculator::load::unique_guids(a.recipes@),
    ensures
        r == recipe_broken(*a, g@),
{
    match find_guid(&a.recipes, g) {
        Some(i) => {
            let broken = has_null_entry_exec(&a.recipes[i].1.result.entries);
            proof {
                assert forall|j: int| #[trigger] guid_at(a.recipes@, g@, j) implies j == i by {
                    if j != i {
                        if j < i {
                        } else {
                            assert(a.recipes@[i as int].0@ != a.recipes@[j].0@);
                        }
                    }
                }
            }
            broken
        },
        None => true,
    }
}

/// Whether a standard unlock unlocks a standard recipe that is broken.
fn tiered_unresolved_exec<F>(a: &Assets<F>) -> (r: bool)
    requires
        has_manifests(*a),
        crate::calculator::load::unique_guids(a.recipes@),
    ensures
        r == tiered_unresolved(*a),
{
    let unlocks = &a.tech_tree_recipe_unlocks;
    let mut u: usize = 0;
    while u < unlocks.len()
        invariant
            has_manifests(*a),
            crate::calculator::load::unique_guids(a.recipes@),
            unlocks == &a.tech_tree_recipe_unlocks,
            u <= unlocks@.len(),
            forall|j: int, k: int|
                0 <= j < u && 0 <= k < unlocks@[j].1.recipes@.len() && in_standard(*a, unlocks@[j].0@)
                    ==> !standard_and_broken(*a, #[trigger] ref_guid(unlocks@[j].1.recipes@[k])),
        decreases unlocks@.len() - u,
    {
        let unlock = &unlocks[u];
        if asset_in_standard(a, &unlock.0) {
            let refs = &unlock.1.recipes;
            let mut k: usize = 0;
            while k < refs.len()
                invariant
                    has_manifests(*a),
                    crate::calculator::load::unique_guids(a.recipes@),
                    unlocks == &a.tech_tree_recipe_unlocks,
                    u < unlocks@.len(),
                    refs == &unlocks@[u as int].1.recipes,
                    in_standard(*a, unlocks@[u as int].0@),
                    k <= refs@.len(),
                    forall|j: int, kk: int|
                        0 <= j < u && 0 <= kk < unlocks@[j].1.recipes@.len() && in_standard(
                            *a,
                            unlocks@[j].0@,
                        ) ==> !standard_and_broken(*a, #[trigger] ref_guid(unlocks@[j].1.recipes@[kk])),
                    forall|kk: int|
                        0 <= kk < k ==> !standard_and_broken(*a, #[trigger] ref_guid(refs@[kk])),
                decreases refs@.len() - k,
            {
                match refs[k].guid() {
                    Some(g) => {
                        if asset_in_standard(a, g) && recipe_broken_exec(a, g) {
                            assert(ref_guid(unlocks@[u as int].1.recipes@[k as int]) == Some(g@));
                            return true;
                        }
                    },
                    None => {},
                }
                k = k + 1;
            }
        }
        u = u + 1;
    }
    false
}

/// Whether a standard building has a null recipe reference.
fn building_has_null_exec<F>(a: &Assets<F>) -> (r: bool)
    requires
        has_manifests(*a),
    ensures
        r == building_has_null(*a),
{
    let buildings = &a.buildings;
    let mut i: usize = 0;
    while i < buildings.len()
        invariant
            has_manifests(*a),
            buildings == &a.buildings,
            i <= buildings@.len(),
            forall|j: int|
                0 <= j < i ==> !(in_standard(*a, (#[trigger] buildings@[j]).0@) && has_null(
                    detail_recipes(buildings@[j].1.1),
                )),
        decreases buildings@.len() - i,
    {
        let building = &buildings[i];
        if asset_in_standard(a, &building.0) {
            let broken = match &building.1.1 {
                Some(BuildingDetail::GathererHub(x)) => has_null_exec(&x.available_recipes),
                Some(BuildingDetail::Factory(x)) => has_null_exec(&x.available_recipes),
                _ => {
                    assert(!has_null(Seq::<Reference>::empty()));
                    false
                },
            };
            if broken {
                return true;
            }
        }
        i = i + 1;
    }
    false
}

/// The positions of the standard entries of `table`, in order.
fn standard_positions_exec<F, T>(a: &Assets<F>, table: &Vec<(String, T)>) -> (r: Vec<usize>)
    requires
        has_manifests(*a),
    ensures
        r@.len() == standard_positions(*a, table@, table@.len() as int).len(),
        forall|j: int|
            0 <= j < r@.len() ==> (#[trigger] r@[j]) as int == standard_positions(
                *a,
                table@,
                table@.len() as int,
            )[j],
{
    let mut r: Vec<usize> = Vec::new();
    let mut i: usize = 0;
    while i < table.len()
        invariant
            has_manifests(*a),
            i <= table@.len(),
            r@.len() == standard_positions(*a, table@, i as int).len(),
            forall|j: int|
                0 <= j < r@.len() ==> (#[trigger] r@[j]) as int == standard_positions(
                    *a,
                    table@,
                    i as int,
                )[j],
        decreases table@.len() - i,
    {
        if asset_in_standard(a, &table[i].0) {
            r.push(i);
        }
        i = i + 1;
    }
    r
}

/// The guids that the references `refs`, none of them null, point at.
fn guids_of(refs: &Vec<Reference>) -> (r: Vec<String>)
    requires
        !has_null(refs@),
    ensures
        r@.len() == refs@.len(),
        forall|k: int| 0 <= k < refs@.len() ==> Some((#[trigger] r@[k])@) == ref_guid(refs@[k]),
{
    let mut r: Vec<String> = Vec::new();
    let mut k: usize = 0;
    while k < refs.len()
        invariant
            !has_null(refs@),
            k <= refs@.len(),
            r@.len() == k,
            forall|j: int| 0 <= j < k ==> Some((#[trigger] r@[j])@) == ref_guid(refs@[j]),
        decreases refs@.len() - k,
    {
        assert(ref_guid(refs@[k as int]) is Some);
        let g = refs[k].guid().unwrap();
        r.push(g.clone());
        k = k + 1;
    }
    r
}

/// A product in the serialized game data as the importer writes it.
pub struct ImportedProduct {
    pub name: String,
    pub category_id: Option<String>,
}

/// The serialized game data of the standard game. The order of each table
/// is the order of the assets; the tables are keyed by guid.
pub struct ImportedGameData<F> {
    pub products: Vec<(String, ImportedProduct)>,
    pub recipes: Vec<(String, Recipe)>,
    pub modules: Vec<(String, BuildingModule)>,
    pub buildings: Vec<(String, Building)>,
    pub product_categories: Vec<(String, ProductCategory<F>)>,
}

/// The category of `p` at tier `tier`, as a guid.
fn category_of_exec<F>(a: &Assets<F>, p: &ProductDefinitionMonoBehaviour, tier: i64) -> (r: Option<
    String,
>)
    requires
        crate::calculator::load::unique_guids(a.product_definition_data_category_providers@),
    ensures
        match r {
            Some(c) => category_of(*a, *p, tier) == Some(c@),
            None => category_of(*a, *p, tier) is None,
        },
{
    match (p.category.guid(), p.category_provider.guid()) {
        (Some(c), None) => Some(c.clone()),
        (None, Some(provider)) => {
            let providers = &a.product_definition_data_category_providers;
            match find_guid(providers, provider) {
                Some(i) => {
                    proof {
                        let chosen = choose|j: int| guid_at(providers@, provider@, j);
                        if chosen != i {
                            if chosen < i {
                            } else {
                                assert(providers@[i as int].0@ != providers@[chosen].0@);
                            }
                        }
                        assert(chosen == i);
                    }
                    let table = &providers[i].1.tier_to_category;
                    if tier < 0 || tier as u64 >= table.len() as u64 {
                        return None;
                    }
                    match table[tier as usize].guid() {
                        Some(c) => Some(c.clone()),
                        None => None,
                    }
                },
                None => None,
            }
        },
        _ => None,
    }
}

/// `out` is the standard product `src` with its category guid.
pub open spec fn product_exported<F>(
    a: Assets<F>,
    out: (String, ImportedProduct),
    src: (String, ProductDefinitionMonoBehaviour),
) -> bool {
    &&& out.0 == src.0
    &&& out.1.name == src.1.name
    &&& out.1.category_id matches Some(c) && Some(c@) == category_of(
        a,
        src.1,
        product_tier(a, src.0@)->0,
    )
}

/// The standard products with their categories, or `None` when one of them
/// has no tier or no category.
fn export_products<F>(a: &Assets<F>) -> (r: Option<Vec<(String, ImportedProduct)>>)
    requires
        has_manifests(*a),
        crate::calculator::load::unique_guids(a.product_definition_data_category_providers@),
    ensures
        match r {
            None => product_unresolved(*a),
            Some(out) => {
                &&& !product_unresolved(*a)
                &&& out@.len() == standard_positions(*a, a.products@, a.products@.len() as int).len()
                &&& forall|j: int|
                    0 <= j < out@.len() ==> #[trigger] product_exported(
                        *a,
                        out@[j],
                        a.products@[standard_positions(*a, a.products@, a.products@.len() as int)[j]],
                    )
            },
        },
{
    let products = &a.products;
    let mut out: Vec<(String, ImportedProduct)> = Vec::new();
    let mut i: usize = 0;
    while i < products.len()
        invariant
            has_manifests(*a),
            crate::calculator::load::unique_guids(a.product_definition_data_category_providers@),
            products == &a.products,
            i <= products@.len(),
            forall|j: int|
                0 <= j < i ==> (in_standard(*a, (#[trigger] products@[j]).0@) ==> product_resolves(
                    *a,
                    products@[j],
                )),
            out@.len() == standard_positions(*a, products@, i as int).len(),
            forall|j: int|
                0 <= j < out@.len() ==> #[trigger] product_exported(
                    *a,
                    out@[j],
                    products@[standard_positions(*a, products@, i as int)[j]],
                ),
        decreases products@.len() - i,
    {
        let product = &products[i];
        if asset_in_standard(a, &product.0) {
            let tier = match product_tier_of(a, &product.0) {
                Some(t) => t,
                None => {
                    assert(!product_resolves(*a, products@[i as int]));
                    return None;
                },
            };
            let category = match category_of_exec(a, &product.1, tier) {
                Some(c) => c,
                None => {
                    assert(!product_resolves(*a, products@[i as int]));
                    return None;
                },
            };
            out.push((product.0.clone(), ImportedProduct { name: product.1.name.clone(), category_id: Some(category) }));
        }
        i = i + 1;
    }
    Some(out)
}

/// `out` is `entries` written with product guids; ingredient amounts
/// (`negate`) change sign.
pub open spec fn entries_exported(
    out: Seq<RecipeEntry>,
    entries: Seq<crate::importer::mono_behaviour::RecipeEntry>,
    negate: bool,
) -> bool {
    &&& out.len() == entries.len()
    &&& forall|k: int|
        0 <= k < entries.len() ==> {
            &&& Some((#[trigger] out[k]).product_id@) == ref_guid(entries[k].definition)
            &&& out[k].amount == if negate {
                -entries[k].amount
            } else {
                entries[k].amount as int
            }
        }
}

fn export_entries(entries: &Vec<crate::importer::mono_behaviour::RecipeEntry>, negate: bool) -> (r: Vec<
    RecipeEntry,
>)
    requires
        !has_null_entry(entries@),
        negate ==> !has_unnegatable(entries@),
    ensures
        entries_exported(r@, entries@, negate),
{
    let mut r: Vec<RecipeEntry> = Vec::new();
    let mut k: usize = 0;
    while k < entries.len()
        invariant
            !has_null_entry(entries@),
            negate ==> !has_unnegatable(entries@),
            k <= entries@.len(),
            r@.len() == k,
            forall|j: int|
                0 <= j < k ==> {
                    &&& Some((#[trigger] r@[j]).product_id@) == ref_guid(entries@[j].definition)
                    &&& r@[j].amount == if negate {
                        -entries@[j].amount
                    } else {
                        entries@[j].amount as int
                    }
                },
        decreases entries@.len() - k,
    {
        let entry = &entries[k];
        assert(ref_guid(entries@[k as int].definition) is Some);
        let product_id = entry.definition.guid().unwrap().clone();
        let amount = if negate {
            assert(entries@[k as int].amount != i64::MIN);
            -entry.amount
        } else {
            entry.amount
        };
        r.push(RecipeEntry { product_id, amount });
        k = k + 1;
    }
    r
}

/// `out` is standard recipe `src` with its tier, its ingredients (amounts
/// negated) followed by its results, and its module guids.
pub open spec fn recipe_exported<F>(
    a: Assets<F>,
    out: (String, Recipe),
    src: (String, RecipeMonoBehaviour),
) -> bool {
    let ingredients = src.1.ingredients.entries@;
    let results = src.1.result.entries@;
    &&& out.0 == src.0
    &&& out.1.name == src.1.name
    &&& out.1.days == src.1.days
    &&& Some(out.1.tier) == recipe_tier(a, src.0@)
    &&& out.1.entries@.len() == ingredients.len() + results.len()
    &&& entries_exported(out.1.entries@.subrange(0, ingredients.len() as int), ingredients, true)
    &&& entries_exported(
        out.1.entries@.subrange(ingredients.len() as int, out.1.entries@.len() as int),
        results,
        false,
    )
    &&& out.1.required_modules@.len() == src.1.required_modules@.len()
    &&& forall|k: int|
        0 <= k < src.1.required_modules@.len() ==> Some((#[trigger] out.1.required_modules@[k])@)
            == ref_guid(src.1.required_modules@[k])
}

/// Whether some ingredient amount is `i64::MIN`.
fn has_unnegatable_exec(entries: &Vec<crate::importer::mono_behaviour::RecipeEntry>) -> (r: bool)
    ensures
        r == has_unnegatable(entries@),
{
    let mut k: usize = 0;
    while k < entries.len()
        invariant
            k <= entries@.len(),
            forall|j: int| 0 <= j < k ==> (#[trigger] entries@[j]).amount != i64::MIN,
        decreases entries@.len() - k,
    {
        if entries[k].amount == i64::MIN {
            return true;
        }
        k = k + 1;
    }
    false
}

/// The standard recipes, or `None` when one of them cannot be written out.
fn export_recipes<F>(a: &Assets<F>) -> (r: Option<Vec<(String, Recipe)>>)
    requires
        has_manifests(*a),
    ensures
        match r {
            None => recipe_unresolved(*a),
            Some(out) => {
                &&& !recipe_unresolved(*a)
                &&& out@.len() == standard_positions(*a, a.recipes@, a.recipes@.len() as int).len()
                &&& forall|j: int|
                    0 <= j < out@.len() ==> #[trigger] recipe_exported(
                        *a,
                        out@[j],
                        a.recipes@[standard_positions(*a, a.recipes@, a.recipes@.len() as int)[j]],
                    )
            },
        },
{
    let recipes = &a.recipes;
    let mut out: Vec<(String, Recipe)> = Vec::new();
    let mut i: usize = 0;
    while i < recipes.len()
        invariant
            has_manifests(*a),
            recipes == &a.recipes,
            i <= recipes@.len(),
            forall|j: int|
                0 <= j < i ==> (in_standard(*a, (#[trigger] recipes@[j]).0@) ==> recipe_resolves(
                    *a,
                    recipes@[j],
                )),
            out@.len() == standard_positions(*a, recipes@, i as int).len(),
            forall|j: int|
                0 <= j < out@.len() ==> #[trigger] recipe_exported(
                    *a,
                    out@[j],
                    recipes@[standard_positions(*a, recipes@, i as int)[j]],
                ),
        decreases recipes@.len() - i,
    {
        let recipe = &recipes[i];
        if asset_in_standard(a, &recipe.0) {
            let tier = match recipe_tier_of(a, &recipe.0) {
                Some(t) => t,
                None => {
                    assert(!recipe_resolves(*a, recipes@[i as int]));
                    return None;
                },
            };
            let body = &recipe.1;
            if has_null_entry_exec(&body.ingredients.entries) || has_unnegatable_exec(
                &body.ingredients.entries,
            ) || has_null_entry_exec(&body.result.entries) || has_null_exec(&body.required_modules) {
                assert(!recipe_resolves(*a, recipes@[i as int]));
                return None;
            }
            let mut entries = export_entries(&body.ingredients.entries, true);
            let ghost ingredients = entries@;
            let mut results = export_entries(&body.result.entries, false);
            let ghost results_view = results@;
            entries.append(&mut results);
            proof {
                assert(entries@.subrange(0, ingredients.len() as int) =~= ingredients);
                assert(entries@.subrange(ingredients.len() as int, entries@.len() as int)
                    =~= results_view);
            }
            let required_modules = guids_of(&body.required_modules);
            out.push(
                (
                    recipe.0.clone(),
                    Recipe { name: body.name.clone(), entries, days: body.days, required_modules, tier },
                ),
            );
        }
        i = i + 1;
    }
    Some(out)
}

/// The positions, in order, of the standard buildings among the first `n`
/// that are modules (`modules`) or buildings proper.
pub open spec fn building_positions<F>(a: Assets<F>, n: int, modules: bool) -> Seq<int>
    decreases n,
{
    if n <= 0 {
        Seq::empty()
    } else {
        let before = building_positions(a, n - 1, modules);
        let entry = a.buildings@[n - 1];
        if in_standard(a, entry.0@) && (entry.1.1 matches Some(BuildingDetail::Harvester(_))) == modules {
            before.push(n - 1)
        } else {
            before
        }
    }
}

/// `out` is the standard building `src` with its recipe guids.
pub open spec fn building_exported(
    out: (String, Building),
    src: (String, (crate::importer::mono_behaviour::BuildingMonoBehaviour, Option<BuildingDetail>)),
) -> bool {
    &&& out.0 == src.0
    &&& out.1.name == src.1.0.name
    &&& out.1.base_cost == src.1.0.base_cost
    &&& out.1.available_recipes@.len() == detail_recipes(src.1.1).len()
    &&& forall|k: int|
        0 <= k < detail_recipes(src.1.1).len() ==> Some((#[trigger] out.1.available_recipes@[k])@)
            == ref_guid(detail_recipes(src.1.1)[k])
}

/// The standard building modules and the standard buildings proper.
fn export_buildings<F>(a: &Assets<F>) -> (r: (Vec<(String, BuildingModule)>, Vec<(String, Building)>))
    requires
        has_manifests(*a),
        !building_has_null(*a),
    ensures
        r.0@.len() == building_positions(*a, a.buildings@.len() as int, true).len(),
        forall|j: int|
            0 <= j < r.0@.len() ==> {
                let src = a.buildings@[building_positions(*a, a.buildings@.len() as int, true)[j]];
                &&& (#[trigger] r.0@[j]).0 == src.0
                &&& r.0@[j].1.name == src.1.0.name
                &&& r.0@[j].1.base_cost == src.1.0.base_cost
            },
        r.1@.len() == building_positions(*a, a.buildings@.len() as int, false).len(),
        forall|j: int|
            0 <= j < r.1@.len() ==> #[trigger] building_exported(
                r.1@[j],
                a.buildings@[building_positions(*a, a.buildings@.len() as int, false)[j]],
            ),
{
    let buildings = &a.buildings;
    let mut modules: Vec<(String, BuildingModule)> = Vec::new();
    let mut proper: Vec<(String, Building)> = Vec::new();
    let mut i: usize = 0;
    while i < buildings.len()
        invariant
            has_manifests(*a),
            !building_has_null(*a),
            buildings == &a.buildings,
            i <= buildings@.len(),
            modules@.len() == building_positions(*a, i as int, true).len(),
            forall|j: int|
                0 <= j < modules@.len() ==> {
                    let src = buildings@[building_positions(*a, i as int, true)[j]];
                    &&& (#[trigger] modules@[j]).0 == src.0
                    &&& modules@[j].1.name == src.1.0.name
                    &&& modules@[j].1.base_cost == src.1.0.base_cost
                },
            proper@.len() == building_positions(*a, i as int, false).len(),
            forall|j: int|
                0 <= j < proper@.len() ==> #[trigger] building_exported(
                    proper@[j],
                    buildings@[building_positions(*a, i as int, false)[j]],
                ),
        decreases buildings@.len() - i,
    {
        let building = &buildings[i];
        if asset_in_standard(a, &building.0) {
            let base = &building.1.0;
            match &building.1.1 {
                Some(BuildingDetail::Harvester(_)) => {
                    modules.push(
                        (building.0.clone(), BuildingModule { name: base.name.clone(), base_cost: base.base_cost }),
                    );
                },
                detail => {
                    let available_recipes = match detail {
                        Some(BuildingDetail::GathererHub(x)) => guids_of(&x.available_recipes),
                        Some(BuildingDetail::Factory(x)) => guids_of(&x.available_recipes),
                        _ => Vec::new(),
                    };
                    proper.push(
                        (
                            building.0.clone(),
                            Building { name: base.name.clone(), base_cost: base.base_cost, available_recipes },
                        ),
                    );
                },
            }
        }
        i = i + 1;
    }
    (modules, proper)
}

/// The modifiers of the first entry of `entries` for category `g`, or
/// `default` when no entry is for it.
pub open spec fn modifiers_for<F>(
    entries: Seq<crate::importer::mono_behaviour::ProductCategoryModifierInfoEntry<F>>,
    g: Seq<char>,
    default: F,
) -> F
    decreases entries.len(),
{
    if entries.len() == 0 {
        default
    } else if ref_guid(entries[0].category) == Some(g) {
        entries[0].modifiers
    } else {
        modifiers_for(entries.drop_first(), g, default)
    }
}

fn modifiers_for_exec<F: Copy>(info: &ProductCategoryModifierInfoMonoBehaviour<F>, g: &String) -> (r: F)
    ensures
        r == modifiers_for(info.modifiers@, g@, info.default_modifiers),
{
    let entries = &info.modifiers;
    let mut k: usize = 0;
    assert(entries@.skip(0) =~= entries@);
    while k < entries.len()
        invariant
            entries == &info.modifiers,
            k <= entries@.len(),
            modifiers_for(entries@, g@, info.default_modifiers) == modifiers_for(
                entries@.skip(k as int),
                g@,
                info.default_modifiers,
            ),
        decreases entries@.len() - k,
    {
        let ghost rest = entries@.skip(k as int);
        assert(rest.drop_first() =~= entries@.skip(k + 1));
        assert(rest[0] == entries@[k as int]);
        match entries[k].category.guid() {
            Some(found) => {
                if same_guid(found, g) {
                    assert(ref_guid(rest[0].category) == Some(g@));
                    assert(modifiers_for(rest, g@, info.default_modifiers) == rest[0].modifiers);
                    return entries[k].modifiers;
                }
            },
            None => {},
        }
        k = k + 1;
    }
    info.default_modifiers
}

/// The standard product category modifier info; there must be exactly one.
pub open spec fn the_modifier_info<F>(a: Assets<F>) -> ProductCategoryModifierInfoMonoBehaviour<F> {
    a.product_category_modifier_info@[standard_positions(
        a,
        a.product_category_modifier_info@,
        a.product_category_modifier_info@.len() as int,
    )[0]].1
}

/// `out` is the standard category `src` with its modifiers.
pub open spec fn category_exported<F>(
    a: Assets<F>,
    out: (String, ProductCategory<F>),
    src: (String, crate::importer::mono_behaviour::ProductCategoryMonoBehaviour),
) -> bool {
    let info = the_modifier_info(a);
    &&& out.0 == src.0
    &&& out.1.name == src.1.name
    &&& out.1.modifiers == modifiers_for(info.modifiers@, src.0@, info.default_modifiers)
}

fn export_categories<F: Copy>(a: &Assets<F>, info: &ProductCategoryModifierInfoMonoBehaviour<F>) -> (r: Vec<
    (String, ProductCategory<F>),
>)
    requires
        has_manifests(*a),
        *info == the_modifier_info(*a),
    ensures
        r@.len() == standard_positions(*a, a.product_categories@, a.product_categories@.len() as int).len(),
        forall|j: int|
            0 <= j < r@.len() ==> #[trigger] category_exported(
                *a,
                r@[j],
                a.product_categories@[standard_positions(
                    *a,
                    a.product_categories@,
                    a.product_categories@.len() as int,
                )[j]],
            ),
{
    let categories = &a.product_categories;
    let mut out: Vec<(String, ProductCategory<F>)> = Vec::new();
    let mut i: usize = 0;
    while i < categories.len()
        invariant
            has_manifests(*a),
            *info == the_modifier_info(*a),
            categories == &a.product_categories,
            i <= categories@.len(),
            out@.len() == standard_positions(*a, categories@, i as int).len(),
            forall|j: int|
                0 <= j < out@.len() ==> #[trigger] category_exported(
                    *a,
                    out@[j],
                    categories@[standard_positions(*a, categories@, i as int)[j]],
                ),
        decreases categories@.len() - i,
    {
        let category = &categories[i];
        if asset_in_standard(a, &category.0) {
            let modifiers = modifiers_for_exec(info, &category.0);
            out.push((category.0.clone(), ProductCategory { name: category.1.name.clone(), modifiers }));
        }
        i = i + 1;
    }
    out
}

/// `d` is the serialized game data of the standard game in assets `a`.
pub open spec fn exported<F>(a: Assets<F>, d: ImportedGameData<F>) -> bool {
    let products = standard_positions(a, a.products@, a.products@.len() as int);
    let recipes = standard_positions(a, a.recipes@, a.recipes@.len() as int);
    let modules = building_positions(a, a.buildings@.len() as int, true);
    let buildings = building_positions(a, a.buildings@.len() as int, false);
    let categories = standard_positions(a, a.product_categories@, a.product_categories@.len() as int);
    &&& d.products@.len() == products.len()
    &&& forall|j: int|
        0 <= j < products.len() ==> #[trigger] product_exported(a, d.products@[j], a.products@[products[j]])
    &&& d.recipes@.len() == recipes.len()
    &&& forall|j: int|
        0 <= j < recipes.len() ==> #[trigger] recipe_exported(a, d.recipes@[j], a.recipes@[recipes[j]])
    &&& d.modules@.len() == modules.len()
    &&& forall|j: int|
        0 <= j < modules.len() ==> {
            let src = a.buildings@[modules[j]];
            &&& (#[trigger] d.modules@[j]).0 == src.0
            &&& d.modules@[j].1.name == src.1.0.name
            &&& d.modules@[j].1.base_cost == src.1.0.base_cost
        }
    &&& d.buildings@.len() == buildings.len()
    &&& forall|j: int|
        0 <= j < buildings.len() ==> #[trigger] building_exported(d.buildings@[j], a.buildings@[buildings[j]])
    &&& d.product_categories@.len() == categories.len()
    &&& forall|j: int|
        0 <= j < categories.len() ==> #[trigger] category_exported(
            a,
            d.product_categories@[j],
            a.product_categories@[categories[j]],
        )
}

/// A product whose own category is set and whose category provider is null
/// is in its own category, at every tier; one whose own category is null
/// and whose provider is set is in the category its provider gives for the
/// tier.
pub proof fn lemma_category_of_product<F>(a: Assets<F>, p: ProductDefinitionMonoBehaviour, tier: i64)
    ensures
        p.category.0 is Some && p.category_provider.0 is None ==> category_of(a, p, tier) == Some(
            p.category.0->0.guid@,
        ),
        p.category.0 is None && p.category_provider.0 is Some ==> category_of(a, p, tier)
            == provider_category(a, p.category_provider.0->0.guid@, tier),
        p.category.0 is Some && p.category_provider.0 is Some ==> category_of(a, p, tier) is None,
        p.category.0 is None && p.category_provider.0 is None ==> category_of(a, p, tier) is None,
{
}

/// A standard product with its own category and no provider resolves as
/// soon as it has a tier: the export does not fail on it.
pub proof fn lemma_own_category_resolves<F>(a: Assets<F>, p: (String, ProductDefinitionMonoBehaviour))
    requires
        p.1.category.0 is Some,
        p.1.category_provider.0 is None,
        product_tier(a, p.0@) is Some,
    ensures
        product_resolves(a, p),
{
    lemma_category_of_product(a, p.1, product_tier(a, p.0@)->0);
}

/// In exported data, a product whose own category is set and whose
/// provider is null is exported with its own category's guid.
pub proof fn lemma_exported_own_category<F>(a: Assets<F>, d: ImportedGameData<F>, j: int)
    requires
        exported(a, d),
        0 <= j < d.products@.len(),
        a.products@[standard_positions(a, a.products@, a.products@.len() as int)[j]].1.category.0 is Some,
        a.products@[standard_positions(a, a.products@, a.products@.len() as int)[j]].1.category_provider.0 is None,
    ensures
        d.products@[j].1.category_id matches Some(c) && c@ == a.products@[standard_positions(
            a,
            a.products@,
            a.products@.len() as int,
        )[j]].1.category.0->0.guid@,
{
    let src = a.products@[standard_positions(a, a.products@, a.products@.len() as int)[j]];
    assert(product_exported(a, d.products@[j], src));
    lemma_category_of_product(a, src.1, product_tier(a, src.0@)->0);
}

/// In exported data, a product whose own category is null and whose
/// provider is set is exported with the category its provider gives at the
/// product's tier, and that tier is the least tier of the standard tiered
/// recipes that produce it.
pub proof fn lemma_exported_provider_category<F>(a: Assets<F>, d: ImportedGameData<F>, j: int)
    requires
        exported(a, d),
        !product_unresolved(a),
        0 <= j < d.products@.len(),
        a.products@[standard_positions(a, a.products@, a.products@.len() as int)[j]].1.category.0 is None,
        a.products@[standard_positions(a, a.products@, a.products@.len() as int)[j]].1.category_provider.0 is Some,
    ensures
        ({
            let src = a.products@[standard_positions(a, a.products@, a.products@.len() as int)[j]];
            &&& product_tier(a, src.0@) matches Some(t) && d.products@[j].1.category_id matches Some(c)
                && Some(c@) == provider_category(a, src.1.category_provider.0->0.guid@, t)
            &&& forall|i: int|
                #[trigger] tiered_recipe_makes(a, i, src.0@) ==> product_tier(a, src.0@)->0
                    <= recipe_tier(a, a.recipes@[i].0@)->0
            &&& exists|i: int|
                #[trigger] tiered_recipe_makes(a, i, src.0@) && recipe_tier(a, a.recipes@[i].0@)
                    == product_tier(a, src.0@)
        }),
{
    let positions = standard_positions(a, a.products@, a.products@.len() as int);
    lemma_standard_positions_bounded(a, a.products@, a.products@.len() as int);
    let src = a.products@[positions[j]];
    assert(product_exported(a, d.products@[j], src));
    assert(in_standard(a, src.0@)) by {
        lemma_standard_positions_standard(a, a.products@, a.products@.len() as int, j);
    }
    assert(product_resolves(a, src));
    lemma_category_of_product(a, src.1, product_tier(a, src.0@)->0);
    lemma_product_tier_is_least(a, src.0@);
}

/// In exported data, each recipe's tier is the least tier at which a
/// standard unlock lists the recipe: no standard unlock that lists it has a
/// smaller tier, and one has exactly that tier.
pub proof fn lemma_exported_recipe_tier<F>(a: Assets<F>, d: ImportedGameData<F>, j: int)
    requires
        exported(a, d),
        0 <= j < d.recipes@.len(),
    ensures
        forall|u: int|
            #[trigger] unlock_lists(a, u, d.recipes@[j].0@) ==> d.recipes@[j].1.tier
                <= a.tech_tree_recipe_unlocks@[u].1.tier,
        exists|u: int|
            #[trigger] unlock_lists(a, u, d.recipes@[j].0@) && a.tech_tree_recipe_unlocks@[u].1.tier
                == d.recipes@[j].1.tier,
{
    let src = a.recipes@[standard_positions(a, a.recipes@, a.recipes@.len() as int)[j]];
    assert(recipe_exported(a, d.recipes@[j], src));
    lemma_recipe_tier_is_least(a, src.0@);
}

impl<F: Copy> ImportedGameData<F> {
    /// The serialized game data of the standard game in `assets`: the
    /// assets that the manifests place in the standard game, with tiers
    /// from the tech tree, product categories from the category providers
    /// and category modifiers from the one modifier info. Fails at the
    /// first stage that cannot be completed.
    pub fn from_assets(assets: &Assets<F>) -> (r: Result<ImportedGameData<F>, ExportError>)
        requires
            assets_wf(*assets),
        ensures
            match r {
                Ok(d) => export_failure(*assets) is None && exported(*assets, d),
                Err(e) => export_failure(*assets) == Some(e),
            },
    {
        if assets.common_manifest.is_none() || assets.roi_2130_manifest.is_none()
            || assets.roi_standard_manifest.is_none() {
            return Err(ExportError::MissingManifest);
        }
        if unlock_has_null_exec(assets) {
            return Err(ExportError::UnlockWithNullRecipe);
        }
        if tiered_unresolved_exec(assets) {
            return Err(ExportError::TieredRecipeUnresolved);
        }
        if building_has_null_exec(assets) {
            return Err(ExportError::BuildingWithNullRecipe);
        }
        let infos = standard_positions_exec(assets, &assets.product_category_modifier_info);
        if infos.len() != 1 {
            return Err(ExportError::ModifierInfoCount);
        }
        proof {
            lemma_standard_positions_bounded(
                *assets,
                assets.product_category_modifier_info@,
                assets.product_category_modifier_info@.len() as int,
            );
        }
        let info = &assets.product_category_modifier_info[infos[0]].1;
        let products = match export_products(assets) {
            Some(p) => p,
            None => return Err(ExportError::ProductUnresolved),
        };
        let recipes = match export_recipes(assets) {
            Some(r) => r,
            None => return Err(ExportError::RecipeUnresolved),
        };
        let (modules, buildings) = export_buildings(assets);
        let product_categories = export_categories(assets, info);
        let d = ImportedGameData { products, recipes, modules, buildings, product_categories };
        proof {
            assert(exported(*assets, d));
        }
        Ok(d)
    }
}

} // verus!
