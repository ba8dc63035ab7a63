//! Decisions of the production planner that need no prices: which building
//! runs a recipe, and how many buildings with how many modules give a
//! number of recipe runs.

use crate::calculator::game_data::{BuildingIndex, RecipeIndex};
use crate::calculator::query::{GameData, Query};
use crate::typed_index::TypedIndex;
use vstd::prelude::*;

verus! {

/// The most modules one building takes.
pub const MAX_MODULES: i64 = 5;

/// `x / d` rounded toward zero, as integer division on `i64` does.
pub open spec fn div_toward_zero(x: int, d: int) -> int {
    if x >= 0 {
        x / d
    } else {
        -((-x) / d)
    }
}

/// What is left of `x` after taking `d` as often as `div_toward_zero` does.
pub open spec fn rem_toward_zero(x: int, d: int) -> int {
    x - d * div_toward_zero(x, d)
}

/// The groups for `recipe_count` runs: `(full, MAX_MODULES)` when `full`
/// full buildings fit, then `(1, rest)` when `rest` modules remain.
pub open spec fn module_groups_of(recipe_count: int) -> Seq<(i64, i64)> {
    let full = div_toward_zero(recipe_count, MAX_MODULES as int);
    let rest = rem_toward_zero(recipe_count, MAX_MODULES as int);
    let first: Seq<(i64, i64)> = if full > 0 {
        seq![(full as i64, MAX_MODULES)]
    } else {
        Seq::empty()
    };
    let second: Seq<(i64, i64)> = if rest != 0 {
        seq![(1i64, rest as i64)]
    } else {
        Seq::empty()
    };
    first + second
}

/// The groups of buildings that run a recipe needing a module
/// `recipe_count` times at once, one module per run: as many full buildings
/// (`MAX_MODULES` modules each) as fit, then one building with the rest of
/// the modules, if any. Each group is (number of buildings, modules each).
pub fn module_groups(recipe_count: i64) -> (r: Vec<(i64, i64)>)
    ensures
        r@ == module_groups_of(recipe_count as int),
{
    let mut groups: Vec<(i64, i64)> = Vec::new();
    let full = recipe_count / MAX_MODULES;
    let rest = recipe_count % MAX_MODULES;
    if full > 0 {
        groups.push((full, MAX_MODULES));
    }
    if rest != 0 {
        groups.push((1, rest));
    }
    assert(groups@ =~= (if full > 0 {
        seq![(full, MAX_MODULES)]
    } else {
        Seq::empty()
    }) + (if rest != 0 {
        seq![(1i64, rest)]
    } else {
        Seq::empty()
    }));
    groups
}

/// The total number of modules in `groups`.
pub open spec fn total_modules(groups: Seq<(i64, i64)>) -> int
    decreases groups.len(),
{
    if groups.len() == 0 {
        0
    } else {
        total_modules(groups.drop_last()) + groups.last().0 * groups.last().1
    }
}

/// For a number of recipe runs that is not negative, the groups hold one
/// module per run, and no building more than `MAX_MODULES`.
pub proof fn lemma_module_groups_cover(recipe_count: i64)
    requires
        recipe_count >= 0,
    ensures
        total_modules(module_groups_of(recipe_count as int)) == recipe_count,
        forall|i: int|
            0 <= i < module_groups_of(recipe_count as int).len() ==> 0 < (#[trigger] module_groups_of(
                recipe_count as int,
            )[i]).1 <= MAX_MODULES,
{
    let groups = module_groups_of(recipe_count as int);
    reveal_with_fuel(total_modules, 3);
    let full = recipe_count as int / 5;
    let rest = recipe_count as int % 5;
    assert(recipe_count == 5 * full + rest);
    assert(0 <= full <= i64::MAX);
    assert((full as i64) as int == full);
    assert((rest as i64) as int == rest);
    if full > 0 && rest != 0 {
        assert(groups =~= seq![(full as i64, 5i64), (1i64, rest as i64)]);
        assert(groups.drop_last() =~= seq![(full as i64, 5i64)]);
        assert(groups.drop_last().drop_last() =~= Seq::<(i64, i64)>::empty());
        assert(total_modules(groups.drop_last()) == full * 5);
        assert(groups.last() == (1i64, rest as i64));
        assert(groups.last().0 * groups.last().1 == rest) by (nonlinear_arith)
            requires
                groups.last().0 == 1,
                groups.last().1 == rest,
        ;
        assert(total_modules(groups) == full * 5 + rest);
    } else if full > 0 {
        assert(groups =~= seq![(full as i64, 5i64)]);
        assert(groups.drop_last() =~= Seq::<(i64, i64)>::empty());
        assert(total_modules(groups) == full * 5);
    } else if rest != 0 {
        assert(groups =~= seq![(1i64, rest as i64)]);
        assert(groups.drop_last() =~= Seq::<(i64, i64)>::empty());
        assert(groups.last() == (1i64, rest as i64));
        assert(groups.last().0 * groups.last().1 == rest) by (nonlinear_arith)
            requires
                groups.last().0 == 1,
                groups.last().1 == rest,
        ;
        assert(total_modules(groups) == rest);
    } else {
        assert(groups =~= Seq::<(i64, i64)>::empty());
    }
}

/// The total number of buildings in `groups`.
pub open spec fn total_buildings(groups: Seq<(i64, i64)>) -> int
    decreases groups.len(),
{
    if groups.len() == 0 {
        0
    } else {
        total_buildings(groups.drop_last()) + groups.last().0
    }
}

/// For a number of recipe runs that is not negative, the groups use as few
/// buildings as can hold one module per run: `ceil(recipe_count /
/// MAX_MODULES)`. Every group has at least one building; only the last may
/// have fewer than `MAX_MODULES` modules, and then it is a single building.
pub proof fn lemma_module_groups_fewest_buildings(recipe_count: i64)
    requires
        recipe_count >= 0,
    ensures
        total_buildings(module_groups_of(recipe_count as int)) == (recipe_count + MAX_MODULES - 1)
            / (MAX_MODULES as int),
        forall|i: int|
            0 <= i < module_groups_of(recipe_count as int).len() ==> (#[trigger] module_groups_of(
                recipe_count as int,
            )[i]).0 > 0,
        forall|i: int|
            0 <= i < module_groups_of(recipe_count as int).len() && (#[trigger] module_groups_of(
                recipe_count as int,
            )[i]).1 < MAX_MODULES ==> module_groups_of(recipe_count as int)[i].0 == 1 && i
                == module_groups_of(recipe_count as int).len() - 1,
{
    let groups = module_groups_of(recipe_count as int);
    reveal_with_fuel(total_buildings, 3);
    let full = recipe_count as int / 5;
    let rest = recipe_count as int % 5;
    assert(recipe_count == 5 * full + rest);
    assert((full as i64) as int == full);
    assert((rest as i64) as int == rest);
    if full > 0 && rest != 0 {
        assert(groups =~= seq![(full as i64, 5i64), (1i64, rest as i64)]);
        assert(groups.drop_last() =~= seq![(full as i64, 5i64)]);
        assert(groups.drop_last().drop_last() =~= Seq::<(i64, i64)>::empty());
        assert((recipe_count + 4) / 5 == full + 1);
    } else if full > 0 {
        assert(groups =~= seq![(full as i64, 5i64)]);
        assert(groups.drop_last() =~= Seq::<(i64, i64)>::empty());
        assert((recipe_count + 4) / 5 == full);
    } else if rest != 0 {
        assert(groups =~= seq![(1i64, rest as i64)]);
        assert(groups.drop_last() =~= Seq::<(i64, i64)>::empty());
        assert((recipe_count + 4) / 5 == 1);
    } else {
        assert(groups =~= Seq::<(i64, i64)>::empty());
        assert(recipe_count == 0);
    }
}

/// The buildings that offer recipe `recipe`, in index order.
pub fn buildings_offering<'a>(data: &'a GameData, recipe: RecipeIndex) -> (r: Vec<Query<'a, BuildingIndex>>)
    requires
        data.wf(),
    ensures
        forall|i: int| 0 <= i < r@.len() ==> (#[trigger] r@[i]).data == data,
        r@.map_values(|q: Query<'a, BuildingIndex>| q.target.position()) == offering_upto(
            data,
            recipe.position(),
            data.buildings().len() as int,
        ),
{
    let all = data.buildings_query();
    let mut r: Vec<Query<'a, BuildingIndex>> = Vec::new();
    let mut i: usize = 0;
    while i < all.len()
        invariant
            data.wf(),
            i <= all@.len(),
            all@.len() == data.buildings().len(),
            forall|k: int| 0 <= k < all@.len() ==> (#[trigger] all@[k]).data == data && all@[k].target.position() == k,
            forall|k: int| 0 <= k < r@.len() ==> (#[trigger] r@[k]).data == data,
            r@.map_values(|q: Query<'a, BuildingIndex>| q.target.position()) == offering_upto(
                data,
                recipe.position(),
                i as int,
            ),
        decreases all@.len() - i,
    {
        let building = all[i];
        let available = building.available_recipes();
        let wanted = recipe.into_usize();
        let mut found = false;
        let mut k: usize = 0;
        while k < available.len()
            invariant
                k <= available@.len(),
                wanted == recipe.position(),
                found == exists|j: int| 0 <= j < k && (#[trigger] available@[j]).position() == recipe.position(),
            decreases available@.len() - k,
        {
            if available[k].into_usize() == wanted {
                found = true;
            }
            k = k + 1;
        }
        if found {
            r.push(building);
        }
        assert(r@.map_values(|q: Query<'a, BuildingIndex>| q.target.position()) =~= offering_upto(
            data,
            recipe.position(),
            i + 1,
        ));
        i = i + 1;
    }
    r
}

/// The buildings among the first `n` that offer recipe `recipe`, as
/// positions in index order.
pub open spec fn offering_upto(data: &GameData, recipe: nat, n: int) -> Seq<nat>
    decreases n,
{
    if n <= 0 {
        Seq::empty()
    } else {
        let before = offering_upto(data, recipe, n - 1);
        if exists|j: int|
            0 <= j < data.buildings()[n - 1].available_recipes@.len() && (#[trigger] data.buildings()[n
                - 1].available_recipes@[j]).position() == recipe {
            before.push((n - 1) as nat)
        } else {
            before
        }
    }
}

/// Building `b` is among the buildings (of the first `n`) that offer
/// recipe `recipe` exactly when some entry, at any position, of its
/// available recipes is `recipe`. So `buildings_offering` gives exactly the
/// buildings that list the recipe.
pub proof fn lemma_offering_members(data: &GameData, recipe: nat, n: int, b: int)
    requires
        n <= data.buildings().len(),
        0 <= b,
    ensures
        offering_upto(data, recipe, n).contains(b as nat) <==> (0 <= b < n && exists|j: int|
            0 <= j < data.buildings()[b].available_recipes@.len()
                && (#[trigger] data.buildings()[b].available_recipes@[j]).position() == recipe),
    decreases n,
{
    if n > 0 {
        lemma_offering_members(data, recipe, n - 1, b);
        let before = offering_upto(data, recipe, n - 1);
        let after = before.push((n - 1) as nat);
        if offering_upto(data, recipe, n) == after {
            assert(after.contains(b as nat) <==> (before.contains(b as nat) || b == n - 1)) by {
                if b == n - 1 {
                    assert(after[before.len() as int] == (n - 1) as nat);
                }
                if after.contains(b as nat) {
                    let w = choose|w: int| 0 <= w < after.len() && after[w] == b as nat;
                    if w < before.len() {
                        assert(before[w] == b as nat);
                    }
                }
                if before.contains(b as nat) {
                    let w = choose|w: int| 0 <= w < before.len() && before[w] == b as nat;
                    assert(after[w] == b as nat);
                }
            }
        }
    }
}

} // verus!
