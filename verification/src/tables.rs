//! Hash tables keyed by sides, life types and vehicles.
//!
//! The configuration keeps its tables in `fxhash` maps. Each kind of table
//! has a name for what it holds, keyed by plain values, and the two
//! operations that build it: an empty table and an insertion.
use crate::cfg::{CargoConfig, Deployable, DeployableView, Troop, TroopView, deployable_views, troop_views};
use crate::kinds::{LifeType, Side, Vehicle};
use fxhash::{FxHashMap, FxHasher};
use std::hash::BuildHasherDefault;
use vstd::prelude::*;

verus! {

/// The hasher that `fxhash` tables use.
#[verifier::external_type_specification]
#[verifier::external_body]
pub struct ExFxHasher(FxHasher);

/// The builder of default hashers, here of `FxHasher`s.
#[verifier::external_type_specification]
#[verifier::external_body]
#[verifier::reject_recursive_types(H)]
pub struct ExBuildHasherDefault<H>(BuildHasherDefault<H>);

/// What a table from vehicle type names to life types holds.
pub uninterp spec fn life_type_entries(m: FxHashMap<Vehicle, LifeType>) -> Map<Seq<char>, LifeType>;

/// `FxHashMap::default`, which the std `Default` of `HashMap` documents as an empty map.
#[verifier::external_body]
pub(crate) fn new_life_type_table() -> (m: FxHashMap<Vehicle, LifeType>)
    ensures
        life_type_entries(m).is_empty(),
{
    FxHashMap::default()
}

/// `HashMap::insert`: afterwards the key maps to the value and every other
/// key keeps its value. Vehicles compare by their derived `Eq`, that is by
/// name, so the table is keyed by the vehicle's name.
#[verifier::external_body]
pub(crate) fn insert_life_type(m: &mut FxHashMap<Vehicle, LifeType>, k: Vehicle, v: LifeType)
    ensures
        life_type_entries(*final(m)) == life_type_entries(*old(m)).insert(k@, v),
{
    m.insert(k, v);
}

/// What a table from life types to (lives per reset, reset seconds) holds.
pub uninterp spec fn lives_entries(m: FxHashMap<LifeType, (u8, u32)>) -> Map<LifeType, (u8, u32)>;

/// `FxHashMap::default`, which the std `Default` of `HashMap` documents as an empty map.
#[verifier::external_body]
pub(crate) fn new_lives_table() -> (m: FxHashMap<LifeType, (u8, u32)>)
    ensures
        lives_entries(m).is_empty(),
{
    FxHashMap::default()
}

/// `HashMap::insert`: afterwards the key maps to the value and every other
/// key keeps its value.
#[verifier::external_body]
pub(crate) fn insert_lives(m: &mut FxHashMap<LifeType, (u8, u32)>, k: LifeType, v: (u8, u32))
    ensures
        lives_entries(*final(m)) == lives_entries(*old(m)).insert(k, v),
{
    m.insert(k, v);
}

/// What a table from vehicle type names to cargo configurations holds.
pub uninterp spec fn cargo_entries(m: FxHashMap<Vehicle, CargoConfig>) -> Map<Seq<char>, CargoConfig>;

/// `FxHashMap::default`, which the std `Default` of `HashMap` documents as an empty map.
#[verifier::external_body]
pub(crate) fn new_cargo_table() -> (m: FxHashMap<Vehicle, CargoConfig>)
    ensures
        cargo_entries(m).is_empty(),
{
    FxHashMap::default()
}

/// `HashMap::insert`: afterwards the key maps to the value and every other
/// key keeps its value. Vehicles compare by their derived `Eq`, that is by
/// name, so the table is keyed by the vehicle's name.
#[verifier::external_body]
pub(crate) fn insert_cargo(m: &mut FxHashMap<Vehicle, CargoConfig>, k: Vehicle, v: CargoConfig)
    ensures
        cargo_entries(*final(m)) == cargo_entries(*old(m)).insert(k@, v),
{
    m.insert(k, v);
}

/// What a table from sides to crate group templates holds.
pub uninterp spec fn template_entries(m: FxHashMap<Side, String>) -> Map<Side, Seq<char>>;

/// `FxHashMap::default`, which the std `Default` of `HashMap` documents as an empty map.
#[verifier::external_body]
pub(crate) fn new_template_table() -> (m: FxHashMap<Side, String>)
    ensures
        template_entries(m).is_empty(),
{
    FxHashMap::default()
}

/// `HashMap::insert`: afterwards the key maps to the value and every other
/// key keeps its value.
#[verifier::external_body]
pub(crate) fn insert_template(m: &mut FxHashMap<Side, String>, k: Side, v: String)
    ensures
        template_entries(*final(m)) == template_entries(*old(m)).insert(k, v@),
{
    m.insert(k, v);
}

/// What a table from sides to deployable lists holds.
pub uninterp spec fn deployable_entries(m: FxHashMap<Side, Vec<Deployable>>) -> Map<Side, Seq<DeployableView>>;

/// `FxHashMap::default`, which the std `Default` of `HashMap` documents as an empty map.
#[verifier::external_body]
pub(crate) fn new_deployable_table() -> (m: FxHashMap<Side, Vec<Deployable>>)
    ensures
        deployable_entries(m).is_empty(),
{
    FxHashMap::default()
}

/// `HashMap::insert`: afterwards the key maps to the value and every other
/// key keeps its value.
#[verifier::external_body]
pub(crate) fn insert_deployable(m: &mut FxHashMap<Side, Vec<Deployable>>, k: Side, v: Vec<Deployable>)
    ensures
        deployable_entries(*final(m)) == deployable_entries(*old(m)).insert(k, deployable_views(v@)),
{
    m.insert(k, v);
}

/// What a table from sides to troop lists holds.
pub uninterp spec fn troop_entries(m: FxHashMap<Side, Vec<Troop>>) -> Map<Side, Seq<TroopView>>;

/// `FxHashMap::default`, which the std `Default` of `HashMap` documents as an empty map.
#[verifier::external_body]
pub(crate) fn new_troop_table() -> (m: FxHashMap<Side, Vec<Troop>>)
    ensures
        troop_entries(m).is_empty(),
{
    FxHashMap::default()
}

/// `HashMap::insert`: afterwards the key maps to the value and every other
/// key keeps its value.
#[verifier::external_body]
pub(crate) fn insert_troop(m: &mut FxHashMap<Side, Vec<Troop>>, k: Side, v: Vec<Troop>)
    ensures
        troop_entries(*final(m)) == troop_entries(*old(m)).insert(k, troop_views(v@)),
{
    m.insert(k, v);
}

} // verus!
