//! Space stations: sizes and the costs, hit points and shields that follow
//! from a station's size, and the station rows that carry no floating-point
//! columns.

use vstd::prelude::*;
use crate::identity::Timestamp;

verus! {

#[derive(Clone, Copy, Debug, PartialEq, Eq, Structural)]
pub enum StationSize {
    /// Singular faction hub.
    Capital,
    Large,
    Medium,
    Small,
    Outpost,
    Satellite,
}

#[derive(Clone, Copy, Debug, PartialEq, Eq, Structural)]
pub enum StationModuleCategory {
    LogisticsAndStorage,
    ResourceProductionAndRefining,
    ManufacturingAndAssembly,
    ResearchAndDevelopment,
    CivilianAndSupportServices,
    DiplomacyAndFaction,
    DefenseAndMilitary,
}

/// What a module blueprint is, more precisely than its category.
#[derive(Clone, Copy, Debug, PartialEq, Eq, Structural)]
pub enum StationModuleSpecificType {
    TradingPort,
    StorageDepot,
    CapitalDock,
    Wharf,
    FarmStandard,
    FarmLuxury,
    RefineryBasicOre,
    RefineryAdvancedOre,
    RefineryExoticOre,
    SolarArray,
    SynthesizerJumpFuel,
    FactoryBasicComponents,
    FactoryAdvancedComponents,
    AssemblerShipModules,
    AssemblerStationModules,
    FabricatorElectronics,
    ComponentAssembler,
    ShipyardFabrication,
    Laboratory,
    Observatory,
    ResidentialBasic,
    ResidentialSpacious,
    ResidentialLuxury,
    Hospital,
    Embassy,
    AntiCapitalTurretKinetic,
    AntiCapitalTurretEnergy,
    FighterBay,
    GarrisonRegionalDefense,
}

/// A module installed in a station.
#[derive(Clone, Debug)]
pub struct StationModule {
    pub id: u64,
    pub station_id: u64,
    /// The module's blueprint.
    pub blueprint: u32,
    pub station_slot_identifier: String,
    pub is_operational: bool,
    pub built_at_timestamp: Option<Timestamp>,
    pub last_status_update_timestamp: Timestamp,
}

/// Items a module holds for its operation or as input and output buffers.
#[derive(Clone, Debug)]
pub struct StationModuleInventoryItem {
    pub id: u64,
    pub module_id: u64,
    pub resource_item_id: u32,
    pub quantity: u32,
    pub max_quantity: u32,
    /// The purpose, e.g. "InputBuffer", "OutputBuffer", "OperationalFuel".
    pub storage_purpose_tag: String,
    /// Cached price at which the station buys and sells.
    pub cached_price: u32,
}

#[derive(Clone, Debug)]
pub struct Station {
    pub id: u64,
    pub size: StationSize,
    pub sector_id: u64,
    pub sobj_id: u64,
    pub owner_faction_id: u32,
    pub name: String,
    pub gfx_key: Option<String>,
}

/// How many modules a station of this size supports.
pub open spec fn spec_max_module_amount(size: StationSize) -> u8 {
    match size {
        StationSize::Capital => 13,
        StationSize::Large => 9,
        StationSize::Medium => 7,
        StationSize::Small => 5,
        StationSize::Outpost => 3,
        StationSize::Satellite => 1,
    }
}

pub open spec fn modules_squared(size: StationSize) -> int {
    spec_max_module_amount(size) * spec_max_module_amount(size)
}

pub open spec fn spec_base_cost(size: StationSize) -> int {
    modules_squared(size) * 100_000 + 300_000
}

pub open spec fn spec_upgrade_cost(from: StationSize, to: StationSize) -> int {
    spec_base_cost(to) - spec_base_cost(from) + (spec_max_module_amount(to) - spec_max_module_amount(from))
}

pub open spec fn spec_base_health(size: StationSize) -> int {
    modules_squared(size) * 25_000 + 100_000
}

pub open spec fn spec_base_shields(size: StationSize) -> int {
    modules_squared(size) * 50_000 + 200_000
}

impl StationSize {
    /// How many modules this size supports.
    pub fn max_module_amount(&self) -> (r: u8)
        ensures
            r == spec_max_module_amount(*self),
    {
        match self {
            StationSize::Capital => 13,
            StationSize::Large => 9,
            StationSize::Medium => 7,
            StationSize::Small => 5,
            StationSize::Outpost => 3,
            StationSize::Satellite => 1,
        }
    }

    fn modules_squared(&self) -> (r: u32)
        ensures
            r == modules_squared(*self),
            r <= 169,
    {
        let m = self.max_module_amount() as u32;
        assert(m * m <= 169) by (nonlinear_arith)
            requires
                m <= 13,
        ;
        m * m
    }

    pub fn calculate_base_cost(&self) -> (r: u32)
        ensures
            r == spec_base_cost(*self),
    {
        self.modules_squared() * 100_000 + 300_000
    }

    /// Retooling a station to a larger size is possible but discouraged: it
    /// costs the difference of the base costs plus the number of module
    /// slots gained. The size must not shrink.
    pub fn calculate_upgrade_cost(&self, new_size: StationSize) -> (r: u32)
        requires
            spec_max_module_amount(*self) <= spec_max_module_amount(new_size),
        ensures
            r == spec_upgrade_cost(*self, new_size),
    {
        proof {
            lemma_costs_follow_module_amount(*self, new_size);
        }
        new_size.calculate_base_cost() - self.calculate_base_cost()
            + ((new_size.max_module_amount() - self.max_module_amount()) as u32)
    }

    pub fn calculate_base_health(&self) -> (r: u32)
        ensures
            r == spec_base_health(*self),
    {
        self.modules_squared() * 25_000 + 100_000
    }

    pub fn calculate_base_shields(&self) -> (r: u32)
        ensures
            r == spec_base_shields(*self),
    {
        self.modules_squared() * 50_000 + 200_000
    }
}

/// Base cost, health and shields grow strictly with the number of modules
/// a size supports.
pub proof fn lemma_costs_follow_module_amount(a: StationSize, b: StationSize)
    ensures
        spec_max_module_amount(a) < spec_max_module_amount(b) ==> {
            &&& spec_base_cost(a) < spec_base_cost(b)
            &&& spec_base_health(a) < spec_base_health(b)
            &&& spec_base_shields(a) < spec_base_shields(b)
        },
        spec_max_module_amount(a) <= spec_max_module_amount(b) ==> spec_base_cost(a) <= spec_base_cost(b),
{
}

/// Sizes are listed from the largest down: each supports strictly more
/// modules than the next.
pub proof fn lemma_sizes_descend()
    ensures
        spec_max_module_amount(StationSize::Capital) > spec_max_module_amount(StationSize::Large),
        spec_max_module_amount(StationSize::Large) > spec_max_module_amount(StationSize::Medium),
        spec_max_module_amount(StationSize::Medium) > spec_max_module_amount(StationSize::Small),
        spec_max_module_amount(StationSize::Small) > spec_max_module_amount(StationSize::Outpost),
        spec_max_module_amount(StationSize::Outpost) > spec_max_module_amount(StationSize::Satellite),
{
}

/// Keeping the same size costs nothing.
pub proof fn lemma_upgrade_to_same_size_is_free(size: StationSize)
    ensures
        spec_upgrade_cost(size, size) == 0,
{
}

/// Upgrading in two steps costs the same as upgrading at once, and an
/// upgrade to a strictly larger size is never free.
pub proof fn lemma_upgrade_cost_composes(a: StationSize, b: StationSize, c: StationSize)
    requires
        spec_max_module_amount(a) <= spec_max_module_amount(b),
        spec_max_module_amount(b) <= spec_max_module_amount(c),
    ensures
        spec_upgrade_cost(a, b) + spec_upgrade_cost(b, c) == spec_upgrade_cost(a, c),
        spec_max_module_amount(a) < spec_max_module_amount(b) ==> spec_upgrade_cost(a, b) > 0,
{
    lemma_costs_follow_module_amount(a, b);
}

} // verus!
