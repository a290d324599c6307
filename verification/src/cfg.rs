//! The mission configuration: what players may deploy, carry and spend.
use crate::kinds::{LifeType, Side, Vehicle};
use crate::tables::{
    cargo_entries, deployable_entries, insert_cargo, insert_deployable, insert_life_type, insert_lives,
    insert_template, insert_troop, life_type_entries, lives_entries, new_cargo_table, new_deployable_table,
    new_life_type_table, new_lives_table, new_template_table, new_troop_table, template_entries, troop_entries,
};
use fxhash::FxHashMap;
use vstd::prelude::*;

verus! {

/// How long something that players deployed persists.
#[derive(Clone, Copy, Debug, PartialEq, Eq, Structural)]
pub enum PersistTyp {
    /// The deployable persists until it is destroyed
    Forever,
    /// The deployable doesn't persist across restarts
    UntilRestart,
    /// The deployable persists for the given number of real world seconds,
    /// held as the bit pattern of that `f32` number
    WallTime(u32),
    /// The deployable persists for the specified number
    /// of server restart cycles
    Restarts(u32),
}

/// What happens when the number of instances of a deployable reaches its limit.
#[derive(Clone, Copy, Debug, PartialEq, Eq, Structural)]
pub enum LimitEnforceTyp {
    /// Handle the limit by removing the oldest instance of the deployable when
    /// a new one is unpacked.
    DeleteOldest,
    /// Handle the limit by refusing to spawn new construction crates for
    /// the deployable
    DenyCrate,
}

/// A kind of construction crate.
#[derive(Clone, Debug)]
pub struct Crate {
    /// The name of the crate in the menu
    pub name: String,
    /// The weight of the crate in kg
    pub weight: u32,
    /// The number of crates of this type required to build the deployable
    pub required: u32,
}

/// A crate, with its name as a sequence of characters.
pub struct CrateView {
    pub name: Seq<char>,
    pub weight: u32,
    pub required: u32,
}

impl View for Crate {
    type V = CrateView;

    open spec fn view(&self) -> CrateView {
        CrateView { name: self.name@, weight: self.weight, required: self.required }
    }
}

/// Something that players build out of crates.
#[derive(Clone, Debug)]
pub struct Deployable {
    /// The full menu path of the deployable in the menu
    pub path: Vec<String>,
    /// The template used to spawn the deployable
    pub template: String,
    /// How the deployable should persist across restarts
    pub persist: PersistTyp,
    /// How many instances are allowed at the same time
    pub limit: u32,
    /// How to deal with it when the max number of instances are deployed and
    /// a player wants to deploy a new instance
    pub limit_enforce: LimitEnforceTyp,
    /// What crates are required to build the deployable
    pub crates: Vec<Crate>,
    /// Can the damaged deployable be repaired, and if so, by which crate
    pub repair_crate: Option<Crate>,
    /// Does this deployable provide logistics services, if so, what is its
    /// exclusion zone size
    pub logistics: Option<u32>,
}

/// A deployable, with its texts as sequences of characters.
#[verifier::ext_equal]
pub struct DeployableView {
    pub path: Seq<Seq<char>>,
    pub template: Seq<char>,
    pub persist: PersistTyp,
    pub limit: u32,
    pub limit_enforce: LimitEnforceTyp,
    pub crates: Seq<CrateView>,
    pub repair_crate: Option<CrateView>,
    pub logistics: Option<u32>,
}

/// The texts of a sequence of strings.
pub open spec fn string_views(s: Seq<String>) -> Seq<Seq<char>> {
    s.map_values(|x: String| x@)
}

/// The views of a sequence of crates.
pub open spec fn crate_views(s: Seq<Crate>) -> Seq<CrateView> {
    s.map_values(|c: Crate| c@)
}

impl View for Deployable {
    type V = DeployableView;

    open spec fn view(&self) -> DeployableView {
        DeployableView {
            path: string_views(self.path@),
            template: self.template@,
            persist: self.persist,
            limit: self.limit,
            limit_enforce: self.limit_enforce,
            crates: crate_views(self.crates@),
            repair_crate: match self.repair_crate {
                Some(c) => Some(c@),
                None => None,
            },
            logistics: self.logistics,
        }
    }
}

/// A squad of troops that a transport can carry.
#[derive(Clone, Debug)]
pub struct Troop {
    /// The name of the squad in the menu
    pub name: String,
    /// The name of the template used to spawn the group
    pub template: String,
    /// How the troops will persist
    pub persist: PersistTyp,
    /// Can the troops capture objectives?
    pub can_capture: bool,
    /// How many simultaneous instances of the group are allowed
    pub limit: u32,
    /// How to deal with it when the max number of instances are deployed and the user
    /// wants to deploy an additional instance
    pub limit_enforce: LimitEnforceTyp,
    /// How much weight does the group add to the carrier unit
    pub weight: u32,
}

/// A troop, with its texts as sequences of characters.
pub struct TroopView {
    pub name: Seq<char>,
    pub template: Seq<char>,
    pub persist: PersistTyp,
    pub can_capture: bool,
    pub limit: u32,
    pub limit_enforce: LimitEnforceTyp,
    pub weight: u32,
}

impl View for Troop {
    type V = TroopView;

    open spec fn view(&self) -> TroopView {
        TroopView {
            name: self.name@,
            template: self.template@,
            persist: self.persist,
            can_capture: self.can_capture,
            limit: self.limit,
            limit_enforce: self.limit_enforce,
            weight: self.weight,
        }
    }
}

/// The views of a sequence of deployables.
pub open spec fn deployable_views(s: Seq<Deployable>) -> Seq<DeployableView> {
    s.map_values(|d: Deployable| d@)
}

/// The views of a sequence of troops.
pub open spec fn troop_views(s: Seq<Troop>) -> Seq<TroopView> {
    s.map_values(|t: Troop| t@)
}

/// How much a vehicle can carry.
#[derive(Clone, Copy, Debug, PartialEq, Eq, Structural)]
pub struct CargoConfig {
    /// How many troop slots does this vehicle have
    pub troop_slots: u8,
    /// How many crate slots does this vehicle have
    pub crate_slots: u8,
    /// How many total troops and crates can this vehicle carry.
    /// e.g. if troop_slots is 1, crate_slots is 1, and total_slots is 1
    /// then the vehicle can carry either a troop or a crate but not both.
    pub total_slots: u16,
}

/// A default troop entry: it persists forever, ten may be out at once, the oldest goes first.
pub open spec fn troop_spec(name: Seq<char>, template: Seq<char>, can_capture: bool, weight: u32) -> TroopView {
    TroopView {
        name,
        template,
        persist: PersistTyp::Forever,
        can_capture,
        limit: 10,
        limit_enforce: LimitEnforceTyp::DeleteOldest,
        weight,
    }
}

/// The troops that the red side may deploy by default.
pub open spec fn red_troops_table() -> Seq<TroopView> {
    seq![
        troop_spec("JTAC Squad"@, "RJTACTROOP"@, false, 1200),
        troop_spec("Standard Squad"@, "RSTANDARDTROOP"@, true, 800),
        troop_spec("Anti Tank Squad"@, "RATTROOP"@, true, 1000),
        troop_spec("Mortar Squad"@, "RMORTARTROOP"@, true, 1200),
        troop_spec("Igla Squad"@, "RIGLATROOP"@, false, 500),
    ]
}

/// On both sides the squads that can capture objectives are exactly the
/// Standard, Anti Tank and Mortar squads, the second to fourth entries.
pub proof fn lemma_capturing_squads()
    ensures
        forall|i: int|
            0 <= i < red_troops_table().len() ==> ((#[trigger] red_troops_table()[i]).can_capture
                <==> (i == 1 || i == 2 || i == 3)),
        forall|i: int|
            0 <= i < blue_troops_table().len() ==> ((#[trigger] blue_troops_table()[i]).can_capture
                <==> (i == 1 || i == 2 || i == 3)),
{
}

/// The troops that the red side may deploy by default.
pub fn default_red_troops() -> (troops: Vec<Troop>)
    ensures
        troop_views(troops@) == red_troops_table(),
        troops@.len() == 5,
        troops@[0]@.name == "JTAC Squad"@,
        troops@[0]@.template == "RJTACTROOP"@,
        troops@[0]@.weight == 1200,
        troops@[1]@.name == "Standard Squad"@,
        troops@[1]@.template == "RSTANDARDTROOP"@,
        troops@[1]@.weight == 800,
        troops@[2]@.name == "Anti Tank Squad"@,
        troops@[2]@.template == "RATTROOP"@,
        troops@[2]@.weight == 1000,
        troops@[3]@.name == "Mortar Squad"@,
        troops@[3]@.template == "RMORTARTROOP"@,
        troops@[3]@.weight == 1200,
        troops@[4]@.name == "Igla Squad"@,
        troops@[4]@.template == "RIGLATROOP"@,
        troops@[4]@.weight == 500,
        forall|i: int|
            0 <= i < troops@.len() ==> ((#[trigger] troops@[i]).can_capture <==> (i == 1 || i == 2 || i == 3)),
        forall|i: int|
            0 <= i < troops@.len() ==> (#[trigger] troops@[i]).limit == 10 && troops@[i].persist
                == PersistTyp::Forever && troops@[i].limit_enforce == LimitEnforceTyp::DeleteOldest,
{
    let troops = vec![
        Troop {
            name: "JTAC Squad".to_owned(),
            template: "RJTACTROOP".to_owned(),
            persist: PersistTyp::Forever,
            can_capture: false,
            limit: 10,
            limit_enforce: LimitEnforceTyp::DeleteOldest,
            weight: 1200,
        },
        Troop {
            name: "Standard Squad".to_owned(),
            template: "RSTANDARDTROOP".to_owned(),
            persist: PersistTyp::Forever,
            can_capture: true,
            limit: 10,
            limit_enforce: LimitEnforceTyp::DeleteOldest,
            weight: 800,
        },
        Troop {
            name: "Anti Tank Squad".to_owned(),
            template: "RATTROOP".to_owned(),
            persist: PersistTyp::Forever,
            can_capture: true,
            limit: 10,
            limit_enforce: LimitEnforceTyp::DeleteOldest,
            weight: 1000,
        },
        Troop {
            name: "Mortar Squad".to_owned(),
            template: "RMORTARTROOP".to_owned(),
            persist: PersistTyp::Forever,
            can_capture: true,
            limit: 10,
            limit_enforce: LimitEnforceTyp::DeleteOldest,
            weight: 1200,
        },
        Troop {
            name: "Igla Squad".to_owned(),
            template: "RIGLATROOP".to_owned(),
            persist: PersistTyp::Forever,
            can_capture: false,
            limit: 10,
            limit_enforce: LimitEnforceTyp::DeleteOldest,
            weight: 500,
        },
    ];
    assert(troop_views(troops@) =~= red_troops_table());
    troops
}

/// The troops that the blue side may deploy by default.
pub open spec fn blue_troops_table() -> Seq<TroopView> {
    seq![
        troop_spec("JTAC Squad"@, "BJTACTROOP"@, false, 1200),
        troop_spec("Standard Squad"@, "BSTANDARDTROOP"@, true, 800),
        troop_spec("Anti Tank Squad"@, "BATTROOP"@, true, 1000),
        troop_spec("Mortar Squad"@, "BMORTARTROOP"@, true, 1200),
        troop_spec("Stinger Squad"@, "BSTINGERROOP"@, false, 500),
    ]
}

/// The troops that the blue side may deploy by default.
pub fn default_blue_troops() -> (troops: Vec<Troop>)
    ensures
        troop_views(troops@) == blue_troops_table(),
        troops@.len() == 5,
        troops@[0]@.name == "JTAC Squad"@,
        troops@[0]@.template == "BJTACTROOP"@,
        troops@[0]@.weight == 1200,
        troops@[1]@.name == "Standard Squad"@,
        troops@[1]@.template == "BSTANDARDTROOP"@,
        troops@[1]@.weight == 800,
        troops@[2]@.name == "Anti Tank Squad"@,
        troops@[2]@.template == "BATTROOP"@,
        troops@[2]@.weight == 1000,
        troops@[3]@.name == "Mortar Squad"@,
        troops@[3]@.template == "BMORTARTROOP"@,
        troops@[3]@.weight == 1200,
        troops@[4]@.name == "Stinger Squad"@,
        troops@[4]@.template == "BSTINGERROOP"@,
        troops@[4]@.weight == 500,
        forall|i: int|
            0 <= i < troops@.len() ==> ((#[trigger] troops@[i]).can_capture <==> (i == 1 || i == 2 || i == 3)),
        forall|i: int|
            0 <= i < troops@.len() ==> (#[trigger] troops@[i]).limit == 10 && troops@[i].persist
                == PersistTyp::Forever && troops@[i].limit_enforce == LimitEnforceTyp::DeleteOldest,
{
    let troops = vec![
        Troop {
            name: "JTAC Squad".to_owned(),
            template: "BJTACTROOP".to_owned(),
            persist: PersistTyp::Forever,
            can_capture: false,
            limit: 10,
            limit_enforce: LimitEnforceTyp::DeleteOldest,
            weight: 1200,
        },
        Troop {
            name: "Standard Squad".to_owned(),
            template: "BSTANDARDTROOP".to_owned(),
            persist: PersistTyp::Forever,
            can_capture: true,
            limit: 10,
            limit_enforce: LimitEnforceTyp::DeleteOldest,
            weight: 800,
        },
        Troop {
            name: "Anti Tank Squad".to_owned(),
            template: "BATTROOP".to_owned(),
            persist: PersistTyp::Forever,
            can_capture: true,
            limit: 10,
            limit_enforce: LimitEnforceTyp::DeleteOldest,
            weight: 1000,
        },
        Troop {
            name: "Mortar Squad".to_owned(),
            template: "BMORTARTROOP".to_owned(),
            persist: PersistTyp::Forever,
            can_capture: true,
            limit: 10,
            limit_enforce: LimitEnforceTyp::DeleteOldest,
            weight: 1200,
        },
        Troop {
            name: "Stinger Squad".to_owned(),
            template: "BSTINGERROOP".to_owned(),
            persist: PersistTyp::Forever,
            can_capture: false,
            limit: 10,
            limit_enforce: LimitEnforceTyp::DeleteOldest,
            weight: 500,
        },
    ];
    assert(troop_views(troops@) =~= blue_troops_table());
    troops
}

/// A crate entry of the default tables.
pub open spec fn crate_spec(name: Seq<char>, weight: u32, required: u32) -> CrateView {
    CrateView { name, weight, required }
}

/// A default deployable entry: it persists forever and the oldest instance
/// goes first when the limit is reached.
pub open spec fn deployable_spec(
    path: Seq<Seq<char>>,
    template: Seq<char>,
    limit: u32,
    crates: Seq<CrateView>,
    repair_crate: Option<CrateView>,
    logistics: Option<u32>,
) -> DeployableView {
    DeployableView {
        path,
        template,
        persist: PersistTyp::Forever,
        limit,
        limit_enforce: LimitEnforceTyp::DeleteOldest,
        crates,
        repair_crate,
        logistics,
    }
}

/// The deployables that the red side may build by default.
pub open spec fn red_deployables_table() -> Seq<DeployableView> {
    seq![
        deployable_spec(
            seq!["Radar SAMs"@, "SA 6 Kub"@],
            "DEPSA6"@,
            4,
            seq![crate_spec("Kub Launcher"@, 1000, 1), crate_spec("Kub Radar"@, 1000, 1)],
            Some(crate_spec("Kub Repair"@, 1200, 1)),
            None,
        ),
        deployable_spec(
            seq!["Radar SAMs"@, "SA 11 Buk"@],
            "DEPSA11"@,
            2,
            seq![crate_spec("SA11 Launcher"@, 1000, 2), crate_spec("SA11 Search Radar"@, 1000, 1), crate_spec("SA11 CC"@, 1000, 1)],
            Some(crate_spec("Buk Repair"@, 1200, 1)),
            None,
        ),
        deployable_spec(
            seq!["Radar SAMs"@, "SA15 Tor"@],
            "DEPSA15"@,
            2,
            seq![crate_spec("SA15 Tor"@, 1000, 3)],
            None,
            None,
        ),
        deployable_spec(
            seq!["Radar SAMs"@, "SA8 Osa"@],
            "DEPSA8"@,
            4,
            seq![crate_spec("SA8 Osa"@, 1000, 2)],
            None,
            None,
        ),
        deployable_spec(
            seq!["AAA"@, "ZU23 Emplacement"@],
            "DEPZU23"@,
            10,
            seq![crate_spec("ZU23 Emplacement"@, 500, 1)],
            None,
            None,
        ),
        deployable_spec(
            seq!["AAA"@, "Shilka"@],
            "DEPSHILKA"@,
            6,
            seq![crate_spec("Shilka Crate"@, 1000, 2)],
            None,
            None,
        ),
        deployable_spec(
            seq!["AAA"@, "Tunguska"@],
            "DEPTUNGUSKA"@,
            6,
            seq![crate_spec("Tunguska Crate"@, 1000, 2)],
            None,
            None,
        ),
        deployable_spec(
            seq!["IR SAMs"@, "SA13 Strela"@],
            "DEPSA13"@,
            10,
            seq![crate_spec("SA13 Strela Crate"@, 1000, 2)],
            None,
            None,
        ),
        deployable_spec(
            seq!["Ground Units"@, "M109"@],
            "DEPM109"@,
            10,
            seq![crate_spec("M109 Crate"@, 1000, 1)],
            None,
            None,
        ),
        deployable_spec(
            seq!["FARP"@],
            "DEPFARP"@,
            4,
            seq![crate_spec("FARP Crate"@, 1000, 4)],
            Some(crate_spec("FARP Repair"@, 1000, 1)),
            Some(2000u32),
        ),
    ]
}

/// The deployables that the blue side may build by default.
pub open spec fn blue_deployables_table() -> Seq<DeployableView> {
    seq![
        deployable_spec(
            seq!["Radar SAMs"@, "Roland ADS"@],
            "DEPROLAND"@,
            4,
            seq![crate_spec("Roland"@, 1000, 2)],
            None,
            None,
        ),
        deployable_spec(
            seq!["Radar SAMs"@, "Hawk System"@],
            "DEPHAWK"@,
            4,
            seq![crate_spec("Hawk Launcher"@, 1000, 1), crate_spec("Hawk Search Radar"@, 1000, 1), crate_spec("Hawk Track Radar"@, 1000, 1), crate_spec("Hawk CC"@, 1000, 1)],
            Some(crate_spec("Hawk Repair"@, 1200, 1)),
            None,
        ),
        deployable_spec(
            seq!["IR SAMs"@, "Avenger"@],
            "DEPAVENGER"@,
            4,
            seq![crate_spec("Avenger Crate"@, 1000, 2)],
            None,
            None,
        ),
        deployable_spec(
            seq!["IR SAMs"@, "Linebacker"@],
            "DEPLINEBACKER"@,
            4,
            seq![crate_spec("Linebacker Crate"@, 1000, 2)],
            None,
            None,
        ),
        deployable_spec(
            seq!["AAA"@, "Flakpanzergepard"@],
            "DEPGEPARD"@,
            4,
            seq![crate_spec("Flakpanzergepard Crate"@, 1000, 2)],
            None,
            None,
        ),
        deployable_spec(
            seq!["AAA"@, "Vulkan"@],
            "DEPVULKAN"@,
            4,
            seq![crate_spec("Vulkan Crate"@, 1000, 2)],
            None,
            None,
        ),
        deployable_spec(
            seq!["Ground Units"@, "M109"@],
            "DEPM109"@,
            10,
            seq![crate_spec("M109 Crate"@, 1000, 1)],
            None,
            None,
        ),
        deployable_spec(
            seq!["FARP"@],
            "DEPFARP"@,
            4,
            seq![crate_spec("FARP Crate"@, 1000, 4)],
            Some(crate_spec("FARP Repair"@, 1000, 1)),
            Some(2000u32),
        ),
    ]
}

/// Within each side, no two default deployables spawn the same template.
pub proof fn lemma_deployable_templates_distinct()
    ensures
        forall|i: int, j: int|
            0 <= i < j < red_deployables_table().len() ==> (#[trigger] red_deployables_table()[i]).template
                != (#[trigger] red_deployables_table()[j]).template,
        forall|i: int, j: int|
            0 <= i < j < blue_deployables_table().len() ==> (#[trigger] blue_deployables_table()[i]).template
                != (#[trigger] blue_deployables_table()[j]).template,
{
    reveal_strlit("DEPSA6");
    reveal_strlit("DEPSA11");
    reveal_strlit("DEPSA15");
    reveal_strlit("DEPSA8");
    reveal_strlit("DEPZU23");
    reveal_strlit("DEPSHILKA");
    reveal_strlit("DEPTUNGUSKA");
    reveal_strlit("DEPSA13");
    reveal_strlit("DEPM109");
    reveal_strlit("DEPFARP");
    reveal_strlit("DEPROLAND");
    reveal_strlit("DEPHAWK");
    reveal_strlit("DEPAVENGER");
    reveal_strlit("DEPLINEBACKER");
    reveal_strlit("DEPGEPARD");
    reveal_strlit("DEPVULKAN");
    let r = red_deployables_table();
    let b = blue_deployables_table();
    assert forall|i: int, j: int| 0 <= i < j < r.len() implies (#[trigger] r[i]).template
        != (#[trigger] r[j]).template by {
        if r[i].template.len() == r[j].template.len() {
            assert(r[i].template[3] != r[j].template[3] || r[i].template[4] != r[j].template[4]
                || r[i].template[5] != r[j].template[5] || r[i].template[6] != r[j].template[6]);
        }
    }
    assert forall|i: int, j: int| 0 <= i < j < b.len() implies (#[trigger] b[i]).template
        != (#[trigger] b[j]).template by {
        if b[i].template.len() == b[j].template.len() {
            assert(b[i].template[3] != b[j].template[3] || b[i].template[4] != b[j].template[4]
                || b[i].template[5] != b[j].template[5]);
        }
    }
}

/// The deployables that the red side may build by default.
pub fn default_red_deployables() -> (deployables: Vec<Deployable>)
    ensures
        deployable_views(deployables@) == red_deployables_table(),
        deployables@.len() == 10,
        deployables@[0]@.path == seq!["Radar SAMs"@, "SA 6 Kub"@],
        deployables@[0]@.template == "DEPSA6"@,
        deployables@[0]@.limit == 4,
        deployables@[0]@.crates == seq![(CrateView { name: "Kub Launcher"@, weight: 1000, required: 1 }), (CrateView { name: "Kub Radar"@, weight: 1000, required: 1 })],
        deployables@[0]@.repair_crate == Some((CrateView { name: "Kub Repair"@, weight: 1200, required: 1 })),
        deployables@[0]@.logistics is None,
        deployables@[1]@.path == seq!["Radar SAMs"@, "SA 11 Buk"@],
        deployables@[1]@.template == "DEPSA11"@,
        deployables@[1]@.limit == 2,
        deployables@[1]@.crates == seq![(CrateView { name: "SA11 Launcher"@, weight: 1000, required: 2 }), (CrateView { name: "SA11 Search Radar"@, weight: 1000, required: 1 }), (CrateView { name: "SA11 CC"@, weight: 1000, required: 1 })],
        deployables@[1]@.repair_crate == Some((CrateView { name: "Buk Repair"@, weight: 1200, required: 1 })),
        deployables@[1]@.logistics is None,
        deployables@[2]@.path == seq!["Radar SAMs"@, "SA15 Tor"@],
        deployables@[2]@.template == "DEPSA15"@,
        deployables@[2]@.limit == 2,
        deployables@[2]@.crates == seq![(CrateView { name: "SA15 Tor"@, weight: 1000, required: 3 })],
        deployables@[2]@.repair_crate is None,
        deployables@[2]@.logistics is None,
        deployables@[3]@.path == seq!["Radar SAMs"@, "SA8 Osa"@],
        deployables@[3]@.template == "DEPSA8"@,
        deployables@[3]@.limit == 4,
        deployables@[3]@.crates == seq![(CrateView { name: "SA8 Osa"@, weight: 1000, required: 2 })],
        deployables@[3]@.repair_crate is None,
        deployables@[3]@.logistics is None,
        deployables@[4]@.path == seq!["AAA"@, "ZU23 Emplacement"@],
        deployables@[4]@.template == "DEPZU23"@,
        deployables@[4]@.limit == 10,
        deployables@[4]@.crates == seq![(CrateView { name: "ZU23 Emplacement"@, weight: 500, required: 1 })],
        deployables@[4]@.repair_crate is None,
        deployables@[4]@.logistics is None,
        deployables@[5]@.path == seq!["AAA"@, "Shilka"@],
        deployables@[5]@.template == "DEPSHILKA"@,
        deployables@[5]@.limit == 6,
        deployables@[5]@.crates == seq![(CrateView { name: "Shilka Crate"@, weight: 1000, required: 2 })],
        deployables@[5]@.repair_crate is None,
        deployables@[5]@.logistics is None,
        deployables@[6]@.path == seq!["AAA"@, "Tunguska"@],
        deployables@[6]@.template == "DEPTUNGUSKA"@,
        deployables@[6]@.limit == 6,
        deployables@[6]@.crates == seq![(CrateView { name: "Tunguska Crate"@, weight: 1000, required: 2 })],
        deployables@[6]@.repair_crate is None,
        deployables@[6]@.logistics is None,
        deployables@[7]@.path == seq!["IR SAMs"@, "SA13 Strela"@],
        deployables@[7]@.template == "DEPSA13"@,
        deployables@[7]@.limit == 10,
        deployables@[7]@.crates == seq![(CrateView { name: "SA13 Strela Crate"@, weight: 1000, required: 2 })],
        deployables@[7]@.repair_crate is None,
        deployables@[7]@.logistics is None,
        deployables@[8]@.path == seq!["Ground Units"@, "M109"@],
        deployables@[8]@.template == "DEPM109"@,
        deployables@[8]@.limit == 10,
        deployables@[8]@.crates == seq![(CrateView { name: "M109 Crate"@, weight: 1000, required: 1 })],
        deployables@[8]@.repair_crate is None,
        deployables@[8]@.logistics is None,
        deployables@[9]@.path == seq!["FARP"@],
        deployables@[9]@.template == "DEPFARP"@,
        deployables@[9]@.limit == 4,
        deployables@[9]@.crates == seq![(CrateView { name: "FARP Crate"@, weight: 1000, required: 4 })],
        deployables@[9]@.repair_crate == Some((CrateView { name: "FARP Repair"@, weight: 1000, required: 1 })),
        deployables@[9]@.logistics == Some(2000u32),
        forall|i: int|
            0 <= i < deployables@.len() ==> (#[trigger] deployables@[i]).persist == PersistTyp::Forever
                && deployables@[i].limit_enforce == LimitEnforceTyp::DeleteOldest,
        forall|i: int, j: int|
            0 <= i < j < deployables@.len() ==> (#[trigger] deployables@[i]).template@
                != (#[trigger] deployables@[j]).template@,
{
    proof {
        lemma_deployable_templates_distinct();
    }
    let deployables = vec![
        Deployable {
            path: vec!["Radar SAMs".to_owned(), "SA 6 Kub".to_owned()],
            template: "DEPSA6".to_owned(),
            persist: PersistTyp::Forever,
            limit: 4,
            limit_enforce: LimitEnforceTyp::DeleteOldest,
            crates: vec![
                Crate {
                    name: "Kub Launcher".to_owned(),
                    weight: 1000,
                    required: 1,
                },
                Crate {
                    name: "Kub Radar".to_owned(),
                    weight: 1000,
                    required: 1,
                },
            ],
            repair_crate: Some(
                Crate {
                    name: "Kub Repair".to_owned(),
                    weight: 1200,
                    required: 1,
                },
            ),
            logistics: None,
        },
        Deployable {
            path: vec!["Radar SAMs".to_owned(), "SA 11 Buk".to_owned()],
            template: "DEPSA11".to_owned(),
            persist: PersistTyp::Forever,
            limit: 2,
            limit_enforce: LimitEnforceTyp::DeleteOldest,
            crates: vec![
                Crate {
                    name: "SA11 Launcher".to_owned(),
                    weight: 1000,
                    required: 2,
                },
                Crate {
                    name: "SA11 Search Radar".to_owned(),
                    weight: 1000,
                    required: 1,
                },
                Crate {
                    name: "SA11 CC".to_owned(),
                    weight: 1000,
                    required: 1,
                },
            ],
            repair_crate: Some(
                Crate {
                    name: "Buk Repair".to_owned(),
                    weight: 1200,
                    required: 1,
                },
            ),
            logistics: None,
        },
        Deployable {
            path: vec!["Radar SAMs".to_owned(), "SA15 Tor".to_owned()],
            template: "DEPSA15".to_owned(),
            persist: PersistTyp::Forever,
            limit: 2,
            limit_enforce: LimitEnforceTyp::DeleteOldest,
            crates: vec![
                Crate {
                    name: "SA15 Tor".to_owned(),
                    weight: 1000,
                    required: 3,
                },
            ],
            repair_crate: None,
            logistics: None,
        },
        Deployable {
            path: vec!["Radar SAMs".to_owned(), "SA8 Osa".to_owned()],
            template: "DEPSA8".to_owned(),
            persist: PersistTyp::Forever,
            limit: 4,
            limit_enforce: LimitEnforceTyp::DeleteOldest,
            crates: vec![
                Crate {
                    name: "SA8 Osa".to_owned(),
                    weight: 1000,
                    required: 2,
                },
            ],
            repair_crate: None,
            logistics: None,
        },
        Deployable {
            path: vec!["AAA".to_owned(), "ZU23 Emplacement".to_owned()],
            template: "DEPZU23".to_owned(),
            persist: PersistTyp::Forever,
            limit: 10,
            limit_enforce: LimitEnforceTyp::DeleteOldest,
            crates: vec![
                Crate {
                    name: "ZU23 Emplacement".to_owned(),
                    weight: 500,
                    required: 1,
                },
            ],
            repair_crate: None,
            logistics: None,
        },
        Deployable {
            path: vec!["AAA".to_owned(), "Shilka".to_owned()],
            template: "DEPSHILKA".to_owned(),
            persist: PersistTyp::Forever,
            limit: 6,
            limit_enforce: LimitEnforceTyp::DeleteOldest,
            crates: vec![
                Crate {
                    name: "Shilka Crate".to_owned(),
                    weight: 1000,
                    required: 2,
                },
            ],
            repair_crate: None,
            logistics: None,
        },
        Deployable {
            path: vec!["AAA".to_owned(), "Tunguska".to_owned()],
            template: "DEPTUNGUSKA".to_owned(),
            persist: PersistTyp::Forever,
            limit: 6,
            limit_enforce: LimitEnforceTyp::DeleteOldest,
            crates: vec![
                Crate {
                    name: "Tunguska Crate".to_owned(),
                    weight: 1000,
                    required: 2,
                },
            ],
            repair_crate: None,
            logistics: None,
        },
        Deployable {
            path: vec!["IR SAMs".to_owned(), "SA13 Strela".to_owned()],
            template: "DEPSA13".to_owned(),
            persist: PersistTyp::Forever,
            limit: 10,
            limit_enforce: LimitEnforceTyp::DeleteOldest,
            crates: vec![
                Crate {
                    name: "SA13 Strela Crate".to_owned(),
                    weight: 1000,
                    required: 2,
                },
            ],
            repair_crate: None,
            logistics: None,
        },
        Deployable {
            path: vec!["Ground Units".to_owned(), "M109".to_owned()],
            template: "DEPM109".to_owned(),
            persist: PersistTyp::Forever,
            limit: 10,
            limit_enforce: LimitEnforceTyp::DeleteOldest,
            crates: vec![
                Crate {
                    name: "M109 Crate".to_owned(),
                    weight: 1000,
                    required: 1,
                },
            ],
            repair_crate: None,
            logistics: None,
        },
        Deployable {
            path: vec!["FARP".to_owned()],
            template: "DEPFARP".to_owned(),
            persist: PersistTyp::Forever,
            limit: 4,
            limit_enforce: LimitEnforceTyp::DeleteOldest,
            crates: vec![
                Crate {
                    name: "FARP Crate".to_owned(),
                    weight: 1000,
                    required: 4,
                },
            ],
            repair_crate: Some(
                Crate {
                    name: "FARP Repair".to_owned(),
                    weight: 1000,
                    required: 1,
                },
            ),
            logistics: Some(2000),
        },
    ];
    assert(deployable_views(deployables@) =~~= red_deployables_table());
    deployables
}

/// The deployables that the blue side may build by default.
pub fn default_blue_deployables() -> (deployables: Vec<Deployable>)
    ensures
        deployable_views(deployables@) == blue_deployables_table(),
        deployables@.len() == 8,
        deployables@[0]@.path == seq!["Radar SAMs"@, "Roland ADS"@],
        deployables@[0]@.template == "DEPROLAND"@,
        deployables@[0]@.limit == 4,
        deployables@[0]@.crates == seq![(CrateView { name: "Roland"@, weight: 1000, required: 2 })],
        deployables@[0]@.repair_crate is None,
        deployables@[0]@.logistics is None,
        deployables@[1]@.path == seq!["Radar SAMs"@, "Hawk System"@],
        deployables@[1]@.template == "DEPHAWK"@,
        deployables@[1]@.limit == 4,
        deployables@[1]@.crates == seq![(CrateView { name: "Hawk Launcher"@, weight: 1000, required: 1 }), (CrateView { name: "Hawk Search Radar"@, weight: 1000, required: 1 }), (CrateView { name: "Hawk Track Radar"@, weight: 1000, required: 1 }), (CrateView { name: "Hawk CC"@, weight: 1000, required: 1 })],
        deployables@[1]@.repair_crate == Some((CrateView { name: "Hawk Repair"@, weight: 1200, required: 1 })),
        deployables@[1]@.logistics is None,
        deployables@[2]@.path == seq!["IR SAMs"@, "Avenger"@],
        deployables@[2]@.template == "DEPAVENGER"@,
        deployables@[2]@.limit == 4,
        deployables@[2]@.crates == seq![(CrateView { name: "Avenger Crate"@, weight: 1000, required: 2 })],
        deployables@[2]@.repair_crate is None,
        deployables@[2]@.logistics is None,
        deployables@[3]@.path == seq!["IR SAMs"@, "Linebacker"@],
        deployables@[3]@.template == "DEPLINEBACKER"@,
        deployables@[3]@.limit == 4,
        deployables@[3]@.crates == seq![(CrateView { name: "Linebacker Crate"@, weight: 1000, required: 2 })],
        deployables@[3]@.repair_crate is None,
        deployables@[3]@.logistics is None,
        deployables@[4]@.path == seq!["AAA"@, "Flakpanzergepard"@],
        deployables@[4]@.template == "DEPGEPARD"@,
        deployables@[4]@.limit == 4,
        deployables@[4]@.crates == seq![(CrateView { name: "Flakpanzergepard Crate"@, weight: 1000, required: 2 })],
        deployables@[4]@.repair_crate is None,
        deployables@[4]@.logistics is None,
        deployables@[5]@.path == seq!["AAA"@, "Vulkan"@],
        deployables@[5]@.template == "DEPVULKAN"@,
        deployables@[5]@.limit == 4,
        deployables@[5]@.crates == seq![(CrateView { name: "Vulkan Crate"@, weight: 1000, required: 2 })],
        deployables@[5]@.repair_crate is None,
        deployables@[5]@.logistics is None,
        deployables@[6]@.path == seq!["Ground Units"@, "M109"@],
        deployables@[6]@.template == "DEPM109"@,
        deployables@[6]@.limit == 10,
        deployables@[6]@.crates == seq![(CrateView { name: "M109 Crate"@, weight: 1000, required: 1 })],
        deployables@[6]@.repair_crate is None,
        deployables@[6]@.logistics is None,
        deployables@[7]@.path == seq!["FARP"@],
        deployables@[7]@.template == "DEPFARP"@,
        deployables@[7]@.limit == 4,
        deployables@[7]@.crates == seq![(CrateView { name: "FARP Crate"@, weight: 1000, required: 4 })],
        deployables@[7]@.repair_crate == Some((CrateView { name: "FARP Repair"@, weight: 1000, required: 1 })),
        deployables@[7]@.logistics == Some(2000u32),
        forall|i: int|
            0 <= i < deployables@.len() ==> (#[trigger] deployables@[i]).persist == PersistTyp::Forever
                && deployables@[i].limit_enforce == LimitEnforceTyp::DeleteOldest,
        forall|i: int, j: int|
            0 <= i < j < deployables@.len() ==> (#[trigger] deployables@[i]).template@
                != (#[trigger] deployables@[j]).template@,
{
    proof {
        lemma_deployable_templates_distinct();
    }
    let deployables = vec![
        Deployable {
            path: vec!["Radar SAMs".to_owned(), "Roland ADS".to_owned()],
            template: "DEPROLAND".to_owned(),
            persist: PersistTyp::Forever,
            limit: 4,
            limit_enforce: LimitEnforceTyp::DeleteOldest,
            crates: vec![
                Crate {
                    name: "Roland".to_owned(),
                    weight: 1000,
                    required: 2,
                },
            ],
            repair_crate: None,
            logistics: None,
        },
        Deployable {
            path: vec!["Radar SAMs".to_owned(), "Hawk System".to_owned()],
            template: "DEPHAWK".to_owned(),
            persist: PersistTyp::Forever,
            limit: 4,
            limit_enforce: LimitEnforceTyp::DeleteOldest,
            crates: vec![
                Crate {
                    name: "Hawk Launcher".to_owned(),
                    weight: 1000,
                    required: 1,
                },
                Crate {
                    name: "Hawk Search Radar".to_owned(),
                    weight: 1000,
                    required: 1,
                },
                Crate {
                    name: "Hawk Track Radar".to_owned(),
                    weight: 1000,
                    required: 1,
                },
                Crate {
                    name: "Hawk CC".to_owned(),
                    weight: 1000,
                    required: 1,
                },
            ],
            repair_crate: Some(
                Crate {
                    name: "Hawk Repair".to_owned(),
                    weight: 1200,
                    required: 1,
                },
            ),
            logistics: None,
        },
        Deployable {
            path: vec!["IR SAMs".to_owned(), "Avenger".to_owned()],
            template: "DEPAVENGER".to_owned(),
            persist: PersistTyp::Forever,
            limit: 4,
            limit_enforce: LimitEnforceTyp::DeleteOldest,
            crates: vec![
                Crate {
                    name: "Avenger Crate".to_owned(),
                    weight: 1000,
                    required: 2,
                },
            ],
            repair_crate: None,
            logistics: None,
        },
        Deployable {
            path: vec!["IR SAMs".to_owned(), "Linebacker".to_owned()],
            template: "DEPLINEBACKER".to_owned(),
            persist: PersistTyp::Forever,
            limit: 4,
            limit_enforce: LimitEnforceTyp::DeleteOldest,
            crates: vec![
                Crate {
                    name: "Linebacker Crate".to_owned(),
                    weight: 1000,
                    required: 2,
                },
            ],
            repair_crate: None,
            logistics: None,
        },
        Deployable {
            path: vec!["AAA".to_owned(), "Flakpanzergepard".to_owned()],
            template: "DEPGEPARD".to_owned(),
            persist: PersistTyp::Forever,
            limit: 4,
            limit_enforce: LimitEnforceTyp::DeleteOldest,
            crates: vec![
                Crate {
                    name: "Flakpanzergepard Crate".to_owned(),
                    weight: 1000,
                    required: 2,
                },
            ],
            repair_crate: None,
            logistics: None,
        },
        Deployable {
            path: vec!["AAA".to_owned(), "Vulkan".to_owned()],
            template: "DEPVULKAN".to_owned(),
            persist: PersistTyp::Forever,
            limit: 4,
            limit_enforce: LimitEnforceTyp::DeleteOldest,
            crates: vec![
                Crate {
                    name: "Vulkan Crate".to_owned(),
                    weight: 1000,
                    required: 2,
                },
            ],
            repair_crate: None,
            logistics: None,
        },
        Deployable {
            path: vec!["Ground Units".to_owned(), "M109".to_owned()],
            template: "DEPM109".to_owned(),
            persist: PersistTyp::Forever,
            limit: 10,
            limit_enforce: LimitEnforceTyp::DeleteOldest,
            crates: vec![
                Crate {
                    name: "M109 Crate".to_owned(),
                    weight: 1000,
                    required: 1,
                },
            ],
            repair_crate: None,
            logistics: None,
        },
        Deployable {
            path: vec!["FARP".to_owned()],
            template: "DEPFARP".to_owned(),
            persist: PersistTyp::Forever,
            limit: 4,
            limit_enforce: LimitEnforceTyp::DeleteOldest,
            crates: vec![
                Crate {
                    name: "FARP Crate".to_owned(),
                    weight: 1000,
                    required: 4,
                },
            ],
            repair_crate: Some(
                Crate {
                    name: "FARP Repair".to_owned(),
                    weight: 1000,
                    required: 1,
                },
            ),
            logistics: Some(2000),
        },
    ];
    assert(deployable_views(deployables@) =~~= blue_deployables_table());
    deployables
}

/// The mission configuration.
#[derive(Clone, Debug)]
pub struct Cfg {
    /// how often, in seconds, a base will repair if it has
    /// full logistics
    pub repair_time: u32,
    /// how far must you fly from an objective to deploy deployables
    pub logistics_exclusion: u32,
    /// how far in meters can a crate be from the player and still be
    /// unpackable and loadable
    pub crate_load_distance: u32,
    /// how many times a user may switch sides in a given round,
    /// or None for unlimited side switches
    pub side_switches: Option<u8>,
    /// the life types different vehicles use
    pub life_types: FxHashMap<Vehicle, LifeType>,
    /// the life reset configuration for each life type. A pair
    /// of number of lives per reset, and reset time in seconds.
    pub default_lives: FxHashMap<LifeType, (u8, u32)>,
    /// vehicle cargo configuration
    pub cargo: FxHashMap<Vehicle, CargoConfig>,
    /// The name of the crate group for each side
    pub crate_template: FxHashMap<Side, String>,
    /// deployables configuration for each side
    pub deployables: FxHashMap<Side, Vec<Deployable>>,
    /// deployable troops configuration for each side
    pub troops: FxHashMap<Side, Vec<Troop>>,
}

/// A configuration, with its tables as maps of plain values.
#[verifier::ext_equal]
pub struct CfgView {
    pub repair_time: u32,
    pub logistics_exclusion: u32,
    pub crate_load_distance: u32,
    pub side_switches: Option<u8>,
    /// keyed by vehicle type name
    pub life_types: Map<Seq<char>, LifeType>,
    pub default_lives: Map<LifeType, (u8, u32)>,
    /// keyed by vehicle type name
    pub cargo: Map<Seq<char>, CargoConfig>,
    pub crate_template: Map<Side, Seq<char>>,
    pub deployables: Map<Side, Seq<DeployableView>>,
    pub troops: Map<Side, Seq<TroopView>>,
}

impl View for Cfg {
    type V = CfgView;

    open spec fn view(&self) -> CfgView {
        CfgView {
            repair_time: self.repair_time,
            logistics_exclusion: self.logistics_exclusion,
            crate_load_distance: self.crate_load_distance,
            side_switches: self.side_switches,
            life_types: life_type_entries(self.life_types),
            default_lives: lives_entries(self.default_lives),
            cargo: cargo_entries(self.cargo),
            crate_template: template_entries(self.crate_template),
            deployables: deployable_entries(self.deployables),
            troops: troop_entries(self.troops),
        }
    }
}

/// The life type of each vehicle in the default configuration.
pub open spec fn default_life_types() -> Map<Seq<char>, LifeType> {
    Map::empty()
        .insert("FA-18C_hornet"@, LifeType::Standard)
        .insert("F-14A-135-GR"@, LifeType::Standard)
        .insert("F-14B"@, LifeType::Standard)
        .insert("F-15C"@, LifeType::Standard)
        .insert("F-15ESE"@, LifeType::Standard)
        .insert("MiG-29S"@, LifeType::Standard)
        .insert("M-2000C"@, LifeType::Standard)
        .insert("F-16C_50"@, LifeType::Standard)
        .insert("MiG-29A"@, LifeType::Standard)
        .insert("Su-27"@, LifeType::Standard)
        .insert("AH-64D_BLK_II"@, LifeType::Attack)
        .insert("Mi-24P"@, LifeType::Attack)
        .insert("Ka-50_3"@, LifeType::Attack)
        .insert("A-10C"@, LifeType::Attack)
        .insert("A-10A"@, LifeType::Attack)
        .insert("Su-25"@, LifeType::Attack)
        .insert("Su-25T"@, LifeType::Attack)
        .insert("AJS37"@, LifeType::Attack)
        .insert("Ka-50"@, LifeType::Attack)
        .insert("AV8BNA"@, LifeType::Attack)
        .insert("A-10C_2"@, LifeType::Attack)
        .insert("JF-17"@, LifeType::Attack)
        .insert("SA342L"@, LifeType::Logistics)
        .insert("UH-1H"@, LifeType::Logistics)
        .insert("Mi-8MT"@, LifeType::Logistics)
        .insert("SA342M"@, LifeType::Logistics)
        .insert("L-39C"@, LifeType::Recon)
        .insert("L-39ZA"@, LifeType::Recon)
        .insert("TF-51D"@, LifeType::Recon)
        .insert("Yak-52"@, LifeType::Recon)
        .insert("C-101CC"@, LifeType::Recon)
        .insert("MB-339A"@, LifeType::Recon)
        .insert("F-5E-3"@, LifeType::Intercept)
        .insert("MiG-21Bis"@, LifeType::Intercept)
        .insert("MiG-19P"@, LifeType::Intercept)
        .insert("Mirage-F1EE"@, LifeType::Intercept)
        .insert("Mirage-F1CE"@, LifeType::Intercept)
}

/// Lives per reset and reset time of each life type in the default configuration.
pub open spec fn default_lives_table() -> Map<LifeType, (u8, u32)> {
    Map::empty()
        .insert(LifeType::Standard, (3u8, 21600u32))
        .insert(LifeType::Intercept, (4u8, 21600u32))
        .insert(LifeType::Attack, (4u8, 21600u32))
        .insert(LifeType::Logistics, (6u8, 21600u32))
        .insert(LifeType::Recon, (6u8, 21600u32))
}

/// A cargo configuration.
pub open spec fn cargo_spec(troop_slots: u8, crate_slots: u8, total_slots: u16) -> CargoConfig {
    CargoConfig { troop_slots, crate_slots, total_slots }
}

/// The vehicles that carry cargo in the default configuration.
pub open spec fn default_cargo() -> Map<Seq<char>, CargoConfig> {
    Map::empty()
        .insert("UH-1H"@, cargo_spec(1, 1, 2))
        .insert("Mi-8MT"@, cargo_spec(1, 1, 2))
        .insert("SA342L"@, cargo_spec(1, 1, 1))
        .insert("SA342M"@, cargo_spec(1, 1, 1))
        .insert("Mi-24P"@, cargo_spec(1, 1, 1))
}

/// The default configuration.
pub open spec fn default_cfg() -> CfgView {
    CfgView {
        repair_time: 1800,
        logistics_exclusion: 4000,
        crate_load_distance: 50,
        side_switches: Some(1u8),
        life_types: default_life_types(),
        default_lives: default_lives_table(),
        cargo: default_cargo(),
        crate_template: Map::empty().insert(Side::Red, "RCRATE"@).insert(Side::Blue, "BCRATE"@),
        deployables: Map::empty().insert(Side::Red, red_deployables_table()).insert(
            Side::Blue,
            blue_deployables_table(),
        ),
        troops: Map::empty().insert(Side::Red, red_troops_table()).insert(
            Side::Blue,
            blue_troops_table(),
        ),
    }
}

/// The blue troops mirror the red ones: the same number of squads, each with
/// the weight, capture ability, limit, persistence and limit handling of its
/// red counterpart and a template of its own; the first four squads also
/// share their red counterparts' names, and their templates are the red
/// templates with the leading `R` replaced by `B`.
pub proof fn lemma_blue_troops_mirror_red()
    ensures
        red_troops_table().len() == 5,
        blue_troops_table().len() == 5,
        forall|i: int|
            0 <= i < 5 ==> {
                let b = #[trigger] blue_troops_table()[i];
                let r = red_troops_table()[i];
                &&& b.weight == r.weight
                &&& b.can_capture == r.can_capture
                &&& b.limit == r.limit
                &&& b.persist == r.persist
                &&& b.limit_enforce == r.limit_enforce
                &&& b.template != r.template
            },
        forall|i: int|
            0 <= i < 4 ==> {
                let b = #[trigger] blue_troops_table()[i];
                let r = red_troops_table()[i];
                &&& b.name == r.name
                &&& r.template.len() >= 1
                &&& b.template == seq!['B'] + r.template.skip(1)
            },
{
    reveal_strlit("RJTACTROOP");
    reveal_strlit("RSTANDARDTROOP");
    reveal_strlit("RATTROOP");
    reveal_strlit("RMORTARTROOP");
    reveal_strlit("RIGLATROOP");
    reveal_strlit("BJTACTROOP");
    reveal_strlit("BSTANDARDTROOP");
    reveal_strlit("BATTROOP");
    reveal_strlit("BMORTARTROOP");
    reveal_strlit("BSTINGERROOP");
    let b = blue_troops_table();
    let r = red_troops_table();
    assert(b[0].template =~= seq!['B'] + r[0].template.skip(1));
    assert(b[1].template =~= seq!['B'] + r[1].template.skip(1));
    assert(b[2].template =~= seq!['B'] + r[2].template.skip(1));
    assert(b[3].template =~= seq!['B'] + r[3].template.skip(1));
    assert forall|i: int| 0 <= i < 5 implies (#[trigger] b[i]).template != r[i].template by {
        assert(b[i].template[0] != r[i].template[0]);
    }
}

/// The two sides share their last two deployables (the M109 and the FARP),
/// entry for entry; every other blue deployable has a template that no red
/// deployable uses.
pub proof fn lemma_sides_share_only_m109_and_farp()
    ensures
        red_deployables_table().len() == 10,
        blue_deployables_table().len() == 8,
        blue_deployables_table()[6] == red_deployables_table()[8],
        blue_deployables_table()[7] == red_deployables_table()[9],
        forall|i: int, j: int|
            0 <= i < 6 && 0 <= j < 10 ==> (#[trigger] blue_deployables_table()[i]).template
                != (#[trigger] red_deployables_table()[j]).template,
{
    reveal_strlit("DEPSA6");
    reveal_strlit("DEPSA11");
    reveal_strlit("DEPSA15");
    reveal_strlit("DEPSA8");
    reveal_strlit("DEPZU23");
    reveal_strlit("DEPSHILKA");
    reveal_strlit("DEPTUNGUSKA");
    reveal_strlit("DEPSA13");
    reveal_strlit("DEPM109");
    reveal_strlit("DEPFARP");
    reveal_strlit("DEPROLAND");
    reveal_strlit("DEPHAWK");
    reveal_strlit("DEPAVENGER");
    reveal_strlit("DEPLINEBACKER");
    reveal_strlit("DEPGEPARD");
    reveal_strlit("DEPVULKAN");
    let b = blue_deployables_table();
    let r = red_deployables_table();
    assert(b[6] =~~= r[8]);
    assert(b[7] =~~= r[9]);
    assert forall|i: int, j: int| 0 <= i < 6 && 0 <= j < 10 implies (#[trigger] b[i]).template
        != (#[trigger] r[j]).template by {
        if b[i].template.len() == r[j].template.len() {
            assert(b[i].template[3] != r[j].template[3] || b[i].template[4] != r[j].template[4]
                || b[i].template[5] != r[j].template[5]);
        }
    }
}

impl CrateView {
    /// A crate kind that some number of crates, at least one, makes up.
    pub open spec fn well_formed(self) -> bool {
        self.required >= 1
    }
}

impl DeployableView {
    /// A deployable that has a menu entry, may be deployed at least once,
    /// and is built from at least one kind of crate.
    pub open spec fn well_formed(self) -> bool {
        &&& self.path.len() >= 1
        &&& self.limit >= 1
        &&& self.crates.len() >= 1
        &&& forall|i: int| 0 <= i < self.crates.len() ==> (#[trigger] self.crates[i]).well_formed()
        &&& (self.repair_crate matches Some(c) ==> c.well_formed())
    }
}

impl TroopView {
    /// A troop that may be deployed at least once.
    pub open spec fn well_formed(self) -> bool {
        self.limit >= 1
    }
}

impl CargoConfig {
    /// The total capacity is no more than the troop and crate slots together.
    pub open spec fn well_formed(self) -> bool {
        self.total_slots <= self.troop_slots + self.crate_slots
    }
}

impl CfgView {
    /// The tables of a configuration agree with each other: every vehicle
    /// with a life type draws from a configured life pool, every cargo
    /// vehicle has a life type, both fighting sides have a crate template,
    /// deployables and troops, and every entry is itself well formed.
    pub open spec fn well_formed(self) -> bool {
        &&& forall|v: Seq<char>| #[trigger] self.life_types.contains_key(v)
            ==> self.default_lives.contains_key(self.life_types[v])
        &&& forall|v: Seq<char>| #[trigger] self.cargo.contains_key(v)
            ==> self.life_types.contains_key(v) && self.cargo[v].well_formed()
        &&& self.crate_template.contains_key(Side::Red)
        &&& self.crate_template.contains_key(Side::Blue)
        &&& self.deployables.contains_key(Side::Red)
        &&& self.deployables.contains_key(Side::Blue)
        &&& self.troops.contains_key(Side::Red)
        &&& self.troops.contains_key(Side::Blue)
        &&& forall|s: Side, i: int| #[trigger] self.deployables.contains_key(s)
            && 0 <= i < self.deployables[s].len() ==> (#[trigger] self.deployables[s][i]).well_formed()
        &&& forall|s: Side, i: int| #[trigger] self.troops.contains_key(s)
            && 0 <= i < self.troops[s].len() ==> (#[trigger] self.troops[s][i]).well_formed()
    }
}

proof fn lemma_default_cfg_well_formed()
    ensures
        default_cfg().well_formed(),
{
    let c = default_cfg();
    assert forall|lt: LifeType| c.default_lives.contains_key(lt) by {
        match lt {
            LifeType::Standard => {},
            LifeType::Intercept => {},
            LifeType::Attack => {},
            LifeType::Logistics => {},
            LifeType::Recon => {},
        }
    }
    assert forall|v: Seq<char>| #[trigger] c.cargo.contains_key(v) implies c.life_types.contains_key(v)
        && c.cargo[v].well_formed() by {}
    assert forall|s: Side, i: int| #[trigger] c.deployables.contains_key(s)
        && 0 <= i < c.deployables[s].len() implies (#[trigger] c.deployables[s][i]).well_formed() by {}
    assert forall|s: Side, i: int| #[trigger] c.troops.contains_key(s)
        && 0 <= i < c.troops[s].len() implies (#[trigger] c.troops[s][i]).well_formed() by {}
}

/// The vehicles that have a life type in the default configuration.
proof fn lemma_default_life_type_vehicles()
    ensures
        default_life_types().dom() == set!["FA-18C_hornet"@, "F-14A-135-GR"@, "F-14B"@, "F-15C"@, "F-15ESE"@, "MiG-29S"@, "M-2000C"@, "F-16C_50"@, "MiG-29A"@, "Su-27"@, "AH-64D_BLK_II"@, "Mi-24P"@, "Ka-50_3"@, "A-10C"@, "A-10A"@, "Su-25"@, "Su-25T"@, "AJS37"@, "Ka-50"@, "AV8BNA"@, "A-10C_2"@, "JF-17"@, "SA342L"@, "UH-1H"@, "Mi-8MT"@, "SA342M"@, "L-39C"@, "L-39ZA"@, "TF-51D"@, "Yak-52"@, "C-101CC"@, "MB-339A"@, "F-5E-3"@, "MiG-21Bis"@, "MiG-19P"@, "Mirage-F1EE"@, "Mirage-F1CE"@],
{
    assert(default_life_types().dom() =~= set!["FA-18C_hornet"@, "F-14A-135-GR"@, "F-14B"@, "F-15C"@, "F-15ESE"@, "MiG-29S"@, "M-2000C"@, "F-16C_50"@, "MiG-29A"@, "Su-27"@, "AH-64D_BLK_II"@, "Mi-24P"@, "Ka-50_3"@, "A-10C"@, "A-10A"@, "Su-25"@, "Su-25T"@, "AJS37"@, "Ka-50"@, "AV8BNA"@, "A-10C_2"@, "JF-17"@, "SA342L"@, "UH-1H"@, "Mi-8MT"@, "SA342M"@, "L-39C"@, "L-39ZA"@, "TF-51D"@, "Yak-52"@, "C-101CC"@, "MB-339A"@, "F-5E-3"@, "MiG-21Bis"@, "MiG-19P"@, "Mirage-F1EE"@, "Mirage-F1CE"@]);
}

/// In the default configuration the `FA-18C_hornet` draws from the Standard pool.
proof fn lemma_life_type_of_fa_18c_hornet()
    ensures
        default_life_types().contains_key("FA-18C_hornet"@),
        default_life_types()["FA-18C_hornet"@] == LifeType::Standard,
{
    reveal_strlit("FA-18C_hornet");
    reveal_strlit("F-14A-135-GR");
    assert("FA-18C_hornet"@.len() != "F-14A-135-GR"@.len());
    reveal_strlit("F-14B");
    assert("FA-18C_hornet"@.len() != "F-14B"@.len());
    reveal_strlit("F-15C");
    assert("FA-18C_hornet"@.len() != "F-15C"@.len());
    reveal_strlit("F-15ESE");
    assert("FA-18C_hornet"@.len() != "F-15ESE"@.len());
    reveal_strlit("MiG-29S");
    assert("FA-18C_hornet"@.len() != "MiG-29S"@.len());
    reveal_strlit("M-2000C");
    assert("FA-18C_hornet"@.len() != "M-2000C"@.len());
    reveal_strlit("F-16C_50");
    assert("FA-18C_hornet"@.len() != "F-16C_50"@.len());
    reveal_strlit("MiG-29A");
    assert("FA-18C_hornet"@.len() != "MiG-29A"@.len());
    reveal_strlit("Su-27");
    assert("FA-18C_hornet"@.len() != "Su-27"@.len());
    reveal_strlit("AH-64D_BLK_II");
    assert("FA-18C_hornet"@[0] != "AH-64D_BLK_II"@[0]);
    reveal_strlit("Mi-24P");
    assert("FA-18C_hornet"@.len() != "Mi-24P"@.len());
    reveal_strlit("Ka-50_3");
    assert("FA-18C_hornet"@.len() != "Ka-50_3"@.len());
    reveal_strlit("A-10C");
    assert("FA-18C_hornet"@.len() != "A-10C"@.len());
    reveal_strlit("A-10A");
    assert("FA-18C_hornet"@.len() != "A-10A"@.len());
    reveal_strlit("Su-25");
    assert("FA-18C_hornet"@.len() != "Su-25"@.len());
    reveal_strlit("Su-25T");
    assert("FA-18C_hornet"@.len() != "Su-25T"@.len());
    reveal_strlit("AJS37");
    assert("FA-18C_hornet"@.len() != "AJS37"@.len());
    reveal_strlit("Ka-50");
    assert("FA-18C_hornet"@.len() != "Ka-50"@.len());
    reveal_strlit("AV8BNA");
    assert("FA-18C_hornet"@.len() != "AV8BNA"@.len());
    reveal_strlit("A-10C_2");
    assert("FA-18C_hornet"@.len() != "A-10C_2"@.len());
    reveal_strlit("JF-17");
    assert("FA-18C_hornet"@.len() != "JF-17"@.len());
    reveal_strlit("SA342L");
    assert("FA-18C_hornet"@.len() != "SA342L"@.len());
    reveal_strlit("UH-1H");
    assert("FA-18C_hornet"@.len() != "UH-1H"@.len());
    reveal_strlit("Mi-8MT");
    assert("FA-18C_hornet"@.len() != "Mi-8MT"@.len());
    reveal_strlit("SA342M");
    assert("FA-18C_hornet"@.len() != "SA342M"@.len());
    reveal_strlit("L-39C");
    assert("FA-18C_hornet"@.len() != "L-39C"@.len());
    reveal_strlit("L-39ZA");
    assert("FA-18C_hornet"@.len() != "L-39ZA"@.len());
    reveal_strlit("TF-51D");
    assert("FA-18C_hornet"@.len() != "TF-51D"@.len());
    reveal_strlit("Yak-52");
    assert("FA-18C_hornet"@.len() != "Yak-52"@.len());
    reveal_strlit("C-101CC");
    assert("FA-18C_hornet"@.len() != "C-101CC"@.len());
    reveal_strlit("MB-339A");
    assert("FA-18C_hornet"@.len() != "MB-339A"@.len());
    reveal_strlit("F-5E-3");
    assert("FA-18C_hornet"@.len() != "F-5E-3"@.len());
    reveal_strlit("MiG-21Bis");
    assert("FA-18C_hornet"@.len() != "MiG-21Bis"@.len());
    reveal_strlit("MiG-19P");
    assert("FA-18C_hornet"@.len() != "MiG-19P"@.len());
    reveal_strlit("Mirage-F1EE");
    assert("FA-18C_hornet"@.len() != "Mirage-F1EE"@.len());
    reveal_strlit("Mirage-F1CE");
    assert("FA-18C_hornet"@.len() != "Mirage-F1CE"@.len());
}

/// In the default configuration the `F-14A-135-GR` draws from the Standard pool.
proof fn lemma_life_type_of_f_14a_135_gr()
    ensures
        default_life_types().contains_key("F-14A-135-GR"@),
        default_life_types()["F-14A-135-GR"@] == LifeType::Standard,
{
    reveal_strlit("F-14A-135-GR");
    reveal_strlit("F-14B");
    assert("F-14A-135-GR"@.len() != "F-14B"@.len());
    reveal_strlit("F-15C");
    assert("F-14A-135-GR"@.len() != "F-15C"@.len());
    reveal_strlit("F-15ESE");
    assert("F-14A-135-GR"@.len() != "F-15ESE"@.len());
    reveal_strlit("MiG-29S");
    assert("F-14A-135-GR"@.len() != "MiG-29S"@.len());
    reveal_strlit("M-2000C");
    assert("F-14A-135-GR"@.len() != "M-2000C"@.len());
    reveal_strlit("F-16C_50");
    assert("F-14A-135-GR"@.len() != "F-16C_50"@.len());
    reveal_strlit("MiG-29A");
    assert("F-14A-135-GR"@.len() != "MiG-29A"@.len());
    reveal_strlit("Su-27");
    assert("F-14A-135-GR"@.len() != "Su-27"@.len());
    reveal_strlit("AH-64D_BLK_II");
    assert("F-14A-135-GR"@.len() != "AH-64D_BLK_II"@.len());
    reveal_strlit("Mi-24P");
    assert("F-14A-135-GR"@.len() != "Mi-24P"@.len());
    reveal_strlit("Ka-50_3");
    assert("F-14A-135-GR"@.len() != "Ka-50_3"@.len());
    reveal_strlit("A-10C");
    assert("F-14A-135-GR"@.len() != "A-10C"@.len());
    reveal_strlit("A-10A");
    assert("F-14A-135-GR"@.len() != "A-10A"@.len());
    reveal_strlit("Su-25");
    assert("F-14A-135-GR"@.len() != "Su-25"@.len());
    reveal_strlit("Su-25T");
    assert("F-14A-135-GR"@.len() != "Su-25T"@.len());
    reveal_strlit("AJS37");
    assert("F-14A-135-GR"@.len() != "AJS37"@.len());
    reveal_strlit("Ka-50");
    assert("F-14A-135-GR"@.len() != "Ka-50"@.len());
    reveal_strlit("AV8BNA");
    assert("F-14A-135-GR"@.len() != "AV8BNA"@.len());
    reveal_strlit("A-10C_2");
    assert("F-14A-135-GR"@.len() != "A-10C_2"@.len());
    reveal_strlit("JF-17");
    assert("F-14A-135-GR"@.len() != "JF-17"@.len());
    reveal_strlit("SA342L");
    assert("F-14A-135-GR"@.len() != "SA342L"@.len());
    reveal_strlit("UH-1H");
    assert("F-14A-135-GR"@.len() != "UH-1H"@.len());
    reveal_strlit("Mi-8MT");
    assert("F-14A-135-GR"@.len() != "Mi-8MT"@.len());
    reveal_strlit("SA342M");
    assert("F-14A-135-GR"@.len() != "SA342M"@.len());
    reveal_strlit("L-39C");
    assert("F-14A-135-GR"@.len() != "L-39C"@.len());
    reveal_strlit("L-39ZA");
    assert("F-14A-135-GR"@.len() != "L-39ZA"@.len());
    reveal_strlit("TF-51D");
    assert("F-14A-135-GR"@.len() != "TF-51D"@.len());
    reveal_strlit("Yak-52");
    assert("F-14A-135-GR"@.len() != "Yak-52"@.len());
    reveal_strlit("C-101CC");
    assert("F-14A-135-GR"@.len() != "C-101CC"@.len());
    reveal_strlit("MB-339A");
    assert("F-14A-135-GR"@.len() != "MB-339A"@.len());
    reveal_strlit("F-5E-3");
    assert("F-14A-135-GR"@.len() != "F-5E-3"@.len());
    reveal_strlit("MiG-21Bis");
    assert("F-14A-135-GR"@.len() != "MiG-21Bis"@.len());
    reveal_strlit("MiG-19P");
    assert("F-14A-135-GR"@.len() != "MiG-19P"@.len());
    reveal_strlit("Mirage-F1EE");
    assert("F-14A-135-GR"@.len() != "Mirage-F1EE"@.len());
    reveal_strlit("Mirage-F1CE");
    assert("F-14A-135-GR"@.len() != "Mirage-F1CE"@.len());
}

/// In the default configuration the `F-14B` draws from the Standard pool.
proof fn lemma_life_type_of_f_14b()
    ensures
        default_life_types().contains_key("F-14B"@),
        default_life_types()["F-14B"@] == LifeType::Standard,
{
    reveal_strlit("F-14B");
    reveal_strlit("F-15C");
    assert("F-14B"@[3] != "F-15C"@[3]);
    reveal_strlit("F-15ESE");
    assert("F-14B"@.len() != "F-15ESE"@.len());
    reveal_strlit("MiG-29S");
    assert("F-14B"@.len() != "MiG-29S"@.len());
    reveal_strlit("M-2000C");
    assert("F-14B"@.len() != "M-2000C"@.len());
    reveal_strlit("F-16C_50");
    assert("F-14B"@.len() != "F-16C_50"@.len());
    reveal_strlit("MiG-29A");
    assert("F-14B"@.len() != "MiG-29A"@.len());
    reveal_strlit("Su-27");
    assert("F-14B"@[0] != "Su-27"@[0]);
    reveal_strlit("AH-64D_BLK_II");
    assert("F-14B"@.len() != "AH-64D_BLK_II"@.len());
    reveal_strlit("Mi-24P");
    assert("F-14B"@.len() != "Mi-24P"@.len());
    reveal_strlit("Ka-50_3");
    assert("F-14B"@.len() != "Ka-50_3"@.len());
    reveal_strlit("A-10C");
    assert("F-14B"@[0] != "A-10C"@[0]);
    reveal_strlit("A-10A");
    assert("F-14B"@[0] != "A-10A"@[0]);
    reveal_strlit("Su-25");
    assert("F-14B"@[0] != "Su-25"@[0]);
    reveal_strlit("Su-25T");
    assert("F-14B"@.len() != "Su-25T"@.len());
    reveal_strlit("AJS37");
    assert("F-14B"@[0] != "AJS37"@[0]);
    reveal_strlit("Ka-50");
    assert("F-14B"@[0] != "Ka-50"@[0]);
    reveal_strlit("AV8BNA");
    assert("F-14B"@.len() != "AV8BNA"@.len());
    reveal_strlit("A-10C_2");
    assert("F-14B"@.len() != "A-10C_2"@.len());
    reveal_strlit("JF-17");
    assert("F-14B"@[0] != "JF-17"@[0]);
    reveal_strlit("SA342L");
    assert("F-14B"@.len() != "SA342L"@.len());
    reveal_strlit("UH-1H");
    assert("F-14B"@[0] != "UH-1H"@[0]);
    reveal_strlit("Mi-8MT");
    assert("F-14B"@.len() != "Mi-8MT"@.len());
    reveal_strlit("SA342M");
    assert("F-14B"@.len() != "SA342M"@.len());
    reveal_strlit("L-39C");
    assert("F-14B"@[0] != "L-39C"@[0]);
    reveal_strlit("L-39ZA");
    assert("F-14B"@.len() != "L-39ZA"@.len());
    reveal_strlit("TF-51D");
    assert("F-14B"@.len() != "TF-51D"@.len());
    reveal_strlit("Yak-52");
    assert("F-14B"@.len() != "Yak-52"@.len());
    reveal_strlit("C-101CC");
    assert("F-14B"@.len() != "C-101CC"@.len());
    reveal_strlit("MB-339A");
    assert("F-14B"@.len() != "MB-339A"@.len());
    reveal_strlit("F-5E-3");
    assert("F-14B"@.len() != "F-5E-3"@.len());
    reveal_strlit("MiG-21Bis");
    assert("F-14B"@.len() != "MiG-21Bis"@.len());
    reveal_strlit("MiG-19P");
    assert("F-14B"@.len() != "MiG-19P"@.len());
    reveal_strlit("Mirage-F1EE");
    assert("F-14B"@.len() != "Mirage-F1EE"@.len());
    reveal_strlit("Mirage-F1CE");
    assert("F-14B"@.len() != "Mirage-F1CE"@.len());
}

/// In the default configuration the `F-15C` draws from the Standard pool.
proof fn lemma_life_type_of_f_15c()
    ensures
        default_life_types().contains_key("F-15C"@),
        default_life_types()["F-15C"@] == LifeType::Standard,
{
    reveal_strlit("F-15C");
    reveal_strlit("F-15ESE");
    assert("F-15C"@.len() != "F-15ESE"@.len());
    reveal_strlit("MiG-29S");
    assert("F-15C"@.len() != "MiG-29S"@.len());
    reveal_strlit("M-2000C");
    assert("F-15C"@.len() != "M-2000C"@.len());
    reveal_strlit("F-16C_50");
    assert("F-15C"@.len() != "F-16C_50"@.len());
    reveal_strlit("MiG-29A");
    assert("F-15C"@.len() != "MiG-29A"@.len());
    reveal_strlit("Su-27");
    assert("F-15C"@[0] != "Su-27"@[0]);
    reveal_strlit("AH-64D_BLK_II");
    assert("F-15C"@.len() != "AH-64D_BLK_II"@.len());
    reveal_strlit("Mi-24P");
    assert("F-15C"@.len() != "Mi-24P"@.len());
    reveal_strlit("Ka-50_3");
    assert("F-15C"@.len() != "Ka-50_3"@.len());
    reveal_strlit("A-10C");
    assert("F-15C"@[0] != "A-10C"@[0]);
    reveal_strlit("A-10A");
    assert("F-15C"@[0] != "A-10A"@[0]);
    reveal_strlit("Su-25");
    assert("F-15C"@[0] != "Su-25"@[0]);
    reveal_strlit("Su-25T");
    assert("F-15C"@.len() != "Su-25T"@.len());
    reveal_strlit("AJS37");
    assert("F-15C"@[0] != "AJS37"@[0]);
    reveal_strlit("Ka-50");
    assert("F-15C"@[0] != "Ka-50"@[0]);
    reveal_strlit("AV8BNA");
    assert("F-15C"@.len() != "AV8BNA"@.len());
    reveal_strlit("A-10C_2");
    assert("F-15C"@.len() != "A-10C_2"@.len());
    reveal_strlit("JF-17");
    assert("F-15C"@[0] != "JF-17"@[0]);
    reveal_strlit("SA342L");
    assert("F-15C"@.len() != "SA342L"@.len());
    reveal_strlit("UH-1H");
    assert("F-15C"@[0] != "UH-1H"@[0]);
    reveal_strlit("Mi-8MT");
    assert("F-15C"@.len() != "Mi-8MT"@.len());
    reveal_strlit("SA342M");
    assert("F-15C"@.len() != "SA342M"@.len());
    reveal_strlit("L-39C");
    assert("F-15C"@[0] != "L-39C"@[0]);
    reveal_strlit("L-39ZA");
    assert("F-15C"@.len() != "L-39ZA"@.len());
    reveal_strlit("TF-51D");
    assert("F-15C"@.len() != "TF-51D"@.len());
    reveal_strlit("Yak-52");
    assert("F-15C"@.len() != "Yak-52"@.len());
    reveal_strlit("C-101CC");
    assert("F-15C"@.len() != "C-101CC"@.len());
    reveal_strlit("MB-339A");
    assert("F-15C"@.len() != "MB-339A"@.len());
    reveal_strlit("F-5E-3");
    assert("F-15C"@.len() != "F-5E-3"@.len());
    reveal_strlit("MiG-21Bis");
    assert("F-15C"@.len() != "MiG-21Bis"@.len());
    reveal_strlit("MiG-19P");
    assert("F-15C"@.len() != "MiG-19P"@.len());
    reveal_strlit("Mirage-F1EE");
    assert("F-15C"@.len() != "Mirage-F1EE"@.len());
    reveal_strlit("Mirage-F1CE");
    assert("F-15C"@.len() != "Mirage-F1CE"@.len());
}

/// In the default configuration the `F-15ESE` draws from the Standard pool.
proof fn lemma_life_type_of_f_15ese()
    ensures
        default_life_types().contains_key("F-15ESE"@),
        default_life_types()["F-15ESE"@] == LifeType::Standard,
{
    reveal_strlit("F-15ESE");
    reveal_strlit("MiG-29S");
    assert("F-15ESE"@[0] != "MiG-29S"@[0]);
    reveal_strlit("M-2000C");
    assert("F-15ESE"@[0] != "M-2000C"@[0]);
    reveal_strlit("F-16C_50");
    assert("F-15ESE"@.len() != "F-16C_50"@.len());
    reveal_strlit("MiG-29A");
    assert("F-15ESE"@[0] != "MiG-29A"@[0]);
    reveal_strlit("Su-27");
    assert("F-15ESE"@.len() != "Su-27"@.len());
    reveal_strlit("AH-64D_BLK_II");
    assert("F-15ESE"@.len() != "AH-64D_BLK_II"@.len());
    reveal_strlit("Mi-24P");
    assert("F-15ESE"@.len() != "Mi-24P"@.len());
    reveal_strlit("Ka-50_3");
    assert("F-15ESE"@[0] != "Ka-50_3"@[0]);
    reveal_strlit("A-10C");
    assert("F-15ESE"@.len() != "A-10C"@.len());
    reveal_strlit("A-10A");
    assert("F-15ESE"@.len() != "A-10A"@.len());
    reveal_strlit("Su-25");
    assert("F-15ESE"@.len() != "Su-25"@.len());
    reveal_strlit("Su-25T");
    assert("F-15ESE"@.len() != "Su-25T"@.len());
    reveal_strlit("AJS37");
    assert("F-15ESE"@.len() != "AJS37"@.len());
    reveal_strlit("Ka-50");
    assert("F-15ESE"@.len() != "Ka-50"@.len());
    reveal_strlit("AV8BNA");
    assert("F-15ESE"@.len() != "AV8BNA"@.len());
    reveal_strlit("A-10C_2");
    assert("F-15ESE"@[0] != "A-10C_2"@[0]);
    reveal_strlit("JF-17");
    assert("F-15ESE"@.len() != "JF-17"@.len());
    reveal_strlit("SA342L");
    assert("F-15ESE"@.len() != "SA342L"@.len());
    reveal_strlit("UH-1H");
    assert("F-15ESE"@.len() != "UH-1H"@.len());
    reveal_strlit("Mi-8MT");
    assert("F-15ESE"@.len() != "Mi-8MT"@.len());
    reveal_strlit("SA342M");
    assert("F-15ESE"@.len() != "SA342M"@.len());
    reveal_strlit("L-39C");
    assert("F-15ESE"@.len() != "L-39C"@.len());
    reveal_strlit("L-39ZA");
    assert("F-15ESE"@.len() != "L-39ZA"@.len());
    reveal_strlit("TF-51D");
    assert("F-15ESE"@.len() != "TF-51D"@.len());
    reveal_strlit("Yak-52");
    assert("F-15ESE"@.len() != "Yak-52"@.len());
    reveal_strlit("C-101CC");
    assert("F-15ESE"@[0] != "C-101CC"@[0]);
    reveal_strlit("MB-339A");
    assert("F-15ESE"@[0] != "MB-339A"@[0]);
    reveal_strlit("F-5E-3");
    assert("F-15ESE"@.len() != "F-5E-3"@.len());
    reveal_strlit("MiG-21Bis");
    assert("F-15ESE"@.len() != "MiG-21Bis"@.len());
    reveal_strlit("MiG-19P");
    assert("F-15ESE"@[0] != "MiG-19P"@[0]);
    reveal_strlit("Mirage-F1EE");
    assert("F-15ESE"@.len() != "Mirage-F1EE"@.len());
    reveal_strlit("Mirage-F1CE");
    assert("F-15ESE"@.len() != "Mirage-F1CE"@.len());
}

/// In the default configuration the `MiG-29S` draws from the Standard pool.
proof fn lemma_life_type_of_mig_29s()
    ensures
        default_life_types().contains_key("MiG-29S"@),
        default_life_types()["MiG-29S"@] == LifeType::Standard,
{
    reveal_strlit("MiG-29S");
    reveal_strlit("M-2000C");
    assert("MiG-29S"@[1] != "M-2000C"@[1]);
    reveal_strlit("F-16C_50");
    assert("MiG-29S"@.len() != "F-16C_50"@.len());
    reveal_strlit("MiG-29A");
    assert("MiG-29S"@[6] != "MiG-29A"@[6]);
    reveal_strlit("Su-27");
    assert("MiG-29S"@.len() != "Su-27"@.len());
    reveal_strlit("AH-64D_BLK_II");
    assert("MiG-29S"@.len() != "AH-64D_BLK_II"@.len());
    reveal_strlit("Mi-24P");
    assert("MiG-29S"@.len() != "Mi-24P"@.len());
    reveal_strlit("Ka-50_3");
    assert("MiG-29S"@[0] != "Ka-50_3"@[0]);
    reveal_strlit("A-10C");
    assert("MiG-29S"@.len() != "A-10C"@.len());
    reveal_strlit("A-10A");
    assert("MiG-29S"@.len() != "A-10A"@.len());
    reveal_strlit("Su-25");
    assert("MiG-29S"@.len() != "Su-25"@.len());
    reveal_strlit("Su-25T");
    assert("MiG-29S"@.len() != "Su-25T"@.len());
    reveal_strlit("AJS37");
    assert("MiG-29S"@.len() != "AJS37"@.len());
    reveal_strlit("Ka-50");
    assert("MiG-29S"@.len() != "Ka-50"@.len());
    reveal_strlit("AV8BNA");
    assert("MiG-29S"@.len() != "AV8BNA"@.len());
    reveal_strlit("A-10C_2");
    assert("MiG-29S"@[0] != "A-10C_2"@[0]);
    reveal_strlit("JF-17");
    assert("MiG-29S"@.len() != "JF-17"@.len());
    reveal_strlit("SA342L");
    assert("MiG-29S"@.len() != "SA342L"@.len());
    reveal_strlit("UH-1H");
    assert("MiG-29S"@.len() != "UH-1H"@.len());
    reveal_strlit("Mi-8MT");
    assert("MiG-29S"@.len() != "Mi-8MT"@.len());
    reveal_strlit("SA342M");
    assert("MiG-29S"@.len() != "SA342M"@.len());
    reveal_strlit("L-39C");
    assert("MiG-29S"@.len() != "L-39C"@.len());
    reveal_strlit("L-39ZA");
    assert("MiG-29S"@.len() != "L-39ZA"@.len());
    reveal_strlit("TF-51D");
    assert("MiG-29S"@.len() != "TF-51D"@.len());
    reveal_strlit("Yak-52");
    assert("MiG-29S"@.len() != "Yak-52"@.len());
    reveal_strlit("C-101CC");
    assert("MiG-29S"@[0] != "C-101CC"@[0]);
    reveal_strlit("MB-339A");
    assert("MiG-29S"@[1] != "MB-339A"@[1]);
    reveal_strlit("F-5E-3");
    assert("MiG-29S"@.len() != "F-5E-3"@.len());
    reveal_strlit("MiG-21Bis");
    assert("MiG-29S"@.len() != "MiG-21Bis"@.len());
    reveal_strlit("MiG-19P");
    assert("MiG-29S"@[4] != "MiG-19P"@[4]);
    reveal_strlit("Mirage-F1EE");
    assert("MiG-29S"@.len() != "Mirage-F1EE"@.len());
    reveal_strlit("Mirage-F1CE");
    assert("MiG-29S"@.len() != "Mirage-F1CE"@.len());
}

/// In the default configuration the `M-2000C` draws from the Standard pool.
proof fn lemma_life_type_of_m_2000c()
    ensures
        default_life_types().contains_key("M-2000C"@),
        default_life_types()["M-2000C"@] == LifeType::Standard,
{
    reveal_strlit("M-2000C");
    reveal_strlit("F-16C_50");
    assert("M-2000C"@.len() != "F-16C_50"@.len());
    reveal_strlit("MiG-29A");
    assert("M-2000C"@[1] != "MiG-29A"@[1]);
    reveal_strlit("Su-27");
    assert("M-2000C"@.len() != "Su-27"@.len());
    reveal_strlit("AH-64D_BLK_II");
    assert("M-2000C"@.len() != "AH-64D_BLK_II"@.len());
    reveal_strlit("Mi-24P");
    assert("M-2000C"@.len() != "Mi-24P"@.len());
    reveal_strlit("Ka-50_3");
    assert("M-2000C"@[0] != "Ka-50_3"@[0]);
    reveal_strlit("A-10C");
    assert("M-2000C"@.len() != "A-10C"@.len());
    reveal_strlit("A-10A");
    assert("M-2000C"@.len() != "A-10A"@.len());
    reveal_strlit("Su-25");
    assert("M-2000C"@.len() != "Su-25"@.len());
    reveal_strlit("Su-25T");
    assert("M-2000C"@.len() != "Su-25T"@.len());
    reveal_strlit("AJS37");
    assert("M-2000C"@.len() != "AJS37"@.len());
    reveal_strlit("Ka-50");
    assert("M-2000C"@.len() != "Ka-50"@.len());
    reveal_strlit("AV8BNA");
    assert("M-2000C"@.len() != "AV8BNA"@.len());
    reveal_strlit("A-10C_2");
    assert("M-2000C"@[0] != "A-10C_2"@[0]);
    reveal_strlit("JF-17");
    assert("M-2000C"@.len() != "JF-17"@.len());
    reveal_strlit("SA342L");
    assert("M-2000C"@.len() != "SA342L"@.len());
    reveal_strlit("UH-1H");
    assert("M-2000C"@.len() != "UH-1H"@.len());
    reveal_strlit("Mi-8MT");
    assert("M-2000C"@.len() != "Mi-8MT"@.len());
    reveal_strlit("SA342M");
    assert("M-2000C"@.len() != "SA342M"@.len());
    reveal_strlit("L-39C");
    assert("M-2000C"@.len() != "L-39C"@.len());
    reveal_strlit("L-39ZA");
    assert("M-2000C"@.len() != "L-39ZA"@.len());
    reveal_strlit("TF-51D");
    assert("M-2000C"@.len() != "TF-51D"@.len());
    reveal_strlit("Yak-52");
    assert("M-2000C"@.len() != "Yak-52"@.len());
    reveal_strlit("C-101CC");
    assert("M-2000C"@[0] != "C-101CC"@[0]);
    reveal_strlit("MB-339A");
    assert("M-2000C"@[1] != "MB-339A"@[1]);
    reveal_strlit("F-5E-3");
    assert("M-2000C"@.len() != "F-5E-3"@.len());
    reveal_strlit("MiG-21Bis");
    assert("M-2000C"@.len() != "MiG-21Bis"@.len());
    reveal_strlit("MiG-19P");
    assert("M-2000C"@[1] != "MiG-19P"@[1]);
    reveal_strlit("Mirage-F1EE");
    assert("M-2000C"@.len() != "Mirage-F1EE"@.len());
    reveal_strlit("Mirage-F1CE");
    assert("M-2000C"@.len() != "Mirage-F1CE"@.len());
}

/// In the default configuration the `F-16C_50` draws from the Standard pool.
proof fn lemma_life_type_of_f_16c_50()
    ensures
        default_life_types().contains_key("F-16C_50"@),
        default_life_types()["F-16C_50"@] == LifeType::Standard,
{
    reveal_strlit("F-16C_50");
    reveal_strlit("MiG-29A");
    assert("F-16C_50"@.len() != "MiG-29A"@.len());
    reveal_strlit("Su-27");
    assert("F-16C_50"@.len() != "Su-27"@.len());
    reveal_strlit("AH-64D_BLK_II");
    assert("F-16C_50"@.len() != "AH-64D_BLK_II"@.len());
    reveal_strlit("Mi-24P");
    assert("F-16C_50"@.len() != "Mi-24P"@.len());
    reveal_strlit("Ka-50_3");
    assert("F-16C_50"@.len() != "Ka-50_3"@.len());
    reveal_strlit("A-10C");
    assert("F-16C_50"@.len() != "A-10C"@.len());
    reveal_strlit("A-10A");
    assert("F-16C_50"@.len() != "A-10A"@.len());
    reveal_strlit("Su-25");
    assert("F-16C_50"@.len() != "Su-25"@.len());
    reveal_strlit("Su-25T");
    assert("F-16C_50"@.len() != "Su-25T"@.len());
    reveal_strlit("AJS37");
    assert("F-16C_50"@.len() != "AJS37"@.len());
    reveal_strlit("Ka-50");
    assert("F-16C_50"@.len() != "Ka-50"@.len());
    reveal_strlit("AV8BNA");
    assert("F-16C_50"@.len() != "AV8BNA"@.len());
    reveal_strlit("A-10C_2");
    assert("F-16C_50"@.len() != "A-10C_2"@.len());
    reveal_strlit("JF-17");
    assert("F-16C_50"@.len() != "JF-17"@.len());
    reveal_strlit("SA342L");
    assert("F-16C_50"@.len() != "SA342L"@.len());
    reveal_strlit("UH-1H");
    assert("F-16C_50"@.len() != "UH-1H"@.len());
    reveal_strlit("Mi-8MT");
    assert("F-16C_50"@.len() != "Mi-8MT"@.len());
    reveal_strlit("SA342M");
    assert("F-16C_50"@.len() != "SA342M"@.len());
    reveal_strlit("L-39C");
    assert("F-16C_50"@.len() != "L-39C"@.len());
    reveal_strlit("L-39ZA");
    assert("F-16C_50"@.len() != "L-39ZA"@.len());
    reveal_strlit("TF-51D");
    assert("F-16C_50"@.len() != "TF-51D"@.len());
    reveal_strlit("Yak-52");
    assert("F-16C_50"@.len() != "Yak-52"@.len());
    reveal_strlit("C-101CC");
    assert("F-16C_50"@.len() != "C-101CC"@.len());
    reveal_strlit("MB-339A");
    assert("F-16C_50"@.len() != "MB-339A"@.len());
    reveal_strlit("F-5E-3");
    assert("F-16C_50"@.len() != "F-5E-3"@.len());
    reveal_strlit("MiG-21Bis");
    assert("F-16C_50"@.len() != "MiG-21Bis"@.len());
    reveal_strlit("MiG-19P");
    assert("F-16C_50"@.len() != "MiG-19P"@.len());
    reveal_strlit("Mirage-F1EE");
    assert("F-16C_50"@.len() != "Mirage-F1EE"@.len());
    reveal_strlit("Mirage-F1CE");
    assert("F-16C_50"@.len() != "Mirage-F1CE"@.len());
}

/// In the default configuration the `MiG-29A` draws from the Standard pool.
proof fn lemma_life_type_of_mig_29a()
    ensures
        default_life_types().contains_key("MiG-29A"@),
        default_life_types()["MiG-29A"@] == LifeType::Standard,
{
    reveal_strlit("MiG-29A");
    reveal_strlit("Su-27");
    assert("MiG-29A"@.len() != "Su-27"@.len());
    reveal_strlit("AH-64D_BLK_II");
    assert("MiG-29A"@.len() != "AH-64D_BLK_II"@.len());
    reveal_strlit("Mi-24P");
    assert("MiG-29A"@.len() != "Mi-24P"@.len());
    reveal_strlit("Ka-50_3");
    assert("MiG-29A"@[0] != "Ka-50_3"@[0]);
    reveal_strlit("A-10C");
    assert("MiG-29A"@.len() != "A-10C"@.len());
    reveal_strlit("A-10A");
    assert("MiG-29A"@.len() != "A-10A"@.len());
    reveal_strlit("Su-25");
    assert("MiG-29A"@.len() != "Su-25"@.len());
    reveal_strlit("Su-25T");
    assert("MiG-29A"@.len() != "Su-25T"@.len());
    reveal_strlit("AJS37");
    assert("MiG-29A"@.len() != "AJS37"@.len());
    reveal_strlit("Ka-50");
    assert("MiG-29A"@.len() != "Ka-50"@.len());
    reveal_strlit("AV8BNA");
    assert("MiG-29A"@.len() != "AV8BNA"@.len());
    reveal_strlit("A-10C_2");
    assert("MiG-29A"@[0] != "A-10C_2"@[0]);
    reveal_strlit("JF-17");
    assert("MiG-29A"@.len() != "JF-17"@.len());
    reveal_strlit("SA342L");
    assert("MiG-29A"@.len() != "SA342L"@.len());
    reveal_strlit("UH-1H");
    assert("MiG-29A"@.len() != "UH-1H"@.len());
    reveal_strlit("Mi-8MT");
    assert("MiG-29A"@.len() != "Mi-8MT"@.len());
    reveal_strlit("SA342M");
    assert("MiG-29A"@.len() != "SA342M"@.len());
    reveal_strlit("L-39C");
    assert("MiG-29A"@.len() != "L-39C"@.len());
    reveal_strlit("L-39ZA");
    assert("MiG-29A"@.len() != "L-39ZA"@.len());
    reveal_strlit("TF-51D");
    assert("MiG-29A"@.len() != "TF-51D"@.len());
    reveal_strlit("Yak-52");
    assert("MiG-29A"@.len() != "Yak-52"@.len());
    reveal_strlit("C-101CC");
    assert("MiG-29A"@[0] != "C-101CC"@[0]);
    reveal_strlit("MB-339A");
    assert("MiG-29A"@[1] != "MB-339A"@[1]);
    reveal_strlit("F-5E-3");
    assert("MiG-29A"@.len() != "F-5E-3"@.len());
    reveal_strlit("MiG-21Bis");
    assert("MiG-29A"@.len() != "MiG-21Bis"@.len());
    reveal_strlit("MiG-19P");
    assert("MiG-29A"@[4] != "MiG-19P"@[4]);
    reveal_strlit("Mirage-F1EE");
    assert("MiG-29A"@.len() != "Mirage-F1EE"@.len());
    reveal_strlit("Mirage-F1CE");
    assert("MiG-29A"@.len() != "Mirage-F1CE"@.len());
}

/// In the default configuration the `Su-27` draws from the Standard pool.
proof fn lemma_life_type_of_su_27()
    ensures
        default_life_types().contains_key("Su-27"@),
        default_life_types()["Su-27"@] == LifeType::Standard,
{
    reveal_strlit("Su-27");
    reveal_strlit("AH-64D_BLK_II");
    assert("Su-27"@.len() != "AH-64D_BLK_II"@.len());
    reveal_strlit("Mi-24P");
    assert("Su-27"@.len() != "Mi-24P"@.len());
    reveal_strlit("Ka-50_3");
    assert("Su-27"@.len() != "Ka-50_3"@.len());
    reveal_strlit("A-10C");
    assert("Su-27"@[0] != "A-10C"@[0]);
    reveal_strlit("A-10A");
    assert("Su-27"@[0] != "A-10A"@[0]);
    reveal_strlit("Su-25");
    assert("Su-27"@[4] != "Su-25"@[4]);
    reveal_strlit("Su-25T");
    assert("Su-27"@.len() != "Su-25T"@.len());
    reveal_strlit("AJS37");
    assert("Su-27"@[0] != "AJS37"@[0]);
    reveal_strlit("Ka-50");
    assert("Su-27"@[0] != "Ka-50"@[0]);
    reveal_strlit("AV8BNA");
    assert("Su-27"@.len() != "AV8BNA"@.len());
    reveal_strlit("A-10C_2");
    assert("Su-27"@.len() != "A-10C_2"@.len());
    reveal_strlit("JF-17");
    assert("Su-27"@[0] != "JF-17"@[0]);
    reveal_strlit("SA342L");
    assert("Su-27"@.len() != "SA342L"@.len());
    reveal_strlit("UH-1H");
    assert("Su-27"@[0] != "UH-1H"@[0]);
    reveal_strlit("Mi-8MT");
    assert("Su-27"@.len() != "Mi-8MT"@.len());
    reveal_strlit("SA342M");
    assert("Su-27"@.len() != "SA342M"@.len());
    reveal_strlit("L-39C");
    assert("Su-27"@[0] != "L-39C"@[0]);
    reveal_strlit("L-39ZA");
    assert("Su-27"@.len() != "L-39ZA"@.len());
    reveal_strlit("TF-51D");
    assert("Su-27"@.len() != "TF-51D"@.len());
    reveal_strlit("Yak-52");
    assert("Su-27"@.len() != "Yak-52"@.len());
    reveal_strlit("C-101CC");
    assert("Su-27"@.len() != "C-101CC"@.len());
    reveal_strlit("MB-339A");
    assert("Su-27"@.len() != "MB-339A"@.len());
    reveal_strlit("F-5E-3");
    assert("Su-27"@.len() != "F-5E-3"@.len());
    reveal_strlit("MiG-21Bis");
    assert("Su-27"@.len() != "MiG-21Bis"@.len());
    reveal_strlit("MiG-19P");
    assert("Su-27"@.len() != "MiG-19P"@.len());
    reveal_strlit("Mirage-F1EE");
    assert("Su-27"@.len() != "Mirage-F1EE"@.len());
    reveal_strlit("Mirage-F1CE");
    assert("Su-27"@.len() != "Mirage-F1CE"@.len());
}

/// In the default configuration the `AH-64D_BLK_II` draws from the Attack pool.
proof fn lemma_life_type_of_ah_64d_blk_ii()
    ensures
        default_life_types().contains_key("AH-64D_BLK_II"@),
        default_life_types()["AH-64D_BLK_II"@] == LifeType::Attack,
{
    reveal_strlit("AH-64D_BLK_II");
    reveal_strlit("Mi-24P");
    assert("AH-64D_BLK_II"@.len() != "Mi-24P"@.len());
    reveal_strlit("Ka-50_3");
    assert("AH-64D_BLK_II"@.len() != "Ka-50_3"@.len());
    reveal_strlit("A-10C");
    assert("AH-64D_BLK_II"@.len() != "A-10C"@.len());
    reveal_strlit("A-10A");
    assert("AH-64D_BLK_II"@.len() != "A-10A"@.len());
    reveal_strlit("Su-25");
    assert("AH-64D_BLK_II"@.len() != "Su-25"@.len());
    reveal_strlit("Su-25T");
    assert("AH-64D_BLK_II"@.len() != "Su-25T"@.len());
    reveal_strlit("AJS37");
    assert("AH-64D_BLK_II"@.len() != "AJS37"@.len());
    reveal_strlit("Ka-50");
    assert("AH-64D_BLK_II"@.len() != "Ka-50"@.len());
    reveal_strlit("AV8BNA");
    assert("AH-64D_BLK_II"@.len() != "AV8BNA"@.len());
    reveal_strlit("A-10C_2");
    assert("AH-64D_BLK_II"@.len() != "A-10C_2"@.len());
    reveal_strlit("JF-17");
    assert("AH-64D_BLK_II"@.len() != "JF-17"@.len());
    reveal_strlit("SA342L");
    assert("AH-64D_BLK_II"@.len() != "SA342L"@.len());
    reveal_strlit("UH-1H");
    assert("AH-64D_BLK_II"@.len() != "UH-1H"@.len());
    reveal_strlit("Mi-8MT");
    assert("AH-64D_BLK_II"@.len() != "Mi-8MT"@.len());
    reveal_strlit("SA342M");
    assert("AH-64D_BLK_II"@.len() != "SA342M"@.len());
    reveal_strlit("L-39C");
    assert("AH-64D_BLK_II"@.len() != "L-39C"@.len());
    reveal_strlit("L-39ZA");
    assert("AH-64D_BLK_II"@.len() != "L-39ZA"@.len());
    reveal_strlit("TF-51D");
    assert("AH-64D_BLK_II"@.len() != "TF-51D"@.len());
    reveal_strlit("Yak-52");
    assert("AH-64D_BLK_II"@.len() != "Yak-52"@.len());
    reveal_strlit("C-101CC");
    assert("AH-64D_BLK_II"@.len() != "C-101CC"@.len());
    reveal_strlit("MB-339A");
    assert("AH-64D_BLK_II"@.len() != "MB-339A"@.len());
    reveal_strlit("F-5E-3");
    assert("AH-64D_BLK_II"@.len() != "F-5E-3"@.len());
    reveal_strlit("MiG-21Bis");
    assert("AH-64D_BLK_II"@.len() != "MiG-21Bis"@.len());
    reveal_strlit("MiG-19P");
    assert("AH-64D_BLK_II"@.len() != "MiG-19P"@.len());
    reveal_strlit("Mirage-F1EE");
    assert("AH-64D_BLK_II"@.len() != "Mirage-F1EE"@.len());
    reveal_strlit("Mirage-F1CE");
    assert("AH-64D_BLK_II"@.len() != "Mirage-F1CE"@.len());
}

/// In the default configuration the `Mi-24P` draws from the Attack pool.
proof fn lemma_life_type_of_mi_24p()
    ensures
        default_life_types().contains_key("Mi-24P"@),
        default_life_types()["Mi-24P"@] == LifeType::Attack,
{
    reveal_strlit("Mi-24P");
    reveal_strlit("Ka-50_3");
    assert("Mi-24P"@.len() != "Ka-50_3"@.len());
    reveal_strlit("A-10C");
    assert("Mi-24P"@.len() != "A-10C"@.len());
    reveal_strlit("A-10A");
    assert("Mi-24P"@.len() != "A-10A"@.len());
    reveal_strlit("Su-25");
    assert("Mi-24P"@.len() != "Su-25"@.len());
    reveal_strlit("Su-25T");
    assert("Mi-24P"@[0] != "Su-25T"@[0]);
    reveal_strlit("AJS37");
    assert("Mi-24P"@.len() != "AJS37"@.len());
    reveal_strlit("Ka-50");
    assert("Mi-24P"@.len() != "Ka-50"@.len());
    reveal_strlit("AV8BNA");
    assert("Mi-24P"@[0] != "AV8BNA"@[0]);
    reveal_strlit("A-10C_2");
    assert("Mi-24P"@.len() != "A-10C_2"@.len());
    reveal_strlit("JF-17");
    assert("Mi-24P"@.len() != "JF-17"@.len());
    reveal_strlit("SA342L");
    assert("Mi-24P"@[0] != "SA342L"@[0]);
    reveal_strlit("UH-1H");
    assert("Mi-24P"@.len() != "UH-1H"@.len());
    reveal_strlit("Mi-8MT");
    assert("Mi-24P"@[3] != "Mi-8MT"@[3]);
    reveal_strlit("SA342M");
    assert("Mi-24P"@[0] != "SA342M"@[0]);
    reveal_strlit("L-39C");
    assert("Mi-24P"@.len() != "L-39C"@.len());
    reveal_strlit("L-39ZA");
    assert("Mi-24P"@[0] != "L-39ZA"@[0]);
    reveal_strlit("TF-51D");
    assert("Mi-24P"@[0] != "TF-51D"@[0]);
    reveal_strlit("Yak-52");
    assert("Mi-24P"@[0] != "Yak-52"@[0]);
    reveal_strlit("C-101CC");
    assert("Mi-24P"@.len() != "C-101CC"@.len());
    reveal_strlit("MB-339A");
    assert("Mi-24P"@.len() != "MB-339A"@.len());
    reveal_strlit("F-5E-3");
    assert("Mi-24P"@[0] != "F-5E-3"@[0]);
    reveal_strlit("MiG-21Bis");
    assert("Mi-24P"@.len() != "MiG-21Bis"@.len());
    reveal_strlit("MiG-19P");
    assert("Mi-24P"@.len() != "MiG-19P"@.len());
    reveal_strlit("Mirage-F1EE");
    assert("Mi-24P"@.len() != "Mirage-F1EE"@.len());
    reveal_strlit("Mirage-F1CE");
    assert("Mi-24P"@.len() != "Mirage-F1CE"@.len());
}

/// In the default configuration the `Ka-50_3` draws from the Attack pool.
proof fn lemma_life_type_of_ka_50_3()
    ensures
        default_life_types().contains_key("Ka-50_3"@),
        default_life_types()["Ka-50_3"@] == LifeType::Attack,
{
    reveal_strlit("Ka-50_3");
    reveal_strlit("A-10C");
    assert("Ka-50_3"@.len() != "A-10C"@.len());
    reveal_strlit("A-10A");
    assert("Ka-50_3"@.len() != "A-10A"@.len());
    reveal_strlit("Su-25");
    assert("Ka-50_3"@.len() != "Su-25"@.len());
    reveal_strlit("Su-25T");
    assert("Ka-50_3"@.len() != "Su-25T"@.len());
    reveal_strlit("AJS37");
    assert("Ka-50_3"@.len() != "AJS37"@.len());
    reveal_strlit("Ka-50");
    assert("Ka-50_3"@.len() != "Ka-50"@.len());
    reveal_strlit("AV8BNA");
    assert("Ka-50_3"@.len() != "AV8BNA"@.len());
    reveal_strlit("A-10C_2");
    assert("Ka-50_3"@[0] != "A-10C_2"@[0]);
    reveal_strlit("JF-17");
    assert("Ka-50_3"@.len() != "JF-17"@.len());
    reveal_strlit("SA342L");
    assert("Ka-50_3"@.len() != "SA342L"@.len());
    reveal_strlit("UH-1H");
    assert("Ka-50_3"@.len() != "UH-1H"@.len());
    reveal_strlit("Mi-8MT");
    assert("Ka-50_3"@.len() != "Mi-8MT"@.len());
    reveal_strlit("SA342M");
    assert("Ka-50_3"@.len() != "SA342M"@.len());
    reveal_strlit("L-39C");
    assert("Ka-50_3"@.len() != "L-39C"@.len());
    reveal_strlit("L-39ZA");
    assert("Ka-50_3"@.len() != "L-39ZA"@.len());
    reveal_strlit("TF-51D");
    assert("Ka-50_3"@.len() != "TF-51D"@.len());
    reveal_strlit("Yak-52");
    assert("Ka-50_3"@.len() != "Yak-52"@.len());
    reveal_strlit("C-101CC");
    assert("Ka-50_3"@[0] != "C-101CC"@[0]);
    reveal_strlit("MB-339A");
    assert("Ka-50_3"@[0] != "MB-339A"@[0]);
    reveal_strlit("F-5E-3");
    assert("Ka-50_3"@.len() != "F-5E-3"@.len());
    reveal_strlit("MiG-21Bis");
    assert("Ka-50_3"@.len() != "MiG-21Bis"@.len());
    reveal_strlit("MiG-19P");
    assert("Ka-50_3"@[0] != "MiG-19P"@[0]);
    reveal_strlit("Mirage-F1EE");
    assert("Ka-50_3"@.len() != "Mirage-F1EE"@.len());
    reveal_strlit("Mirage-F1CE");
    assert("Ka-50_3"@.len() != "Mirage-F1CE"@.len());
}

/// In the default configuration the `A-10C` draws from the Attack pool.
proof fn lemma_life_type_of_a_10c()
    ensures
        default_life_types().contains_key("A-10C"@),
        default_life_types()["A-10C"@] == LifeType::Attack,
{
    reveal_strlit("A-10C");
    reveal_strlit("A-10A");
    assert("A-10C"@[4] != "A-10A"@[4]);
    reveal_strlit("Su-25");
    assert("A-10C"@[0] != "Su-25"@[0]);
    reveal_strlit("Su-25T");
    assert("A-10C"@.len() != "Su-25T"@.len());
    reveal_strlit("AJS37");
    assert("A-10C"@[1] != "AJS37"@[1]);
    reveal_strlit("Ka-50");
    assert("A-10C"@[0] != "Ka-50"@[0]);
    reveal_strlit("AV8BNA");
    assert("A-10C"@.len() != "AV8BNA"@.len());
    reveal_strlit("A-10C_2");
    assert("A-10C"@.len() != "A-10C_2"@.len());
    reveal_strlit("JF-17");
    assert("A-10C"@[0] != "JF-17"@[0]);
    reveal_strlit("SA342L");
    assert("A-10C"@.len() != "SA342L"@.len());
    reveal_strlit("UH-1H");
    assert("A-10C"@[0] != "UH-1H"@[0]);
    reveal_strlit("Mi-8MT");
    assert("A-10C"@.len() != "Mi-8MT"@.len());
    reveal_strlit("SA342M");
    assert("A-10C"@.len() != "SA342M"@.len());
    reveal_strlit("L-39C");
    assert("A-10C"@[0] != "L-39C"@[0]);
    reveal_strlit("L-39ZA");
    assert("A-10C"@.len() != "L-39ZA"@.len());
    reveal_strlit("TF-51D");
    assert("A-10C"@.len() != "TF-51D"@.len());
    reveal_strlit("Yak-52");
    assert("A-10C"@.len() != "Yak-52"@.len());
    reveal_strlit("C-101CC");
    assert("A-10C"@.len() != "C-101CC"@.len());
    reveal_strlit("MB-339A");
    assert("A-10C"@.len() != "MB-339A"@.len());
    reveal_strlit("F-5E-3");
    assert("A-10C"@.len() != "F-5E-3"@.len());
    reveal_strlit("MiG-21Bis");
    assert("A-10C"@.len() != "MiG-21Bis"@.len());
    reveal_strlit("MiG-19P");
    assert("A-10C"@.len() != "MiG-19P"@.len());
    reveal_strlit("Mirage-F1EE");
    assert("A-10C"@.len() != "Mirage-F1EE"@.len());
    reveal_strlit("Mirage-F1CE");
    assert("A-10C"@.len() != "Mirage-F1CE"@.len());
}

/// In the default configuration the `A-10A` draws from the Attack pool.
proof fn lemma_life_type_of_a_10a()
    ensures
        default_life_types().contains_key("A-10A"@),
        default_life_types()["A-10A"@] == LifeType::Attack,
{
    reveal_strlit("A-10A");
    reveal_strlit("Su-25");
    assert("A-10A"@[0] != "Su-25"@[0]);
    reveal_strlit("Su-25T");
    assert("A-10A"@.len() != "Su-25T"@.len());
    reveal_strlit("AJS37");
    assert("A-10A"@[1] != "AJS37"@[1]);
    reveal_strlit("Ka-50");
    assert("A-10A"@[0] != "Ka-50"@[0]);
    reveal_strlit("AV8BNA");
    assert("A-10A"@.len() != "AV8BNA"@.len());
    reveal_strlit("A-10C_2");
    assert("A-10A"@.len() != "A-10C_2"@.len());
    reveal_strlit("JF-17");
    assert("A-10A"@[0] != "JF-17"@[0]);
    reveal_strlit("SA342L");
    assert("A-10A"@.len() != "SA342L"@.len());
    reveal_strlit("UH-1H");
    assert("A-10A"@[0] != "UH-1H"@[0]);
    reveal_strlit("Mi-8MT");
    assert("A-10A"@.len() != "Mi-8MT"@.len());
    reveal_strlit("SA342M");
    assert("A-10A"@.len() != "SA342M"@.len());
    reveal_strlit("L-39C");
    assert("A-10A"@[0] != "L-39C"@[0]);
    reveal_strlit("L-39ZA");
    assert("A-10A"@.len() != "L-39ZA"@.len());
    reveal_strlit("TF-51D");
    assert("A-10A"@.len() != "TF-51D"@.len());
    reveal_strlit("Yak-52");
    assert("A-10A"@.len() != "Yak-52"@.len());
    reveal_strlit("C-101CC");
    assert("A-10A"@.len() != "C-101CC"@.len());
    reveal_strlit("MB-339A");
    assert("A-10A"@.len() != "MB-339A"@.len());
    reveal_strlit("F-5E-3");
    assert("A-10A"@.len() != "F-5E-3"@.len());
    reveal_strlit("MiG-21Bis");
    assert("A-10A"@.len() != "MiG-21Bis"@.len());
    reveal_strlit("MiG-19P");
    assert("A-10A"@.len() != "MiG-19P"@.len());
    reveal_strlit("Mirage-F1EE");
    assert("A-10A"@.len() != "Mirage-F1EE"@.len());
    reveal_strlit("Mirage-F1CE");
    assert("A-10A"@.len() != "Mirage-F1CE"@.len());
}

/// In the default configuration the `Su-25` draws from the Attack pool.
proof fn lemma_life_type_of_su_25()
    ensures
        default_life_types().contains_key("Su-25"@),
        default_life_types()["Su-25"@] == LifeType::Attack,
{
    reveal_strlit("Su-25");
    reveal_strlit("Su-25T");
    assert("Su-25"@.len() != "Su-25T"@.len());
    reveal_strlit("AJS37");
    assert("Su-25"@[0] != "AJS37"@[0]);
    reveal_strlit("Ka-50");
    assert("Su-25"@[0] != "Ka-50"@[0]);
    reveal_strlit("AV8BNA");
    assert("Su-25"@.len() != "AV8BNA"@.len());
    reveal_strlit("A-10C_2");
    assert("Su-25"@.len() != "A-10C_2"@.len());
    reveal_strlit("JF-17");
    assert("Su-25"@[0] != "JF-17"@[0]);
    reveal_strlit("SA342L");
    assert("Su-25"@.len() != "SA342L"@.len());
    reveal_strlit("UH-1H");
    assert("Su-25"@[0] != "UH-1H"@[0]);
    reveal_strlit("Mi-8MT");
    assert("Su-25"@.len() != "Mi-8MT"@.len());
    reveal_strlit("SA342M");
    assert("Su-25"@.len() != "SA342M"@.len());
    reveal_strlit("L-39C");
    assert("Su-25"@[0] != "L-39C"@[0]);
    reveal_strlit("L-39ZA");
    assert("Su-25"@.len() != "L-39ZA"@.len());
    reveal_strlit("TF-51D");
    assert("Su-25"@.len() != "TF-51D"@.len());
    reveal_strlit("Yak-52");
    assert("Su-25"@.len() != "Yak-52"@.len());
    reveal_strlit("C-101CC");
    assert("Su-25"@.len() != "C-101CC"@.len());
    reveal_strlit("MB-339A");
    assert("Su-25"@.len() != "MB-339A"@.len());
    reveal_strlit("F-5E-3");
    assert("Su-25"@.len() != "F-5E-3"@.len());
    reveal_strlit("MiG-21Bis");
    assert("Su-25"@.len() != "MiG-21Bis"@.len());
    reveal_strlit("MiG-19P");
    assert("Su-25"@.len() != "MiG-19P"@.len());
    reveal_strlit("Mirage-F1EE");
    assert("Su-25"@.len() != "Mirage-F1EE"@.len());
    reveal_strlit("Mirage-F1CE");
    assert("Su-25"@.len() != "Mirage-F1CE"@.len());
}

/// In the default configuration the `Su-25T` draws from the Attack pool.
proof fn lemma_life_type_of_su_25t()
    ensures
        default_life_types().contains_key("Su-25T"@),
        default_life_types()["Su-25T"@] == LifeType::Attack,
{
    reveal_strlit("Su-25T");
    reveal_strlit("AJS37");
    assert("Su-25T"@.len() != "AJS37"@.len());
    reveal_strlit("Ka-50");
    assert("Su-25T"@.len() != "Ka-50"@.len());
    reveal_strlit("AV8BNA");
    assert("Su-25T"@[0] != "AV8BNA"@[0]);
    reveal_strlit("A-10C_2");
    assert("Su-25T"@.len() != "A-10C_2"@.len());
    reveal_strlit("JF-17");
    assert("Su-25T"@.len() != "JF-17"@.len());
    reveal_strlit("SA342L");
    assert("Su-25T"@[1] != "SA342L"@[1]);
    reveal_strlit("UH-1H");
    assert("Su-25T"@.len() != "UH-1H"@.len());
    reveal_strlit("Mi-8MT");
    assert("Su-25T"@[0] != "Mi-8MT"@[0]);
    reveal_strlit("SA342M");
    assert("Su-25T"@[1] != "SA342M"@[1]);
    reveal_strlit("L-39C");
    assert("Su-25T"@.len() != "L-39C"@.len());
    reveal_strlit("L-39ZA");
    assert("Su-25T"@[0] != "L-39ZA"@[0]);
    reveal_strlit("TF-51D");
    assert("Su-25T"@[0] != "TF-51D"@[0]);
    reveal_strlit("Yak-52");
    assert("Su-25T"@[0] != "Yak-52"@[0]);
    reveal_strlit("C-101CC");
    assert("Su-25T"@.len() != "C-101CC"@.len());
    reveal_strlit("MB-339A");
    assert("Su-25T"@.len() != "MB-339A"@.len());
    reveal_strlit("F-5E-3");
    assert("Su-25T"@[0] != "F-5E-3"@[0]);
    reveal_strlit("MiG-21Bis");
    assert("Su-25T"@.len() != "MiG-21Bis"@.len());
    reveal_strlit("MiG-19P");
    assert("Su-25T"@.len() != "MiG-19P"@.len());
    reveal_strlit("Mirage-F1EE");
    assert("Su-25T"@.len() != "Mirage-F1EE"@.len());
    reveal_strlit("Mirage-F1CE");
    assert("Su-25T"@.len() != "Mirage-F1CE"@.len());
}

/// In the default configuration the `AJS37` draws from the Attack pool.
proof fn lemma_life_type_of_ajs37()
    ensures
        default_life_types().contains_key("AJS37"@),
        default_life_types()["AJS37"@] == LifeType::Attack,
{
    reveal_strlit("AJS37");
    reveal_strlit("Ka-50");
    assert("AJS37"@[0] != "Ka-50"@[0]);
    reveal_strlit("AV8BNA");
    assert("AJS37"@.len() != "AV8BNA"@.len());
    reveal_strlit("A-10C_2");
    assert("AJS37"@.len() != "A-10C_2"@.len());
    reveal_strlit("JF-17");
    assert("AJS37"@[0] != "JF-17"@[0]);
    reveal_strlit("SA342L");
    assert("AJS37"@.len() != "SA342L"@.len());
    reveal_strlit("UH-1H");
    assert("AJS37"@[0] != "UH-1H"@[0]);
    reveal_strlit("Mi-8MT");
    assert("AJS37"@.len() != "Mi-8MT"@.len());
    reveal_strlit("SA342M");
    assert("AJS37"@.len() != "SA342M"@.len());
    reveal_strlit("L-39C");
    assert("AJS37"@[0] != "L-39C"@[0]);
    reveal_strlit("L-39ZA");
    assert("AJS37"@.len() != "L-39ZA"@.len());
    reveal_strlit("TF-51D");
    assert("AJS37"@.len() != "TF-51D"@.len());
    reveal_strlit("Yak-52");
    assert("AJS37"@.len() != "Yak-52"@.len());
    reveal_strlit("C-101CC");
    assert("AJS37"@.len() != "C-101CC"@.len());
    reveal_strlit("MB-339A");
    assert("AJS37"@.len() != "MB-339A"@.len());
    reveal_strlit("F-5E-3");
    assert("AJS37"@.len() != "F-5E-3"@.len());
    reveal_strlit("MiG-21Bis");
    assert("AJS37"@.len() != "MiG-21Bis"@.len());
    reveal_strlit("MiG-19P");
    assert("AJS37"@.len() != "MiG-19P"@.len());
    reveal_strlit("Mirage-F1EE");
    assert("AJS37"@.len() != "Mirage-F1EE"@.len());
    reveal_strlit("Mirage-F1CE");
    assert("AJS37"@.len() != "Mirage-F1CE"@.len());
}

/// In the default configuration the `Ka-50` draws from the Attack pool.
proof fn lemma_life_type_of_ka_50()
    ensures
        default_life_types().contains_key("Ka-50"@),
        default_life_types()["Ka-50"@] == LifeType::Attack,
{
    reveal_strlit("Ka-50");
    reveal_strlit("AV8BNA");
    assert("Ka-50"@.len() != "AV8BNA"@.len());
    reveal_strlit("A-10C_2");
    assert("Ka-50"@.len() != "A-10C_2"@.len());
    reveal_strlit("JF-17");
    assert("Ka-50"@[0] != "JF-17"@[0]);
    reveal_strlit("SA342L");
    assert("Ka-50"@.len() != "SA342L"@.len());
    reveal_strlit("UH-1H");
    assert("Ka-50"@[0] != "UH-1H"@[0]);
    reveal_strlit("Mi-8MT");
    assert("Ka-50"@.len() != "Mi-8MT"@.len());
    reveal_strlit("SA342M");
    assert("Ka-50"@.len() != "SA342M"@.len());
    reveal_strlit("L-39C");
    assert("Ka-50"@[0] != "L-39C"@[0]);
    reveal_strlit("L-39ZA");
    assert("Ka-50"@.len() != "L-39ZA"@.len());
    reveal_strlit("TF-51D");
    assert("Ka-50"@.len() != "TF-51D"@.len());
    reveal_strlit("Yak-52");
    assert("Ka-50"@.len() != "Yak-52"@.len());
    reveal_strlit("C-101CC");
    assert("Ka-50"@.len() != "C-101CC"@.len());
    reveal_strlit("MB-339A");
    assert("Ka-50"@.len() != "MB-339A"@.len());
    reveal_strlit("F-5E-3");
    assert("Ka-50"@.len() != "F-5E-3"@.len());
    reveal_strlit("MiG-21Bis");
    assert("Ka-50"@.len() != "MiG-21Bis"@.len());
    reveal_strlit("MiG-19P");
    assert("Ka-50"@.len() != "MiG-19P"@.len());
    reveal_strlit("Mirage-F1EE");
    assert("Ka-50"@.len() != "Mirage-F1EE"@.len());
    reveal_strlit("Mirage-F1CE");
    assert("Ka-50"@.len() != "Mirage-F1CE"@.len());
}

/// In the default configuration the `AV8BNA` draws from the Attack pool.
proof fn lemma_life_type_of_av8bna()
    ensures
        default_life_types().contains_key("AV8BNA"@),
        default_life_types()["AV8BNA"@] == LifeType::Attack,
{
    reveal_strlit("AV8BNA");
    reveal_strlit("A-10C_2");
    assert("AV8BNA"@.len() != "A-10C_2"@.len());
    reveal_strlit("JF-17");
    assert("AV8BNA"@.len() != "JF-17"@.len());
    reveal_strlit("SA342L");
    assert("AV8BNA"@[0] != "SA342L"@[0]);
    reveal_strlit("UH-1H");
    assert("AV8BNA"@.len() != "UH-1H"@.len());
    reveal_strlit("Mi-8MT");
    assert("AV8BNA"@[0] != "Mi-8MT"@[0]);
    reveal_strlit("SA342M");
    assert("AV8BNA"@[0] != "SA342M"@[0]);
    reveal_strlit("L-39C");
    assert("AV8BNA"@.len() != "L-39C"@.len());
    reveal_strlit("L-39ZA");
    assert("AV8BNA"@[0] != "L-39ZA"@[0]);
    reveal_strlit("TF-51D");
    assert("AV8BNA"@[0] != "TF-51D"@[0]);
    reveal_strlit("Yak-52");
    assert("AV8BNA"@[0] != "Yak-52"@[0]);
    reveal_strlit("C-101CC");
    assert("AV8BNA"@.len() != "C-101CC"@.len());
    reveal_strlit("MB-339A");
    assert("AV8BNA"@.len() != "MB-339A"@.len());
    reveal_strlit("F-5E-3");
    assert("AV8BNA"@[0] != "F-5E-3"@[0]);
    reveal_strlit("MiG-21Bis");
    assert("AV8BNA"@.len() != "MiG-21Bis"@.len());
    reveal_strlit("MiG-19P");
    assert("AV8BNA"@.len() != "MiG-19P"@.len());
    reveal_strlit("Mirage-F1EE");
    assert("AV8BNA"@.len() != "Mirage-F1EE"@.len());
    reveal_strlit("Mirage-F1CE");
    assert("AV8BNA"@.len() != "Mirage-F1CE"@.len());
}

/// In the default configuration the `A-10C_2` draws from the Attack pool.
proof fn lemma_life_type_of_a_10c_2()
    ensures
        default_life_types().contains_key("A-10C_2"@),
        default_life_types()["A-10C_2"@] == LifeType::Attack,
{
    reveal_strlit("A-10C_2");
    reveal_strlit("JF-17");
    assert("A-10C_2"@.len() != "JF-17"@.len());
    reveal_strlit("SA342L");
    assert("A-10C_2"@.len() != "SA342L"@.len());
    reveal_strlit("UH-1H");
    assert("A-10C_2"@.len() != "UH-1H"@.len());
    reveal_strlit("Mi-8MT");
    assert("A-10C_2"@.len() != "Mi-8MT"@.len());
    reveal_strlit("SA342M");
    assert("A-10C_2"@.len() != "SA342M"@.len());
    reveal_strlit("L-39C");
    assert("A-10C_2"@.len() != "L-39C"@.len());
    reveal_strlit("L-39ZA");
    assert("A-10C_2"@.len() != "L-39ZA"@.len());
    reveal_strlit("TF-51D");
    assert("A-10C_2"@.len() != "TF-51D"@.len());
    reveal_strlit("Yak-52");
    assert("A-10C_2"@.len() != "Yak-52"@.len());
    reveal_strlit("C-101CC");
    assert("A-10C_2"@[0] != "C-101CC"@[0]);
    reveal_strlit("MB-339A");
    assert("A-10C_2"@[0] != "MB-339A"@[0]);
    reveal_strlit("F-5E-3");
    assert("A-10C_2"@.len() != "F-5E-3"@.len());
    reveal_strlit("MiG-21Bis");
    assert("A-10C_2"@.len() != "MiG-21Bis"@.len());
    reveal_strlit("MiG-19P");
    assert("A-10C_2"@[0] != "MiG-19P"@[0]);
    reveal_strlit("Mirage-F1EE");
    assert("A-10C_2"@.len() != "Mirage-F1EE"@.len());
    reveal_strlit("Mirage-F1CE");
    assert("A-10C_2"@.len() != "Mirage-F1CE"@.len());
}

/// In the default configuration the `JF-17` draws from the Attack pool.
proof fn lemma_life_type_of_jf_17()
    ensures
        default_life_types().contains_key("JF-17"@),
        default_life_types()["JF-17"@] == LifeType::Attack,
{
    reveal_strlit("JF-17");
    reveal_strlit("SA342L");
    assert("JF-17"@.len() != "SA342L"@.len());
    reveal_strlit("UH-1H");
    assert("JF-17"@[0] != "UH-1H"@[0]);
    reveal_strlit("Mi-8MT");
    assert("JF-17"@.len() != "Mi-8MT"@.len());
    reveal_strlit("SA342M");
    assert("JF-17"@.len() != "SA342M"@.len());
    reveal_strlit("L-39C");
    assert("JF-17"@[0] != "L-39C"@[0]);
    reveal_strlit("L-39ZA");
    assert("JF-17"@.len() != "L-39ZA"@.len());
    reveal_strlit("TF-51D");
    assert("JF-17"@.len() != "TF-51D"@.len());
    reveal_strlit("Yak-52");
    assert("JF-17"@.len() != "Yak-52"@.len());
    reveal_strlit("C-101CC");
    assert("JF-17"@.len() != "C-101CC"@.len());
    reveal_strlit("MB-339A");
    assert("JF-17"@.len() != "MB-339A"@.len());
    reveal_strlit("F-5E-3");
    assert("JF-17"@.len() != "F-5E-3"@.len());
    reveal_strlit("MiG-21Bis");
    assert("JF-17"@.len() != "MiG-21Bis"@.len());
    reveal_strlit("MiG-19P");
    assert("JF-17"@.len() != "MiG-19P"@.len());
    reveal_strlit("Mirage-F1EE");
    assert("JF-17"@.len() != "Mirage-F1EE"@.len());
    reveal_strlit("Mirage-F1CE");
    assert("JF-17"@.len() != "Mirage-F1CE"@.len());
}

/// In the default configuration the `SA342L` draws from the Logistics pool.
proof fn lemma_life_type_of_sa342l()
    ensures
        default_life_types().contains_key("SA342L"@),
        default_life_types()["SA342L"@] == LifeType::Logistics,
{
    reveal_strlit("SA342L");
    reveal_strlit("UH-1H");
    assert("SA342L"@.len() != "UH-1H"@.len());
    reveal_strlit("Mi-8MT");
    assert("SA342L"@[0] != "Mi-8MT"@[0]);
    reveal_strlit("SA342M");
    assert("SA342L"@[5] != "SA342M"@[5]);
    reveal_strlit("L-39C");
    assert("SA342L"@.len() != "L-39C"@.len());
    reveal_strlit("L-39ZA");
    assert("SA342L"@[0] != "L-39ZA"@[0]);
    reveal_strlit("TF-51D");
    assert("SA342L"@[0] != "TF-51D"@[0]);
    reveal_strlit("Yak-52");
    assert("SA342L"@[0] != "Yak-52"@[0]);
    reveal_strlit("C-101CC");
    assert("SA342L"@.len() != "C-101CC"@.len());
    reveal_strlit("MB-339A");
    assert("SA342L"@.len() != "MB-339A"@.len());
    reveal_strlit("F-5E-3");
    assert("SA342L"@[0] != "F-5E-3"@[0]);
    reveal_strlit("MiG-21Bis");
    assert("SA342L"@.len() != "MiG-21Bis"@.len());
    reveal_strlit("MiG-19P");
    assert("SA342L"@.len() != "MiG-19P"@.len());
    reveal_strlit("Mirage-F1EE");
    assert("SA342L"@.len() != "Mirage-F1EE"@.len());
    reveal_strlit("Mirage-F1CE");
    assert("SA342L"@.len() != "Mirage-F1CE"@.len());
}

/// In the default configuration the `UH-1H` draws from the Logistics pool.
proof fn lemma_life_type_of_uh_1h()
    ensures
        default_life_types().contains_key("UH-1H"@),
        default_life_types()["UH-1H"@] == LifeType::Logistics,
{
    reveal_strlit("UH-1H");
    reveal_strlit("Mi-8MT");
    assert("UH-1H"@.len() != "Mi-8MT"@.len());
    reveal_strlit("SA342M");
    assert("UH-1H"@.len() != "SA342M"@.len());
    reveal_strlit("L-39C");
    assert("UH-1H"@[0] != "L-39C"@[0]);
    reveal_strlit("L-39ZA");
    assert("UH-1H"@.len() != "L-39ZA"@.len());
    reveal_strlit("TF-51D");
    assert("UH-1H"@.len() != "TF-51D"@.len());
    reveal_strlit("Yak-52");
    assert("UH-1H"@.len() != "Yak-52"@.len());
    reveal_strlit("C-101CC");
    assert("UH-1H"@.len() != "C-101CC"@.len());
    reveal_strlit("MB-339A");
    assert("UH-1H"@.len() != "MB-339A"@.len());
    reveal_strlit("F-5E-3");
    assert("UH-1H"@.len() != "F-5E-3"@.len());
    reveal_strlit("MiG-21Bis");
    assert("UH-1H"@.len() != "MiG-21Bis"@.len());
    reveal_strlit("MiG-19P");
    assert("UH-1H"@.len() != "MiG-19P"@.len());
    reveal_strlit("Mirage-F1EE");
    assert("UH-1H"@.len() != "Mirage-F1EE"@.len());
    reveal_strlit("Mirage-F1CE");
    assert("UH-1H"@.len() != "Mirage-F1CE"@.len());
}

/// In the default configuration the `Mi-8MT` draws from the Logistics pool.
proof fn lemma_life_type_of_mi_8mt()
    ensures
        default_life_types().contains_key("Mi-8MT"@),
        default_life_types()["Mi-8MT"@] == LifeType::Logistics,
{
    reveal_strlit("Mi-8MT");
    reveal_strlit("SA342M");
    assert("Mi-8MT"@[0] != "SA342M"@[0]);
    reveal_strlit("L-39C");
    assert("Mi-8MT"@.len() != "L-39C"@.len());
    reveal_strlit("L-39ZA");
    assert("Mi-8MT"@[0] != "L-39ZA"@[0]);
    reveal_strlit("TF-51D");
    assert("Mi-8MT"@[0] != "TF-51D"@[0]);
    reveal_strlit("Yak-52");
    assert("Mi-8MT"@[0] != "Yak-52"@[0]);
    reveal_strlit("C-101CC");
    assert("Mi-8MT"@.len() != "C-101CC"@.len());
    reveal_strlit("MB-339A");
    assert("Mi-8MT"@.len() != "MB-339A"@.len());
    reveal_strlit("F-5E-3");
    assert("Mi-8MT"@[0] != "F-5E-3"@[0]);
    reveal_strlit("MiG-21Bis");
    assert("Mi-8MT"@.len() != "MiG-21Bis"@.len());
    reveal_strlit("MiG-19P");
    assert("Mi-8MT"@.len() != "MiG-19P"@.len());
    reveal_strlit("Mirage-F1EE");
    assert("Mi-8MT"@.len() != "Mirage-F1EE"@.len());
    reveal_strlit("Mirage-F1CE");
    assert("Mi-8MT"@.len() != "Mirage-F1CE"@.len());
}

/// In the default configuration the `SA342M` draws from the Logistics pool.
proof fn lemma_life_type_of_sa342m()
    ensures
        default_life_types().contains_key("SA342M"@),
        default_life_types()["SA342M"@] == LifeType::Logistics,
{
    reveal_strlit("SA342M");
    reveal_strlit("L-39C");
    assert("SA342M"@.len() != "L-39C"@.len());
    reveal_strlit("L-39ZA");
    assert("SA342M"@[0] != "L-39ZA"@[0]);
    reveal_strlit("TF-51D");
    assert("SA342M"@[0] != "TF-51D"@[0]);
    reveal_strlit("Yak-52");
    assert("SA342M"@[0] != "Yak-52"@[0]);
    reveal_strlit("C-101CC");
    assert("SA342M"@.len() != "C-101CC"@.len());
    reveal_strlit("MB-339A");
    assert("SA342M"@.len() != "MB-339A"@.len());
    reveal_strlit("F-5E-3");
    assert("SA342M"@[0] != "F-5E-3"@[0]);
    reveal_strlit("MiG-21Bis");
    assert("SA342M"@.len() != "MiG-21Bis"@.len());
    reveal_strlit("MiG-19P");
    assert("SA342M"@.len() != "MiG-19P"@.len());
    reveal_strlit("Mirage-F1EE");
    assert("SA342M"@.len() != "Mirage-F1EE"@.len());
    reveal_strlit("Mirage-F1CE");
    assert("SA342M"@.len() != "Mirage-F1CE"@.len());
}

/// In the default configuration the `L-39C` draws from the Recon pool.
proof fn lemma_life_type_of_l_39c()
    ensures
        default_life_types().contains_key("L-39C"@),
        default_life_types()["L-39C"@] == LifeType::Recon,
{
    reveal_strlit("L-39C");
    reveal_strlit("L-39ZA");
    assert("L-39C"@.len() != "L-39ZA"@.len());
    reveal_strlit("TF-51D");
    assert("L-39C"@.len() != "TF-51D"@.len());
    reveal_strlit("Yak-52");
    assert("L-39C"@.len() != "Yak-52"@.len());
    reveal_strlit("C-101CC");
    assert("L-39C"@.len() != "C-101CC"@.len());
    reveal_strlit("MB-339A");
    assert("L-39C"@.len() != "MB-339A"@.len());
    reveal_strlit("F-5E-3");
    assert("L-39C"@.len() != "F-5E-3"@.len());
    reveal_strlit("MiG-21Bis");
    assert("L-39C"@.len() != "MiG-21Bis"@.len());
    reveal_strlit("MiG-19P");
    assert("L-39C"@.len() != "MiG-19P"@.len());
    reveal_strlit("Mirage-F1EE");
    assert("L-39C"@.len() != "Mirage-F1EE"@.len());
    reveal_strlit("Mirage-F1CE");
    assert("L-39C"@.len() != "Mirage-F1CE"@.len());
}

/// In the default configuration the `L-39ZA` draws from the Recon pool.
proof fn lemma_life_type_of_l_39za()
    ensures
        default_life_types().contains_key("L-39ZA"@),
        default_life_types()["L-39ZA"@] == LifeType::Recon,
{
    reveal_strlit("L-39ZA");
    reveal_strlit("TF-51D");
    assert("L-39ZA"@[0] != "TF-51D"@[0]);
    reveal_strlit("Yak-52");
    assert("L-39ZA"@[0] != "Yak-52"@[0]);
    reveal_strlit("C-101CC");
    assert("L-39ZA"@.len() != "C-101CC"@.len());
    reveal_strlit("MB-339A");
    assert("L-39ZA"@.len() != "MB-339A"@.len());
    reveal_strlit("F-5E-3");
    assert("L-39ZA"@[0] != "F-5E-3"@[0]);
    reveal_strlit("MiG-21Bis");
    assert("L-39ZA"@.len() != "MiG-21Bis"@.len());
    reveal_strlit("MiG-19P");
    assert("L-39ZA"@.len() != "MiG-19P"@.len());
    reveal_strlit("Mirage-F1EE");
    assert("L-39ZA"@.len() != "Mirage-F1EE"@.len());
    reveal_strlit("Mirage-F1CE");
    assert("L-39ZA"@.len() != "Mirage-F1CE"@.len());
}

/// In the default configuration the `TF-51D` draws from the Recon pool.
proof fn lemma_life_type_of_tf_51d()
    ensures
        default_life_types().contains_key("TF-51D"@),
        default_life_types()["TF-51D"@] == LifeType::Recon,
{
    reveal_strlit("TF-51D");
    reveal_strlit("Yak-52");
    assert("TF-51D"@[0] != "Yak-52"@[0]);
    reveal_strlit("C-101CC");
    assert("TF-51D"@.len() != "C-101CC"@.len());
    reveal_strlit("MB-339A");
    assert("TF-51D"@.len() != "MB-339A"@.len());
    reveal_strlit("F-5E-3");
    assert("TF-51D"@[0] != "F-5E-3"@[0]);
    reveal_strlit("MiG-21Bis");
    assert("TF-51D"@.len() != "MiG-21Bis"@.len());
    reveal_strlit("MiG-19P");
    assert("TF-51D"@.len() != "MiG-19P"@.len());
    reveal_strlit("Mirage-F1EE");
    assert("TF-51D"@.len() != "Mirage-F1EE"@.len());
    reveal_strlit("Mirage-F1CE");
    assert("TF-51D"@.len() != "Mirage-F1CE"@.len());
}

/// In the default configuration the `Yak-52` draws from the Recon pool.
proof fn lemma_life_type_of_yak_52()
    ensures
        default_life_types().contains_key("Yak-52"@),
        default_life_types()["Yak-52"@] == LifeType::Recon,
{
    reveal_strlit("Yak-52");
    reveal_strlit("C-101CC");
    assert("Yak-52"@.len() != "C-101CC"@.len());
    reveal_strlit("MB-339A");
    assert("Yak-52"@.len() != "MB-339A"@.len());
    reveal_strlit("F-5E-3");
    assert("Yak-52"@[0] != "F-5E-3"@[0]);
    reveal_strlit("MiG-21Bis");
    assert("Yak-52"@.len() != "MiG-21Bis"@.len());
    reveal_strlit("MiG-19P");
    assert("Yak-52"@.len() != "MiG-19P"@.len());
    reveal_strlit("Mirage-F1EE");
    assert("Yak-52"@.len() != "Mirage-F1EE"@.len());
    reveal_strlit("Mirage-F1CE");
    assert("Yak-52"@.len() != "Mirage-F1CE"@.len());
}

/// In the default configuration the `C-101CC` draws from the Recon pool.
proof fn lemma_life_type_of_c_101cc()
    ensures
        default_life_types().contains_key("C-101CC"@),
        default_life_types()["C-101CC"@] == LifeType::Recon,
{
    reveal_strlit("C-101CC");
    reveal_strlit("MB-339A");
    assert("C-101CC"@[0] != "MB-339A"@[0]);
    reveal_strlit("F-5E-3");
    assert("C-101CC"@.len() != "F-5E-3"@.len());
    reveal_strlit("MiG-21Bis");
    assert("C-101CC"@.len() != "MiG-21Bis"@.len());
    reveal_strlit("MiG-19P");
    assert("C-101CC"@[0] != "MiG-19P"@[0]);
    reveal_strlit("Mirage-F1EE");
    assert("C-101CC"@.len() != "Mirage-F1EE"@.len());
    reveal_strlit("Mirage-F1CE");
    assert("C-101CC"@.len() != "Mirage-F1CE"@.len());
}

/// In the default configuration the `MB-339A` draws from the Recon pool.
proof fn lemma_life_type_of_mb_339a()
    ensures
        default_life_types().contains_key("MB-339A"@),
        default_life_types()["MB-339A"@] == LifeType::Recon,
{
    reveal_strlit("MB-339A");
    reveal_strlit("F-5E-3");
    assert("MB-339A"@.len() != "F-5E-3"@.len());
    reveal_strlit("MiG-21Bis");
    assert("MB-339A"@.len() != "MiG-21Bis"@.len());
    reveal_strlit("MiG-19P");
    assert("MB-339A"@[1] != "MiG-19P"@[1]);
    reveal_strlit("Mirage-F1EE");
    assert("MB-339A"@.len() != "Mirage-F1EE"@.len());
    reveal_strlit("Mirage-F1CE");
    assert("MB-339A"@.len() != "Mirage-F1CE"@.len());
}

/// In the default configuration the `F-5E-3` draws from the Intercept pool.
proof fn lemma_life_type_of_f_5e_3()
    ensures
        default_life_types().contains_key("F-5E-3"@),
        default_life_types()["F-5E-3"@] == LifeType::Intercept,
{
    reveal_strlit("F-5E-3");
    reveal_strlit("MiG-21Bis");
    assert("F-5E-3"@.len() != "MiG-21Bis"@.len());
    reveal_strlit("MiG-19P");
    assert("F-5E-3"@.len() != "MiG-19P"@.len());
    reveal_strlit("Mirage-F1EE");
    assert("F-5E-3"@.len() != "Mirage-F1EE"@.len());
    reveal_strlit("Mirage-F1CE");
    assert("F-5E-3"@.len() != "Mirage-F1CE"@.len());
}

/// In the default configuration the `MiG-21Bis` draws from the Intercept pool.
proof fn lemma_life_type_of_mig_21bis()
    ensures
        default_life_types().contains_key("MiG-21Bis"@),
        default_life_types()["MiG-21Bis"@] == LifeType::Intercept,
{
    reveal_strlit("MiG-21Bis");
    reveal_strlit("MiG-19P");
    assert("MiG-21Bis"@.len() != "MiG-19P"@.len());
    reveal_strlit("Mirage-F1EE");
    assert("MiG-21Bis"@.len() != "Mirage-F1EE"@.len());
    reveal_strlit("Mirage-F1CE");
    assert("MiG-21Bis"@.len() != "Mirage-F1CE"@.len());
}

/// In the default configuration the `MiG-19P` draws from the Intercept pool.
proof fn lemma_life_type_of_mig_19p()
    ensures
        default_life_types().contains_key("MiG-19P"@),
        default_life_types()["MiG-19P"@] == LifeType::Intercept,
{
    reveal_strlit("MiG-19P");
    reveal_strlit("Mirage-F1EE");
    assert("MiG-19P"@.len() != "Mirage-F1EE"@.len());
    reveal_strlit("Mirage-F1CE");
    assert("MiG-19P"@.len() != "Mirage-F1CE"@.len());
}

/// In the default configuration the `Mirage-F1EE` draws from the Intercept pool.
proof fn lemma_life_type_of_mirage_f1ee()
    ensures
        default_life_types().contains_key("Mirage-F1EE"@),
        default_life_types()["Mirage-F1EE"@] == LifeType::Intercept,
{
    reveal_strlit("Mirage-F1EE");
    reveal_strlit("Mirage-F1CE");
    assert("Mirage-F1EE"@[9] != "Mirage-F1CE"@[9]);
}

/// In the default configuration the `Mirage-F1CE` draws from the Intercept pool.
proof fn lemma_life_type_of_mirage_f1ce()
    ensures
        default_life_types().contains_key("Mirage-F1CE"@),
        default_life_types()["Mirage-F1CE"@] == LifeType::Intercept,
{
    reveal_strlit("Mirage-F1CE");
}

/// The life type table of the default configuration, vehicle by vehicle.
proof fn lemma_default_life_type_table(m: Map<Seq<char>, LifeType>)
    requires
        m == default_life_types(),
    ensures
        m.dom() == set!["FA-18C_hornet"@, "F-14A-135-GR"@, "F-14B"@, "F-15C"@, "F-15ESE"@, "MiG-29S"@, "M-2000C"@, "F-16C_50"@, "MiG-29A"@, "Su-27"@, "AH-64D_BLK_II"@, "Mi-24P"@, "Ka-50_3"@, "A-10C"@, "A-10A"@, "Su-25"@, "Su-25T"@, "AJS37"@, "Ka-50"@, "AV8BNA"@, "A-10C_2"@, "JF-17"@, "SA342L"@, "UH-1H"@, "Mi-8MT"@, "SA342M"@, "L-39C"@, "L-39ZA"@, "TF-51D"@, "Yak-52"@, "C-101CC"@, "MB-339A"@, "F-5E-3"@, "MiG-21Bis"@, "MiG-19P"@, "Mirage-F1EE"@, "Mirage-F1CE"@],
        m.contains_key("FA-18C_hornet"@) && m["FA-18C_hornet"@] == LifeType::Standard,
        m.contains_key("F-14A-135-GR"@) && m["F-14A-135-GR"@] == LifeType::Standard,
        m.contains_key("F-14B"@) && m["F-14B"@] == LifeType::Standard,
        m.contains_key("F-15C"@) && m["F-15C"@] == LifeType::Standard,
        m.contains_key("F-15ESE"@) && m["F-15ESE"@] == LifeType::Standard,
        m.contains_key("MiG-29S"@) && m["MiG-29S"@] == LifeType::Standard,
        m.contains_key("M-2000C"@) && m["M-2000C"@] == LifeType::Standard,
        m.contains_key("F-16C_50"@) && m["F-16C_50"@] == LifeType::Standard,
        m.contains_key("MiG-29A"@) && m["MiG-29A"@] == LifeType::Standard,
        m.contains_key("Su-27"@) && m["Su-27"@] == LifeType::Standard,
        m.contains_key("AH-64D_BLK_II"@) && m["AH-64D_BLK_II"@] == LifeType::Attack,
        m.contains_key("Mi-24P"@) && m["Mi-24P"@] == LifeType::Attack,
        m.contains_key("Ka-50_3"@) && m["Ka-50_3"@] == LifeType::Attack,
        m.contains_key("A-10C"@) && m["A-10C"@] == LifeType::Attack,
        m.contains_key("A-10A"@) && m["A-10A"@] == LifeType::Attack,
        m.contains_key("Su-25"@) && m["Su-25"@] == LifeType::Attack,
        m.contains_key("Su-25T"@) && m["Su-25T"@] == LifeType::Attack,
        m.contains_key("AJS37"@) && m["AJS37"@] == LifeType::Attack,
        m.contains_key("Ka-50"@) && m["Ka-50"@] == LifeType::Attack,
        m.contains_key("AV8BNA"@) && m["AV8BNA"@] == LifeType::Attack,
        m.contains_key("A-10C_2"@) && m["A-10C_2"@] == LifeType::Attack,
        m.contains_key("JF-17"@) && m["JF-17"@] == LifeType::Attack,
        m.contains_key("SA342L"@) && m["SA342L"@] == LifeType::Logistics,
        m.contains_key("UH-1H"@) && m["UH-1H"@] == LifeType::Logistics,
        m.contains_key("Mi-8MT"@) && m["Mi-8MT"@] == LifeType::Logistics,
        m.contains_key("SA342M"@) && m["SA342M"@] == LifeType::Logistics,
        m.contains_key("L-39C"@) && m["L-39C"@] == LifeType::Recon,
        m.contains_key("L-39ZA"@) && m["L-39ZA"@] == LifeType::Recon,
        m.contains_key("TF-51D"@) && m["TF-51D"@] == LifeType::Recon,
        m.contains_key("Yak-52"@) && m["Yak-52"@] == LifeType::Recon,
        m.contains_key("C-101CC"@) && m["C-101CC"@] == LifeType::Recon,
        m.contains_key("MB-339A"@) && m["MB-339A"@] == LifeType::Recon,
        m.contains_key("F-5E-3"@) && m["F-5E-3"@] == LifeType::Intercept,
        m.contains_key("MiG-21Bis"@) && m["MiG-21Bis"@] == LifeType::Intercept,
        m.contains_key("MiG-19P"@) && m["MiG-19P"@] == LifeType::Intercept,
        m.contains_key("Mirage-F1EE"@) && m["Mirage-F1EE"@] == LifeType::Intercept,
        m.contains_key("Mirage-F1CE"@) && m["Mirage-F1CE"@] == LifeType::Intercept,
{
    lemma_default_life_type_vehicles();
    lemma_life_type_of_fa_18c_hornet();
    lemma_life_type_of_f_14a_135_gr();
    lemma_life_type_of_f_14b();
    lemma_life_type_of_f_15c();
    lemma_life_type_of_f_15ese();
    lemma_life_type_of_mig_29s();
    lemma_life_type_of_m_2000c();
    lemma_life_type_of_f_16c_50();
    lemma_life_type_of_mig_29a();
    lemma_life_type_of_su_27();
    lemma_life_type_of_ah_64d_blk_ii();
    lemma_life_type_of_mi_24p();
    lemma_life_type_of_ka_50_3();
    lemma_life_type_of_a_10c();
    lemma_life_type_of_a_10a();
    lemma_life_type_of_su_25();
    lemma_life_type_of_su_25t();
    lemma_life_type_of_ajs37();
    lemma_life_type_of_ka_50();
    lemma_life_type_of_av8bna();
    lemma_life_type_of_a_10c_2();
    lemma_life_type_of_jf_17();
    lemma_life_type_of_sa342l();
    lemma_life_type_of_uh_1h();
    lemma_life_type_of_mi_8mt();
    lemma_life_type_of_sa342m();
    lemma_life_type_of_l_39c();
    lemma_life_type_of_l_39za();
    lemma_life_type_of_tf_51d();
    lemma_life_type_of_yak_52();
    lemma_life_type_of_c_101cc();
    lemma_life_type_of_mb_339a();
    lemma_life_type_of_f_5e_3();
    lemma_life_type_of_mig_21bis();
    lemma_life_type_of_mig_19p();
    lemma_life_type_of_mirage_f1ee();
    lemma_life_type_of_mirage_f1ce();
}

/// The default life type table.
fn default_life_type_table() -> (life_types: FxHashMap<Vehicle, LifeType>)
    ensures
        life_type_entries(life_types) == default_life_types(),
        life_type_entries(life_types).dom() == set!["FA-18C_hornet"@, "F-14A-135-GR"@, "F-14B"@, "F-15C"@, "F-15ESE"@, "MiG-29S"@, "M-2000C"@, "F-16C_50"@, "MiG-29A"@, "Su-27"@, "AH-64D_BLK_II"@, "Mi-24P"@, "Ka-50_3"@, "A-10C"@, "A-10A"@, "Su-25"@, "Su-25T"@, "AJS37"@, "Ka-50"@, "AV8BNA"@, "A-10C_2"@, "JF-17"@, "SA342L"@, "UH-1H"@, "Mi-8MT"@, "SA342M"@, "L-39C"@, "L-39ZA"@, "TF-51D"@, "Yak-52"@, "C-101CC"@, "MB-339A"@, "F-5E-3"@, "MiG-21Bis"@, "MiG-19P"@, "Mirage-F1EE"@, "Mirage-F1CE"@],
        life_type_entries(life_types).contains_key("FA-18C_hornet"@) && life_type_entries(life_types)["FA-18C_hornet"@] == LifeType::Standard,
        life_type_entries(life_types).contains_key("F-14A-135-GR"@) && life_type_entries(life_types)["F-14A-135-GR"@] == LifeType::Standard,
        life_type_entries(life_types).contains_key("F-14B"@) && life_type_entries(life_types)["F-14B"@] == LifeType::Standard,
        life_type_entries(life_types).contains_key("F-15C"@) && life_type_entries(life_types)["F-15C"@] == LifeType::Standard,
        life_type_entries(life_types).contains_key("F-15ESE"@) && life_type_entries(life_types)["F-15ESE"@] == LifeType::Standard,
        life_type_entries(life_types).contains_key("MiG-29S"@) && life_type_entries(life_types)["MiG-29S"@] == LifeType::Standard,
        life_type_entries(life_types).contains_key("M-2000C"@) && life_type_entries(life_types)["M-2000C"@] == LifeType::Standard,
        life_type_entries(life_types).contains_key("F-16C_50"@) && life_type_entries(life_types)["F-16C_50"@] == LifeType::Standard,
        life_type_entries(life_types).contains_key("MiG-29A"@) && life_type_entries(life_types)["MiG-29A"@] == LifeType::Standard,
        life_type_entries(life_types).contains_key("Su-27"@) && life_type_entries(life_types)["Su-27"@] == LifeType::Standard,
        life_type_entries(life_types).contains_key("AH-64D_BLK_II"@) && life_type_entries(life_types)["AH-64D_BLK_II"@] == LifeType::Attack,
        life_type_entries(life_types).contains_key("Mi-24P"@) && life_type_entries(life_types)["Mi-24P"@] == LifeType::Attack,
        life_type_entries(life_types).contains_key("Ka-50_3"@) && life_type_entries(life_types)["Ka-50_3"@] == LifeType::Attack,
        life_type_entries(life_types).contains_key("A-10C"@) && life_type_entries(life_types)["A-10C"@] == LifeType::Attack,
        life_type_entries(life_types).contains_key("A-10A"@) && life_type_entries(life_types)["A-10A"@] == LifeType::Attack,
        life_type_entries(life_types).contains_key("Su-25"@) && life_type_entries(life_types)["Su-25"@] == LifeType::Attack,
        life_type_entries(life_types).contains_key("Su-25T"@) && life_type_entries(life_types)["Su-25T"@] == LifeType::Attack,
        life_type_entries(life_types).contains_key("AJS37"@) && life_type_entries(life_types)["AJS37"@] == LifeType::Attack,
        life_type_entries(life_types).contains_key("Ka-50"@) && life_type_entries(life_types)["Ka-50"@] == LifeType::Attack,
        life_type_entries(life_types).contains_key("AV8BNA"@) && life_type_entries(life_types)["AV8BNA"@] == LifeType::Attack,
        life_type_entries(life_types).contains_key("A-10C_2"@) && life_type_entries(life_types)["A-10C_2"@] == LifeType::Attack,
        life_type_entries(life_types).contains_key("JF-17"@) && life_type_entries(life_types)["JF-17"@] == LifeType::Attack,
        life_type_entries(life_types).contains_key("SA342L"@) && life_type_entries(life_types)["SA342L"@] == LifeType::Logistics,
        life_type_entries(life_types).contains_key("UH-1H"@) && life_type_entries(life_types)["UH-1H"@] == LifeType::Logistics,
        life_type_entries(life_types).contains_key("Mi-8MT"@) && life_type_entries(life_types)["Mi-8MT"@] == LifeType::Logistics,
        life_type_entries(life_types).contains_key("SA342M"@) && life_type_entries(life_types)["SA342M"@] == LifeType::Logistics,
        life_type_entries(life_types).contains_key("L-39C"@) && life_type_entries(life_types)["L-39C"@] == LifeType::Recon,
        life_type_entries(life_types).contains_key("L-39ZA"@) && life_type_entries(life_types)["L-39ZA"@] == LifeType::Recon,
        life_type_entries(life_types).contains_key("TF-51D"@) && life_type_entries(life_types)["TF-51D"@] == LifeType::Recon,
        life_type_entries(life_types).contains_key("Yak-52"@) && life_type_entries(life_types)["Yak-52"@] == LifeType::Recon,
        life_type_entries(life_types).contains_key("C-101CC"@) && life_type_entries(life_types)["C-101CC"@] == LifeType::Recon,
        life_type_entries(life_types).contains_key("MB-339A"@) && life_type_entries(life_types)["MB-339A"@] == LifeType::Recon,
        life_type_entries(life_types).contains_key("F-5E-3"@) && life_type_entries(life_types)["F-5E-3"@] == LifeType::Intercept,
        life_type_entries(life_types).contains_key("MiG-21Bis"@) && life_type_entries(life_types)["MiG-21Bis"@] == LifeType::Intercept,
        life_type_entries(life_types).contains_key("MiG-19P"@) && life_type_entries(life_types)["MiG-19P"@] == LifeType::Intercept,
        life_type_entries(life_types).contains_key("Mirage-F1EE"@) && life_type_entries(life_types)["Mirage-F1EE"@] == LifeType::Intercept,
        life_type_entries(life_types).contains_key("Mirage-F1CE"@) && life_type_entries(life_types)["Mirage-F1CE"@] == LifeType::Intercept,
{
    let mut life_types = new_life_type_table();
    insert_life_type(&mut life_types, Vehicle::new("FA-18C_hornet"), LifeType::Standard);
    insert_life_type(&mut life_types, Vehicle::new("F-14A-135-GR"), LifeType::Standard);
    insert_life_type(&mut life_types, Vehicle::new("F-14B"), LifeType::Standard);
    insert_life_type(&mut life_types, Vehicle::new("F-15C"), LifeType::Standard);
    insert_life_type(&mut life_types, Vehicle::new("F-15ESE"), LifeType::Standard);
    insert_life_type(&mut life_types, Vehicle::new("MiG-29S"), LifeType::Standard);
    insert_life_type(&mut life_types, Vehicle::new("M-2000C"), LifeType::Standard);
    insert_life_type(&mut life_types, Vehicle::new("F-16C_50"), LifeType::Standard);
    insert_life_type(&mut life_types, Vehicle::new("MiG-29A"), LifeType::Standard);
    insert_life_type(&mut life_types, Vehicle::new("Su-27"), LifeType::Standard);
    insert_life_type(&mut life_types, Vehicle::new("AH-64D_BLK_II"), LifeType::Attack);
    insert_life_type(&mut life_types, Vehicle::new("Mi-24P"), LifeType::Attack);
    insert_life_type(&mut life_types, Vehicle::new("Ka-50_3"), LifeType::Attack);
    insert_life_type(&mut life_types, Vehicle::new("A-10C"), LifeType::Attack);
    insert_life_type(&mut life_types, Vehicle::new("A-10A"), LifeType::Attack);
    insert_life_type(&mut life_types, Vehicle::new("Su-25"), LifeType::Attack);
    insert_life_type(&mut life_types, Vehicle::new("Su-25T"), LifeType::Attack);
    insert_life_type(&mut life_types, Vehicle::new("AJS37"), LifeType::Attack);
    insert_life_type(&mut life_types, Vehicle::new("Ka-50"), LifeType::Attack);
    insert_life_type(&mut life_types, Vehicle::new("AV8BNA"), LifeType::Attack);
    insert_life_type(&mut life_types, Vehicle::new("A-10C_2"), LifeType::Attack);
    insert_life_type(&mut life_types, Vehicle::new("JF-17"), LifeType::Attack);
    insert_life_type(&mut life_types, Vehicle::new("SA342L"), LifeType::Logistics);
    insert_life_type(&mut life_types, Vehicle::new("UH-1H"), LifeType::Logistics);
    insert_life_type(&mut life_types, Vehicle::new("Mi-8MT"), LifeType::Logistics);
    insert_life_type(&mut life_types, Vehicle::new("SA342M"), LifeType::Logistics);
    insert_life_type(&mut life_types, Vehicle::new("L-39C"), LifeType::Recon);
    insert_life_type(&mut life_types, Vehicle::new("L-39ZA"), LifeType::Recon);
    insert_life_type(&mut life_types, Vehicle::new("TF-51D"), LifeType::Recon);
    insert_life_type(&mut life_types, Vehicle::new("Yak-52"), LifeType::Recon);
    insert_life_type(&mut life_types, Vehicle::new("C-101CC"), LifeType::Recon);
    insert_life_type(&mut life_types, Vehicle::new("MB-339A"), LifeType::Recon);
    insert_life_type(&mut life_types, Vehicle::new("F-5E-3"), LifeType::Intercept);
    insert_life_type(&mut life_types, Vehicle::new("MiG-21Bis"), LifeType::Intercept);
    insert_life_type(&mut life_types, Vehicle::new("MiG-19P"), LifeType::Intercept);
    insert_life_type(&mut life_types, Vehicle::new("Mirage-F1EE"), LifeType::Intercept);
    insert_life_type(&mut life_types, Vehicle::new("Mirage-F1CE"), LifeType::Intercept);
    proof {
        assert(life_type_entries(life_types) =~= default_life_types());
        lemma_default_life_type_table(life_type_entries(life_types));
    }
    life_types
}

/// The cargo table of the default configuration, vehicle by vehicle.
proof fn lemma_default_cargo_table()
    ensures
        default_cargo().dom() == set!["UH-1H"@, "Mi-8MT"@, "SA342L"@, "SA342M"@, "Mi-24P"@],
        default_cargo().contains_key("UH-1H"@) && default_cargo()["UH-1H"@] == (CargoConfig { troop_slots: 1, crate_slots: 1, total_slots: 2 }),
        default_cargo().contains_key("Mi-8MT"@) && default_cargo()["Mi-8MT"@] == (CargoConfig { troop_slots: 1, crate_slots: 1, total_slots: 2 }),
        default_cargo().contains_key("SA342L"@) && default_cargo()["SA342L"@] == (CargoConfig { troop_slots: 1, crate_slots: 1, total_slots: 1 }),
        default_cargo().contains_key("SA342M"@) && default_cargo()["SA342M"@] == (CargoConfig { troop_slots: 1, crate_slots: 1, total_slots: 1 }),
        default_cargo().contains_key("Mi-24P"@) && default_cargo()["Mi-24P"@] == (CargoConfig { troop_slots: 1, crate_slots: 1, total_slots: 1 }),
{
    reveal_strlit("UH-1H");
    reveal_strlit("Mi-8MT");
    reveal_strlit("SA342L");
    reveal_strlit("SA342M");
    reveal_strlit("Mi-24P");
    assert("UH-1H"@.len() != "Mi-8MT"@.len());
    assert("UH-1H"@.len() != "SA342L"@.len());
    assert("UH-1H"@.len() != "SA342M"@.len());
    assert("UH-1H"@.len() != "Mi-24P"@.len());
    assert("Mi-8MT"@[0] != "SA342L"@[0]);
    assert("Mi-8MT"@[0] != "SA342M"@[0]);
    assert("Mi-8MT"@[3] != "Mi-24P"@[3]);
    assert("SA342L"@[5] != "SA342M"@[5]);
    assert("SA342L"@[0] != "Mi-24P"@[0]);
    assert("SA342M"@[0] != "Mi-24P"@[0]);
    assert(default_cargo().dom() =~= set!["UH-1H"@, "Mi-8MT"@, "SA342L"@, "SA342M"@, "Mi-24P"@]);
}

impl Default for Cfg {
    fn default() -> (cfg: Cfg)
        ensures
            cfg@ == default_cfg(),
            cfg@.deployables[Side::Red] == red_deployables_table(),
            cfg@.deployables[Side::Blue] == blue_deployables_table(),
            cfg@.troops[Side::Red] == red_troops_table(),
            cfg@.troops[Side::Blue] == blue_troops_table(),
            cfg@.well_formed(),
            cfg@.repair_time == 1800,
            cfg@.logistics_exclusion == 4000,
            cfg@.crate_load_distance == 50,
            cfg@.side_switches == Some(1u8),
            cfg@.default_lives.dom() == set![LifeType::Standard, LifeType::Intercept, LifeType::Attack, LifeType::Logistics, LifeType::Recon],
            cfg@.default_lives[LifeType::Standard] == ((3u8, 21600u32)),
            cfg@.default_lives[LifeType::Intercept] == ((4u8, 21600u32)),
            cfg@.default_lives[LifeType::Attack] == ((4u8, 21600u32)),
            cfg@.default_lives[LifeType::Logistics] == ((6u8, 21600u32)),
            cfg@.default_lives[LifeType::Recon] == ((6u8, 21600u32)),
            cfg@.cargo.dom() == set!["UH-1H"@, "Mi-8MT"@, "SA342L"@, "SA342M"@, "Mi-24P"@],
            cfg@.cargo["UH-1H"@] == (CargoConfig { troop_slots: 1, crate_slots: 1, total_slots: 2 }),
            cfg@.cargo["Mi-8MT"@] == (CargoConfig { troop_slots: 1, crate_slots: 1, total_slots: 2 }),
            cfg@.cargo["SA342L"@] == (CargoConfig { troop_slots: 1, crate_slots: 1, total_slots: 1 }),
            cfg@.cargo["SA342M"@] == (CargoConfig { troop_slots: 1, crate_slots: 1, total_slots: 1 }),
            cfg@.cargo["Mi-24P"@] == (CargoConfig { troop_slots: 1, crate_slots: 1, total_slots: 1 }),
            cfg@.crate_template.dom() == set![Side::Red, Side::Blue],
            cfg@.crate_template[Side::Red] == "RCRATE"@,
            cfg@.crate_template[Side::Blue] == "BCRATE"@,
            cfg@.deployables.dom() == set![Side::Red, Side::Blue],
            cfg@.troops.dom() == set![Side::Red, Side::Blue],
            cfg@.life_types.dom() == set!["FA-18C_hornet"@, "F-14A-135-GR"@, "F-14B"@, "F-15C"@, "F-15ESE"@, "MiG-29S"@, "M-2000C"@, "F-16C_50"@, "MiG-29A"@, "Su-27"@, "AH-64D_BLK_II"@, "Mi-24P"@, "Ka-50_3"@, "A-10C"@, "A-10A"@, "Su-25"@, "Su-25T"@, "AJS37"@, "Ka-50"@, "AV8BNA"@, "A-10C_2"@, "JF-17"@, "SA342L"@, "UH-1H"@, "Mi-8MT"@, "SA342M"@, "L-39C"@, "L-39ZA"@, "TF-51D"@, "Yak-52"@, "C-101CC"@, "MB-339A"@, "F-5E-3"@, "MiG-21Bis"@, "MiG-19P"@, "Mirage-F1EE"@, "Mirage-F1CE"@],
            cfg@.life_types.contains_key("FA-18C_hornet"@) && cfg@.life_types["FA-18C_hornet"@] == LifeType::Standard,
            cfg@.life_types.contains_key("F-14A-135-GR"@) && cfg@.life_types["F-14A-135-GR"@] == LifeType::Standard,
            cfg@.life_types.contains_key("F-14B"@) && cfg@.life_types["F-14B"@] == LifeType::Standard,
            cfg@.life_types.contains_key("F-15C"@) && cfg@.life_types["F-15C"@] == LifeType::Standard,
            cfg@.life_types.contains_key("F-15ESE"@) && cfg@.life_types["F-15ESE"@] == LifeType::Standard,
            cfg@.life_types.contains_key("MiG-29S"@) && cfg@.life_types["MiG-29S"@] == LifeType::Standard,
            cfg@.life_types.contains_key("M-2000C"@) && cfg@.life_types["M-2000C"@] == LifeType::Standard,
            cfg@.life_types.contains_key("F-16C_50"@) && cfg@.life_types["F-16C_50"@] == LifeType::Standard,
            cfg@.life_types.contains_key("MiG-29A"@) && cfg@.life_types["MiG-29A"@] == LifeType::Standard,
            cfg@.life_types.contains_key("Su-27"@) && cfg@.life_types["Su-27"@] == LifeType::Standard,
            cfg@.life_types.contains_key("AH-64D_BLK_II"@) && cfg@.life_types["AH-64D_BLK_II"@] == LifeType::Attack,
            cfg@.life_types.contains_key("Mi-24P"@) && cfg@.life_types["Mi-24P"@] == LifeType::Attack,
            cfg@.life_types.contains_key("Ka-50_3"@) && cfg@.life_types["Ka-50_3"@] == LifeType::Attack,
            cfg@.life_types.contains_key("A-10C"@) && cfg@.life_types["A-10C"@] == LifeType::Attack,
            cfg@.life_types.contains_key("A-10A"@) && cfg@.life_types["A-10A"@] == LifeType::Attack,
            cfg@.life_types.contains_key("Su-25"@) && cfg@.life_types["Su-25"@] == LifeType::Attack,
            cfg@.life_types.contains_key("Su-25T"@) && cfg@.life_types["Su-25T"@] == LifeType::Attack,
            cfg@.life_types.contains_key("AJS37"@) && cfg@.life_types["AJS37"@] == LifeType::Attack,
            cfg@.life_types.contains_key("Ka-50"@) && cfg@.life_types["Ka-50"@] == LifeType::Attack,
            cfg@.life_types.contains_key("AV8BNA"@) && cfg@.life_types["AV8BNA"@] == LifeType::Attack,
            cfg@.life_types.contains_key("A-10C_2"@) && cfg@.life_types["A-10C_2"@] == LifeType::Attack,
            cfg@.life_types.contains_key("JF-17"@) && cfg@.life_types["JF-17"@] == LifeType::Attack,
            cfg@.life_types.contains_key("SA342L"@) && cfg@.life_types["SA342L"@] == LifeType::Logistics,
            cfg@.life_types.contains_key("UH-1H"@) && cfg@.life_types["UH-1H"@] == LifeType::Logistics,
            cfg@.life_types.contains_key("Mi-8MT"@) && cfg@.life_types["Mi-8MT"@] == LifeType::Logistics,
            cfg@.life_types.contains_key("SA342M"@) && cfg@.life_types["SA342M"@] == LifeType::Logistics,
            cfg@.life_types.contains_key("L-39C"@) && cfg@.life_types["L-39C"@] == LifeType::Recon,
            cfg@.life_types.contains_key("L-39ZA"@) && cfg@.life_types["L-39ZA"@] == LifeType::Recon,
            cfg@.life_types.contains_key("TF-51D"@) && cfg@.life_types["TF-51D"@] == LifeType::Recon,
            cfg@.life_types.contains_key("Yak-52"@) && cfg@.life_types["Yak-52"@] == LifeType::Recon,
            cfg@.life_types.contains_key("C-101CC"@) && cfg@.life_types["C-101CC"@] == LifeType::Recon,
            cfg@.life_types.contains_key("MB-339A"@) && cfg@.life_types["MB-339A"@] == LifeType::Recon,
            cfg@.life_types.contains_key("F-5E-3"@) && cfg@.life_types["F-5E-3"@] == LifeType::Intercept,
            cfg@.life_types.contains_key("MiG-21Bis"@) && cfg@.life_types["MiG-21Bis"@] == LifeType::Intercept,
            cfg@.life_types.contains_key("MiG-19P"@) && cfg@.life_types["MiG-19P"@] == LifeType::Intercept,
            cfg@.life_types.contains_key("Mirage-F1EE"@) && cfg@.life_types["Mirage-F1EE"@] == LifeType::Intercept,
            cfg@.life_types.contains_key("Mirage-F1CE"@) && cfg@.life_types["Mirage-F1CE"@] == LifeType::Intercept,
    {
        proof {
            lemma_default_cfg_well_formed();
            lemma_default_cargo_table();
            assert(default_lives_table().dom() =~= set![LifeType::Standard, LifeType::Intercept, LifeType::Attack, LifeType::Logistics, LifeType::Recon]);
            assert(default_cfg().crate_template.dom() =~= set![Side::Red, Side::Blue]);
            assert(default_cfg().deployables.dom() =~= set![Side::Red, Side::Blue]);
            assert(default_cfg().troops.dom() =~= set![Side::Red, Side::Blue]);
        }
        let mut default_lives = new_lives_table();
        insert_lives(&mut default_lives, LifeType::Standard, (3, 21600));
        insert_lives(&mut default_lives, LifeType::Intercept, (4, 21600));
        insert_lives(&mut default_lives, LifeType::Attack, (4, 21600));
        insert_lives(&mut default_lives, LifeType::Logistics, (6, 21600));
        insert_lives(&mut default_lives, LifeType::Recon, (6, 21600));

        let life_types = default_life_type_table();

        let mut cargo = new_cargo_table();
        insert_cargo(&mut cargo, Vehicle::new("UH-1H"), CargoConfig { troop_slots: 1, crate_slots: 1, total_slots: 2 });
        insert_cargo(&mut cargo, Vehicle::new("Mi-8MT"), CargoConfig { troop_slots: 1, crate_slots: 1, total_slots: 2 });
        insert_cargo(&mut cargo, Vehicle::new("SA342L"), CargoConfig { troop_slots: 1, crate_slots: 1, total_slots: 1 });
        insert_cargo(&mut cargo, Vehicle::new("SA342M"), CargoConfig { troop_slots: 1, crate_slots: 1, total_slots: 1 });
        insert_cargo(&mut cargo, Vehicle::new("Mi-24P"), CargoConfig { troop_slots: 1, crate_slots: 1, total_slots: 1 });

        let mut crate_template = new_template_table();
        insert_template(&mut crate_template, Side::Red, "RCRATE".to_owned());
        insert_template(&mut crate_template, Side::Blue, "BCRATE".to_owned());

        let mut deployables = new_deployable_table();
        insert_deployable(&mut deployables, Side::Red, default_red_deployables());
        insert_deployable(&mut deployables, Side::Blue, default_blue_deployables());

        let mut troops = new_troop_table();
        insert_troop(&mut troops, Side::Red, default_red_troops());
        insert_troop(&mut troops, Side::Blue, default_blue_troops());

        let cfg = Cfg {
            repair_time: 1800,
            logistics_exclusion: 4000,
            crate_load_distance: 50,
            side_switches: Some(1),
            default_lives,
            life_types,
            cargo,
            crate_template,
            deployables,
            troops,
        };
        cfg
    }
}

} // verus!
