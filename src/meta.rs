//! Map metas: groups of event schedules that are followed together, and a cursor
//! that merges their occurrences into one timeline.

use vstd::prelude::*;

use crate::category::Category;
use crate::event::EventInstance;
use crate::schedule::{lemma_next_start_is_first, lemma_next_start_is_occurrence, EventSchedule};

verus! {

/// Every member of the group can be run.
pub open spec fn members_runnable(ss: Seq<EventSchedule>) -> bool {
    forall|k: int| 0 <= k < ss.len() ==> (#[trigger] ss[k]).wf()
}

/// Every member of the group can be run, and there is at least one.
pub open spec fn members_wf(ss: Seq<EventSchedule>) -> bool {
    &&& ss.len() > 0
    &&& members_runnable(ss)
}

/// Every member of the group is canonical, and there is at least one.
pub open spec fn members_canonical(ss: Seq<EventSchedule>) -> bool {
    &&& ss.len() > 0
    &&& forall|k: int| 0 <= k < ss.len() ==> (#[trigger] ss[k]).is_canonical()
}

/// The step of every member from `t` lands within the range of `i64`.
pub open spec fn members_next_fit(ss: Seq<EventSchedule>, t: int) -> bool {
    forall|k: int| 0 <= k < ss.len() ==> (#[trigger] ss[k]).next_fits(t)
}

/// The occurrence of every member active at `t`, if any, starts within the range of `i64`.
pub open spec fn members_active_fit(ss: Seq<EventSchedule>, t: int) -> bool {
    forall|k: int| 0 <= k < ss.len() ==> (#[trigger] ss[k]).active_fits(t)
}

/// The member whose step from `t` lands first; of members that land together,
/// the one listed first.
pub open spec fn earliest(ss: Seq<EventSchedule>, t: int) -> int
    decreases ss.len(),
{
    if ss.len() <= 1 {
        0
    } else {
        let k = earliest(ss.drop_last(), t);
        if ss.last().next_start(t) < ss[k].next_start(t) {
            ss.len() - 1
        } else {
            k
        }
    }
}

/// Where the group's cursor moves from `t`.
pub open spec fn earliest_start(ss: Seq<EventSchedule>, t: int) -> int {
    ss[earliest(ss, t)].next_start(t)
}

/// What the group yields when its cursor steps from `t`.
pub open spec fn earliest_instance(ss: Seq<EventSchedule>, t: int) -> EventInstance {
    ss[earliest(ss, t)].next_instance(t)
}

/// The occurrence active at `t` of the first member, in list order, that has one.
pub open spec fn first_active(ss: Seq<EventSchedule>, t: int) -> Option<EventInstance>
    decreases ss.len(),
{
    if ss.len() == 0 {
        None
    } else if ss[0].active_start(t) is Some {
        ss[0].instance_at(t)
    } else {
        first_active(ss.drop_first(), t)
    }
}

/// The first `n` steps of the group's cursor from `t`: for each, the member that
/// won it and the start of its occurrence.
pub open spec fn run(ss: Seq<EventSchedule>, t: int, n: nat) -> Seq<(int, int)>
    decreases n,
{
    if n == 0 {
        seq![]
    } else {
        let x = earliest_start(ss, t);
        seq![(earliest(ss, t), x)] + run(ss, x, (n - 1) as nat)
    }
}

/// A named group of event schedules, followed together.
pub struct MapMeta {
    /// The name of the group.
    pub name: &'static str,
    /// The release that the group belongs to.
    pub category: Category,
    /// The members, in the order that settles ties.
    pub schedules: Vec<EventSchedule>,
}

impl MapMeta {
    /// The group can be run.
    pub open spec fn wf(&self) -> bool {
        members_wf(self.schedules@)
    }

    /// A cursor over the group, at the reference zero; every member must be runnable.
    pub fn into_iter(self) -> (r: IntoIter)
        requires
            members_runnable(self.schedules@),
        ensures
            r.schedules() == self.schedules@,
            r.cursor() == 0,
    {
        IntoIter { current_time: 0, schedules: self.schedules }
    }
}

/// The map metas that the catalog knows.
#[derive(Clone, Copy, Debug, PartialEq, Eq, Structural)]
pub enum MapMetaKind {
    DayAndNight,
    WorldBosses,
    HardWorldBosses,
    LeyLineAnomaly,
    PVPTournaments,
    DryTop,
    VerdantBrink,
    AuricBasin,
    TangledDepths,
    DragonsStand,
    LakeDoric,
    CrystalOasis,
    DesertHighlands,
    ElonRiverlands,
    TheDesolation,
    DomainOfVabbi,
    DomainOfIstan,
    JahaiBluffs,
    ThunderheadPeaks,
    GrothmarValley,
    BjoraMarches,
    Dragonstorm,
    Cantha,
    SeitungProvince,
    NewKainengCity,
    TheEchovaldWilds,
    DragonsEnd,
}

impl MapMetaKind {
    /// Every map meta, in declaration order.
    pub fn all_keys() -> (r: [MapMetaKind; 27])
        ensures
            r@ == seq![
                MapMetaKind::DayAndNight,
                MapMetaKind::WorldBosses,
                MapMetaKind::HardWorldBosses,
                MapMetaKind::LeyLineAnomaly,
                MapMetaKind::PVPTournaments,
                MapMetaKind::DryTop,
                MapMetaKind::VerdantBrink,
                MapMetaKind::AuricBasin,
                MapMetaKind::TangledDepths,
                MapMetaKind::DragonsStand,
                MapMetaKind::LakeDoric,
                MapMetaKind::CrystalOasis,
                MapMetaKind::DesertHighlands,
                MapMetaKind::ElonRiverlands,
                MapMetaKind::TheDesolation,
                MapMetaKind::DomainOfVabbi,
                MapMetaKind::DomainOfIstan,
                MapMetaKind::JahaiBluffs,
                MapMetaKind::ThunderheadPeaks,
                MapMetaKind::GrothmarValley,
                MapMetaKind::BjoraMarches,
                MapMetaKind::Dragonstorm,
                MapMetaKind::Cantha,
                MapMetaKind::SeitungProvince,
                MapMetaKind::NewKainengCity,
                MapMetaKind::TheEchovaldWilds,
                MapMetaKind::DragonsEnd,
            ],
    {
        [
            MapMetaKind::DayAndNight,
            MapMetaKind::WorldBosses,
            MapMetaKind::HardWorldBosses,
            MapMetaKind::LeyLineAnomaly,
            MapMetaKind::PVPTournaments,
            MapMetaKind::DryTop,
            MapMetaKind::VerdantBrink,
            MapMetaKind::AuricBasin,
            MapMetaKind::TangledDepths,
            MapMetaKind::DragonsStand,
            MapMetaKind::LakeDoric,
            MapMetaKind::CrystalOasis,
            MapMetaKind::DesertHighlands,
            MapMetaKind::ElonRiverlands,
            MapMetaKind::TheDesolation,
            MapMetaKind::DomainOfVabbi,
            MapMetaKind::DomainOfIstan,
            MapMetaKind::JahaiBluffs,
            MapMetaKind::ThunderheadPeaks,
            MapMetaKind::GrothmarValley,
            MapMetaKind::BjoraMarches,
            MapMetaKind::Dragonstorm,
            MapMetaKind::Cantha,
            MapMetaKind::SeitungProvince,
            MapMetaKind::NewKainengCity,
            MapMetaKind::TheEchovaldWilds,
            MapMetaKind::DragonsEnd,
        ]
    }


    /// The name of this map meta in the catalog.
    pub open spec fn catalog_name(self) -> &'static str {
        match self {
            MapMetaKind::DayAndNight => "Day and Night",
            MapMetaKind::WorldBosses => "World Bosses",
            MapMetaKind::HardWorldBosses => "Hard World Bosses",
            MapMetaKind::LeyLineAnomaly => "Ley-Line Anomaly",
            MapMetaKind::PVPTournaments => "PvP Tournaments",
            MapMetaKind::DryTop => "Dry Top",
            MapMetaKind::VerdantBrink => "Verdant Brink",
            MapMetaKind::AuricBasin => "Auric Basin",
            MapMetaKind::TangledDepths => "Tangled Depths",
            MapMetaKind::DragonsStand => "Dragon's Stand",
            MapMetaKind::LakeDoric => "Lake Doric",
            MapMetaKind::CrystalOasis => "Crystal Oasis",
            MapMetaKind::DesertHighlands => "Desert Highlands",
            MapMetaKind::ElonRiverlands => "Elon Riverlands",
            MapMetaKind::TheDesolation => "The Desolation",
            MapMetaKind::DomainOfVabbi => "Domain of Vabbi",
            MapMetaKind::DomainOfIstan => "Domain of Istan",
            MapMetaKind::JahaiBluffs => "Jahai Bluffs",
            MapMetaKind::ThunderheadPeaks => "Thunderhead Peaks",
            MapMetaKind::GrothmarValley => "Grothmar Valley",
            MapMetaKind::BjoraMarches => "Bjora Marches",
            MapMetaKind::Dragonstorm => "Dragonstorm",
            MapMetaKind::Cantha => "Cantha: Day and Night",
            MapMetaKind::SeitungProvince => "Seitung Province",
            MapMetaKind::NewKainengCity => "New Kaineng City",
            MapMetaKind::TheEchovaldWilds => "The Echovald Wilds",
            MapMetaKind::DragonsEnd => "Dragon's End",
        }
    }

    /// The category of this map meta in the catalog.
    pub open spec fn catalog_category(self) -> Category {
        match self {
            MapMetaKind::DayAndNight => Category::CoreTyria,
            MapMetaKind::WorldBosses => Category::CoreTyria,
            MapMetaKind::HardWorldBosses => Category::CoreTyria,
            MapMetaKind::LeyLineAnomaly => Category::CoreTyria,
            MapMetaKind::PVPTournaments => Category::CoreTyria,
            MapMetaKind::DryTop => Category::LivingWorldSeason2,
            MapMetaKind::VerdantBrink => Category::HeartOfThorns,
            MapMetaKind::AuricBasin => Category::HeartOfThorns,
            MapMetaKind::TangledDepths => Category::HeartOfThorns,
            MapMetaKind::DragonsStand => Category::HeartOfThorns,
            MapMetaKind::LakeDoric => Category::LivingWorldSeason3,
            MapMetaKind::CrystalOasis => Category::PathOfFire,
            MapMetaKind::DesertHighlands => Category::PathOfFire,
            MapMetaKind::ElonRiverlands => Category::PathOfFire,
            MapMetaKind::TheDesolation => Category::PathOfFire,
            MapMetaKind::DomainOfVabbi => Category::PathOfFire,
            MapMetaKind::DomainOfIstan => Category::LivingWorldSeason4,
            MapMetaKind::JahaiBluffs => Category::LivingWorldSeason4,
            MapMetaKind::ThunderheadPeaks => Category::LivingWorldSeason4,
            MapMetaKind::GrothmarValley => Category::TheIcebroodSaga,
            MapMetaKind::BjoraMarches => Category::TheIcebroodSaga,
            MapMetaKind::Dragonstorm => Category::TheIcebroodSaga,
            MapMetaKind::Cantha => Category::EndOfDragons,
            MapMetaKind::SeitungProvince => Category::EndOfDragons,
            MapMetaKind::NewKainengCity => Category::EndOfDragons,
            MapMetaKind::TheEchovaldWilds => Category::EndOfDragons,
            MapMetaKind::DragonsEnd => Category::EndOfDragons,
        }
    }

    /// The member schedules of this map meta in the catalog, in the order that settles ties.
    pub open spec fn catalog_schedules(self) -> Seq<EventSchedule> {
        match self {
            MapMetaKind::DayAndNight => seq![
                EventSchedule { name: "Dawn", offset: 25, frequency: 120, length: 5 },
                EventSchedule { name: "Day", offset: 30, frequency: 120, length: 70 },
                EventSchedule { name: "Dusk", offset: 100, frequency: 120, length: 5 },
                EventSchedule { name: "Night", offset: 105, frequency: 120, length: 40 },
            ],
            MapMetaKind::WorldBosses => seq![
                EventSchedule { name: "Admiral Taidha Covington", offset: 0, frequency: 180, length: 15 },
                EventSchedule { name: "Svanir Shaman Chief", offset: 15, frequency: 120, length: 15 },
                EventSchedule { name: "Megadestroyer", offset: 30, frequency: 180, length: 15 },
                EventSchedule { name: "Fire Elemental", offset: 45, frequency: 120, length: 15 },
                EventSchedule { name: "The Shatterer", offset: 60, frequency: 180, length: 15 },
                EventSchedule { name: "Great Jungle Wurm", offset: 75, frequency: 120, length: 15 },
                EventSchedule { name: "Modniir Ulgoth", offset: 90, frequency: 180, length: 15 },
                EventSchedule { name: "Shadow Behemoth", offset: 105, frequency: 120, length: 15 },
                EventSchedule { name: "Golem Mark II", offset: 120, frequency: 180, length: 15 },
                EventSchedule { name: "Claw of Jormag", offset: 150, frequency: 180, length: 15 },
            ],
            MapMetaKind::HardWorldBosses => seq![
                EventSchedule { name: "Tequatl the Sunless", offset: 0, frequency: 1440, length: 30 },
                EventSchedule { name: "Triple Trouble", offset: 60, frequency: 1440, length: 30 },
                EventSchedule { name: "Karka Queen", offset: 120, frequency: 1440, length: 30 },
                EventSchedule { name: "Tequatl the Sunless", offset: 180, frequency: 1440, length: 30 },
                EventSchedule { name: "Triple Trouble", offset: 240, frequency: 1440, length: 30 },
                EventSchedule { name: "Karka Queen", offset: 360, frequency: 1440, length: 30 },
                EventSchedule { name: "Tequatl the Sunless", offset: 420, frequency: 1440, length: 30 },
                EventSchedule { name: "Triple Trouble", offset: 480, frequency: 1440, length: 30 },
                EventSchedule { name: "Karka Queen", offset: 630, frequency: 1440, length: 30 },
                EventSchedule { name: "Tequatl the Sunless", offset: 690, frequency: 1440, length: 30 },
                EventSchedule { name: "Triple Trouble", offset: 750, frequency: 1440, length: 30 },
                EventSchedule { name: "Karka Queen", offset: 900, frequency: 1440, length: 30 },
                EventSchedule { name: "Tequatl the Sunless", offset: 960, frequency: 1440, length: 30 },
                EventSchedule { name: "Triple Trouble", offset: 1020, frequency: 1440, length: 30 },
                EventSchedule { name: "Karka Queen", offset: 1080, frequency: 1440, length: 30 },
                EventSchedule { name: "Tequatl the Sunless", offset: 1140, frequency: 1440, length: 30 },
                EventSchedule { name: "Triple Trouble", offset: 1200, frequency: 1440, length: 30 },
                EventSchedule { name: "Karka Queen", offset: 1380, frequency: 1440, length: 30 },
            ],
            MapMetaKind::LeyLineAnomaly => seq![
                EventSchedule { name: "Timberline Falls", offset: 20, frequency: 360, length: 20 },
                EventSchedule { name: "Iron Marches", offset: 140, frequency: 360, length: 20 },
                EventSchedule { name: "Gendarran Fields", offset: 260, frequency: 360, length: 20 },
            ],
            MapMetaKind::PVPTournaments => seq![
                EventSchedule { name: "Balthazar's Brawl", offset: 0, frequency: 720, length: 60 },
                EventSchedule { name: "Grenth's Game", offset: 180, frequency: 720, length: 60 },
                EventSchedule { name: "Melandru's Matchup", offset: 360, frequency: 720, length: 60 },
                EventSchedule { name: "Lyssa's Legions", offset: 540, frequency: 720, length: 60 },
            ],
            MapMetaKind::DryTop => seq![
                EventSchedule { name: "Crash Site", offset: 0, frequency: 60, length: 40 },
                EventSchedule { name: "Sandstorm", offset: 40, frequency: 60, length: 20 },
            ],
            MapMetaKind::VerdantBrink => seq![
                EventSchedule { name: "Night: Night and the Enemy", offset: 105, frequency: 120, length: 25 },
                EventSchedule { name: "Night Bosses", offset: 10, frequency: 120, length: 20 },
                EventSchedule { name: "Day: Securing Verdant Brink", offset: 30, frequency: 120, length: 75 },
            ],
            MapMetaKind::AuricBasin => seq![
                EventSchedule { name: "Challenges", offset: 45, frequency: 120, length: 15 },
                EventSchedule { name: "Octovine", offset: 60, frequency: 120, length: 20 },
                EventSchedule { name: "Reset", offset: 80, frequency: 120, length: 10 },
                EventSchedule { name: "Pylons", offset: 90, frequency: 120, length: 75 },
            ],
            MapMetaKind::TangledDepths => seq![
                EventSchedule { name: "Prep", offset: 25, frequency: 120, length: 5 },
                EventSchedule { name: "Chak Gerent", offset: 30, frequency: 120, length: 20 },
                EventSchedule { name: "Help the Outposts", offset: 50, frequency: 120, length: 95 },
            ],
            MapMetaKind::DragonsStand => seq![
                EventSchedule { name: "Start advancing on the Blighting Towers", offset: 90, frequency: 120, length: 120 },
            ],
            MapMetaKind::LakeDoric => seq![
                EventSchedule { name: "Noran's Homestead", offset: 30, frequency: 120, length: 30 },
                EventSchedule { name: "Saidra's Haven", offset: 60, frequency: 120, length: 45 },
                EventSchedule { name: "New Loamhurst", offset: 105, frequency: 120, length: 45 },
            ],
            MapMetaKind::CrystalOasis => seq![
                EventSchedule { name: "Rounds 1 to 3", offset: 5, frequency: 120, length: 10 },
                EventSchedule { name: "Pinata/Reset", offset: 20, frequency: 120, length: 10 },
            ],
            MapMetaKind::DesertHighlands => seq![
                EventSchedule { name: "Buried Treasure", offset: 60, frequency: 120, length: 20 },
            ],
            MapMetaKind::ElonRiverlands => seq![
                EventSchedule { name: "The Path to Ascension: Augury Rock", offset: 90, frequency: 120, length: 25 },
                EventSchedule { name: "Doppelganger", offset: 110, frequency: 120, length: 20 },
            ],
            MapMetaKind::TheDesolation => seq![
                EventSchedule { name: "Junudu Rising", offset: 30, frequency: 120, length: 20 },
                EventSchedule { name: "Maws of Torment", offset: 60, frequency: 120, length: 20 },
                EventSchedule { name: "Junudu Rising", offset: 90, frequency: 120, length: 20 },
            ],
            MapMetaKind::DomainOfVabbi => seq![
                EventSchedule { name: "Forged with Fire", offset: 0, frequency: 60, length: 30 },
                EventSchedule { name: "Serpents' Ire", offset: 30, frequency: 120, length: 30 },
            ],
            MapMetaKind::DomainOfIstan => seq![
                EventSchedule { name: "Palawadan", offset: 105, frequency: 120, length: 30 },
            ],
            MapMetaKind::JahaiBluffs => seq![
                EventSchedule { name: "Escorts", offset: 60, frequency: 120, length: 15 },
                EventSchedule { name: "Death-Branded Shatterer", offset: 75, frequency: 120, length: 15 },
            ],
            MapMetaKind::ThunderheadPeaks => seq![
                EventSchedule { name: "The Oil Floes", offset: 45, frequency: 120, length: 15 },
                EventSchedule { name: "Thunderhead Keep", offset: 105, frequency: 120, length: 20 },
            ],
            MapMetaKind::GrothmarValley => seq![
                EventSchedule { name: "Effigy", offset: 10, frequency: 120, length: 15 },
                EventSchedule { name: "Doomlore Shrine", offset: 38, frequency: 120, length: 22 },
                EventSchedule { name: "Ooze Pits", offset: 65, frequency: 120, length: 20 },
                EventSchedule { name: "Metal Concert", offset: 100, frequency: 120, length: 20 },
            ],
            MapMetaKind::BjoraMarches => seq![
                EventSchedule { name: "Shards and Construct", offset: 0, frequency: 120, length: 5 },
                EventSchedule { name: "Icebrood Champions", offset: 5, frequency: 120, length: 15 },
                EventSchedule { name: "Drakkar and Spirits of the Wild", offset: 65, frequency: 120, length: 35 },
                EventSchedule { name: "Raven Shrines", offset: 105, frequency: 120, length: 15 },
            ],
            MapMetaKind::Dragonstorm => seq![
                EventSchedule { name: "Dragonstorm (Public)", offset: 60, frequency: 120, length: 20 },
            ],
            MapMetaKind::Cantha => seq![
                EventSchedule { name: "Dawn", offset: 25, frequency: 120, length: 5 },
                EventSchedule { name: "Day", offset: 30, frequency: 120, length: 70 },
                EventSchedule { name: "Dusk", offset: 100, frequency: 120, length: 5 },
                EventSchedule { name: "Night", offset: 105, frequency: 120, length: 40 },
            ],
            MapMetaKind::SeitungProvince => seq![
                EventSchedule { name: "Aetherblade Assault", offset: 90, frequency: 120, length: 30 },
            ],
            MapMetaKind::NewKainengCity => seq![
                EventSchedule { name: "Kaineng Blackout", offset: 0, frequency: 120, length: 40 },
            ],
            MapMetaKind::TheEchovaldWilds => seq![
                EventSchedule { name: "Gang War", offset: 30, frequency: 120, length: 35 },
                EventSchedule { name: "Aspenwood", offset: 100, frequency: 120, length: 20 },
            ],
            MapMetaKind::DragonsEnd => seq![
                EventSchedule { name: "Jade Maw", offset: 5, frequency: 120, length: 8 },
                EventSchedule { name: "Preparations", offset: 13, frequency: 120, length: 32 },
                EventSchedule { name: "Jade Maw", offset: 45, frequency: 120, length: 8 },
                EventSchedule { name: "Preparations", offset: 53, frequency: 120, length: 8 },
                EventSchedule { name: "The Battle for the Jade Sea", offset: 60, frequency: 120, length: 60 },
            ],
        }
    }

    /// The name, category and member schedules of this map meta.
    pub fn info(&self) -> (r: MapMeta)
        ensures
            r.name == self.catalog_name(),
            r.category == self.catalog_category(),
            r.schedules@ == self.catalog_schedules(),
            r.wf(),
            members_canonical(r.schedules@),
            forall|k: int|
                0 <= k < r.schedules@.len() ==> (#[trigger] r.schedules@[k]).length
                    <= r.schedules@[k].frequency,
    {
        match self {
            MapMetaKind::DayAndNight => MapMeta {
                name: "Day and Night",
                category: Category::CoreTyria,
                schedules: vec![
                    EventSchedule { name: "Dawn", offset: 25, frequency: 120, length: 5 },
                    EventSchedule { name: "Day", offset: 30, frequency: 120, length: 70 },
                    EventSchedule { name: "Dusk", offset: 100, frequency: 120, length: 5 },
                    EventSchedule { name: "Night", offset: 105, frequency: 120, length: 40 },
                ],
            },
            MapMetaKind::WorldBosses => MapMeta {
                name: "World Bosses",
                category: Category::CoreTyria,
                schedules: vec![
                    EventSchedule { name: "Admiral Taidha Covington", offset: 0, frequency: 180, length: 15 },
                    EventSchedule { name: "Svanir Shaman Chief", offset: 15, frequency: 120, length: 15 },
                    EventSchedule { name: "Megadestroyer", offset: 30, frequency: 180, length: 15 },
                    EventSchedule { name: "Fire Elemental", offset: 45, frequency: 120, length: 15 },
                    EventSchedule { name: "The Shatterer", offset: 60, frequency: 180, length: 15 },
                    EventSchedule { name: "Great Jungle Wurm", offset: 75, frequency: 120, length: 15 },
                    EventSchedule { name: "Modniir Ulgoth", offset: 90, frequency: 180, length: 15 },
                    EventSchedule { name: "Shadow Behemoth", offset: 105, frequency: 120, length: 15 },
                    EventSchedule { name: "Golem Mark II", offset: 120, frequency: 180, length: 15 },
                    EventSchedule { name: "Claw of Jormag", offset: 150, frequency: 180, length: 15 },
                ],
            },
            MapMetaKind::HardWorldBosses => MapMeta {
                name: "Hard World Bosses",
                category: Category::CoreTyria,
                schedules: vec![
                    EventSchedule { name: "Tequatl the Sunless", offset: 0, frequency: 1440, length: 30 },
                    EventSchedule { name: "Triple Trouble", offset: 60, frequency: 1440, length: 30 },
                    EventSchedule { name: "Karka Queen", offset: 120, frequency: 1440, length: 30 },
                    EventSchedule { name: "Tequatl the Sunless", offset: 180, frequency: 1440, length: 30 },
                    EventSchedule { name: "Triple Trouble", offset: 240, frequency: 1440, length: 30 },
                    EventSchedule { name: "Karka Queen", offset: 360, frequency: 1440, length: 30 },
                    EventSchedule { name: "Tequatl the Sunless", offset: 420, frequency: 1440, length: 30 },
                    EventSchedule { name: "Triple Trouble", offset: 480, frequency: 1440, length: 30 },
                    EventSchedule { name: "Karka Queen", offset: 630, frequency: 1440, length: 30 },
                    EventSchedule { name: "Tequatl the Sunless", offset: 690, frequency: 1440, length: 30 },
                    EventSchedule { name: "Triple Trouble", offset: 750, frequency: 1440, length: 30 },
                    EventSchedule { name: "Karka Queen", offset: 900, frequency: 1440, length: 30 },
                    EventSchedule { name: "Tequatl the Sunless", offset: 960, frequency: 1440, length: 30 },
                    EventSchedule { name: "Triple Trouble", offset: 1020, frequency: 1440, length: 30 },
                    EventSchedule { name: "Karka Queen", offset: 1080, frequency: 1440, length: 30 },
                    EventSchedule { name: "Tequatl the Sunless", offset: 1140, frequency: 1440, length: 30 },
                    EventSchedule { name: "Triple Trouble", offset: 1200, frequency: 1440, length: 30 },
                    EventSchedule { name: "Karka Queen", offset: 1380, frequency: 1440, length: 30 },
                ],
            },
            MapMetaKind::LeyLineAnomaly => MapMeta {
                name: "Ley-Line Anomaly",
                category: Category::CoreTyria,
                schedules: vec![
                    EventSchedule { name: "Timberline Falls", offset: 20, frequency: 360, length: 20 },
                    EventSchedule { name: "Iron Marches", offset: 140, frequency: 360, length: 20 },
                    EventSchedule { name: "Gendarran Fields", offset: 260, frequency: 360, length: 20 },
                ],
            },
            MapMetaKind::PVPTournaments => MapMeta {
                name: "PvP Tournaments",
                category: Category::CoreTyria,
                schedules: vec![
                    EventSchedule { name: "Balthazar's Brawl", offset: 0, frequency: 720, length: 60 },
                    EventSchedule { name: "Grenth's Game", offset: 180, frequency: 720, length: 60 },
                    EventSchedule { name: "Melandru's Matchup", offset: 360, frequency: 720, length: 60 },
                    EventSchedule { name: "Lyssa's Legions", offset: 540, frequency: 720, length: 60 },
                ],
            },
            MapMetaKind::DryTop => MapMeta {
                name: "Dry Top",
                category: Category::LivingWorldSeason2,
                schedules: vec![
                    EventSchedule { name: "Crash Site", offset: 0, frequency: 60, length: 40 },
                    EventSchedule { name: "Sandstorm", offset: 40, frequency: 60, length: 20 },
                ],
            },
            MapMetaKind::VerdantBrink => MapMeta {
                name: "Verdant Brink",
                category: Category::HeartOfThorns,
                schedules: vec![
                    EventSchedule { name: "Night: Night and the Enemy", offset: 105, frequency: 120, length: 25 },
                    EventSchedule { name: "Night Bosses", offset: 10, frequency: 120, length: 20 },
                    EventSchedule { name: "Day: Securing Verdant Brink", offset: 30, frequency: 120, length: 75 },
                ],
            },
            MapMetaKind::AuricBasin => MapMeta {
                name: "Auric Basin",
                category: Category::HeartOfThorns,
                schedules: vec![
                    EventSchedule { name: "Challenges", offset: 45, frequency: 120, length: 15 },
                    EventSchedule { name: "Octovine", offset: 60, frequency: 120, length: 20 },
                    EventSchedule { name: "Reset", offset: 80, frequency: 120, length: 10 },
                    EventSchedule { name: "Pylons", offset: 90, frequency: 120, length: 75 },
                ],
            },
            MapMetaKind::TangledDepths => MapMeta {
                name: "Tangled Depths",
                category: Category::HeartOfThorns,
                schedules: vec![
                    EventSchedule { name: "Prep", offset: 25, frequency: 120, length: 5 },
                    EventSchedule { name: "Chak Gerent", offset: 30, frequency: 120, length: 20 },
                    EventSchedule { name: "Help the Outposts", offset: 50, frequency: 120, length: 95 },
                ],
            },
            MapMetaKind::DragonsStand => MapMeta {
                name: "Dragon's Stand",
                category: Category::HeartOfThorns,
                schedules: vec![
                    EventSchedule { name: "Start advancing on the Blighting Towers", offset: 90, frequency: 120, length: 120 },
                ],
            },
            MapMetaKind::LakeDoric => MapMeta {
                name: "Lake Doric",
                category: Category::LivingWorldSeason3,
                schedules: vec![
                    EventSchedule { name: "Noran's Homestead", offset: 30, frequency: 120, length: 30 },
                    EventSchedule { name: "Saidra's Haven", offset: 60, frequency: 120, length: 45 },
                    EventSchedule { name: "New Loamhurst", offset: 105, frequency: 120, length: 45 },
                ],
            },
            MapMetaKind::CrystalOasis => MapMeta {
                name: "Crystal Oasis",
                category: Category::PathOfFire,
                schedules: vec![
                    EventSchedule { name: "Rounds 1 to 3", offset: 5, frequency: 120, length: 10 },
                    EventSchedule { name: "Pinata/Reset", offset: 20, frequency: 120, length: 10 },
                ],
            },
            MapMetaKind::DesertHighlands => MapMeta {
                name: "Desert Highlands",
                category: Category::PathOfFire,
                schedules: vec![
                    EventSchedule { name: "Buried Treasure", offset: 60, frequency: 120, length: 20 },
                ],
            },
            MapMetaKind::ElonRiverlands => MapMeta {
                name: "Elon Riverlands",
                category: Category::PathOfFire,
                schedules: vec![
                    EventSchedule { name: "The Path to Ascension: Augury Rock", offset: 90, frequency: 120, length: 25 },
                    EventSchedule { name: "Doppelganger", offset: 110, frequency: 120, length: 20 },
                ],
            },
            MapMetaKind::TheDesolation => MapMeta {
                name: "The Desolation",
                category: Category::PathOfFire,
                schedules: vec![
                    EventSchedule { name: "Junudu Rising", offset: 30, frequency: 120, length: 20 },
                    EventSchedule { name: "Maws of Torment", offset: 60, frequency: 120, length: 20 },
                    EventSchedule { name: "Junudu Rising", offset: 90, frequency: 120, length: 20 },
                ],
            },
            MapMetaKind::DomainOfVabbi => MapMeta {
                name: "Domain of Vabbi",
                category: Category::PathOfFire,
                schedules: vec![
                    EventSchedule { name: "Forged with Fire", offset: 0, frequency: 60, length: 30 },
                    EventSchedule { name: "Serpents' Ire", offset: 30, frequency: 120, length: 30 },
                ],
            },
            MapMetaKind::DomainOfIstan => MapMeta {
                name: "Domain of Istan",
                category: Category::LivingWorldSeason4,
                schedules: vec![
                    EventSchedule { name: "Palawadan", offset: 105, frequency: 120, length: 30 },
                ],
            },
            MapMetaKind::JahaiBluffs => MapMeta {
                name: "Jahai Bluffs",
                category: Category::LivingWorldSeason4,
                schedules: vec![
                    EventSchedule { name: "Escorts", offset: 60, frequency: 120, length: 15 },
                    EventSchedule { name: "Death-Branded Shatterer", offset: 75, frequency: 120, length: 15 },
                ],
            },
            MapMetaKind::ThunderheadPeaks => MapMeta {
                name: "Thunderhead Peaks",
                category: Category::LivingWorldSeason4,
                schedules: vec![
                    EventSchedule { name: "The Oil Floes", offset: 45, frequency: 120, length: 15 },
                    EventSchedule { name: "Thunderhead Keep", offset: 105, frequency: 120, length: 20 },
                ],
            },
            MapMetaKind::GrothmarValley => MapMeta {
                name: "Grothmar Valley",
                category: Category::TheIcebroodSaga,
                schedules: vec![
                    EventSchedule { name: "Effigy", offset: 10, frequency: 120, length: 15 },
                    EventSchedule { name: "Doomlore Shrine", offset: 38, frequency: 120, length: 22 },
                    EventSchedule { name: "Ooze Pits", offset: 65, frequency: 120, length: 20 },
                    EventSchedule { name: "Metal Concert", offset: 100, frequency: 120, length: 20 },
                ],
            },
            MapMetaKind::BjoraMarches => MapMeta {
                name: "Bjora Marches",
                category: Category::TheIcebroodSaga,
                schedules: vec![
                    EventSchedule { name: "Shards and Construct", offset: 0, frequency: 120, length: 5 },
                    EventSchedule { name: "Icebrood Champions", offset: 5, frequency: 120, length: 15 },
                    EventSchedule { name: "Drakkar and Spirits of the Wild", offset: 65, frequency: 120, length: 35 },
                    EventSchedule { name: "Raven Shrines", offset: 105, frequency: 120, length: 15 },
                ],
            },
            MapMetaKind::Dragonstorm => MapMeta {
                name: "Dragonstorm",
                category: Category::TheIcebroodSaga,
                schedules: vec![
                    EventSchedule { name: "Dragonstorm (Public)", offset: 60, frequency: 120, length: 20 },
                ],
            },
            MapMetaKind::Cantha => MapMeta {
                name: "Cantha: Day and Night",
                category: Category::EndOfDragons,
                schedules: vec![
                    EventSchedule { name: "Dawn", offset: 25, frequency: 120, length: 5 },
                    EventSchedule { name: "Day", offset: 30, frequency: 120, length: 70 },
                    EventSchedule { name: "Dusk", offset: 100, frequency: 120, length: 5 },
                    EventSchedule { name: "Night", offset: 105, frequency: 120, length: 40 },
                ],
            },
            MapMetaKind::SeitungProvince => MapMeta {
                name: "Seitung Province",
                category: Category::EndOfDragons,
                schedules: vec![
                    EventSchedule { name: "Aetherblade Assault", offset: 90, frequency: 120, length: 30 },
                ],
            },
            MapMetaKind::NewKainengCity => MapMeta {
                name: "New Kaineng City",
                category: Category::EndOfDragons,
                schedules: vec![
                    EventSchedule { name: "Kaineng Blackout", offset: 0, frequency: 120, length: 40 },
                ],
            },
            MapMetaKind::TheEchovaldWilds => MapMeta {
                name: "The Echovald Wilds",
                category: Category::EndOfDragons,
                schedules: vec![
                    EventSchedule { name: "Gang War", offset: 30, frequency: 120, length: 35 },
                    EventSchedule { name: "Aspenwood", offset: 100, frequency: 120, length: 20 },
                ],
            },
            MapMetaKind::DragonsEnd => MapMeta {
                name: "Dragon's End",
                category: Category::EndOfDragons,
                schedules: vec![
                    EventSchedule { name: "Jade Maw", offset: 5, frequency: 120, length: 8 },
                    EventSchedule { name: "Preparations", offset: 13, frequency: 120, length: 32 },
                    EventSchedule { name: "Jade Maw", offset: 45, frequency: 120, length: 8 },
                    EventSchedule { name: "Preparations", offset: 53, frequency: 120, length: 8 },
                    EventSchedule { name: "The Battle for the Jade Sea", offset: 60, frequency: 120, length: 60 },
                ],
            },
        }
    }

    /// A cursor over the merged occurrences of this map meta, at the reference zero.
    pub fn into_iter(self) -> (r: IntoIter)
        ensures
            r.schedules() == self.catalog_schedules(),
            members_wf(r.schedules()),
            members_canonical(r.schedules()),
            r.cursor() == 0,
    {
        self.info().into_iter()
    }
}

/// A cursor over the merged occurrences of a group of schedules.
///
/// Each call of `next` moves the cursor to the earliest occurrence, over all
/// members, that starts after it; `now` reports the first member's occurrence that
/// covers the cursor.
#[derive(Clone)]
pub struct IntoIter {
    /// The cursor, in minutes from the reference zero.
    current_time: i64,
    /// The members of the group.
    schedules: Vec<EventSchedule>,
}

impl IntoIter {
    /// The members of the group.
    pub closed spec fn schedules(&self) -> Seq<EventSchedule> {
        self.schedules@
    }

    /// The cursor, in minutes from the reference zero.
    pub closed spec fn cursor(&self) -> int {
        self.current_time as int
    }

    /// The cursor lies within the range of `i64`.
    pub proof fn lemma_cursor_fits(&self)
        ensures
            i64::MIN <= self.cursor() <= i64::MAX,
    {
    }

    /// The cursor set to `minutes`.
    pub closed spec fn timed(self, minutes: i64) -> Self {
        IntoIter { current_time: minutes, ..self }
    }

    /// The cursor moved by `amount` minutes.
    pub closed spec fn moved(self, amount: i64) -> Self {
        IntoIter { current_time: (self.current_time + amount) as i64, ..self }
    }

    /// What `now` reports.
    pub open spec fn current(&self) -> Option<EventInstance> {
        first_active(self.schedules(), self.cursor())
    }

    /// The cursor, in minutes from the reference zero.
    pub fn current_time(&self) -> (r: i64)
        ensures
            r == self.cursor(),
    {
        self.current_time
    }

    /// Sets the cursor to `minutes` from the reference zero, whatever it was.
    pub fn time(self, minutes: i64) -> (r: Self)
        ensures
            r == self.timed(minutes),
            r.schedules() == self.schedules(),
            r.cursor() == minutes,
    {
        let mut it = self;
        it.current_time = minutes;
        it
    }

    /// Moves the cursor by `amount` minutes, forwards or backwards.
    pub fn fast_forward(self, amount: i64) -> (r: Self)
        requires
            i64::MIN <= self.cursor() + amount <= i64::MAX,
        ensures
            r == self.moved(amount),
            r.schedules() == self.schedules(),
            r.cursor() == self.cursor() + amount,
    {
        let mut it = self;
        it.current_time = it.current_time + amount;
        it
    }

    /// The occurrence that covers the cursor of the first member, in list order,
    /// that has one; the cursor does not move.
    pub fn now(&self) -> (r: Option<EventInstance>)
        requires
            members_runnable(self.schedules()),
            members_active_fit(self.schedules(), self.cursor()),
        ensures
            r == self.current(),
    {
        let ghost ss = self.schedules@;
        let ghost t = self.current_time as int;
        let mut i: usize = 0;
        assert(ss.skip(0) =~= ss);
        while i < self.schedules.len()
            invariant
                ss == self.schedules@,
                t == self.current_time,
                members_runnable(ss),
                members_active_fit(ss, t),
                i <= ss.len(),
                first_active(ss, t) == first_active(ss.skip(i as int), t),
            decreases ss.len() - i,
        {
            assert(ss.skip(i as int)[0] == ss[i as int]);
            assert(ss.skip(i as int).drop_first() =~= ss.skip(i + 1));
            let found = self.schedules[i].iter().fast_forward(self.current_time).now();
            if found.is_some() {
                return found;
            }
            i = i + 1;
        }
        assert(ss.skip(i as int).len() == 0);
        None
    }

    /// Moves the cursor to the earliest next occurrence over all members, and
    /// returns it; of occurrences that start together, the first member's wins.
    pub fn next(&mut self) -> (r: Option<EventInstance>)
        requires
            members_wf(old(self).schedules()),
            members_next_fit(old(self).schedules(), old(self).cursor()),
        ensures
            final(self).schedules() == old(self).schedules(),
            final(self).cursor() == earliest_start(old(self).schedules(), old(self).cursor()),
            r == Some(earliest_instance(old(self).schedules(), old(self).cursor())),
    {
        let ghost ss = self.schedules@;
        let ghost t = self.current_time as int;
        let mut best = self.schedules[0].iter().fast_forward(self.current_time).next().unwrap();
        let ghost mut k: int = 0;
        let mut i: usize = 1;
        assert(ss.take(1).len() == 1);
        while i < self.schedules.len()
            invariant
                ss == self.schedules@,
                t == self.current_time,
                members_wf(ss),
                members_next_fit(ss, t),
                1 <= i <= ss.len(),
                k == earliest(ss.take(i as int), t),
                0 <= k < i,
                best == ss[k].next_instance(t),
            decreases ss.len() - i,
        {
            let candidate = self.schedules[i].iter().fast_forward(self.current_time).next().unwrap();
            assert(ss.take(i + 1).drop_last() =~= ss.take(i as int));
            assert(ss.take(i + 1).last() == ss[i as int]);
            assert(ss.take(i as int)[k] == ss[k]);
            if candidate.start_time < best.start_time {
                best = candidate;
                proof {
                    k = i as int;
                }
            }
            i = i + 1;
        }
        assert(ss.take(i as int) =~= ss);
        self.current_time = best.start_time;
        Some(best)
    }
}

/// The member that the group steps to lands no later than any other member, and
/// strictly before every member listed ahead of it.
pub proof fn lemma_earliest_is_first_minimum(ss: Seq<EventSchedule>, t: int)
    requires
        ss.len() > 0,
    ensures
        0 <= earliest(ss, t) < ss.len(),
        forall|j: int| 0 <= j < ss.len() ==> earliest_start(ss, t) <= #[trigger] ss[j].next_start(t),
        forall|j: int|
            0 <= j < earliest(ss, t) ==> earliest_start(ss, t) < #[trigger] ss[j].next_start(t),
    decreases ss.len(),
{
    if ss.len() > 1 {
        let p = ss.drop_last();
        lemma_earliest_is_first_minimum(p, t);
        assert forall|j: int| 0 <= j < p.len() implies p[j] == ss[j] by {}
    }
}

/// Setting the time of a group's cursor discards its whole history: two cursors over
/// the same members, wherever earlier moves and steps left them, report the same
/// occurrence once both are set to the same time.
pub proof fn lemma_time_discards_history(a: IntoIter, b: IntoIter, minutes: i64)
    requires
        a.schedules() == b.schedules(),
    ensures
        a.timed(minutes).current() == b.timed(minutes).current(),
{
}

/// The steps of a group's cursor move strictly forward from where it started, and
/// each lands on an occurrence of the member that won it.
pub proof fn lemma_run_in_order(ss: Seq<EventSchedule>, t: int, n: nat)
    requires
        members_canonical(ss),
    ensures
        run(ss, t, n).len() == n,
        forall|i: int|
            0 <= i < n ==> {
                let (k, x) = #[trigger] run(ss, t, n)[i];
                &&& 0 <= k < ss.len()
                &&& t < x
                &&& ss[k].starts_at(x)
            },
        forall|i: int, j: int|
            0 <= i < j < n ==> (#[trigger] run(ss, t, n)[i]).1 < (#[trigger] run(ss, t, n)[j]).1,
    decreases n,
{
    if n > 0 {
        let k = earliest(ss, t);
        let x = earliest_start(ss, t);
        lemma_earliest_is_first_minimum(ss, t);
        lemma_next_start_is_occurrence(ss[k], t);
        lemma_run_in_order(ss, x, (n - 1) as nat);
        let rest = run(ss, x, (n - 1) as nat);
        let all = run(ss, t, n);
        assert(all == seq![(k, x)] + rest);
        assert forall|i: int| 0 < i < n implies #[trigger] all[i] == rest[i - 1] by {}
    }
}

/// Every occurrence of a member after the group's cursor started, up to the last
/// step taken, is stepped onto, and credited to that member, provided no other
/// member starts at the same minute.
pub proof fn lemma_run_covers(ss: Seq<EventSchedule>, t: int, n: nat, k: int, x: int)
    requires
        members_canonical(ss),
        n > 0,
        0 <= k < ss.len(),
        ss[k].starts_at(x),
        t < x <= run(ss, t, n).last().1,
        forall|j: int| 0 <= j < ss.len() && j != k ==> !(#[trigger] ss[j]).starts_at(x),
    ensures
        exists|i: int| 0 <= i < n && run(ss, t, n)[i] == (k, x),
    decreases n,
{
    let e = earliest(ss, t);
    let x0 = earliest_start(ss, t);
    lemma_earliest_is_first_minimum(ss, t);
    lemma_next_start_is_first(ss[k], t, x);
    assert(x0 <= ss[k].next_start(t));
    lemma_next_start_is_occurrence(ss[e], t);
    let rest = run(ss, x0, (n - 1) as nat);
    let all = run(ss, t, n);
    assert(all == seq![(e, x0)] + rest);
    if x0 == x {
        assert(all[0] == (k, x));
    } else {
        if n == 1 {
            assert(all.last() == all[0]);
        } else {
            assert(all.last() == rest.last());
            lemma_run_covers(ss, x0, (n - 1) as nat, k, x);
            lemma_run_in_order(ss, x0, (n - 1) as nat);
            let i = choose|i: int| 0 <= i < n - 1 && rest[i] == (k, x);
            assert(all[i + 1] == rest[i]);
        }
    }
}

} // verus!
