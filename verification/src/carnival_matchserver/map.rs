//! The maps of the custom game map list, and the key presses that pick one.

use vstd::prelude::*;
use crate::carnival_matchserver::input::{
    InputStep, Step, Key, plan_view, push_step, keypress, keypress_for_duration, hold_steps,
};

verus! {

/// Where a map stands in the map list, and whether picking it first asks for
/// a sky variant.
#[derive(Debug)]
pub struct MapData {
    idx: i32,
    varied_skybox: bool,
}

impl View for MapData {
    type V = (i32, bool);

    closed spec fn view(&self) -> (i32, bool) {
        (self.idx, self.varied_skybox)
    }
}

/// The maps, in the order of their ids; the `NoMap` and `None1`..`None5` entries are ids that name
/// no map.
#[derive(Clone, Copy, PartialEq, Eq, Structural, Debug)]
pub enum GameMap {
    NoMap,
    Antarctic,
    Busan,
    Ilios,
    Lijiang,
    None1,
    Nepal,
    Oasis,
    Samoa,
    Circuit,
    Dorado,
    Havana,
    Junkertown,
    Rialto,
    Route66,
    Shambali,
    Gibraltar,
    JunkCity,
    Suravasa,
    BlizzardWorld,
    None2,
    Eichenwalde,
    None3,
    Hollywood,
    None4,
    KingsRow,
    None5,
    Midtown,
    Numbani,
    Paraiso,
    Colosseo,
    Esperanca,
    NewQueenStreet,
}

/// The position of each map in the map list and whether it has sky variants;
/// ids that name no map are at position 0 without variants.
pub open spec fn map_data(m: GameMap) -> (i32, bool) {
    match m {
        GameMap::NoMap => (0i32, false),
        GameMap::Antarctic => (1i32, false),
        GameMap::Busan => (2i32, true),
        GameMap::Ilios => (3i32, true),
        GameMap::Lijiang => (4i32, true),
        GameMap::None1 => (0i32, false),
        GameMap::Nepal => (6i32, true),
        GameMap::Oasis => (7i32, true),
        GameMap::Samoa => (8i32, false),
        GameMap::Circuit => (9i32, true),
        GameMap::Dorado => (10i32, true),
        GameMap::Havana => (11i32, true),
        GameMap::Junkertown => (12i32, false),
        GameMap::Rialto => (13i32, true),
        GameMap::Route66 => (14i32, true),
        GameMap::Shambali => (15i32, false),
        GameMap::Gibraltar => (16i32, true),
        GameMap::JunkCity => (17i32, false),
        GameMap::Suravasa => (18i32, false),
        GameMap::BlizzardWorld => (19i32, true),
        GameMap::None2 => (0i32, false),
        GameMap::Eichenwalde => (21i32, true),
        GameMap::None3 => (0i32, false),
        GameMap::Hollywood => (23i32, true),
        GameMap::None4 => (0i32, false),
        GameMap::KingsRow => (25i32, true),
        GameMap::None5 => (0i32, false),
        GameMap::Midtown => (27i32, true),
        GameMap::Numbani => (28i32, false),
        GameMap::Paraiso => (29i32, true),
        GameMap::Colosseo => (30i32, true),
        GameMap::Esperanca => (31i32, false),
        GameMap::NewQueenStreet => (32i32, true),
    }
}

/// `n` presses of the down arrow, 90 ms apart.
pub open spec fn down_presses(n: int) -> Seq<Step>
    decreases n,
{
    if n <= 0 {
        Seq::empty()
    } else {
        down_presses(n - 1) + seq![Step::Send(Key::DownArrow), Step::Sleep(90)]
    }
}

/// The steps that pick a map at position `idx`: move down to it, wait, pick
/// the default sky variant where there are variants, and confirm.
pub open spec fn select_steps(idx: i32, varied_skybox: bool) -> Seq<Step> {
    down_presses(idx - 1) + seq![Step::Sleep(200)] + (if varied_skybox {
        hold_steps(Key::Space, 300) + seq![Step::Send(Key::DownArrow), Step::Sleep(100)]
    } else {
        Seq::empty()
    }) + hold_steps(Key::RightArrow, 120)
}

impl GameMap {
    /// The position of the map in the map list and whether it has sky variants.
    pub fn data(&self) -> (r: MapData)
        ensures
            r@ == map_data(*self),
    {
        match self {
            GameMap::NoMap => MapData { idx: 0, varied_skybox: false },
            GameMap::Antarctic => MapData { idx: 1, varied_skybox: false },
            GameMap::Busan => MapData { idx: 2, varied_skybox: true },
            GameMap::Ilios => MapData { idx: 3, varied_skybox: true },
            GameMap::Lijiang => MapData { idx: 4, varied_skybox: true },
            GameMap::None1 => MapData { idx: 0, varied_skybox: false },
            GameMap::Nepal => MapData { idx: 6, varied_skybox: true },
            GameMap::Oasis => MapData { idx: 7, varied_skybox: true },
            GameMap::Samoa => MapData { idx: 8, varied_skybox: false },
            GameMap::Circuit => MapData { idx: 9, varied_skybox: true },
            GameMap::Dorado => MapData { idx: 10, varied_skybox: true },
            GameMap::Havana => MapData { idx: 11, varied_skybox: true },
            GameMap::Junkertown => MapData { idx: 12, varied_skybox: false },
            GameMap::Rialto => MapData { idx: 13, varied_skybox: true },
            GameMap::Route66 => MapData { idx: 14, varied_skybox: true },
            GameMap::Shambali => MapData { idx: 15, varied_skybox: false },
            GameMap::Gibraltar => MapData { idx: 16, varied_skybox: true },
            GameMap::JunkCity => MapData { idx: 17, varied_skybox: false },
            GameMap::Suravasa => MapData { idx: 18, varied_skybox: false },
            GameMap::BlizzardWorld => MapData { idx: 19, varied_skybox: true },
            GameMap::None2 => MapData { idx: 0, varied_skybox: false },
            GameMap::Eichenwalde => MapData { idx: 21, varied_skybox: true },
            GameMap::None3 => MapData { idx: 0, varied_skybox: false },
            GameMap::Hollywood => MapData { idx: 23, varied_skybox: true },
            GameMap::None4 => MapData { idx: 0, varied_skybox: false },
            GameMap::KingsRow => MapData { idx: 25, varied_skybox: true },
            GameMap::None5 => MapData { idx: 0, varied_skybox: false },
            GameMap::Midtown => MapData { idx: 27, varied_skybox: true },
            GameMap::Numbani => MapData { idx: 28, varied_skybox: false },
            GameMap::Paraiso => MapData { idx: 29, varied_skybox: true },
            GameMap::Colosseo => MapData { idx: 30, varied_skybox: true },
            GameMap::Esperanca => MapData { idx: 31, varied_skybox: false },
            GameMap::NewQueenStreet => MapData { idx: 32, varied_skybox: true },
        }
    }

    /// Plans picking the map in the map list.
    pub fn select(self, plan: &mut Vec<InputStep>)
        ensures
            plan_view(final(plan)@) == plan_view(old(plan)@) + select_steps(
                map_data(self).0,
                map_data(self).1,
            ),
    {
        let data = self.data();
        let idx = data.idx;
        let mut i: i32 = 1;
        assert(plan_view(plan@) =~= plan_view(old(plan)@) + down_presses(0));
        while i < idx
            invariant
                1 <= i,
                i <= idx || idx < 1,
                idx < 1 ==> i == 1,
                plan_view(plan@) == plan_view(old(plan)@) + down_presses(i - 1),
            decreases idx - i,
        {
            keypress(plan, Key::DownArrow, 90);
            assert(plan_view(plan@) =~= plan_view(old(plan)@) + down_presses(i as int));
            i = i + 1;
        }
        assert(down_presses(i - 1) == down_presses(idx - 1)) by {
            if idx < 1 {
                assert(down_presses(idx - 1) == Seq::<Step>::empty());
            }
        }
        push_step(plan, InputStep::Sleep { millis: 200 });
        if self.data().varied_skybox {
            keypress_for_duration(plan, Key::Space, 300);
            keypress(plan, Key::DownArrow, 100);
        }
        keypress_for_duration(plan, Key::RightArrow, 120);
        assert(plan_view(plan@) =~= plan_view(old(plan)@) + select_steps(idx, data.varied_skybox));
    }
}

/// The position of a map in the game's map list, the order in which the
/// maps are declared; unnamed positions hold the `NoMap` and `None` entries.
pub open spec fn list_position(m: GameMap) -> int {
    match m {
        GameMap::NoMap => 0,
        GameMap::Antarctic => 1,
        GameMap::Busan => 2,
        GameMap::Ilios => 3,
        GameMap::Lijiang => 4,
        GameMap::None1 => 5,
        GameMap::Nepal => 6,
        GameMap::Oasis => 7,
        GameMap::Samoa => 8,
        GameMap::Circuit => 9,
        GameMap::Dorado => 10,
        GameMap::Havana => 11,
        GameMap::Junkertown => 12,
        GameMap::Rialto => 13,
        GameMap::Route66 => 14,
        GameMap::Shambali => 15,
        GameMap::Gibraltar => 16,
        GameMap::JunkCity => 17,
        GameMap::Suravasa => 18,
        GameMap::BlizzardWorld => 19,
        GameMap::None2 => 20,
        GameMap::Eichenwalde => 21,
        GameMap::None3 => 22,
        GameMap::Hollywood => 23,
        GameMap::None4 => 24,
        GameMap::KingsRow => 25,
        GameMap::None5 => 26,
        GameMap::Midtown => 27,
        GameMap::Numbani => 28,
        GameMap::Paraiso => 29,
        GameMap::Colosseo => 30,
        GameMap::Esperanca => 31,
        GameMap::NewQueenStreet => 32,
    }
}

/// The map at a position of the list.
pub open spec fn map_at(i: int) -> GameMap {
    if i == 0 {
        GameMap::NoMap
    } else if i == 1 {
        GameMap::Antarctic
    } else if i == 2 {
        GameMap::Busan
    } else if i == 3 {
        GameMap::Ilios
    } else if i == 4 {
        GameMap::Lijiang
    } else if i == 5 {
        GameMap::None1
    } else if i == 6 {
        GameMap::Nepal
    } else if i == 7 {
        GameMap::Oasis
    } else if i == 8 {
        GameMap::Samoa
    } else if i == 9 {
        GameMap::Circuit
    } else if i == 10 {
        GameMap::Dorado
    } else if i == 11 {
        GameMap::Havana
    } else if i == 12 {
        GameMap::Junkertown
    } else if i == 13 {
        GameMap::Rialto
    } else if i == 14 {
        GameMap::Route66
    } else if i == 15 {
        GameMap::Shambali
    } else if i == 16 {
        GameMap::Gibraltar
    } else if i == 17 {
        GameMap::JunkCity
    } else if i == 18 {
        GameMap::Suravasa
    } else if i == 19 {
        GameMap::BlizzardWorld
    } else if i == 20 {
        GameMap::None2
    } else if i == 21 {
        GameMap::Eichenwalde
    } else if i == 22 {
        GameMap::None3
    } else if i == 23 {
        GameMap::Hollywood
    } else if i == 24 {
        GameMap::None4
    } else if i == 25 {
        GameMap::KingsRow
    } else if i == 26 {
        GameMap::None5
    } else if i == 27 {
        GameMap::Midtown
    } else if i == 28 {
        GameMap::Numbani
    } else if i == 29 {
        GameMap::Paraiso
    } else if i == 30 {
        GameMap::Colosseo
    } else if i == 31 {
        GameMap::Esperanca
    } else if i == 32 {
        GameMap::NewQueenStreet
    } else {
        GameMap::NoMap
    }
}

/// The entry names a map: it is neither `NoMap` nor one of the `None` gaps.
pub open spec fn names_a_map(m: GameMap) -> bool {
    m != GameMap::NoMap && m != GameMap::None1 && m != GameMap::None2 && m != GameMap::None3 && m != GameMap::None4 && m != GameMap::None5
}

/// The maps shown with sky variants, which take an extra step to pick.
pub open spec fn has_sky_variants(m: GameMap) -> bool {
    m == GameMap::Busan || m == GameMap::Ilios || m == GameMap::Lijiang || m == GameMap::Nepal || m == GameMap::Oasis || m == GameMap::Circuit || m == GameMap::Dorado || m == GameMap::Havana || m == GameMap::Rialto || m == GameMap::Route66 || m == GameMap::Gibraltar || m == GameMap::BlizzardWorld || m == GameMap::Eichenwalde || m == GameMap::Hollywood || m == GameMap::KingsRow || m == GameMap::Midtown || m == GameMap::Paraiso || m == GameMap::Colosseo || m == GameMap::NewQueenStreet
}

/// Each position of the list holds one entry.
proof fn lemma_map_at_position(m: GameMap)
    ensures
        map_at(list_position(m)) == m,
{
}

/// Every map that names a map is picked at its own position in the list,
/// the others at none, and a map's sky variants are those the game shows.
pub proof fn law_maps_at_their_positions(m: GameMap)
    ensures
        names_a_map(m) ==> map_data(m).0 == list_position(m) && 1 <= map_data(m).0 <= 32,
        !names_a_map(m) ==> map_data(m).0 == 0,
        map_data(m).1 == has_sky_variants(m),
{
}

/// No two maps are picked at the same position.
pub proof fn law_maps_at_distinct_positions(a: GameMap, b: GameMap)
    requires
        names_a_map(a),
        names_a_map(b),
        a != b,
    ensures
        map_data(a).0 != map_data(b).0,
{
    law_maps_at_their_positions(a);
    law_maps_at_their_positions(b);
    lemma_map_at_position(a);
    lemma_map_at_position(b);
}

} // verus!
