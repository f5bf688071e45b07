//! The closed set of instances that the supervisor knows.

use vstd::prelude::*;
use vstd::string::StringExecFns;

verus! {

/// Number of instances in the fixed set.
pub const MAP_COUNT: usize = 10;

/// Identifier of one supervised instance.
#[derive(Clone, Copy, Debug, PartialEq, Eq, Hash, Structural)]
pub enum MapId {
    Aberration,
    TheIsland,
    ScorchedEarth,
    TheCenter,
    Ragnarok,
    Extinction,
    Valguero,
    GenesisPart1,
    CrystalIsles,
    GenesisPart2,
}

/// The identifier that stands at position `i` of the fixed order.
/// Positions past the end fall back on the last identifier.
pub open spec fn id_at(i: int) -> MapId {
    if i == 0 {
        MapId::Aberration
    } else if i == 1 {
        MapId::TheIsland
    } else if i == 2 {
        MapId::ScorchedEarth
    } else if i == 3 {
        MapId::TheCenter
    } else if i == 4 {
        MapId::Ragnarok
    } else if i == 5 {
        MapId::Extinction
    } else if i == 6 {
        MapId::Valguero
    } else if i == 7 {
        MapId::GenesisPart1
    } else if i == 8 {
        MapId::CrystalIsles
    } else {
        MapId::GenesisPart2
    }
}

impl MapId {
    /// Position of the identifier in the fixed order, from 0.
    pub open spec fn position(self) -> nat {
        match self {
            MapId::Aberration => 0,
            MapId::TheIsland => 1,
            MapId::ScorchedEarth => 2,
            MapId::TheCenter => 3,
            MapId::Ragnarok => 4,
            MapId::Extinction => 5,
            MapId::Valguero => 6,
            MapId::GenesisPart1 => 7,
            MapId::CrystalIsles => 8,
            MapId::GenesisPart2 => 9,
        }
    }

    /// The identifier's name as configuration and responses spell it.
    pub open spec fn label(self) -> Seq<char> {
        match self {
            MapId::Aberration => "Aberration"@,
            MapId::TheIsland => "TheIsland"@,
            MapId::ScorchedEarth => "ScorchedEarth"@,
            MapId::TheCenter => "TheCenter"@,
            MapId::Ragnarok => "Ragnarok"@,
            MapId::Extinction => "Extinction"@,
            MapId::Valguero => "Valguero"@,
            MapId::GenesisPart1 => "GenesisPart1"@,
            MapId::CrystalIsles => "CrystalIsles"@,
            MapId::GenesisPart2 => "GenesisPart2"@,
        }
    }

    /// Position of the identifier in the fixed order.
    pub fn ordinal(self) -> (i: usize)
        ensures
            i == self.position(),
            i < MAP_COUNT,
            id_at(i as int) == self,
    {
        match self {
            MapId::Aberration => 0,
            MapId::TheIsland => 1,
            MapId::ScorchedEarth => 2,
            MapId::TheCenter => 3,
            MapId::Ragnarok => 4,
            MapId::Extinction => 5,
            MapId::Valguero => 6,
            MapId::GenesisPart1 => 7,
            MapId::CrystalIsles => 8,
            MapId::GenesisPart2 => 9,
        }
    }

    /// The identifier at position `i`, if `i` is a position of the fixed order.
    pub fn from_ordinal(i: usize) -> (id: Option<MapId>)
        ensures
            i < MAP_COUNT ==> id == Some(id_at(i as int)),
            i >= MAP_COUNT ==> id is None,
    {
        if i == 0 {
            Some(MapId::Aberration)
        } else if i == 1 {
            Some(MapId::TheIsland)
        } else if i == 2 {
            Some(MapId::ScorchedEarth)
        } else if i == 3 {
            Some(MapId::TheCenter)
        } else if i == 4 {
            Some(MapId::Ragnarok)
        } else if i == 5 {
            Some(MapId::Extinction)
        } else if i == 6 {
            Some(MapId::Valguero)
        } else if i == 7 {
            Some(MapId::GenesisPart1)
        } else if i == 8 {
            Some(MapId::CrystalIsles)
        } else if i == 9 {
            Some(MapId::GenesisPart2)
        } else {
            None
        }
    }

    /// The identifier's name.
    pub fn name(self) -> (s: String)
        ensures
            s@ == self.label(),
    {
        match self {
            MapId::Aberration => String::from_str("Aberration"),
            MapId::TheIsland => String::from_str("TheIsland"),
            MapId::ScorchedEarth => String::from_str("ScorchedEarth"),
            MapId::TheCenter => String::from_str("TheCenter"),
            MapId::Ragnarok => String::from_str("Ragnarok"),
            MapId::Extinction => String::from_str("Extinction"),
            MapId::Valguero => String::from_str("Valguero"),
            MapId::GenesisPart1 => String::from_str("GenesisPart1"),
            MapId::CrystalIsles => String::from_str("CrystalIsles"),
            MapId::GenesisPart2 => String::from_str("GenesisPart2"),
        }
    }
}

/// There are only as many identifiers as the fixed order lists: every set
/// of identifiers is finite and has at most that many elements.
pub proof fn lemma_id_sets_are_small(ids: Set<MapId>)
    ensures
        ids.finite(),
        ids.len() <= MAP_COUNT,
{
    let all = set![
        MapId::Aberration,
        MapId::TheIsland,
        MapId::ScorchedEarth,
        MapId::TheCenter,
        MapId::Ragnarok,
        MapId::Extinction,
        MapId::Valguero,
        MapId::GenesisPart1,
        MapId::CrystalIsles,
        MapId::GenesisPart2
    ];
    assert(ids.subset_of(all));
    vstd::set_lib::lemma_len_subset(ids, all);
}

} // verus!
