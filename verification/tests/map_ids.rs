use ark_supervisor::{MapId, MAP_COUNT};

const IDS_IN_ORDER: [MapId; 10] = [
    MapId::Aberration,
    MapId::TheIsland,
    MapId::ScorchedEarth,
    MapId::TheCenter,
    MapId::Ragnarok,
    MapId::Extinction,
    MapId::Valguero,
    MapId::GenesisPart1,
    MapId::CrystalIsles,
    MapId::GenesisPart2,
];

#[test]
fn the_fixed_set_has_ten_instances() {
    assert_eq!(MAP_COUNT, 10);
    assert_eq!(IDS_IN_ORDER.len(), MAP_COUNT);
}

#[test]
fn ordinal_is_the_position_in_the_fixed_order() {
    for (position, id) in IDS_IN_ORDER.iter().enumerate() {
        assert_eq!(id.ordinal(), position);
    }
    assert_eq!(MapId::Aberration.ordinal(), 0);
    assert_eq!(MapId::Ragnarok.ordinal(), 4);
    assert_eq!(MapId::GenesisPart2.ordinal(), 9);
}

#[test]
fn from_ordinal_inverts_ordinal() {
    for id in IDS_IN_ORDER.iter() {
        assert_eq!(MapId::from_ordinal(id.ordinal()), Some(*id));
    }
    assert_eq!(MapId::from_ordinal(0), Some(MapId::Aberration));
    assert_eq!(MapId::from_ordinal(7), Some(MapId::GenesisPart1));
}

#[test]
fn from_ordinal_past_the_end_is_none() {
    assert_eq!(MapId::from_ordinal(10), None);
    assert_eq!(MapId::from_ordinal(11), None);
    assert_eq!(MapId::from_ordinal(usize::MAX), None);
}

#[test]
fn name_spells_the_identifier() {
    assert_eq!(MapId::Aberration.name(), "Aberration");
    assert_eq!(MapId::TheIsland.name(), "TheIsland");
    assert_eq!(MapId::ScorchedEarth.name(), "ScorchedEarth");
    assert_eq!(MapId::TheCenter.name(), "TheCenter");
    assert_eq!(MapId::Ragnarok.name(), "Ragnarok");
    assert_eq!(MapId::Extinction.name(), "Extinction");
    assert_eq!(MapId::Valguero.name(), "Valguero");
    assert_eq!(MapId::GenesisPart1.name(), "GenesisPart1");
    assert_eq!(MapId::CrystalIsles.name(), "CrystalIsles");
    assert_eq!(MapId::GenesisPart2.name(), "GenesisPart2");
}

#[test]
fn names_are_distinct() {
    for a in IDS_IN_ORDER.iter() {
        for b in IDS_IN_ORDER.iter() {
            assert_eq!(a.name() == b.name(), a == b);
        }
    }
}
