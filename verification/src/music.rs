//! The table of the music: where in the single tracker module each tune
//! begins.

use vstd::prelude::*;

verus! {

/// The tunes of the game.
#[derive(Clone, Copy, Debug, PartialEq, Eq, Structural)]
pub enum MainMusicTable {
    Grasswalk,
    Moongrains,
    WateryGraves,
    ChooseYourSeeds,
    RigorMormist,
    Title,
    BrainiacManiac,
    Loonboon,
    Cerebrawl,
    GrazeTheRoof,
    UltimateBattle,
    ZenGarden,
}

/// The position in the module at which a tune begins.
pub open spec fn tune_start(value: MainMusicTable) -> u8 {
    match value {
        MainMusicTable::Grasswalk => 0x00,
        MainMusicTable::Moongrains => 0x30,
        MainMusicTable::WateryGraves => 0x5E,
        MainMusicTable::ChooseYourSeeds => 0x7A,
        MainMusicTable::RigorMormist => 0x7D,
        MainMusicTable::Title => 0x98,
        MainMusicTable::BrainiacManiac => 0x9E,
        MainMusicTable::Loonboon => 0xA6,
        MainMusicTable::Cerebrawl => 0xB1,
        MainMusicTable::GrazeTheRoof => 0xB8,
        MainMusicTable::UltimateBattle => 0xD4,
        MainMusicTable::ZenGarden => 0xDD,
    }
}

impl From<MainMusicTable> for u8 {
    /// The position in the module at which a tune begins.
    fn from(value: MainMusicTable) -> (r: u8) {
        match value {
            MainMusicTable::Grasswalk => 0x00,
            MainMusicTable::Moongrains => 0x30,
            MainMusicTable::WateryGraves => 0x5E,
            MainMusicTable::ChooseYourSeeds => 0x7A,
            MainMusicTable::RigorMormist => 0x7D,
            MainMusicTable::Title => 0x98,
            MainMusicTable::BrainiacManiac => 0x9E,
            MainMusicTable::Loonboon => 0xA6,
            MainMusicTable::Cerebrawl => 0xB1,
            MainMusicTable::GrazeTheRoof => 0xB8,
            MainMusicTable::UltimateBattle => 0xD4,
            MainMusicTable::ZenGarden => 0xDD,
        }
    }
}

impl vstd::std_specs::convert::FromSpecImpl<MainMusicTable> for u8 {
    open spec fn obeys_from_spec() -> bool {
        true
    }

    open spec fn from_spec(value: MainMusicTable) -> u8 {
        tune_start(value)
    }
}

} // verus!
