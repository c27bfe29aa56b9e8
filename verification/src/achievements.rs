//! The eleven achievements: their ids, names and descriptions, the
//! grouping of the achievements page, and the per-mode wave milestone.

use vstd::prelude::*;
use crate::types::ChaosMode;

verus! {

/// Every achievement the game awards.
#[derive(Clone, Copy, Debug, PartialEq, Eq, Structural)]
pub enum Achievement {
    Wave5Normal,
    Wave5Insane,
    Wave5Ridiculous,
    Wave5Insiculous,
    Score10k,
    Score30k,
    Sharpshooter,
    CloseCall,
    Untouchable,
    DoubleTap,
    LivingOnEdge,
}

/// The wave milestone of a chaos mode.
pub open spec fn spec_wave5_achievement(mode: ChaosMode) -> Achievement {
    match mode {
        ChaosMode::Normal => Achievement::Wave5Normal,
        ChaosMode::Insane => Achievement::Wave5Insane,
        ChaosMode::Ridiculous => Achievement::Wave5Ridiculous,
        ChaosMode::Insiculous => Achievement::Wave5Insiculous,
    }
}

/// The wave milestone of a chaos mode.
pub fn wave5_achievement(mode: ChaosMode) -> (a: Achievement)
    ensures
        a == spec_wave5_achievement(mode),
{
    match mode {
        ChaosMode::Normal => Achievement::Wave5Normal,
        ChaosMode::Insane => Achievement::Wave5Insane,
        ChaosMode::Ridiculous => Achievement::Wave5Ridiculous,
        ChaosMode::Insiculous => Achievement::Wave5Insiculous,
    }
}

/// The stable id under which an achievement is saved.
pub open spec fn spec_achievement_id(a: Achievement) -> Seq<char> {
    match a {
        Achievement::Wave5Normal => "wave5_normal"@,
        Achievement::Wave5Insane => "wave5_insane"@,
        Achievement::Wave5Ridiculous => "wave5_ridiculous"@,
        Achievement::Wave5Insiculous => "wave5_insiculous"@,
        Achievement::Score10k => "score_10k"@,
        Achievement::Score30k => "score_30k"@,
        Achievement::Sharpshooter => "sharpshooter"@,
        Achievement::CloseCall => "close_call"@,
        Achievement::Untouchable => "untouchable"@,
        Achievement::DoubleTap => "double_tap"@,
        Achievement::LivingOnEdge => "living_on_edge"@,
    }
}

/// The title shown for an achievement.
pub open spec fn spec_achievement_name(a: Achievement) -> Seq<char> {
    match a {
        Achievement::Wave5Normal => "Rock Steady"@,
        Achievement::Wave5Insane => "Belt at Full Speed"@,
        Achievement::Wave5Ridiculous => "Triple Trouble"@,
        Achievement::Wave5Insiculous => "Insiculous Belt Runner"@,
        Achievement::Score10k => "Ten Grand"@,
        Achievement::Score30k => "Asteroid Legend"@,
        Achievement::Sharpshooter => "Sharpshooter"@,
        Achievement::CloseCall => "Close Call"@,
        Achievement::Untouchable => "Untouchable"@,
        Achievement::DoubleTap => "Double Tap"@,
        Achievement::LivingOnEdge => "Living on the Edge"@,
    }
}

/// The one-line description shown for an achievement.
pub open spec fn spec_achievement_description(a: Achievement) -> Seq<char> {
    match a {
        Achievement::Wave5Normal => "Reach wave 5 in Normal mode."@,
        Achievement::Wave5Insane => "Reach wave 5 in Insane mode."@,
        Achievement::Wave5Ridiculous => "Reach wave 5 in Ridiculous mode."@,
        Achievement::Wave5Insiculous => "Reach wave 5 in Insiculous mode."@,
        Achievement::Score10k => "Score 10,000 points."@,
        Achievement::Score30k => "Score 30,000 points."@,
        Achievement::Sharpshooter => "Land 10 hits in a row without a shot expiring."@,
        Achievement::CloseCall => "Shatter a rock within 60 pixels of your ship."@,
        Achievement::Untouchable => "Clear 3 waves in a row without dying."@,
        Achievement::DoubleTap => "Shatter two rocks within half a second."@,
        Achievement::LivingOnEdge => "Reach wave 5 on your last ship."@,
    }
}

impl Achievement {
    /// The stable id under which this achievement is saved.
    pub fn id(self) -> (text: &'static str)
        ensures
            text@ == spec_achievement_id(self),
    {
        match self {
            Achievement::Wave5Normal => "wave5_normal",
            Achievement::Wave5Insane => "wave5_insane",
            Achievement::Wave5Ridiculous => "wave5_ridiculous",
            Achievement::Wave5Insiculous => "wave5_insiculous",
            Achievement::Score10k => "score_10k",
            Achievement::Score30k => "score_30k",
            Achievement::Sharpshooter => "sharpshooter",
            Achievement::CloseCall => "close_call",
            Achievement::Untouchable => "untouchable",
            Achievement::DoubleTap => "double_tap",
            Achievement::LivingOnEdge => "living_on_edge",
        }
    }

    /// The title shown for this achievement.
    pub fn name(self) -> (text: &'static str)
        ensures
            text@ == spec_achievement_name(self),
    {
        match self {
            Achievement::Wave5Normal => "Rock Steady",
            Achievement::Wave5Insane => "Belt at Full Speed",
            Achievement::Wave5Ridiculous => "Triple Trouble",
            Achievement::Wave5Insiculous => "Insiculous Belt Runner",
            Achievement::Score10k => "Ten Grand",
            Achievement::Score30k => "Asteroid Legend",
            Achievement::Sharpshooter => "Sharpshooter",
            Achievement::CloseCall => "Close Call",
            Achievement::Untouchable => "Untouchable",
            Achievement::DoubleTap => "Double Tap",
            Achievement::LivingOnEdge => "Living on the Edge",
        }
    }

    /// The one-line description shown for this achievement.
    pub fn description(self) -> (text: &'static str)
        ensures
            text@ == spec_achievement_description(self),
    {
        match self {
            Achievement::Wave5Normal => "Reach wave 5 in Normal mode.",
            Achievement::Wave5Insane => "Reach wave 5 in Insane mode.",
            Achievement::Wave5Ridiculous => "Reach wave 5 in Ridiculous mode.",
            Achievement::Wave5Insiculous => "Reach wave 5 in Insiculous mode.",
            Achievement::Score10k => "Score 10,000 points.",
            Achievement::Score30k => "Score 30,000 points.",
            Achievement::Sharpshooter => "Land 10 hits in a row without a shot expiring.",
            Achievement::CloseCall => "Shatter a rock within 60 pixels of your ship.",
            Achievement::Untouchable => "Clear 3 waves in a row without dying.",
            Achievement::DoubleTap => "Shatter two rocks within half a second.",
            Achievement::LivingOnEdge => "Reach wave 5 on your last ship.",
        }
    }
}

/// Every achievement, in registration order.
pub open spec fn catalog_order() -> Seq<Achievement> {
    seq![
        Achievement::Wave5Normal,
        Achievement::Wave5Insane,
        Achievement::Wave5Ridiculous,
        Achievement::Wave5Insiculous,
        Achievement::Score10k,
        Achievement::Score30k,
        Achievement::Sharpshooter,
        Achievement::CloseCall,
        Achievement::Untouchable,
        Achievement::DoubleTap,
        Achievement::LivingOnEdge,
    ]
}

/// Every achievement, in registration order: the eleven the game registers
/// once at start-up.
pub fn achievement_catalog() -> (all: Vec<Achievement>)
    ensures
        all@ == catalog_order(),
        all@.len() == 11,
{
    let all = vec![
        Achievement::Wave5Normal,
        Achievement::Wave5Insane,
        Achievement::Wave5Ridiculous,
        Achievement::Wave5Insiculous,
        Achievement::Score10k,
        Achievement::Score30k,
        Achievement::Sharpshooter,
        Achievement::CloseCall,
        Achievement::Untouchable,
        Achievement::DoubleTap,
        Achievement::LivingOnEdge,
    ];
    assert(all@ =~= catalog_order());
    all
}

/// The titles of the achievements page sections, in order.
pub open spec fn section_titles() -> Seq<Seq<char>> {
    seq!["Wave Milestones (wave 5 per mode)"@, "Score"@, "Skill"@]
}

/// The achievements listed under each section of the page, in order.
pub open spec fn section_members() -> Seq<Seq<Achievement>> {
    seq![
        seq![
            Achievement::Wave5Normal,
            Achievement::Wave5Insane,
            Achievement::Wave5Ridiculous,
            Achievement::Wave5Insiculous,
        ],
        seq![Achievement::Score10k, Achievement::Score30k],
        seq![
            Achievement::Sharpshooter,
            Achievement::CloseCall,
            Achievement::Untouchable,
            Achievement::DoubleTap,
            Achievement::LivingOnEdge,
        ],
    ]
}

/// Grouped display order for the achievements page: each section's header
/// and the achievements rendered under it.
pub fn display_sections() -> (sections: Vec<(&'static str, Vec<Achievement>)>)
    ensures
        sections@.len() == 3,
        forall|i: int|
            0 <= i < 3 ==> (#[trigger] sections@[i]).0@ == section_titles()[i] && sections@[i].1@
                == section_members()[i],
{
    let sections = vec![
        (
            "Wave Milestones (wave 5 per mode)",
            vec![
                Achievement::Wave5Normal,
                Achievement::Wave5Insane,
                Achievement::Wave5Ridiculous,
                Achievement::Wave5Insiculous,
            ],
        ),
        ("Score", vec![Achievement::Score10k, Achievement::Score30k]),
        (
            "Skill",
            vec![
                Achievement::Sharpshooter,
                Achievement::CloseCall,
                Achievement::Untouchable,
                Achievement::DoubleTap,
                Achievement::LivingOnEdge,
            ],
        ),
    ];
    assert(sections@[0].1@ =~= section_members()[0]);
    assert(sections@[1].1@ =~= section_members()[1]);
    assert(sections@[2].1@ =~= section_members()[2]);
    sections
}

/// The page lists every registered achievement exactly once: the sections,
/// read in order, are the registration order itself, and no achievement
/// appears twice in it.
pub proof fn display_sections_cover_catalog()
    ensures
        section_members()[0] + section_members()[1] + section_members()[2] == catalog_order(),
        forall|i: int, j: int|
            0 <= i < j < catalog_order().len() ==> catalog_order()[i] != catalog_order()[j],
        forall|a: Achievement| catalog_order().contains(a),
{
    assert(section_members()[0] + section_members()[1] + section_members()[2] =~= catalog_order());
    assert forall|a: Achievement| catalog_order().contains(a) by {
        match a {
            Achievement::Wave5Normal => assert(catalog_order()[0] == a),
            Achievement::Wave5Insane => assert(catalog_order()[1] == a),
            Achievement::Wave5Ridiculous => assert(catalog_order()[2] == a),
            Achievement::Wave5Insiculous => assert(catalog_order()[3] == a),
            Achievement::Score10k => assert(catalog_order()[4] == a),
            Achievement::Score30k => assert(catalog_order()[5] == a),
            Achievement::Sharpshooter => assert(catalog_order()[6] == a),
            Achievement::CloseCall => assert(catalog_order()[7] == a),
            Achievement::Untouchable => assert(catalog_order()[8] == a),
            Achievement::DoubleTap => assert(catalog_order()[9] == a),
            Achievement::LivingOnEdge => assert(catalog_order()[10] == a),
        }
    }
}

/// Ids are pairwise distinct, so registering the whole catalog registers
/// eleven different achievements and every id finds its own.
pub proof fn achievement_ids_distinct(a: Achievement, b: Achievement)
    ensures
        spec_achievement_id(a) == spec_achievement_id(b) ==> a == b,
{
    reveal_strlit("wave5_normal");
    reveal_strlit("wave5_insane");
    reveal_strlit("wave5_ridiculous");
    reveal_strlit("wave5_insiculous");
    reveal_strlit("score_10k");
    reveal_strlit("score_30k");
    reveal_strlit("sharpshooter");
    reveal_strlit("close_call");
    reveal_strlit("untouchable");
    reveal_strlit("double_tap");
    reveal_strlit("living_on_edge");
    if spec_achievement_id(a) == spec_achievement_id(b) && a != b {
        let (x, y) = (spec_achievement_id(a), spec_achievement_id(b));
        assert(x.len() == y.len());
        assert(x[0] == y[0]);
        assert(x[5] == y[5]);
        assert(x[6] == y[6]);
        assert(x[8] == y[8]);
    }
}

/// Every saved id belongs to exactly one achievement, the one it names:
/// the save records "score_10k" for Ten Grand and only for it, "score_30k"
/// for Asteroid Legend and only for it, and so on for all eleven; and the
/// wave milestone of each chaos mode is saved under that mode's id.
pub proof fn saved_ids_name_their_achievements(a: Achievement, mode: ChaosMode)
    ensures
        spec_achievement_id(a) == "wave5_normal"@ <==> a == Achievement::Wave5Normal,
        spec_achievement_id(a) == "wave5_insane"@ <==> a == Achievement::Wave5Insane,
        spec_achievement_id(a) == "wave5_ridiculous"@ <==> a == Achievement::Wave5Ridiculous,
        spec_achievement_id(a) == "wave5_insiculous"@ <==> a == Achievement::Wave5Insiculous,
        spec_achievement_id(a) == "score_10k"@ <==> a == Achievement::Score10k,
        spec_achievement_id(a) == "score_30k"@ <==> a == Achievement::Score30k,
        spec_achievement_id(a) == "sharpshooter"@ <==> a == Achievement::Sharpshooter,
        spec_achievement_id(a) == "close_call"@ <==> a == Achievement::CloseCall,
        spec_achievement_id(a) == "untouchable"@ <==> a == Achievement::Untouchable,
        spec_achievement_id(a) == "double_tap"@ <==> a == Achievement::DoubleTap,
        spec_achievement_id(a) == "living_on_edge"@ <==> a == Achievement::LivingOnEdge,
        spec_achievement_id(spec_wave5_achievement(mode)) == match mode {
            ChaosMode::Normal => "wave5_normal"@,
            ChaosMode::Insane => "wave5_insane"@,
            ChaosMode::Ridiculous => "wave5_ridiculous"@,
            ChaosMode::Insiculous => "wave5_insiculous"@,
        },
{
    achievement_ids_distinct(a, Achievement::Wave5Normal);
    achievement_ids_distinct(a, Achievement::Wave5Insane);
    achievement_ids_distinct(a, Achievement::Wave5Ridiculous);
    achievement_ids_distinct(a, Achievement::Wave5Insiculous);
    achievement_ids_distinct(a, Achievement::Score10k);
    achievement_ids_distinct(a, Achievement::Score30k);
    achievement_ids_distinct(a, Achievement::Sharpshooter);
    achievement_ids_distinct(a, Achievement::CloseCall);
    achievement_ids_distinct(a, Achievement::Untouchable);
    achievement_ids_distinct(a, Achievement::DoubleTap);
    achievement_ids_distinct(a, Achievement::LivingOnEdge);
}

/// The wave milestone id of a chaos mode.
pub fn wave5_id(mode: ChaosMode) -> (id: &'static str)
    ensures
        id@ == spec_achievement_id(spec_wave5_achievement(mode)),
{
    wave5_achievement(mode).id()
}

} // verus!
