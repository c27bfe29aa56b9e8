use asteroids::achievements::{achievement_catalog, display_sections, wave5_id, Achievement};
use asteroids::types::ChaosMode;
use std::collections::HashSet;

const WAVE5_NORMAL: &str = "wave5_normal";
const WAVE5_INSANE: &str = "wave5_insane";
const WAVE5_RIDICULOUS: &str = "wave5_ridiculous";
const WAVE5_INSICULOUS: &str = "wave5_insiculous";
const SCORE_10K: &str = "score_10k";
const SCORE_30K: &str = "score_30k";
const SHARPSHOOTER: &str = "sharpshooter";
const CLOSE_CALL: &str = "close_call";
const UNTOUCHABLE: &str = "untouchable";
const DOUBLE_TAP: &str = "double_tap";
const LIVING_ON_EDGE: &str = "living_on_edge";

fn registered_ids() -> Vec<&'static str> {
    achievement_catalog().iter().map(|a| a.id()).collect()
}

#[test]
fn register_all_adds_eleven() {
    let ids: HashSet<&str> = registered_ids().into_iter().collect();
    assert_eq!(ids.len(), 11);
    assert_eq!(achievement_catalog().len(), 11);
}

#[test]
fn wave5_id_maps_each_mode() {
    assert_eq!(wave5_id(ChaosMode::Normal), WAVE5_NORMAL);
    assert_eq!(wave5_id(ChaosMode::Insane), WAVE5_INSANE);
    assert_eq!(wave5_id(ChaosMode::Ridiculous), WAVE5_RIDICULOUS);
    assert_eq!(wave5_id(ChaosMode::Insiculous), WAVE5_INSICULOUS);
}

#[test]
fn display_sections_cover_every_registered_achievement() {
    let shown: HashSet<&str> = display_sections()
        .iter()
        .flat_map(|(_, ids)| ids.iter().map(|a| a.id()))
        .collect();
    for id in registered_ids() {
        assert!(shown.contains(id), "{} registered but not in DISPLAY_SECTIONS", id);
    }
    assert_eq!(shown.len(), registered_ids().len(), "DISPLAY_SECTIONS has duplicates or extras");
}

#[test]
fn every_id_is_registered() {
    let registered = registered_ids();
    for id in [
        WAVE5_NORMAL, WAVE5_INSANE, WAVE5_RIDICULOUS, WAVE5_INSICULOUS,
        SCORE_10K, SCORE_30K,
        SHARPSHOOTER, CLOSE_CALL, UNTOUCHABLE, DOUBLE_TAP, LIVING_ON_EDGE,
    ] {
        assert!(registered.contains(&id), "{} not registered", id);
    }
}

#[test]
fn display_sections_have_their_headers_in_order() {
    let sections = display_sections();
    let titles: Vec<&str> = sections.iter().map(|(t, _)| *t).collect();
    assert_eq!(titles, vec!["Wave Milestones (wave 5 per mode)", "Score", "Skill"]);
    assert_eq!(sections[1].1, vec![Achievement::Score10k, Achievement::Score30k]);
    assert_eq!(sections[2].1.len(), 5);
}

#[test]
fn achievement_names_and_descriptions() {
    assert_eq!(Achievement::Wave5Normal.name(), "Rock Steady");
    assert_eq!(Achievement::Score30k.name(), "Asteroid Legend");
    assert_eq!(Achievement::Sharpshooter.description(), "Land 10 hits in a row without a shot expiring.");
    assert_eq!(Achievement::LivingOnEdge.name(), "Living on the Edge");
    assert_eq!(Achievement::CloseCall.description(), "Shatter a rock within 60 pixels of your ship.");
}
