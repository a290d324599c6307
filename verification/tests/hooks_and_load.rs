use bflib::hooks::{on_player_try_change_slot, on_player_try_connect, on_player_try_send_chat};
use bflib::kinds::Side;
use bflib::load::{cfg_file_name, next_load_step, LoadError, LoadNext, LoadOutcome, LoadStage};
use LoadOutcome::{Failed, NotFound, Succeeded};
use LoadStage::{Creating, Decoding, Opening, WritingDefault};

#[test]
fn every_player_may_connect() {
    assert!(on_player_try_connect("10.0.0.1:10308", "pilot", "abcdef", 3));
    assert!(on_player_try_connect("", "", "", 0));
}

#[test]
fn chat_passes_unchanged() {
    assert_eq!(on_player_try_send_chat(2, "hello all".to_string(), true), "hello all");
    assert_eq!(on_player_try_send_chat(2, String::new(), false), "");
}

#[test]
fn every_slot_change_is_allowed() {
    assert!(on_player_try_change_slot(4, Side::Red, "slot_1"));
    assert!(on_player_try_change_slot(4, Side::Neutral, ""));
}

#[test]
fn cfg_file_names() {
    assert_eq!(cfg_file_name(Some("mission_state")), "mission_state_CFG");
    assert_eq!(cfg_file_name(Some("")), "_CFG");
    assert_eq!(cfg_file_name(None), "CFG");
}

#[test]
fn load_steps() {
    assert_eq!(next_load_step(Opening, Succeeded), LoadNext::Step(Decoding));
    assert_eq!(next_load_step(Opening, NotFound), LoadNext::Step(Creating));
    assert_eq!(next_load_step(Opening, Failed), LoadNext::Fail(LoadError::OpeningConfig));
    assert_eq!(next_load_step(Creating, Succeeded), LoadNext::Step(WritingDefault));
    assert_eq!(next_load_step(Creating, NotFound), LoadNext::Fail(LoadError::CreatingCfg));
    assert_eq!(next_load_step(Creating, Failed), LoadNext::Fail(LoadError::CreatingCfg));
    assert_eq!(next_load_step(WritingDefault, Succeeded), LoadNext::Step(Opening));
    assert_eq!(next_load_step(WritingDefault, Failed), LoadNext::Fail(LoadError::WritingDefaultCfg));
    assert_eq!(next_load_step(Decoding, Succeeded), LoadNext::Done);
    assert_eq!(next_load_step(Decoding, Failed), LoadNext::Fail(LoadError::CfgDecode));
}

#[test]
fn missing_config_is_written_then_opened() {
    let mut stage = LoadStage::Opening;
    let outcomes = [LoadOutcome::NotFound, LoadOutcome::Succeeded, LoadOutcome::Succeeded, LoadOutcome::Succeeded];
    let mut seen = vec![];
    for o in outcomes {
        seen.push(stage);
        match next_load_step(stage, o) {
            LoadNext::Step(s) => stage = s,
            other => panic!("stopped early: {:?}", other),
        }
    }
    assert_eq!(seen, vec![LoadStage::Opening, LoadStage::Creating, LoadStage::WritingDefault, LoadStage::Opening]);
    assert_eq!(stage, LoadStage::Decoding);
    assert_eq!(next_load_step(stage, LoadOutcome::Succeeded), LoadNext::Done);
}

#[test]
fn load_error_messages() {
    assert_eq!(LoadError::CreatingCfg.message(), "creating cfg");
    assert_eq!(LoadError::WritingDefaultCfg.message(), "writing default cfg");
    assert_eq!(LoadError::OpeningConfig.message(), "opening config");
    assert_eq!(LoadError::CfgDecode.message(), "cfg decode error");
}
