use pumpkin_wasm_host::bridge::{GameMode, WitGameMode};
use pumpkin_wasm_host::command_args::{
    CommandArgValue, ConsumedArgs, IntNumber, NotInBounds, SoundCategory, WitArgValue, WitNotInBounds,
    WitNumber, WitSoundCategory, arg_for_key,
};

fn provider() -> ConsumedArgs {
    let mut args = ConsumedArgs::new();
    args.insert("target".to_string(), CommandArgValue::Simple("Alex".to_string()));
    args.insert("mode".to_string(), CommandArgValue::GameMode(GameMode::Creative));
    args.insert("sound".to_string(), CommandArgValue::SoundCategory(SoundCategory::Ui));
    args.insert("who".to_string(), CommandArgValue::Entities);
    args.insert("at".to_string(), CommandArgValue::BlockPos(1, -2, 3));
    args.insert("count".to_string(), CommandArgValue::Num(Ok(IntNumber::I32(7))));
    args.insert(
        "big".to_string(),
        CommandArgValue::Num(Err(NotInBounds::UpperBound(IntNumber::I64(99), IntNumber::I64(64)))),
    );
    args.insert("target".to_string(), CommandArgValue::Simple("Steve".to_string()));
    args
}

#[test]
fn arguments_reach_plugins_as_plain_values() {
    let p = provider();
    assert!(matches!(arg_for_key(&p, "target"), WitArgValue::Simple(s) if s == "Steve"));
    assert!(matches!(arg_for_key(&p, "mode"), WitArgValue::Gamemode(WitGameMode::Creative)));
    assert!(matches!(arg_for_key(&p, "sound"), WitArgValue::SoundCategory(WitSoundCategory::Master)));
    assert!(matches!(arg_for_key(&p, "at"), WitArgValue::BlockPos(1, -2, 3)));
    assert!(matches!(arg_for_key(&p, "count"), WitArgValue::Num(Ok(WitNumber::Int32(7)))));
    assert!(matches!(
        arg_for_key(&p, "big"),
        WitArgValue::Num(Err(WitNotInBounds::UpperBound(WitNumber::Int64(99), WitNumber::Int64(64))))
    ));
}

#[test]
fn missing_and_unmapped_arguments_are_empty_strings() {
    let p = provider();
    assert!(matches!(arg_for_key(&p, "nothing"), WitArgValue::Simple(s) if s.is_empty()));
    assert!(matches!(arg_for_key(&p, "who"), WitArgValue::Simple(s) if s.is_empty()));
    assert!(matches!(arg_for_key(&ConsumedArgs::new(), "target"), WitArgValue::Simple(s) if s.is_empty()));
}
