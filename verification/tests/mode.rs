use mining_cli::address::Address;
use mining_cli::mode::{
    interactive, mode_loop, run, select_mode, ConfigChoice, LoopEvent, LoopPhase, RunMode,
    RunPlan, StartupError,
};

fn all_modes() -> Vec<RunMode> {
    vec![RunMode::Mining, RunMode::Claim, RunMode::Exit, RunMode::Export, RunMode::CheckUpdate]
}

#[test]
fn menu_has_four_entries() {
    assert_eq!(select_mode(0), Some(RunMode::Mining));
    assert_eq!(select_mode(1), Some(RunMode::Claim));
    assert_eq!(select_mode(2), Some(RunMode::Exit));
    assert_eq!(select_mode(3), Some(RunMode::Export));
    assert_eq!(select_mode(4), None);
    assert_eq!(select_mode(usize::MAX), None);
}

#[test]
fn settings_menu() {
    assert_eq!(interactive(true, 0), Some(ConfigChoice::Continue));
    assert_eq!(interactive(true, 1), Some(ConfigChoice::Overwrite));
    assert_eq!(interactive(true, 2), Some(ConfigChoice::Modify));
    assert_eq!(interactive(true, 3), None);
    assert_eq!(interactive(false, 0), Some(ConfigChoice::Create));
    assert_eq!(interactive(false, 7), Some(ConfigChoice::Create));
}

#[test]
fn run_with_a_mode_is_not_interactive() {
    let address = Address::new([7u8; 20]);
    for mode in all_modes() {
        assert_eq!(
            run(Some(mode), &address, &address),
            Ok(RunPlan { is_interactive: false, phase: LoopPhase::Acting(mode) })
        );
    }
    assert_eq!(
        run(None, &address, &address),
        Ok(RunPlan { is_interactive: true, phase: LoopPhase::Selecting })
    );
}

#[test]
fn run_rejects_a_foreign_withdrawal_address() {
    let configured = Address::new([7u8; 20]);
    let derived = Address::new([8u8; 20]);
    assert_eq!(run(Some(RunMode::Mining), &configured, &derived), Err(StartupError::AddressMismatch));
    assert_eq!(run(None, &configured, &derived), Err(StartupError::AddressMismatch));
}

#[test]
fn non_interactive_loop_ends_after_one_action() {
    for mode in all_modes() {
        let phase = mode_loop(LoopPhase::Acting(mode), LoopEvent::ActionDone, false);
        assert_eq!(phase, LoopPhase::Finished);
        assert_eq!(mode_loop(phase, LoopEvent::ModeChosen(RunMode::Claim), false), LoopPhase::Finished);
        assert_eq!(mode_loop(phase, LoopEvent::KeyPressed, false), LoopPhase::Finished);
    }
}

#[test]
fn interactive_loop_asks_again() {
    assert_eq!(
        mode_loop(LoopPhase::Acting(RunMode::Mining), LoopEvent::ActionDone, true),
        LoopPhase::Selecting
    );
    for mode in [RunMode::Claim, RunMode::Exit, RunMode::Export, RunMode::CheckUpdate] {
        assert_eq!(mode_loop(LoopPhase::Acting(mode), LoopEvent::ActionDone, true), LoopPhase::Pausing);
    }
    assert_eq!(mode_loop(LoopPhase::Pausing, LoopEvent::KeyPressed, true), LoopPhase::Selecting);
    assert_eq!(
        mode_loop(LoopPhase::Selecting, LoopEvent::ModeChosen(RunMode::Exit), true),
        LoopPhase::Acting(RunMode::Exit)
    );
}

#[test]
fn failures_end_the_loop() {
    for mode in all_modes() {
        assert_eq!(mode_loop(LoopPhase::Acting(mode), LoopEvent::ActionFailed, true), LoopPhase::Failed);
        assert_eq!(mode_loop(LoopPhase::Acting(mode), LoopEvent::ActionFailed, false), LoopPhase::Failed);
    }
    assert_eq!(mode_loop(LoopPhase::Selecting, LoopEvent::SelectionFailed, true), LoopPhase::Failed);
    assert_eq!(mode_loop(LoopPhase::Failed, LoopEvent::ActionDone, true), LoopPhase::Failed);
    assert_eq!(mode_loop(LoopPhase::Failed, LoopEvent::ModeChosen(RunMode::Mining), true), LoopPhase::Failed);
}

#[test]
fn events_out_of_turn_change_nothing() {
    assert_eq!(
        mode_loop(LoopPhase::Acting(RunMode::Claim), LoopEvent::KeyPressed, true),
        LoopPhase::Acting(RunMode::Claim)
    );
    assert_eq!(mode_loop(LoopPhase::Pausing, LoopEvent::ActionDone, true), LoopPhase::Pausing);
    assert_eq!(mode_loop(LoopPhase::Selecting, LoopEvent::KeyPressed, true), LoopPhase::Selecting);
}

#[test]
fn status_is_shown_for_modes_that_touch_accounts() {
    assert!(RunMode::Mining.shows_accounts_status());
    assert!(RunMode::Claim.shows_accounts_status());
    assert!(RunMode::Exit.shows_accounts_status());
    assert!(!RunMode::Export.shows_accounts_status());
    assert!(!RunMode::CheckUpdate.shows_accounts_status());
}

#[test]
fn only_mining_goes_on_without_a_pause() {
    assert!(!RunMode::Mining.pauses_after());
    for mode in [RunMode::Claim, RunMode::Exit, RunMode::Export, RunMode::CheckUpdate] {
        assert!(mode.pauses_after());
    }
}
