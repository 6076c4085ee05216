use bluecore::errors::BtError;
use bluecore::session::adapter_alias;
use bluecore::session::alternate_adapter_id;
use bluecore::session::init_advance;
use bluecore::session::primary_adapter_id;
use bluecore::session::InitStage;

fn run(outcomes: &[bool]) -> InitStage {
    let mut stage = InitStage::OpeningSession;
    for &ok in outcomes {
        stage = init_advance(stage, ok);
    }
    stage
}

#[test]
fn happy_path_reaches_ready() {
    assert_eq!(
        run(&[true, true, true, true, true, true, true]),
        InitStage::Ready
    );
}

#[test]
fn primary_adapter_failure_falls_back_to_alternate() {
    let stage = run(&[true, false]);
    assert_eq!(stage, InitStage::SelectingAlternateAdapter);
    assert_eq!(init_advance(stage, true), InitStage::SettingPowered);
}

#[test]
fn both_adapters_failing_means_no_adapter() {
    assert_eq!(
        run(&[true, false, false]),
        InitStage::Failed(BtError::NoAdapterFound)
    );
}

#[test]
fn any_configuration_failure_aborts_with_call_error() {
    // Power-on fails.
    assert_eq!(
        run(&[true, true, false]),
        InitStage::Failed(BtError::ExternalCallFailure)
    );
    // Alias fails after power, discoverable and pairable succeeded: no
    // partial-success state is retained.
    assert_eq!(
        run(&[true, true, true, true, true, false]),
        InitStage::Failed(BtError::ExternalCallFailure)
    );
    // The closing refresh fails.
    assert_eq!(
        run(&[true, true, true, true, true, true, false]),
        InitStage::Failed(BtError::ExternalCallFailure)
    );
}

#[test]
fn terminal_stages_absorb() {
    assert_eq!(init_advance(InitStage::Ready, false), InitStage::Ready);
    let failed = InitStage::Failed(BtError::NoAdapterFound);
    assert_eq!(init_advance(failed, true), failed);
}

#[test]
fn session_constants() {
    assert_eq!(primary_adapter_id(), "hci0");
    assert_eq!(alternate_adapter_id(), "hci1");
    assert_eq!(adapter_alias(), "rx7 fc");
}
