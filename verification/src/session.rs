//! The adapter session's initialization sequence, as a state machine.
//!
//! Initialization opens a control-plane session, selects an adapter (a
//! primary well-known identifier, then one alternate), makes it powered,
//! discoverable and pairable, sets the host alias, and ends in one full
//! registry refresh.  Every step is a suspending outside call, so a driver
//! performs the calls and feeds each outcome back; the machine decides what
//! comes next.  Any failing step aborts the sequence with its error — there
//! is no partial-success state, and no failed terminal state beyond the
//! recorded error: the session is simply uninitialized again.

use vstd::prelude::*;

use crate::errors::BtError;

verus! {

/// Where the initialization sequence stands.  Each non-terminal stage names
/// the outside call whose outcome the machine waits for.
#[derive(Clone, Copy, Debug, PartialEq, Eq, Structural)]
pub enum InitStage {
    OpeningSession,
    SelectingPrimaryAdapter,
    SelectingAlternateAdapter,
    SettingPowered,
    SettingDiscoverable,
    SettingPairable,
    SettingAlias,
    RefreshingRegistry,
    Ready,
    Failed(BtError),
}

/// The successor of a stage once its outside call succeeded or failed: the
/// primary adapter falls back to the alternate, the alternate's failure
/// means no adapter at all, and every other failure surfaces the underlying
/// call error.  The two terminal stages absorb.
pub open spec fn init_next(stage: InitStage, ok: bool) -> InitStage {
    match stage {
        InitStage::OpeningSession => if ok {
            InitStage::SelectingPrimaryAdapter
        } else {
            InitStage::Failed(BtError::ExternalCallFailure)
        },
        InitStage::SelectingPrimaryAdapter => if ok {
            InitStage::SettingPowered
        } else {
            InitStage::SelectingAlternateAdapter
        },
        InitStage::SelectingAlternateAdapter => if ok {
            InitStage::SettingPowered
        } else {
            InitStage::Failed(BtError::NoAdapterFound)
        },
        InitStage::SettingPowered => if ok {
            InitStage::SettingDiscoverable
        } else {
            InitStage::Failed(BtError::ExternalCallFailure)
        },
        InitStage::SettingDiscoverable => if ok {
            InitStage::SettingPairable
        } else {
            InitStage::Failed(BtError::ExternalCallFailure)
        },
        InitStage::SettingPairable => if ok {
            InitStage::SettingAlias
        } else {
            InitStage::Failed(BtError::ExternalCallFailure)
        },
        InitStage::SettingAlias => if ok {
            InitStage::RefreshingRegistry
        } else {
            InitStage::Failed(BtError::ExternalCallFailure)
        },
        InitStage::RefreshingRegistry => if ok {
            InitStage::Ready
        } else {
            InitStage::Failed(BtError::ExternalCallFailure)
        },
        InitStage::Ready => InitStage::Ready,
        InitStage::Failed(e) => InitStage::Failed(e),
    }
}

/// Advances the initialization machine by one reported outcome.
pub fn init_advance(stage: InitStage, ok: bool) -> (r: InitStage)
    ensures
        r == init_next(stage, ok),
{
    match stage {
        InitStage::OpeningSession => if ok {
            InitStage::SelectingPrimaryAdapter
        } else {
            InitStage::Failed(BtError::ExternalCallFailure)
        },
        InitStage::SelectingPrimaryAdapter => if ok {
            InitStage::SettingPowered
        } else {
            InitStage::SelectingAlternateAdapter
        },
        InitStage::SelectingAlternateAdapter => if ok {
            InitStage::SettingPowered
        } else {
            InitStage::Failed(BtError::NoAdapterFound)
        },
        InitStage::SettingPowered => if ok {
            InitStage::SettingDiscoverable
        } else {
            InitStage::Failed(BtError::ExternalCallFailure)
        },
        InitStage::SettingDiscoverable => if ok {
            InitStage::SettingPairable
        } else {
            InitStage::Failed(BtError::ExternalCallFailure)
        },
        InitStage::SettingPairable => if ok {
            InitStage::SettingAlias
        } else {
            InitStage::Failed(BtError::ExternalCallFailure)
        },
        InitStage::SettingAlias => if ok {
            InitStage::RefreshingRegistry
        } else {
            InitStage::Failed(BtError::ExternalCallFailure)
        },
        InitStage::RefreshingRegistry => if ok {
            InitStage::Ready
        } else {
            InitStage::Failed(BtError::ExternalCallFailure)
        },
        InitStage::Ready => InitStage::Ready,
        InitStage::Failed(e) => InitStage::Failed(e),
    }
}

/// The primary well-known adapter identifier tried first.
pub fn primary_adapter_id() -> (r: String)
    ensures
        r@ == "hci0"@,
{
    String::from_str("hci0")
}

/// The alternate adapter identifier tried when the primary does not answer.
pub fn alternate_adapter_id() -> (r: String)
    ensures
        r@ == "hci1"@,
{
    String::from_str("hci1")
}

/// The fixed human-readable alias this host sets on the adapter.
pub fn adapter_alias() -> (r: String)
    ensures
        r@ == "rx7 fc"@,
{
    String::from_str("rx7 fc")
}

} // verus!
