//! What holds of a backend from its start to its end, as its users see it.

use crate::backend::{AddListener, BreezBackend};
use crate::payment::SettingsResponse;
use crate::sdk::{ConnectRequest, GetInfoRequest};
use crate::shutdown::{AwaitDisconnection, AwaitRemoval, DisconnectStep};
use crate::startup::{AwaitConnection, AwaitDatabase, AwaitInfo, BackendConfig, StartError};
use vstd::prelude::*;

verus! {

/// A backend needs a key and a mnemonic, and says which it lacks, the key first. With both it
/// connects to the main network with that key, that seed and that directory.
pub proof fn law_start_needs_key_and_mnemonic<D>(
    config: BackendConfig,
    result: Result<(ConnectRequest, AwaitConnection), StartError<D>>,
)
    requires
        call_ensures(BreezBackend::new::<D>, (config,), result),
    ensures
        result is Err <==> config.api_key@ == Seq::<char>::empty() || config.mnemonic@ == Seq::<
            char,
        >::empty(),
        result matches Err(error) ==> (error matches StartError::Message(text) && text@ == (
        if config.api_key@.len() == 0 {
            "Breez API key is required"@
        } else {
            "Mnemonic seed is required"@
        })),
        result matches Ok((request, state)) ==> {
            &&& request.config.api_key matches Some(key)
            &&& key@ == config.api_key@
            &&& request.config.network is Mainnet
            &&& request.config.sync_interval_secs == 600
            &&& request.config.lnurl_domain is None
            &&& request.config.prefer_spark_over_lightning
            &&& request.config.use_default_external_input_parsers
            &&& request.config.real_time_sync_server_url is None
            &&& !request.config.private_enabled_default
            &&& request.config.optimization_config.auto_enabled
            &&& request.config.optimization_config.multiplicity == 5
            &&& request.config.max_concurrent_claims == 5
            &&& !request.config.support_lnurl_verify
            &&& request.seed->mnemonic@ == config.mnemonic@
            &&& request.seed->passphrase == config.passphrase
            &&& request.storage_dir@ == config.storage_dir@
            &&& state.db_path@ == config.db_path@
        },
{
    assert(config.api_key@.len() == 0 ==> config.api_key@ =~= Seq::<char>::empty());
    assert(config.mnemonic@.len() == 0 ==> config.mnemonic@ =~= Seq::<char>::empty());
}

/// A connected backend starts whatever is known of the wallet. It keeps the connection and the
/// database that it was given, opens the database where the configuration says, and begins with
/// nobody waiting on it and no listener to remove.
pub proof fn law_start_ends_in_an_idle_backend<S, I, F, T, D>(
    config: BackendConfig,
    request: ConnectRequest,
    connecting: AwaitConnection,
    sdk: S,
    connected: Result<(S, GetInfoRequest, AwaitInfo), StartError<D>>,
    info: Result<I, F>,
    opening: AwaitDatabase,
    database: T,
    result: Result<(T, BreezBackend), StartError<D>>,
    active: bool,
    backend: &mut BreezBackend,
    step: DisconnectStep,
)
    requires
        call_ensures(BreezBackend::new::<D>, (config,), Ok((request, connecting))),
        call_ensures(AwaitConnection::resume::<S, D>, (connecting, Ok(sdk)), connected),
        connected matches Ok((_, _, state)) ==> call_ensures(
            AwaitInfo::resume::<I, F>,
            (state, info),
            opening,
        ),
        call_ensures(AwaitDatabase::resume::<T, D>, (opening, Ok(database)), result),
        result matches Ok((_, started)) ==> {
            &&& call_ensures(BreezBackend::is_wait_invoice_active, (&started,), active)
            &&& *old(backend) == started
        },
        call_ensures(BreezBackend::disconnect, (backend,), step),
    ensures
        connected is Ok,
        connected->Ok_0.0 == sdk,
        connected->Ok_0.1.ensure_synced is None,
        opening.db_path@ == config.db_path@,
        result is Ok,
        result->Ok_0.0 == database,
        !active,
        step is Disconnect,
{
}

/// A connection that failed or a database that could not be opened ends the start: the failure of
/// the SDK with its text behind what was tried, that of the database as it is.
pub proof fn law_start_failures_are_told<S, T, D>(
    connecting: AwaitConnection,
    failure: String,
    connected: Result<(S, GetInfoRequest, AwaitInfo), StartError<D>>,
    opening: AwaitDatabase,
    error: D,
    result: Result<(T, BreezBackend), StartError<D>>,
)
    requires
        call_ensures(AwaitConnection::resume::<S, D>, (connecting, Err(failure)), connected),
        call_ensures(AwaitDatabase::resume::<T, D>, (opening, Err(error)), result),
    ensures
        connected matches Err(StartError::Message(text)) && text@
            == "Breez SDK connection failed: "@ + failure@,
        result matches Err(StartError::Database(told)) && told == error,
{
}

/// The backend counts in sats, and can split BOLT11 payments; it needs an amount and takes no
/// description. It knows nothing else.
pub proof fn law_settings(backend: BreezBackend, settings: SettingsResponse)
    requires
        call_ensures(BreezBackend::get_settings, (&backend,), settings),
    ensures
        settings.unit@ == "sat"@,
        settings.bolt11 is Some,
        settings.bolt11->Some_0.mpp,
        !settings.bolt11->Some_0.amountless,
        !settings.bolt11->Some_0.invoice_description,
        settings.bolt12 is None,
        forall|method: String| !settings.custom@.contains_key(method),
{
}

/// The mint counts as waiting once it starts to wait, with room for a hundred events, and no
/// longer once it cancels.
pub proof fn law_waiting_is_seen(
    backend: &mut BreezBackend,
    request: AddListener,
    waiting: bool,
    other: &mut BreezBackend,
    cancelled: bool,
)
    requires
        call_ensures(BreezBackend::wait_payment_event, (backend,), request),
        call_ensures(BreezBackend::is_wait_invoice_active, (final(backend),), waiting),
        call_ensures(BreezBackend::cancel_wait_invoice, (other,), ()),
        call_ensures(BreezBackend::is_wait_invoice_active, (final(other),), cancelled),
    ensures
        waiting,
        request.channel_capacity == 100,
        !cancelled,
{
}

/// The listeners that a step leaves to be removed, in order.
pub open spec fn left(step: DisconnectStep) -> Seq<Seq<char>> {
    match step {
        DisconnectStep::RemoveListener(state) => Seq::new(
            state.remaining@.len() + 1,
            |i: int|
                if i == 0 {
                    state.listener_id@
                } else {
                    state.remaining@[i - 1]@
                },
        ),
        DisconnectStep::Disconnect(_) => Seq::empty(),
    }
}

/// A listener that is added is removed on disconnect, once, behind all that were there before; it
/// makes no difference to whether the mint is waiting.
pub proof fn law_added_listener_is_removed_last(
    backend: &mut BreezBackend,
    listener_id: String,
    before: &mut BreezBackend,
    without: DisconnectStep,
    after: &mut BreezBackend,
    with: DisconnectStep,
    was_active: bool,
    is_active: bool,
)
    requires
        call_ensures(BreezBackend::listener_added, (backend, listener_id), ()),
        *old(before) == *old(backend),
        call_ensures(BreezBackend::disconnect, (before,), without),
        *old(after) == *final(backend),
        call_ensures(BreezBackend::disconnect, (after,), with),
        call_ensures(BreezBackend::is_wait_invoice_active, (old(backend),), was_active),
        call_ensures(BreezBackend::is_wait_invoice_active, (final(backend),), is_active),
    ensures
        left(with) == left(without).push(listener_id@),
        is_active == was_active,
{
    assert(left(without) =~= without.removals());
    assert(left(with) =~= with.removals());
}

/// Waiting and cancelling make no difference to the listeners that a disconnect removes.
pub proof fn law_waiting_keeps_listeners(
    backend: &mut BreezBackend,
    request: AddListener,
    other: &mut BreezBackend,
    before: &mut BreezBackend,
    first: DisconnectStep,
    waiting: &mut BreezBackend,
    second: DisconnectStep,
    cancelled: &mut BreezBackend,
    third: DisconnectStep,
)
    requires
        call_ensures(BreezBackend::wait_payment_event, (backend,), request),
        *old(other) == *old(backend),
        call_ensures(BreezBackend::cancel_wait_invoice, (other,), ()),
        *old(before) == *old(backend),
        call_ensures(BreezBackend::disconnect, (before,), first),
        *old(waiting) == *final(backend),
        call_ensures(BreezBackend::disconnect, (waiting,), second),
        *old(cancelled) == *final(other),
        call_ensures(BreezBackend::disconnect, (cancelled,), third),
    ensures
        left(second) == left(first),
        left(third) == left(first),
{
    assert(left(first) =~= first.removals());
    assert(left(second) =~= second.removals());
    assert(left(third) =~= third.removals());
}

/// Disconnecting takes the listeners along: to disconnect once more removes none. It makes no
/// difference to whether the mint is waiting.
pub proof fn law_disconnect_forgets_listeners(
    backend: &mut BreezBackend,
    first: DisconnectStep,
    again: &mut BreezBackend,
    second: DisconnectStep,
    was_active: bool,
    is_active: bool,
)
    requires
        call_ensures(BreezBackend::disconnect, (backend,), first),
        *old(again) == *final(backend),
        call_ensures(BreezBackend::disconnect, (again,), second),
        call_ensures(BreezBackend::is_wait_invoice_active, (old(backend),), was_active),
        call_ensures(BreezBackend::is_wait_invoice_active, (final(backend),), is_active),
    ensures
        second is Disconnect,
        is_active == was_active,
{
}

/// Whether a listener could be removed or not, the next step is about those behind it, in the
/// same order, and the SDK is left when there is none.
pub proof fn law_removal_goes_on(state: AwaitRemoval, removed: bool, step: DisconnectStep)
    requires
        call_ensures(AwaitRemoval::resume, (state, removed), step),
    ensures
        left(step).len() == state.remaining@.len(),
        forall|i: int|
            0 <= i < state.remaining@.len() ==> #[trigger] left(step)[i] == state.remaining@[i]@,
        step is Disconnect <==> state.remaining@.len() == 0,
{
    assert(left(step) =~= step.removals());
    let rest = DisconnectStep::RemoveListener(state).removals().drop_first();
    assert(rest.len() == state.remaining@.len());
    assert forall|i: int| 0 <= i < state.remaining@.len() implies #[trigger] left(step)[i]
        == state.remaining@[i]@ by {
        assert(rest[i] == state.remaining@[i]@);
    }
}

/// Leaving the SDK succeeds just when the SDK says so; a failure is told with its text behind what
/// was tried.
pub proof fn law_disconnection_is_told(
    state: AwaitDisconnection,
    reply: Result<(), String>,
    result: Result<(), String>,
)
    requires
        call_ensures(AwaitDisconnection::resume, (state, reply), result),
    ensures
        result is Ok <==> reply is Ok,
        reply matches Err(failure) ==> (result matches Err(text) && text@
            == "Failed to disconnect from Breez SDK: "@ + failure@),
{
}

} // verus!
