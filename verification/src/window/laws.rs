//! What holds of the class registry and of the request flags, whatever the
//! order of events.

use vstd::prelude::*;

use crate::window::class::RegistryState;
use crate::window::inner::WindowInnerState;
use crate::window::lifecycle::WM_CLOSE;

verus! {

/// The registry after `n` more shares of the live registration `name` have
/// been handed out.
pub open spec fn shared_times(registry: RegistryState, name: Seq<u16>, n: nat) -> RegistryState
    decreases n,
{
    if n == 0 {
        registry
    } else {
        shared_times(registry, name, (n - 1) as nat).shared(name)
    }
}

/// The registry after `n` shares of `name` have come back, as far as there
/// were shares to come back.
pub open spec fn released_times(registry: RegistryState, name: Seq<u16>, n: nat) -> RegistryState
    decreases n,
{
    if n == 0 {
        registry
    } else {
        let before = released_times(registry, name, (n - 1) as nat);
        if before.is_live(name) {
            before.released(name)
        } else {
            before
        }
    }
}

/// Sharing a live registration keeps it the same registration.
pub proof fn lemma_shared_times(registry: RegistryState, name: Seq<u16>, n: nat)
    requires
        registry.wf(),
        registry.is_live(name),
    ensures
        shared_times(registry, name, n).wf(),
        shared_times(registry, name, n).is_live(name),
        shared_times(registry, name, n).registrations == registry.registrations,
        shared_times(registry, name, n).live[name].serial == registry.live[name].serial,
        shared_times(registry, name, n).strong(name) == registry.strong(name) + n,
    decreases n,
{
    if n > 0 {
        lemma_shared_times(registry, name, (n - 1) as nat);
    }
}

/// A registration stays live, and stays the same registration, until its
/// last share has come back.
pub proof fn lemma_released_times(registry: RegistryState, name: Seq<u16>, n: nat)
    requires
        registry.wf(),
        registry.is_live(name),
    ensures
        released_times(registry, name, n).wf(),
        released_times(registry, name, n).registrations == registry.registrations,
        n < registry.strong(name) ==> {
            &&& released_times(registry, name, n).is_live(name)
            &&& released_times(registry, name, n).live[name].serial == registry.live[name].serial
            &&& released_times(registry, name, n).strong(name) == registry.strong(name) - n
        },
        n >= registry.strong(name) ==> !released_times(registry, name, n).is_live(name),
    decreases n,
{
    if n > 0 {
        lemma_released_times(registry, name, (n - 1) as nat);
    }
}

/// Requests for one class name share one registration, and the class is
/// registered again only after every share has come back.
///
/// Take a registry in which `name` is not live and register `name`. However
/// many further shares are handed out and however many come back, no
/// second native registration has been performed. While fewer shares have
/// come back than were handed out, the registration is live, it is the one
/// performed at first, and a request for `name` is answered with a share of
/// it. Once all of them are back the name is not live any more, which is the
/// only state in which a request orders a registration.
pub proof fn lemma_class_dedup(registry: RegistryState, name: Seq<u16>, shares: nat, releases: nat)
    requires
        registry.wf(),
        !registry.is_live(name),
    ensures
        ({
            let first = registry.registered(name);
            let held = released_times(shared_times(first, name, shares), name, releases);
            &&& held.wf()
            &&& held.registrations == registry.registrations + 1
            &&& first.live[name].serial == registry.registrations
            &&& releases <= shares ==> {
                &&& held.is_live(name)
                &&& held.live[name].serial == first.live[name].serial
                &&& held.strong(name) == 1 + shares - releases
            }
            &&& releases > shares ==> !held.is_live(name)
        }),
{
    let first = registry.registered(name);
    assert(first.wf());
    lemma_shared_times(first, name, shares);
    lemma_released_times(shared_times(first, name, shares), name, releases);
}

/// A close request is handed out exactly once.
///
/// After a close message the next poll of the close request answers `true`,
/// and the poll after that answers `false`. A message other than the close
/// message never raises the request.
pub proof fn lemma_close_request_once(
    window: WindowInnerState,
    wparam: usize,
    lparam: isize,
    umsg: u32,
    wparam2: usize,
    lparam2: isize,
)
    requires
        umsg != WM_CLOSE,
    ensures
        window.after_message(WM_CLOSE, wparam, lparam).close_request,
        !window.after_message(WM_CLOSE, wparam, lparam).close_polled().close_request,
        window.after_message(WM_CLOSE, wparam, lparam).close_polled().after_message(
            umsg,
            wparam2,
            lparam2,
        ).close_request == false,
        window.after_message(umsg, wparam2, lparam2).close_request == window.close_request,
{
}

} // verus!
