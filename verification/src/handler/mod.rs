//! The hub itself, with its messages and settings.

use crate::receiver::BroadcastReceiver;
use crate::model::{cycle_made, Polled};
use crate::registry::{registered, Registry};
use crate::sender::BroadcastSender;
use crate::sync::guarded;
use std::sync::mpsc::{channel, Receiver, Sender};
use std::sync::{LockResult, RwLock, RwLockWriteGuard};
use vstd::prelude::*;

verus! {

/// What travels from an endpoint's send handle to the dispatcher.
pub enum BroadcastMessage<T> {
    /// A payload to forward to the other endpoints.
    Value(T),
    /// An instruction to switch the sender's own self-delivery on or off.
    ChangeSendToSelf(bool),
}

impl<T> BroadcastMessage<T> {
    /// The payload of a `Value` message.
    pub fn force_value(self) -> (value: T)
        requires
            self is Value,
        ensures
            value == self->Value_0,
    {
        match self {
            BroadcastMessage::Value(value) => value,
            BroadcastMessage::ChangeSendToSelf(_) => unreached(),
        }
    }
}

/// The settings of one endpoint.
#[derive(Clone, Copy)]
pub struct IndividualSettings {
    /// Whether a value that the endpoint sends is delivered to itself too.
    pub send_to_self: bool,
}

impl Default for IndividualSettings {
    fn default() -> (settings: Self)
        ensures
            !settings.send_to_self,
    {
        Self { send_to_self: false }
    }
}

/// The settings of the hub as a whole. The caller's own reason to stop the
/// blocking loop is no part of them: it is handed to
/// [`BroadcastHandler::handle_block`], and [`never_disconnect`] is the one to
/// hand over by default.
pub struct BroadcastSettings {
    /// Whether [`BroadcastHandler::handle_block`] returns once no endpoint is
    /// registered any more. The dispatch cycle reads it too: where it is set,
    /// a cycle forwards at most one value of each endpoint and leaves the
    /// endpoint's later values to the next cycle.
    pub exit_on_disconnected_channels: bool,
    /// Kept as part of the configuration, and read by nothing: how many values
    /// of an endpoint a cycle forwards follows from
    /// `exit_on_disconnected_channels` alone.
    pub process_one_message_per_cicle: bool,
}

impl Default for BroadcastSettings {
    /// Both settings on. The default that belongs with them, a reason to
    /// disconnect that never holds, is [`never_disconnect`].
    fn default() -> (settings: Self)
        ensures
            settings.exit_on_disconnected_channels,
            settings.process_one_message_per_cicle,
    {
        Self { exit_on_disconnected_channels: true, process_one_message_per_cicle: true }
    }
}

impl BroadcastSettings {
    /// Whether the blocking loop ends after a cycle: when the cycle failed,
    /// when the caller's own reason to disconnect holds, or when no endpoint
    /// is registered and `exit_on_disconnected_channels` is set.
    pub open spec fn stops(&self, cycle_failed: bool, registry_empty: bool, disconnect: bool) -> bool {
        cycle_failed || (self.exit_on_disconnected_channels && registry_empty) || disconnect
    }

    /// Whether the blocking loop ends after the round `round`.
    pub open spec fn stops_after(&self, round: Round) -> bool {
        self.stops(!round.cycle_succeeded, round.registry_empty, round.disconnect)
    }

    /// Whether the blocking loop ends after a cycle: when the cycle failed,
    /// when the caller's own reason to disconnect holds, or when no endpoint
    /// is registered and `exit_on_disconnected_channels` is set. While none of
    /// these holds the loop goes on, however long endpoints stay registered.
    pub fn should_stop(&self, cycle_failed: bool, registry_empty: bool, disconnect: bool) -> (stop:
        bool)
        ensures
            stop == self.stops(cycle_failed, registry_empty, disconnect),
            stop == (cycle_failed || (self.exit_on_disconnected_channels && registry_empty)
                || disconnect),
    {
        cycle_failed || (self.exit_on_disconnected_channels && registry_empty) || disconnect
    }
}

/// What one round of the blocking loop found: whether its cycle succeeded,
/// whether the registry was found empty afterwards, and what the caller's
/// reason to disconnect answered.
pub struct Round {
    pub cycle_succeeded: bool,
    pub registry_empty: bool,
    pub disconnect: bool,
}

/// The reason to disconnect that never holds: with it the blocking loop ends
/// only on a failed cycle or on an empty registry. It is the default to hand
/// to [`BroadcastHandler::handle_block`].
pub fn never_disconnect<T: Clone>(handler: &BroadcastHandler<T>) -> (disconnect: bool)
    ensures
        !disconnect,
{
    false
}

/// Whether a call of `RwLock::write` on `lock` may have ended as `succeeded`
/// says: with a guard, or with the error of a poisoned lock.
pub open spec fn lock_taken<T>(lock: RwLock<Registry<T>>, succeeded: bool) -> bool {
    exists|access: LockResult<RwLockWriteGuard<Registry<T>>>|
        #[trigger] call_ensures(RwLock::<Registry<T>>::write, (&lock,), access) && succeeded
            == access is Ok
}

/// Whether each of the two handles holds one end of a channel that
/// `std::sync::mpsc::channel` made: the send handle the sending end of one,
/// the receive handle the receiving end of another.
pub open spec fn channel_ends<T>(handles: (BroadcastSender<T>, BroadcastReceiver<T>)) -> bool {
    &&& exists|inbound: Receiver<BroadcastMessage<T>>|
        call_ensures(channel::<BroadcastMessage<T>>, (), (handles.0.queue(), inbound))
    &&& exists|outbound: Sender<T>|
        call_ensures(channel::<T>, (), (outbound, handles.1.queue()))
}

/// The most cycles that one call of [`BroadcastHandler::handle_block`] runs.
pub const CYCLE_LIMIT: u64 = 0xffff_ffff_ffff_ffff;

/// Whether `round` is what one round of the blocking loop of `handler` found.
/// The round took the registry's lock for a cycle, and the cycle succeeded
/// exactly if that did. Where `exit_on_disconnected_channels` is set it took
/// the lock once more to look at the registry, and a poisoned lock counted as
/// an empty registry; where it is not set, the registry was not looked at and
/// counts as not empty. Then `disconnect_reason` was asked once, with
/// `handler`.
pub open spec fn round_made<T: Clone, F: Fn(&BroadcastHandler<T>) -> bool>(
    handler: &BroadcastHandler<T>,
    disconnect_reason: F,
    round: Round,
) -> bool {
    &&& lock_taken(handler.registry_lock(), round.cycle_succeeded)
    &&& if handler.global_settings().exit_on_disconnected_channels {
        lock_taken(handler.registry_lock(), true) || (lock_taken(handler.registry_lock(), false)
            && round.registry_empty)
    } else {
        !round.registry_empty
    }
    &&& call_ensures(disconnect_reason, (handler,), round.disconnect)
}

/// Whether `rounds` are the rounds of one call of
/// [`BroadcastHandler::handle_block`]: there was at least one, each was made
/// as [`round_made`] says, none but the last ended the loop, and the last
/// ended it unless it was round number [`CYCLE_LIMIT`].
pub open spec fn blocked_for<T: Clone, F: Fn(&BroadcastHandler<T>) -> bool>(
    handler: &BroadcastHandler<T>,
    disconnect_reason: F,
    rounds: Seq<Round>,
) -> bool {
    &&& 1 <= rounds.len() <= CYCLE_LIMIT
    &&& forall|i: int|
        0 <= i < rounds.len() ==> round_made(handler, disconnect_reason, #[trigger] rounds[i])
    &&& forall|i: int|
        0 <= i < rounds.len() - 1 ==> !handler.global_settings().stops_after(#[trigger] rounds[i])
    &&& handler.global_settings().stops_after(rounds.last()) || rounds.len() == CYCLE_LIMIT
}

/// The hub: the registry of endpoints behind a lock, the settings that new
/// endpoints start with, and the settings of the hub as a whole.
#[verifier::reject_recursive_types(T)]
pub struct BroadcastHandler<T: Clone> {
    channels: RwLock<Registry<T>>,
    individual_channels_settings: IndividualSettings,
    settings: BroadcastSettings,
}

impl<T: Clone> BroadcastHandler<T> {
    /// The settings that an endpoint registered now would start with.
    pub closed spec fn endpoint_defaults(&self) -> IndividualSettings {
        self.individual_channels_settings
    }

    /// The settings of the hub as a whole.
    pub closed spec fn global_settings(&self) -> BroadcastSettings {
        self.settings
    }

    /// The lock that guards the registry.
    pub closed spec fn registry_lock(&self) -> RwLock<Registry<T>> {
        self.channels
    }

    /// A hub without endpoints. New endpoints start without self-delivery, and
    /// both global settings are on. The default reason to disconnect is
    /// [`never_disconnect`]; it is handed to [`BroadcastHandler::handle_block`].
    pub fn new() -> (handler: BroadcastHandler<T>)
        ensures
            !handler.endpoint_defaults().send_to_self,
            handler.global_settings().exit_on_disconnected_channels,
            handler.global_settings().process_one_message_per_cicle,
    {
        Self {
            channels: RwLock::new(Registry::new()),
            individual_channels_settings: IndividualSettings::default(),
            settings: BroadcastSettings::default(),
        }
    }

    /// The settings that endpoints registered from now on start with. A change
    /// leaves the endpoints that are registered already as they are.
    pub fn new_channel_settings(&mut self) -> (settings: &mut IndividualSettings)
        ensures
            *settings == old(self).endpoint_defaults(),
            final(self).endpoint_defaults() == *final(settings),
            final(self).global_settings() == old(self).global_settings(),
            final(self).registry_lock() == old(self).registry_lock(),
    {
        &mut self.individual_channels_settings
    }

    /// The settings of the hub as a whole.
    pub fn handler_settings(&mut self) -> (settings: &mut BroadcastSettings)
        ensures
            *settings == old(self).global_settings(),
            final(self).global_settings() == *final(settings),
            final(self).endpoint_defaults() == old(self).endpoint_defaults(),
            final(self).registry_lock() == old(self).registry_lock(),
    {
        &mut self.settings
    }

    /// Registers, in `registry`, a new endpoint with the settings that new
    /// endpoints start with at this moment, and returns its two handles.
    pub fn register_on(&self, registry: &mut Registry<T>) -> (handles: (
        BroadcastSender<T>,
        BroadcastReceiver<T>,
    ))
        ensures
            registered(old(registry)@, final(registry)@, self.endpoint_defaults(), handles),
    {
        registry.register(self.individual_channels_settings)
    }

    /// Runs one dispatch cycle on `registry`, as [`Registry::run_cycle`] says.
    /// A value that had a target moves the cycle on to the next endpoint
    /// exactly where `exit_on_disconnected_channels` is set.
    pub fn cycle_on(&self, registry: &mut Registry<T>)
        ensures
            exists|polls: Seq<Polled<T>>| #[trigger]
                cycle_made(
                    old(registry)@,
                    polls,
                    self.global_settings().exit_on_disconnected_channels,
                    final(registry)@,
                ),
    {
        let advance_after_delivery = self.settings.exit_on_disconnected_channels;
        registry.run_cycle(advance_after_delivery);
        proof {
            let polls = choose|polls: Seq<Polled<T>>| #[trigger]
                cycle_made(old(registry)@, polls, advance_after_delivery, registry@);
            assert(cycle_made(
                old(registry)@,
                polls,
                self.global_settings().exit_on_disconnected_channels,
                registry@,
            ));
        }
    }

    /// Registers a new endpoint with the settings that new endpoints start
    /// with at this moment, and returns its two handles. Takes the registry's
    /// lock once, and succeeds exactly if that does: it fails only when the
    /// lock is poisoned. What it does to the guarded registry is what
    /// [`BroadcastHandler::register_on`] says. The handles hold the ends of
    /// two channels made for the endpoint.
    pub fn generate_channel(&self) -> (handles: Result<
        (BroadcastSender<T>, BroadcastReceiver<T>),
        (),
    >)
        ensures
            lock_taken(self.registry_lock(), handles is Ok),
            handles is Ok ==> channel_ends(handles->Ok_0),
    {
        match self.channels.write() {
            Ok(mut guard) => {
                let registry = guarded(&mut guard);
                Ok(self.register_on(registry))
            },
            Err(_) => Err(()),
        }
    }

    /// Runs one dispatch cycle, holding the registry's lock from beginning to
    /// end. Takes that lock once, and succeeds exactly if that does: it fails
    /// only when the lock is poisoned. What it does to the guarded registry is
    /// what [`BroadcastHandler::cycle_on`] says.
    pub fn handle_once_cicle(&self) -> (cycle: Result<(), ()>)
        ensures
            lock_taken(self.registry_lock(), cycle is Ok),
    {
        match self.channels.write() {
            Ok(mut guard) => {
                let registry = guarded(&mut guard);
                self.cycle_on(registry);
                Ok(())
            },
            Err(_) => Err(()),
        }
    }

    /// Whether no endpoint is registered. Takes the registry's lock once; a
    /// poisoned lock counts as an empty registry.
    fn is_drained(&self) -> (drained: bool)
        ensures
            lock_taken(self.registry_lock(), true) || (lock_taken(self.registry_lock(), false)
                && drained),
    {
        match self.channels.write() {
            Ok(mut guard) => {
                let registry = guarded(&mut guard);
                registry.is_empty()
            },
            Err(_) => true,
        }
    }

    /// Makes one round of the blocking loop and tells whether the loop ends
    /// after it: runs one dispatch cycle, looks whether the registry is empty
    /// where `exit_on_disconnected_channels` is set, asks `disconnect_reason`
    /// once with this handler, and decides as
    /// [`BroadcastSettings::should_stop`] says.
    pub fn handle_round<F: Fn(&BroadcastHandler<T>) -> bool>(&self, disconnect_reason: &F) -> (stop:
        bool)
        requires
            call_requires(*disconnect_reason, (self,)),
        ensures
            exists|round: Round|
                #[trigger] round_made(self, *disconnect_reason, round) && stop
                    == self.global_settings().stops_after(round),
    {
        let is_error = self.handle_once_cicle().is_err();
        let is_empty = self.settings.exit_on_disconnected_channels && self.is_drained();
        let is_custom_disconnect = disconnect_reason(self);
        let stop = self.settings.should_stop(is_error, is_empty, is_custom_disconnect);
        proof {
            let round = Round {
                cycle_succeeded: !is_error,
                registry_empty: is_empty,
                disconnect: is_custom_disconnect,
            };
            assert(round_made(self, *disconnect_reason, round));
        }
        stop
    }

    /// Runs dispatch cycles one after another, without pause: makes rounds as
    /// [`BroadcastHandler::handle_round`] says until one of them ends the
    /// loop. `disconnect_reason` is the caller's own reason to stop; it is
    /// asked once after every cycle, and [`never_disconnect`] is the default
    /// to hand over. The loop also ends after [`CYCLE_LIMIT`] rounds.
    pub fn handle_block<F: Fn(&BroadcastHandler<T>) -> bool>(&self, disconnect_reason: F)
        requires
            call_requires(disconnect_reason, (self,)),
        ensures
            exists|rounds: Seq<Round>| #[trigger] blocked_for(self, disconnect_reason, rounds),
    {
        let mut stop: bool = false;
        let mut remaining: u64 = CYCLE_LIMIT;
        let ghost mut rounds: Seq<Round> = Seq::empty();
        while !stop && remaining > 0
            invariant
                call_requires(disconnect_reason, (self,)),
                rounds.len() + remaining == CYCLE_LIMIT,
                forall|i: int|
                    0 <= i < rounds.len() ==> round_made(self, disconnect_reason, #[trigger] rounds[i]),
                forall|i: int|
                    0 <= i < rounds.len() - 1 ==> !self.global_settings().stops_after(
                        #[trigger] rounds[i],
                    ),
                if rounds.len() == 0 {
                    !stop
                } else {
                    stop == self.global_settings().stops_after(rounds.last())
                },
            decreases remaining,
        {
            stop = self.handle_round(&disconnect_reason);
            proof {
                let round = choose|round: Round|
                    #[trigger] round_made(self, disconnect_reason, round) && stop
                        == self.global_settings().stops_after(round);
                rounds = rounds.push(round);
            }
            remaining = remaining - 1;
        }
        proof {
            assert(blocked_for(self, disconnect_reason, rounds));
        }
    }
}

} // verus!
