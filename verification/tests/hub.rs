use broadcaster::handler::{never_disconnect, BroadcastHandler, BroadcastSettings, IndividualSettings};
use broadcaster::registry::Registry;
use std::cell::Cell;
use std::sync::mpsc::TryRecvError;

#[test]
fn first_of_three_sends_one() {
    let handler = BroadcastHandler::new();
    let (a_tx, a_rx) = handler.generate_channel().unwrap();
    let (_b_tx, b_rx) = handler.generate_channel().unwrap();
    let (_c_tx, c_rx) = handler.generate_channel().unwrap();
    a_tx.send(1).unwrap();
    assert_eq!(handler.handle_once_cicle(), Ok(()));
    assert_eq!(b_rx.try_recv(), Ok(1));
    assert_eq!(c_rx.try_recv(), Ok(1));
    assert_eq!(a_rx.try_recv(), Err(TryRecvError::Empty));
    assert_eq!(b_rx.try_recv(), Err(TryRecvError::Empty));
    assert_eq!(c_rx.try_recv(), Err(TryRecvError::Empty));
}

#[test]
fn value_reaches_every_endpoint_but_its_sender() {
    let handler = BroadcastHandler::new();
    let mut senders = Vec::new();
    let mut receivers = Vec::new();
    for _ in 0..5 {
        let (tx, rx) = handler.generate_channel().unwrap();
        senders.push(tx);
        receivers.push(rx);
    }
    senders[2].send(42).unwrap();
    assert_eq!(handler.handle_once_cicle(), Ok(()));
    for (index, rx) in receivers.iter().enumerate() {
        if index == 2 {
            assert_eq!(rx.try_recv(), Err(TryRecvError::Empty));
        } else {
            assert_eq!(rx.try_recv(), Ok(42));
            assert_eq!(rx.try_recv(), Err(TryRecvError::Empty));
        }
    }
}

#[test]
fn last_endpoint_sends_to_all_before_it() {
    let handler = BroadcastHandler::new();
    let (_a_tx, a_rx) = handler.generate_channel().unwrap();
    let (_b_tx, b_rx) = handler.generate_channel().unwrap();
    let (c_tx, c_rx) = handler.generate_channel().unwrap();
    c_tx.send(9).unwrap();
    assert_eq!(handler.handle_once_cicle(), Ok(()));
    assert_eq!(a_rx.try_recv(), Ok(9));
    assert_eq!(b_rx.try_recv(), Ok(9));
    assert_eq!(c_rx.try_recv(), Err(TryRecvError::Empty));
}

#[test]
fn sender_with_self_delivery_receives_its_own_value() {
    let mut handler = BroadcastHandler::new();
    handler.new_channel_settings().send_to_self = true;
    let (a_tx, a_rx) = handler.generate_channel().unwrap();
    let (_b_tx, b_rx) = handler.generate_channel().unwrap();
    a_tx.send(7).unwrap();
    assert_eq!(handler.handle_once_cicle(), Ok(()));
    assert_eq!(a_rx.try_recv(), Ok(7));
    assert_eq!(b_rx.try_recv(), Ok(7));
    assert_eq!(a_rx.try_recv(), Err(TryRecvError::Empty));
}

#[test]
fn lone_endpoint_with_self_delivery_hears_itself() {
    let mut handler = BroadcastHandler::new();
    handler.new_channel_settings().send_to_self = true;
    let (a_tx, a_rx) = handler.generate_channel().unwrap();
    a_tx.send(3).unwrap();
    assert_eq!(handler.handle_once_cicle(), Ok(()));
    assert_eq!(a_rx.try_recv(), Ok(3));
}

#[test]
fn lone_endpoint_without_self_delivery_delivers_nothing() {
    let handler = BroadcastHandler::new();
    let (a_tx, a_rx) = handler.generate_channel().unwrap();
    assert!(a_tx.send(5).is_ok());
    assert_eq!(handler.handle_once_cicle(), Ok(()));
    assert_eq!(a_rx.try_recv(), Err(TryRecvError::Empty));
}

#[test]
fn values_without_a_target_are_all_dropped_in_one_cycle() {
    let handler = BroadcastHandler::new();
    let (a_tx, a_rx) = handler.generate_channel().unwrap();
    a_tx.send(1).unwrap();
    a_tx.send(2).unwrap();
    a_tx.set_send_to_self(true).unwrap();
    a_tx.send(3).unwrap();
    assert_eq!(handler.handle_once_cicle(), Ok(()));
    assert_eq!(a_rx.try_recv(), Ok(3));
    assert_eq!(a_rx.try_recv(), Err(TryRecvError::Empty));
}

#[test]
fn cycle_over_an_empty_registry_succeeds() {
    let handler: BroadcastHandler<i32> = BroadcastHandler::new();
    assert_eq!(handler.handle_once_cicle(), Ok(()));
}

#[test]
fn closed_endpoint_does_not_disturb_the_others() {
    let handler = BroadcastHandler::new();
    let (a_tx, a_rx) = handler.generate_channel().unwrap();
    let (b_tx, b_rx) = handler.generate_channel().unwrap();
    let (c_tx, c_rx) = handler.generate_channel().unwrap();
    drop(b_tx);
    drop(b_rx);
    a_tx.send(1).unwrap();
    assert_eq!(handler.handle_once_cicle(), Ok(()));
    assert_eq!(c_rx.try_recv(), Ok(1));
    assert_eq!(a_rx.try_recv(), Err(TryRecvError::Empty));
    c_tx.send(2).unwrap();
    assert_eq!(handler.handle_once_cicle(), Ok(()));
    assert_eq!(a_rx.try_recv(), Ok(2));
    assert_eq!(c_rx.try_recv(), Err(TryRecvError::Empty));
}

#[test]
fn pending_values_of_a_closed_endpoint_are_still_forwarded() {
    let handler = BroadcastHandler::new();
    let (a_tx, a_rx) = handler.generate_channel().unwrap();
    let (_b_tx, b_rx) = handler.generate_channel().unwrap();
    a_tx.send(8).unwrap();
    drop(a_tx);
    drop(a_rx);
    assert_eq!(handler.handle_once_cicle(), Ok(()));
    assert_eq!(b_rx.try_recv(), Ok(8));
}

#[test]
fn setting_change_spares_values_sent_before_it() {
    let handler = BroadcastHandler::new();
    let (a_tx, a_rx) = handler.generate_channel().unwrap();
    let (_b_tx, b_rx) = handler.generate_channel().unwrap();
    a_tx.send(1).unwrap();
    a_tx.set_send_to_self(true).unwrap();
    a_tx.send(2).unwrap();
    assert_eq!(handler.handle_once_cicle(), Ok(()));
    assert_eq!(handler.handle_once_cicle(), Ok(()));
    assert_eq!(a_rx.try_recv(), Ok(2));
    assert_eq!(a_rx.try_recv(), Err(TryRecvError::Empty));
    assert_eq!(b_rx.try_recv(), Ok(1));
    assert_eq!(b_rx.try_recv(), Ok(2));
    assert_eq!(b_rx.try_recv(), Err(TryRecvError::Empty));
}

#[test]
fn setting_change_takes_effect_only_in_a_cycle() {
    let handler = BroadcastHandler::new();
    let (a_tx, a_rx) = handler.generate_channel().unwrap();
    let (_b_tx, _b_rx) = handler.generate_channel().unwrap();
    a_tx.set_send_to_self(true).unwrap();
    a_tx.send(1).unwrap();
    assert_eq!(a_rx.try_recv(), Err(TryRecvError::Empty));
    assert_eq!(handler.handle_once_cicle(), Ok(()));
    assert_eq!(a_rx.try_recv(), Ok(1));
}

#[test]
fn self_delivery_can_be_switched_off_again() {
    let mut handler = BroadcastHandler::new();
    handler.new_channel_settings().send_to_self = true;
    let (a_tx, a_rx) = handler.generate_channel().unwrap();
    let (_b_tx, b_rx) = handler.generate_channel().unwrap();
    a_tx.set_send_to_self(false).unwrap();
    a_tx.send(4).unwrap();
    assert_eq!(handler.handle_once_cicle(), Ok(()));
    assert_eq!(a_rx.try_recv(), Err(TryRecvError::Empty));
    assert_eq!(b_rx.try_recv(), Ok(4));
}

#[test]
fn setting_change_concerns_its_own_endpoint_only() {
    let handler = BroadcastHandler::new();
    let (a_tx, a_rx) = handler.generate_channel().unwrap();
    let (b_tx, b_rx) = handler.generate_channel().unwrap();
    a_tx.set_send_to_self(true).unwrap();
    b_tx.send(6).unwrap();
    assert_eq!(handler.handle_once_cicle(), Ok(()));
    assert_eq!(a_rx.try_recv(), Ok(6));
    assert_eq!(b_rx.try_recv(), Err(TryRecvError::Empty));
}

#[test]
fn new_defaults_do_not_reach_registered_endpoints() {
    let mut handler = BroadcastHandler::new();
    let (a_tx, a_rx) = handler.generate_channel().unwrap();
    handler.new_channel_settings().send_to_self = true;
    let (b_tx, b_rx) = handler.generate_channel().unwrap();
    a_tx.send(1).unwrap();
    b_tx.send(2).unwrap();
    assert_eq!(handler.handle_once_cicle(), Ok(()));
    assert_eq!(a_rx.try_recv(), Ok(2));
    assert_eq!(a_rx.try_recv(), Err(TryRecvError::Empty));
    assert_eq!(b_rx.try_recv(), Ok(1));
    assert_eq!(b_rx.try_recv(), Ok(2));
    assert_eq!(b_rx.try_recv(), Err(TryRecvError::Empty));
}

#[test]
fn default_settings() {
    let mut handler: BroadcastHandler<i32> = BroadcastHandler::new();
    assert!(!handler.new_channel_settings().send_to_self);
    assert!(handler.handler_settings().exit_on_disconnected_channels);
    assert!(handler.handler_settings().process_one_message_per_cicle);
}

#[test]
fn settings_are_kept_once_changed() {
    let mut handler: BroadcastHandler<i32> = BroadcastHandler::new();
    handler.new_channel_settings().send_to_self = true;
    handler.handler_settings().exit_on_disconnected_channels = false;
    handler.handler_settings().process_one_message_per_cicle = false;
    assert!(handler.new_channel_settings().send_to_self);
    assert!(!handler.handler_settings().exit_on_disconnected_channels);
    assert!(!handler.handler_settings().process_one_message_per_cicle);
}

#[test]
fn one_value_of_each_endpoint_per_cycle_by_default() {
    let handler = BroadcastHandler::new();
    let (a_tx, _a_rx) = handler.generate_channel().unwrap();
    let (_b_tx, b_rx) = handler.generate_channel().unwrap();
    a_tx.send(1).unwrap();
    a_tx.send(2).unwrap();
    assert_eq!(handler.handle_once_cicle(), Ok(()));
    assert_eq!(b_rx.try_recv(), Ok(1));
    assert_eq!(b_rx.try_recv(), Err(TryRecvError::Empty));
    assert_eq!(handler.handle_once_cicle(), Ok(()));
    assert_eq!(b_rx.try_recv(), Ok(2));
}

#[test]
fn endpoint_is_drained_where_the_exit_setting_is_off() {
    let mut handler = BroadcastHandler::new();
    handler.handler_settings().exit_on_disconnected_channels = false;
    let (a_tx, _a_rx) = handler.generate_channel().unwrap();
    let (_b_tx, b_rx) = handler.generate_channel().unwrap();
    a_tx.send(1).unwrap();
    a_tx.send(2).unwrap();
    a_tx.send(3).unwrap();
    assert_eq!(handler.handle_once_cicle(), Ok(()));
    assert_eq!(b_rx.try_recv(), Ok(1));
    assert_eq!(b_rx.try_recv(), Ok(2));
    assert_eq!(b_rx.try_recv(), Ok(3));
    assert_eq!(b_rx.try_recv(), Err(TryRecvError::Empty));
}

#[test]
fn the_unread_setting_changes_nothing() {
    let mut handler = BroadcastHandler::new();
    handler.handler_settings().process_one_message_per_cicle = false;
    let (a_tx, _a_rx) = handler.generate_channel().unwrap();
    let (_b_tx, b_rx) = handler.generate_channel().unwrap();
    a_tx.send(1).unwrap();
    a_tx.send(2).unwrap();
    assert_eq!(handler.handle_once_cicle(), Ok(()));
    assert_eq!(b_rx.try_recv(), Ok(1));
    assert_eq!(b_rx.try_recv(), Err(TryRecvError::Empty));
}

#[test]
fn values_of_two_senders_arrive_in_registry_order() {
    let handler = BroadcastHandler::new();
    let (a_tx, a_rx) = handler.generate_channel().unwrap();
    let (b_tx, b_rx) = handler.generate_channel().unwrap();
    let (_c_tx, c_rx) = handler.generate_channel().unwrap();
    b_tx.send(20).unwrap();
    a_tx.send(10).unwrap();
    assert_eq!(handler.handle_once_cicle(), Ok(()));
    assert_eq!(c_rx.try_recv(), Ok(10));
    assert_eq!(c_rx.try_recv(), Ok(20));
    assert_eq!(a_rx.try_recv(), Ok(20));
    assert_eq!(b_rx.try_recv(), Ok(10));
}

#[test]
fn block_returns_at_once_on_an_empty_registry() {
    let handler: BroadcastHandler<i32> = BroadcastHandler::new();
    handler.handle_block(never_disconnect);
}

#[test]
fn block_returns_once_every_endpoint_is_closed() {
    let handler = BroadcastHandler::new();
    let (a_tx, a_rx) = handler.generate_channel().unwrap();
    let (b_tx, b_rx) = handler.generate_channel().unwrap();
    a_tx.send(1).unwrap();
    drop(a_tx);
    drop(a_rx);
    drop(b_tx);
    handler.handle_block(never_disconnect);
    assert_eq!(b_rx.try_recv(), Ok(1));
    assert_eq!(b_rx.try_recv(), Err(TryRecvError::Disconnected));
}

#[test]
fn block_goes_on_while_endpoints_stay_and_the_exit_setting_is_off() {
    let mut handler = BroadcastHandler::new();
    handler.handler_settings().exit_on_disconnected_channels = false;
    let (a_tx, _a_rx) = handler.generate_channel().unwrap();
    let (_b_tx, b_rx) = handler.generate_channel().unwrap();
    a_tx.send(1).unwrap();
    let asked = Cell::new(0u32);
    handler.handle_block(|_handler: &BroadcastHandler<i32>| {
        asked.set(asked.get() + 1);
        asked.get() == 500
    });
    assert_eq!(asked.get(), 500);
    assert_eq!(b_rx.try_recv(), Ok(1));
}

#[test]
fn block_goes_on_over_an_empty_registry_where_the_exit_setting_is_off() {
    let mut handler: BroadcastHandler<i32> = BroadcastHandler::new();
    handler.handler_settings().exit_on_disconnected_channels = false;
    let asked = Cell::new(0u32);
    handler.handle_block(|_handler: &BroadcastHandler<i32>| {
        asked.set(asked.get() + 1);
        asked.get() == 3
    });
    assert_eq!(asked.get(), 3);
}

#[test]
fn block_goes_on_while_endpoints_stay_registered() {
    let handler = BroadcastHandler::new();
    let (_a_tx, _a_rx) = handler.generate_channel().unwrap();
    let asked = Cell::new(0u32);
    handler.handle_block(|_handler: &BroadcastHandler<i32>| {
        asked.set(asked.get() + 1);
        asked.get() == 200
    });
    assert_eq!(asked.get(), 200);
}

#[test]
fn block_stops_on_the_callers_reason_after_one_cycle() {
    let handler = BroadcastHandler::new();
    let (a_tx, _a_rx) = handler.generate_channel().unwrap();
    let (_b_tx, b_rx) = handler.generate_channel().unwrap();
    a_tx.send(1).unwrap();
    a_tx.send(2).unwrap();
    handler.handle_block(|_handler: &BroadcastHandler<i32>| true);
    assert_eq!(b_rx.try_recv(), Ok(1));
    assert_eq!(b_rx.try_recv(), Err(TryRecvError::Empty));
}

#[test]
fn the_callers_reason_may_use_the_handler() {
    let handler = BroadcastHandler::new();
    let (a_tx, _a_rx) = handler.generate_channel().unwrap();
    let (_b_tx, b_rx) = handler.generate_channel().unwrap();
    a_tx.send(1).unwrap();
    a_tx.send(2).unwrap();
    handler.handle_block(|handler: &BroadcastHandler<i32>| handler.handle_once_cicle().is_ok());
    assert_eq!(b_rx.try_recv(), Ok(1));
    assert_eq!(b_rx.try_recv(), Ok(2));
}

#[test]
fn defaults_of_the_settings_types() {
    assert!(!IndividualSettings::default().send_to_self);
    let settings = BroadcastSettings::default();
    assert!(settings.exit_on_disconnected_channels);
    assert!(settings.process_one_message_per_cicle);
}

#[test]
fn stop_decision_with_the_exit_setting_on() {
    let settings = BroadcastSettings::default();
    assert!(!settings.should_stop(false, false, false));
    assert!(settings.should_stop(true, false, false));
    assert!(settings.should_stop(false, true, false));
    assert!(settings.should_stop(false, false, true));
    assert!(settings.should_stop(true, true, true));
}

#[test]
fn stop_decision_with_the_exit_setting_off() {
    let settings = BroadcastSettings {
        exit_on_disconnected_channels: false,
        process_one_message_per_cicle: true,
    };
    assert!(!settings.should_stop(false, false, false));
    assert!(!settings.should_stop(false, true, false));
    assert!(settings.should_stop(true, true, false));
    assert!(settings.should_stop(false, true, true));
}

#[test]
fn the_default_reason_never_holds() {
    let handler: BroadcastHandler<i32> = BroadcastHandler::new();
    assert!(!never_disconnect(&handler));
    let (_a_tx, _a_rx) = handler.generate_channel().unwrap();
    assert!(!never_disconnect(&handler));
}

#[test]
fn endpoint_keeps_the_template_of_its_registration() {
    let mut handler = BroadcastHandler::new();
    handler.new_channel_settings().send_to_self = true;
    let (a_tx, a_rx) = handler.generate_channel().unwrap();
    handler.new_channel_settings().send_to_self = false;
    let (b_tx, b_rx) = handler.generate_channel().unwrap();
    a_tx.send(1).unwrap();
    b_tx.send(2).unwrap();
    assert_eq!(handler.handle_once_cicle(), Ok(()));
    assert_eq!(a_rx.try_iter().collect::<Vec<i32>>(), vec![1, 2]);
    assert_eq!(b_rx.try_iter().collect::<Vec<i32>>(), vec![1]);
}

#[test]
fn register_on_uses_the_current_template() {
    let mut handler = BroadcastHandler::new();
    let mut registry: Registry<i32> = Registry::new();
    let (_a_tx, a_rx) = handler.register_on(&mut registry);
    handler.new_channel_settings().send_to_self = true;
    let (_b_tx, b_rx) = handler.register_on(&mut registry);
    assert_eq!(registry.len(), 2);
    assert!(registry.broadcast(0, 1));
    assert!(registry.broadcast(1, 2));
    assert_eq!(a_rx.try_iter().collect::<Vec<i32>>(), vec![2]);
    assert_eq!(b_rx.try_iter().collect::<Vec<i32>>(), vec![1, 2]);
}

#[test]
fn cycle_on_follows_the_exit_setting() {
    let mut handler = BroadcastHandler::new();
    let mut registry: Registry<i32> = Registry::new();
    let (a_tx, _a_rx) = handler.register_on(&mut registry);
    let (_b_tx, b_rx) = handler.register_on(&mut registry);
    a_tx.send(1).unwrap();
    a_tx.send(2).unwrap();
    a_tx.send(3).unwrap();
    handler.cycle_on(&mut registry);
    assert_eq!(b_rx.try_iter().collect::<Vec<i32>>(), vec![1]);
    handler.handler_settings().exit_on_disconnected_channels = false;
    handler.cycle_on(&mut registry);
    assert_eq!(b_rx.try_iter().collect::<Vec<i32>>(), vec![2, 3]);
}

#[test]
fn round_runs_one_cycle_and_asks_once() {
    let handler = BroadcastHandler::new();
    let (a_tx, _a_rx) = handler.generate_channel().unwrap();
    let (_b_tx, b_rx) = handler.generate_channel().unwrap();
    a_tx.send(1).unwrap();
    a_tx.send(2).unwrap();
    let asked = Cell::new(0u32);
    let reason = |_handler: &BroadcastHandler<i32>| {
        asked.set(asked.get() + 1);
        false
    };
    assert!(!handler.handle_round(&reason));
    assert_eq!(asked.get(), 1);
    assert_eq!(b_rx.try_iter().collect::<Vec<i32>>(), vec![1]);
    assert!(!handler.handle_round(&reason));
    assert_eq!(asked.get(), 2);
    assert_eq!(b_rx.try_iter().collect::<Vec<i32>>(), vec![2]);
}

#[test]
fn round_ends_the_loop_on_an_empty_registry_or_on_the_reason() {
    let mut handler: BroadcastHandler<i32> = BroadcastHandler::new();
    assert!(handler.handle_round(&never_disconnect));
    handler.handler_settings().exit_on_disconnected_channels = false;
    assert!(!handler.handle_round(&never_disconnect));
    assert!(handler.handle_round(&|_handler: &BroadcastHandler<i32>| true));
    handler.handler_settings().exit_on_disconnected_channels = true;
    let (a_tx, _a_rx) = handler.generate_channel().unwrap();
    assert!(!handler.handle_round(&never_disconnect));
    drop(a_tx);
    assert!(handler.handle_round(&never_disconnect));
}

#[test]
fn block_asks_the_reason_once_after_every_cycle() {
    let handler = BroadcastHandler::new();
    let (a_tx, _a_rx) = handler.generate_channel().unwrap();
    let (_b_tx, b_rx) = handler.generate_channel().unwrap();
    for value in 0..4 {
        a_tx.send(value).unwrap();
    }
    let asked = Cell::new(0u32);
    handler.handle_block(|_handler: &BroadcastHandler<i32>| {
        asked.set(asked.get() + 1);
        asked.get() == 3
    });
    assert_eq!(asked.get(), 3);
    assert_eq!(b_rx.try_iter().collect::<Vec<i32>>(), vec![0, 1, 2]);
}
