use keyboard_oled::keyboard::KeyboardInfo;
use keyboard_oled::manager::{Action, HotplugFilter, KeyboardManager, Message};
use std::sync::mpsc::channel;

fn manager() -> KeyboardManager {
    KeyboardManager::new(KeyboardInfo::new(0x1038, 0x1614, 128, 40).unwrap())
}

#[test]
fn manager_keeps_its_keyboard() {
    let info = manager().keyboard_info();
    assert_eq!(info.vendor_id(), 0x1038);
    assert_eq!(info.product_id(), 0x1614);
    assert_eq!((info.width(), info.height()), (128, 40));
}

#[test]
fn each_message_has_its_action() {
    let manager = manager();
    assert_eq!(manager.handle_message(Message::DeviceArrived), Action::Redraw);
    assert_eq!(manager.handle_message(Message::DeviceLeft), Action::Nothing);
    assert_eq!(manager.handle_message(Message::RefreshScreen), Action::Redraw);
}

#[test]
fn only_a_closed_channel_stops_the_worker() {
    let manager = manager();
    assert_eq!(manager.next_action(None), Action::Stop);
    assert_eq!(manager.next_action(Some(Message::DeviceArrived)), Action::Redraw);
    assert_eq!(manager.next_action(Some(Message::DeviceLeft)), Action::Nothing);
    assert_eq!(manager.next_action(Some(Message::RefreshScreen)), Action::Redraw);
}

#[test]
fn watcher_filters_by_vendor_and_product() {
    let watcher = manager().watcher();
    assert_eq!(
        watcher.filter(),
        HotplugFilter { vendor_id: Some(0x1038), product_id: Some(0x1614), class: None }
    );
}

#[test]
fn watcher_names_the_message_of_each_callback() {
    let mut watcher = manager().watcher();
    assert_eq!(watcher.device_arrived(), Message::DeviceArrived);
    assert_eq!(watcher.device_left(), Message::DeviceLeft);
    assert_eq!(watcher.device_arrived(), Message::DeviceArrived);
}

#[test]
fn refresh_left_refresh_redraws_twice_in_order() {
    let manager = manager();
    let (sender, receiver) = channel();
    let other = sender.clone();
    sender.send(Message::RefreshScreen).unwrap();
    other.send(Message::DeviceLeft).unwrap();
    sender.send(Message::RefreshScreen).unwrap();
    drop(sender);
    drop(other);
    let mut actions = Vec::new();
    loop {
        let action = manager.next_action(receiver.recv().ok());
        actions.push(action);
        if action == Action::Stop {
            break;
        }
    }
    assert_eq!(actions, vec![Action::Redraw, Action::Nothing, Action::Redraw, Action::Stop]);
    assert_eq!(actions.iter().filter(|a| **a == Action::Redraw).count(), 2);
}

#[test]
fn a_burst_of_arrivals_is_a_burst_of_redraws() {
    let manager = manager();
    let mut watcher = manager.watcher();
    let (sender, receiver) = channel();
    for _ in 0..3 {
        sender.send(watcher.device_arrived()).unwrap();
    }
    sender.send(watcher.device_left()).unwrap();
    drop(sender);
    let mut redraws = 0;
    while let Ok(message) = receiver.recv() {
        if manager.handle_message(message) == Action::Redraw {
            redraws += 1;
        }
    }
    assert_eq!(redraws, 3);
}
