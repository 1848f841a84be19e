use std::cell::RefCell;
use std::rc::Rc;

use pebble_rust_2026::callback::{dispatch_handler, GlobalCallbackInner};
use pebble_rust_2026::effect::{Effect, EffectPhase, MountedEffect, PendingEffect};
use pebble_rust_2026::layer::{Layer, LayerInner};
use pebble_rust_2026::registry::Registry;
use pebble_rust_2026::window::{Window, WindowUserData};

type Log = Rc<RefCell<Vec<String>>>;
type Cleanup = Box<dyn FnOnce()>;
type Callback = Box<dyn FnMut() -> Cleanup>;

fn effect_callback(log: &Log, name: &'static str) -> Callback {
    let log = log.clone();
    Box::new(move || {
        log.borrow_mut().push(format!("start {name}"));
        let log = log.clone();
        Box::new(move || log.borrow_mut().push(format!("stop {name}"))) as Cleanup
    })
}

fn phase(e: &Effect<Callback, Cleanup>) -> EffectPhase {
    match e {
        Effect::Pending(_) => EffectPhase::Pending,
        Effect::Mounted(_) => EffectPhase::Mounted,
        Effect::NoneMounted => EffectPhase::NoneMounted,
        Effect::Empty => EffectPhase::Empty,
    }
}

#[test]
fn pending_effect_mount_and_unmount() {
    let log: Log = Rc::new(RefCell::new(Vec::new()));
    let pending = PendingEffect::new(effect_callback(&log, "a"));
    let mounted: MountedEffect<Callback, Cleanup> = pending.mount();
    assert_eq!(*log.borrow(), vec!["start a"]);
    let pending = mounted.unmount();
    assert_eq!(*log.borrow(), vec!["start a", "stop a"]);
    let _again = pending.mount();
    assert_eq!(*log.borrow(), vec!["start a", "stop a", "start a"]);
}

#[test]
fn effect_repeated_triggers_run_once() {
    let log: Log = Rc::new(RefCell::new(Vec::new()));
    let mut e: Effect<Callback, Cleanup> = Effect::new();
    e.set_callback(effect_callback(&log, "a"));
    assert_eq!(phase(&e), EffectPhase::Pending);
    e.mount();
    e.mount();
    assert_eq!(*log.borrow(), vec!["start a"]);
    e.unmount();
    e.unmount();
    assert_eq!(*log.borrow(), vec!["start a", "stop a"]);
    assert_eq!(phase(&e), EffectPhase::Pending);
}

#[test]
fn effect_mount_before_callback_is_set() {
    let log: Log = Rc::new(RefCell::new(Vec::new()));
    let mut e: Effect<Callback, Cleanup> = Effect::new();
    e.mount();
    assert_eq!(phase(&e), EffectPhase::NoneMounted);
    e.set_callback(effect_callback(&log, "late"));
    assert_eq!(*log.borrow(), vec!["start late"]);
    assert_eq!(phase(&e), EffectPhase::Mounted);
    e.unmount();
    assert_eq!(*log.borrow(), vec!["start late", "stop late"]);
}

#[test]
fn effect_replacing_mounted_callback_cleans_up_first() {
    let log: Log = Rc::new(RefCell::new(Vec::new()));
    let mut e: Effect<Callback, Cleanup> = Effect::new();
    e.set_callback(effect_callback(&log, "a"));
    e.mount();
    e.set_callback(effect_callback(&log, "b"));
    assert_eq!(*log.borrow(), vec!["start a", "stop a", "start b"]);
    e.unmount();
    assert_eq!(*log.borrow(), vec!["start a", "stop a", "start b", "stop b"]);
}

#[test]
fn effect_unmount_of_none_mounted_returns_to_empty() {
    let mut e: Effect<Callback, Cleanup> = Effect::new();
    e.mount();
    e.unmount();
    assert_eq!(phase(&e), EffectPhase::Empty);
    let mut f: Effect<Callback, Cleanup> = Effect::new();
    f.unmount();
    assert_eq!(phase(&f), EffectPhase::Empty);
}

#[test]
fn effect_calls_stay_balanced_over_random_sequence() {
    let log: Log = Rc::new(RefCell::new(Vec::new()));
    let mut e: Effect<Callback, Cleanup> = Effect::new();
    let mut seed: u32 = 12345;
    for _ in 0..200 {
        seed = seed.wrapping_mul(1103515245).wrapping_add(12345);
        match (seed >> 16) % 3 {
            0 => e.mount(),
            1 => e.unmount(),
            _ => e.set_callback(effect_callback(&log, "x")),
        }
        let starts = log.borrow().iter().filter(|l| l.starts_with("start")).count();
        let stops = log.borrow().iter().filter(|l| l.starts_with("stop")).count();
        let outstanding = if phase(&e) == EffectPhase::Mounted { 1 } else { 0 };
        assert_eq!(starts, stops + outstanding);
    }
}

#[test]
fn callback_slot_dispatch() {
    let count = Rc::new(RefCell::new(0));
    let c = count.clone();
    let mut slot: GlobalCallbackInner<Box<dyn FnMut()>> = GlobalCallbackInner::new();
    dispatch_handler(&mut slot);
    slot.set(Some(Box::new(move || *c.borrow_mut() += 1)));
    dispatch_handler(&mut slot);
    dispatch_handler(&mut slot);
    assert_eq!(*count.borrow(), 2);
    assert!(slot.callback.is_some());
    slot.clear();
    dispatch_handler(&mut slot);
    assert_eq!(*count.borrow(), 2);
}

#[test]
fn callback_slot_restore_keeps_newer_callback() {
    let mut slot: GlobalCallbackInner<u32> = GlobalCallbackInner::new();
    slot.set(Some(1));
    let taken = slot.extract();
    assert_eq!(taken, Some(1));
    assert_eq!(slot.callback, None);
    slot.set(Some(2));
    slot.restore(1);
    assert_eq!(slot.callback, Some(2));
    let mut other: GlobalCallbackInner<u32> = GlobalCallbackInner::new();
    other.restore(5);
    assert_eq!(other.callback, Some(5));
}

fn handler(log: &Log, name: &'static str) -> Box<dyn FnMut()> {
    let log = log.clone();
    Box::new(move || log.borrow_mut().push(name.to_string()))
}

#[test]
fn window_dispatch_order() {
    let log: Log = Rc::new(RefCell::new(Vec::new()));
    let mut data: WindowUserData<Box<dyn FnMut()>, Callback, Cleanup> = WindowUserData::new();
    data.load_handler.set(Some(handler(&log, "load")));
    data.appear_handler.set(Some(handler(&log, "appear")));
    data.disappear_handler.set(Some(handler(&log, "disappear")));
    data.unload_handler.set(Some(handler(&log, "unload")));
    data.load_effect.set_callback(effect_callback(&log, "load-effect"));
    data.appear_effect.set_callback(effect_callback(&log, "appear-effect"));
    data.dispatch_load();
    data.dispatch_appear();
    data.dispatch_disappear();
    data.dispatch_unload();
    assert_eq!(
        *log.borrow(),
        vec![
            "load",
            "start load-effect",
            "appear",
            "start appear-effect",
            "stop appear-effect",
            "disappear",
            "stop load-effect",
            "unload"
        ]
    );
}

#[test]
fn window_handlers_set_and_clear() {
    let log: Log = Rc::new(RefCell::new(Vec::new()));
    let mut w: Window<Box<dyn FnMut()>, Callback, Cleanup, u8> = Window::new();
    w.set_load_handler(handler(&log, "l"));
    w.set_unload_handler(handler(&log, "u"));
    w.set_appear_handler(handler(&log, "a"));
    w.set_disappear_handler(handler(&log, "d"));
    w.user_data.dispatch_load();
    w.user_data.dispatch_appear();
    w.clear_disappear_handler();
    w.user_data.dispatch_disappear();
    w.clear_unload_handler();
    w.user_data.dispatch_unload();
    w.clear_load_handler();
    w.clear_appear_handler();
    w.user_data.dispatch_load();
    w.user_data.dispatch_appear();
    assert_eq!(*log.borrow(), vec!["l", "a"]);
}

#[test]
fn window_effects_follow_events() {
    let log: Log = Rc::new(RefCell::new(Vec::new()));
    let mut w: Window<Box<dyn FnMut()>, Callback, Cleanup, u8> = Window::new();
    w.user_data.dispatch_load();
    w.set_load_effect(effect_callback(&log, "L"));
    assert_eq!(*log.borrow(), vec!["start L"]);
    w.set_appear_effect(effect_callback(&log, "A"));
    assert!(log.borrow().len() == 1);
    w.user_data.dispatch_appear();
    w.user_data.dispatch_disappear();
    w.user_data.dispatch_unload();
    assert_eq!(*log.borrow(), vec!["start L", "start A", "stop A", "stop L"]);
}

#[test]
fn window_input_receivers() {
    let mut w: Window<Box<dyn FnMut()>, Callback, Cleanup, &'static str> = Window::new();
    w.retain_input_receiver(1, "scroll");
    w.retain_input_receiver(1, "scroll again");
    w.retain_input_receiver(2, "action bar");
    assert_eq!(w.input_receivers.entries.len(), 2);
    assert_eq!(w.remove_input_receiver(1), Some("scroll"));
    assert_eq!(w.remove_input_receiver(1), None);
    assert_eq!(w.input_receivers.entries, vec![(2, "action bar")]);
}

#[test]
fn registry_retain_release() {
    let mut r: Registry<char> = Registry::new();
    r.retain(10, 'a');
    r.retain(20, 'b');
    r.retain(30, 'c');
    r.retain(10, 'z');
    assert_eq!(r.entries, vec![(10, 'a'), (20, 'b'), (30, 'c')]);
    assert_eq!(r.release(10), Some('a'));
    assert_eq!(r.entries, vec![(30, 'c'), (20, 'b')]);
    assert_eq!(r.release(99), None);
    assert_eq!(r.take_all(), vec![(30, 'c'), (20, 'b')]);
    assert!(r.entries.is_empty());
}

#[test]
fn layer_children_and_render() {
    let mut inner: LayerInner<&'static str, u32> = LayerInner::new();
    inner.retain_child(5, "text");
    inner.retain_child(5, "text");
    inner.retain_child(6, "bitmap");
    assert_eq!(inner.children.entries.len(), 2);
    inner.release_child(5);
    inner.release_child(5);
    assert_eq!(inner.children.entries, vec![(6, "bitmap")]);

    let mut layer: Layer<&'static str, u32> = Layer::new();
    layer.set_update_handler(7);
    assert_eq!(layer.inner.render.callback, Some(7));
    layer.clear_update_handler();
    assert_eq!(layer.inner.render.callback, None);
    layer.set_update_handler(8);
    layer.set_raw_update_handler();
    assert_eq!(layer.inner.render.callback, None);
    layer.inner.retain_child(1, "a");
    layer.inner.retain_child(2, "b");
    assert_eq!(layer.remove_child_layers(), vec![(1, "a"), (2, "b")]);
    assert!(layer.inner.children.entries.is_empty());
}

#[test]
fn window_absorbs_what_was_installed_during_dispatch() {
    let log: Log = Rc::new(RefCell::new(Vec::new()));
    let mut data: WindowUserData<Box<dyn FnMut()>, Callback, Cleanup> = WindowUserData::new();
    data.load_handler.set(Some(handler(&log, "load")));
    data.unload_handler.set(Some(handler(&log, "unload")));
    data.appear_effect.set_callback(effect_callback(&log, "old-effect"));
    data.dispatch_appear();
    assert_eq!(*log.borrow(), vec!["start old-effect"]);

    let mut newer: WindowUserData<Box<dyn FnMut()>, Callback, Cleanup> = WindowUserData::new();
    assert!(newer.is_blank());
    newer.load_handler.set(Some(handler(&log, "new-load")));
    newer.appear_effect.set_callback(effect_callback(&log, "new-effect"));
    assert!(!newer.is_blank());
    data.absorb(newer);
    assert_eq!(*log.borrow(), vec!["start old-effect", "stop old-effect", "start new-effect"]);
    assert_eq!(phase(&data.appear_effect), EffectPhase::Mounted);

    data.dispatch_load();
    data.dispatch_unload();
    assert_eq!(
        *log.borrow(),
        vec!["start old-effect", "stop old-effect", "start new-effect", "new-load", "unload"]
    );
    assert!(!data.is_blank());
}

#[test]
fn layer_release_moves_last_child_into_place() {
    let mut inner: LayerInner<&'static str, u32> = LayerInner::new();
    inner.retain_child(1, "a");
    inner.retain_child(2, "b");
    inner.retain_child(3, "c");
    inner.retain_child(4, "d");
    inner.release_child(2);
    assert_eq!(inner.children.entries, vec![(1, "a"), (4, "d"), (3, "c")]);
    inner.release_child(3);
    assert_eq!(inner.children.entries, vec![(1, "a"), (4, "d")]);
}
