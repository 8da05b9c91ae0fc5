use factory_component::channel::{FactorySender, Sender};
use factory_component::component::FactoryComponent;
use factory_component::counter::{Counter, CounterInput, CounterWidgets};
use factory_component::widgets::Label;
use factory_component::digits::decimal_string;
use factory_component::index::DynamicIndex;
use factory_component::widgets::Position;

fn fresh_widgets() -> CounterWidgets {
    CounterWidgets { label: Label { text: String::from("stale") } }
}

#[test]
fn update_with_view_steps_then_refreshes() {
    let mut model = Counter { count: 5, ident: 0 };
    let mut widgets = fresh_widgets();
    let mut sender: FactorySender<Counter> = FactorySender::new();
    model.update_with_view(&mut widgets, CounterInput::Increment, &mut sender);
    assert_eq!(model.count, 6);
    assert_eq!(widgets.label.text, "6");
}

#[test]
fn update_with_view_decrement() {
    let mut model = Counter { count: 5, ident: 0 };
    let mut widgets = fresh_widgets();
    let mut sender: FactorySender<Counter> = FactorySender::new();
    model.update_with_view(&mut widgets, CounterInput::Decrement, &mut sender);
    assert_eq!(model.count, 4);
    assert_eq!(widgets.label.text, "4");
}

#[test]
fn update_cmd_with_view_steps_then_refreshes() {
    let mut model = Counter { count: 5, ident: 0 };
    let mut widgets = fresh_widgets();
    let mut sender: FactorySender<Counter> = FactorySender::new();
    model.update_cmd_with_view(&mut widgets, 42, &mut sender);
    assert_eq!(model.count, 42);
    assert_eq!(widgets.label.text, "42");
}

#[test]
fn increment_saturates_at_max() {
    let mut model = Counter { count: u64::MAX, ident: 0 };
    let mut widgets = fresh_widgets();
    let mut sender: FactorySender<Counter> = FactorySender::new();
    model.update_with_view(&mut widgets, CounterInput::Increment, &mut sender);
    assert_eq!(model.count, u64::MAX);
    assert_eq!(widgets.label.text, "18446744073709551615");
}

#[test]
fn decrement_saturates_at_zero() {
    let mut model = Counter { count: 0, ident: 0 };
    let mut widgets = fresh_widgets();
    let mut sender: FactorySender<Counter> = FactorySender::new();
    model.update_with_view(&mut widgets, CounterInput::Decrement, &mut sender);
    assert_eq!(model.count, 0);
    assert_eq!(widgets.label.text, "0");
}

#[test]
fn default_output_translation_forwards_nothing() {
    assert!(<Counter as FactoryComponent>::output_to_parent_input(0).is_none());
    assert!(<Counter as FactoryComponent>::output_to_parent_input(7).is_none());
    assert!(<Counter as FactoryComponent>::output_to_parent_input(u64::MAX).is_none());
}

#[test]
fn id_is_stable_without_mutation() {
    let model = Counter { count: 3, ident: 9 };
    assert_eq!(model.id(), "9");
    assert_eq!(model.id(), model.id());
}

#[test]
fn ids_differ_between_instances() {
    let first = Counter { count: 3, ident: 1 };
    let second = Counter { count: 3, ident: 2 };
    assert_ne!(first.id(), second.id());
}

#[test]
fn decimal_string_renders_exactly() {
    assert_eq!(decimal_string(0), "0");
    assert_eq!(decimal_string(7), "7");
    assert_eq!(decimal_string(10), "10");
    assert_eq!(decimal_string(12345), "12345");
    assert_eq!(decimal_string(1000), "1000");
    assert_eq!(decimal_string(u64::MAX), "18446744073709551615");
}

#[test]
fn sender_logs_in_order() {
    let mut sender: Sender<u64> = Sender::new();
    assert_eq!(sender.count(), 0);
    sender.send(1);
    sender.send(2);
    sender.send(3);
    assert_eq!(sender.count(), 3);
    assert_eq!(sender.sent(), &vec![1, 2, 3]);
}

#[test]
fn factory_sender_keeps_channels_apart() {
    let mut sender: FactorySender<Counter> = FactorySender::new();
    sender.input(CounterInput::Increment);
    sender.output(11);
    sender.command(22);
    sender.output(33);
    assert_eq!(sender.input.count(), 1);
    assert_eq!(sender.output.sent(), &vec![11, 33]);
    assert_eq!(sender.command.sent(), &vec![22]);
}

#[test]
fn dynamic_index_tracks_position() {
    let mut index = DynamicIndex::new(4);
    assert_eq!(index.current_index(), 4);
    index.set_index(0);
    assert_eq!(index.current_index(), 0);
}

#[test]
fn init_model_fixes_ident_from_index() {
    let index = DynamicIndex::new(7);
    let mut sender: FactorySender<Counter> = FactorySender::new();
    let model = Counter::init_model(5, &index, &mut sender);
    assert_eq!(model.count, 5);
    assert_eq!(model.ident, 7);
    assert_eq!(model.id(), "7");
}

#[test]
fn init_root_shows_count() {
    let model = Counter { count: 130, ident: 0 };
    let root = model.init_root();
    assert_eq!(root.text, "130");
}

#[test]
fn any_component_fits_an_order_only_container() {
    let model = Counter { count: 0, ident: 0 };
    let () = model.position(3);
}
