use factory_component::banner::Banner;
use factory_component::component::FactoryComponent;
use factory_component::counter::{Counter, CounterInput};
use factory_component::index::DynamicIndex;
use factory_component::instance::FactoryInstance;

#[test]
fn launch_builds_model_root_and_widgets() {
    let index = DynamicIndex::new(0);
    let instance: FactoryInstance<Counter> = FactoryInstance::launch(5, index, &());
    assert!(instance.live());
    assert_eq!(instance.model_ref().count, 5);
    assert_eq!(instance.model_ref().ident, 0);
    assert_eq!(instance.root_ref().text, "5");
    assert_eq!(instance.widgets_ref().label.text, "5");
    assert_eq!(instance.index_ref().current_index(), 0);
}

#[test]
fn scenario_increment_then_shutdown() {
    let index = DynamicIndex::new(0);
    let mut instance: FactoryInstance<Counter> = FactoryInstance::launch(5, index, &());
    assert_eq!(instance.root_ref().text, "5");
    assert_eq!(instance.widgets_ref().label.text, "5");

    instance.process_input(CounterInput::Increment);
    assert_eq!(instance.model_ref().count, 6);
    assert_eq!(instance.widgets_ref().label.text, "6");
    assert!(instance.live());

    instance.shutdown();
    assert!(!instance.live());
    assert_eq!(instance.sender_ref().output.sent(), &vec![6]);
}

#[test]
fn command_results_update_model_and_view() {
    let index = DynamicIndex::new(3);
    let mut instance: FactoryInstance<Counter> = FactoryInstance::launch(0, index, &());
    instance.process_command(99);
    assert_eq!(instance.model_ref().count, 99);
    assert_eq!(instance.widgets_ref().label.text, "99");
}

#[test]
fn moving_slots_keeps_model_and_identifier() {
    let index = DynamicIndex::new(2);
    let mut instance: FactoryInstance<Counter> = FactoryInstance::launch(8, index, &());
    assert_eq!(instance.model_ref().id(), "2");
    instance.move_to(5);
    assert_eq!(instance.index_ref().current_index(), 5);
    assert_eq!(instance.model_ref().count, 8);
    assert_eq!(instance.model_ref().id(), "2");
}

#[test]
fn distinct_live_instances_have_distinct_ids() {
    let first: FactoryInstance<Counter> = FactoryInstance::launch(1, DynamicIndex::new(0), &());
    let second: FactoryInstance<Counter> = FactoryInstance::launch(1, DynamicIndex::new(1), &());
    assert_ne!(first.model_ref().id(), second.model_ref().id());
}

#[test]
fn shutdown_sends_final_count_only_on_output() {
    let index = DynamicIndex::new(0);
    let mut instance: FactoryInstance<Counter> = FactoryInstance::launch(41, index, &());
    instance.process_input(CounterInput::Increment);
    instance.shutdown();
    assert_eq!(instance.sender_ref().input.count(), 0);
    assert_eq!(instance.sender_ref().command.count(), 0);
    assert_eq!(instance.sender_ref().output.sent(), &vec![42]);
}

#[test]
fn banner_ignores_messages_and_keeps_its_text() {
    let index = DynamicIndex::new(0);
    let mut instance: FactoryInstance<Banner> =
        FactoryInstance::launch(String::from("hello"), index, &());
    assert_eq!(instance.root_ref().text, "hello");
    assert_eq!(instance.widgets_ref().label.text, "hello");

    instance.process_input(());
    instance.process_command(());
    assert_eq!(instance.model_ref().text, "hello");
    assert_eq!(instance.widgets_ref().label.text, "hello");
    assert_eq!(instance.model_ref().id(), "hello");
}

#[test]
fn banner_shutdown_sends_nothing() {
    let index = DynamicIndex::new(1);
    let mut instance: FactoryInstance<Banner> =
        FactoryInstance::launch(String::from("quiet"), index, &());
    instance.shutdown();
    assert!(!instance.live());
    assert_eq!(instance.sender_ref().output.count(), 0);
}

#[test]
fn banner_default_translation_forwards_nothing() {
    assert!(<Banner as FactoryComponent>::output_to_parent_input(()).is_none());
}

#[test]
fn launch_sends_nothing() {
    let instance: FactoryInstance<Counter> = FactoryInstance::launch(5, DynamicIndex::new(0), &());
    assert_eq!(instance.sender_ref().input.count(), 0);
    assert_eq!(instance.sender_ref().output.count(), 0);
    assert_eq!(instance.sender_ref().command.count(), 0);
}

#[test]
fn updates_send_nothing() {
    let mut instance: FactoryInstance<Counter> =
        FactoryInstance::launch(5, DynamicIndex::new(0), &());
    instance.process_input(CounterInput::Increment);
    instance.process_command(9);
    assert_eq!(instance.sender_ref().input.count(), 0);
    assert_eq!(instance.sender_ref().output.count(), 0);
    assert_eq!(instance.sender_ref().command.count(), 0);
}
