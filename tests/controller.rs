use dma2d_surface::controller::{Action, Controller};

#[test]
fn every_action_is_processed() {
    let mut controller = Controller::new();
    controller.set_action_event_handlers();
    assert_eq!(controller.process_action(Action {}), Ok(()));
    assert_eq!(controller.process_action(Action {}), Ok(()));
}
