use dp2200::databus::DatabusMode;
use dp2200::datapoint::Datapoint;

#[test]
fn datapoint_test_select_addr() {
    let program = vec!["LoadImm A, 0x69", "Adr", "Halt"];

    let mut machine = Datapoint::new(program).unwrap();
    machine.run();
    let db = machine.databus;
    assert_eq!(db.selected_addr, 0x69);
    assert_eq!(db.selected_mode, DatabusMode::Status);
}

#[test]
fn datapoint_test_write_to_screen() {
    let program = vec!["LoadImm A, 0xe1", "Adr", "LoadImm A, 0x5a", "Write", "Halt"];

    let mut machine = Datapoint::new(program).unwrap();
    machine.run();
    let db = machine.databus;
    assert_eq!(db.selected_addr, 0xe1);
    assert_eq!(db.screen.buffer[0][0], 'Z');
}
