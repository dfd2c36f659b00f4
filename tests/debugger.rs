use siri8080::debugger::{Action, Command, Debugger};
use siri8080::i8080::Processor;

#[test]
fn starts_paused() {
    let mut d = Debugger::default();
    assert!(d.paused);
    assert_eq!(d.breakpoint, None);
    assert_eq!(d.next_action(None, 0), Action::Idle);
    assert_eq!(d.next_action(Some(Command::Step), 0), Action::Step);
    assert!(d.paused);
    assert_eq!(d.next_action(Some(Command::Quit), 0), Action::Quit);
    assert_eq!(d.next_action(Some(Command::Reset), 0), Action::Reset);
}

#[test]
fn breakpoint_pauses_before_step() {
    let mut p = Processor::from_bytes(vec![0x00, 0x00, 0x00, 0x00]);
    let mut d = Debugger::default();
    assert_eq!(d.next_action(Some(Command::Breakpoint(2)), p.get_pc()), Action::Idle);
    assert_eq!(d.breakpoint, Some(2));
    let mut action = d.next_action(Some(Command::Continue), p.get_pc());
    let mut steps = 0;
    while action == Action::Step {
        assert!(p.clock());
        steps += 1;
        action = d.next_action(None, p.get_pc());
    }
    assert_eq!(action, Action::Idle);
    assert_eq!(steps, 2);
    assert_eq!(p.get_pc(), 2);
    assert!(d.paused);
    assert_eq!(d.next_action(Some(Command::Continue), p.get_pc()), Action::Step);
    assert!(p.clock());
    assert_eq!(d.next_action(None, p.get_pc()), Action::Step);
    assert_eq!(d.next_action(Some(Command::Pause), p.get_pc()), Action::Idle);
    assert_eq!(d.next_action(None, p.get_pc()), Action::Idle);
}
