use obstacle_avoiding_rover::sched::{CeilingLock, Resource, Task};

#[test]
fn priorities_are_ordered() {
    assert!(Task::Overflow.priority() > Task::TimeCapture.priority());
    assert!(Task::TimeCapture.priority() > Task::ReceiveCommand.priority());
    assert!(Task::ReceiveCommand.priority() > Task::Trigger.priority());
    assert!(Task::Trigger.priority() > Task::Control.priority());
}

#[test]
fn ceilings_are_highest_user() {
    let tasks = [Task::Overflow, Task::TimeCapture, Task::ReceiveCommand, Task::Trigger, Task::Control];
    let resources = [Resource::Command, Resource::Auto, Resource::OvCnt, Resource::Distance, Resource::Ic];
    for r in resources {
        let top = tasks.iter().filter(|t| t.uses(r)).map(|t| t.priority()).max().unwrap();
        assert_eq!(r.ceiling(), top);
    }
}

#[test]
fn lock_blocks_users_not_higher_tasks() {
    let mut l = CeilingLock::enter(Task::Control);
    assert!(l.can_preempt(Task::ReceiveCommand));
    l.lock(Resource::Command);
    assert_eq!(l.running, 3);
    assert!(!l.can_preempt(Task::ReceiveCommand));
    assert!(l.can_preempt(Task::TimeCapture));
    l.lock(Resource::Distance);
    assert_eq!(l.running, 4);
    assert!(!l.can_preempt(Task::TimeCapture));
    assert!(l.can_preempt(Task::Overflow));
    l.unlock();
    assert_eq!(l.running, 3);
    l.unlock();
    assert_eq!(l.running, 1);
    assert!(l.saved.is_empty());
}

#[test]
fn lock_never_lowers_priority() {
    let mut l = CeilingLock::enter(Task::Overflow);
    l.lock(Resource::Auto);
    assert_eq!(l.running, 5);
    l.unlock();
    assert_eq!(l.running, 5);
}
