use group_stack::{metric_name, AllocationGroupId, GroupStack, SentrySinkConfig, CAPACITY, ROOT_RAW};

fn group(raw: usize) -> AllocationGroupId {
    AllocationGroupId::from_raw_unchecked(raw)
}

#[test]
fn fresh_stack_reports_root() {
    let s = GroupStack::new();
    assert_eq!(s.current(), AllocationGroupId::root());
    assert_eq!(s.current().as_raw(), ROOT_RAW);
    assert_eq!(s.depth(), 0);
}

#[test]
fn root_is_raw_one() {
    assert_eq!(AllocationGroupId::root().as_raw(), 1);
    assert_eq!(group(1), AllocationGroupId::root());
    assert_ne!(group(2), AllocationGroupId::root());
}

#[test]
fn nested_push_and_pop_scenario() {
    let mut s = GroupStack::new();
    assert_eq!(s.current().as_raw(), 1);
    s.push(group(5));
    assert_eq!(s.current().as_raw(), 5);
    s.push(group(9));
    assert_eq!(s.current().as_raw(), 9);
    assert_eq!(s.pop().as_raw(), 9);
    assert_eq!(s.current().as_raw(), 5);
    assert_eq!(s.pop().as_raw(), 5);
    assert_eq!(s.current().as_raw(), 1);
    assert_eq!(s.depth(), 0);
}

#[test]
fn push_then_pop_returns_group() {
    let mut s = GroupStack::new();
    s.push(group(3));
    s.push(group(42));
    assert_eq!(s.pop(), group(42));
    assert_eq!(s.current(), group(3));
    assert_eq!(s.depth(), 1);
}

#[test]
fn same_group_pushed_twice() {
    let mut s = GroupStack::new();
    s.push(group(7));
    s.push(group(7));
    assert_eq!(s.pop(), group(7));
    assert_eq!(s.current(), group(7));
    assert_eq!(s.pop(), group(7));
    assert_eq!(s.current(), AllocationGroupId::root());
}

#[test]
fn fills_to_capacity() {
    let mut s = GroupStack::new();
    for i in 0..CAPACITY {
        s.push(group(i + 2));
        assert_eq!(s.current(), group(i + 2));
    }
    assert_eq!(CAPACITY, 512);
    assert_eq!(s.depth(), 512);
    for i in (0..CAPACITY).rev() {
        assert_eq!(s.pop(), group(i + 2));
    }
    assert_eq!(s.current(), AllocationGroupId::root());
}

fn guarded<T>(s: &mut GroupStack, g: AllocationGroupId, work: impl FnOnce(&GroupStack) -> Result<T, String>) -> Result<T, String> {
    s.push(g);
    let out = work(s);
    s.pop();
    out
}

fn failing_work(s: &GroupStack) -> Result<u32, String> {
    if s.current().as_raw() == 8 {
        return Err(String::from("failed inside the scope"));
    }
    Ok(0)
}

#[test]
fn scope_exiting_with_error_pops_once() {
    let mut s = GroupStack::new();
    s.push(group(4));
    let before = s.depth();
    let out = guarded(&mut s, group(8), failing_work);
    assert!(out.is_err());
    assert_eq!(s.depth(), before);
    assert_eq!(s.current(), group(4));
}

#[test]
fn copied_stack_is_independent() {
    let mut s = GroupStack::new();
    s.push(group(6));
    let t = s;
    s.pop();
    assert_eq!(t.current(), group(6));
    assert_eq!(s.current(), AllocationGroupId::root());
}

#[test]
fn metric_name_joins_namespace() {
    assert_eq!(metric_name(&Some(String::from("docker")), "cpu.usage"), "docker.cpu.usage");
}

#[test]
fn metric_name_without_namespace() {
    assert_eq!(metric_name(&None, "cpu.usage"), "cpu.usage");
    assert_eq!(metric_name(&Some(String::new()), "cpu.usage"), "cpu.usage");
}

#[test]
fn build_keeps_dsn() {
    let config = SentrySinkConfig { dsn: String::from("https://key@example.com/1") };
    let sink = config.build();
    assert_eq!(sink.dsn, "https://key@example.com/1");
}
