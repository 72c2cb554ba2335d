use playdate::graphics::context_stack::ContextStack;
use playdate::graphics::generation::SettingGeneration;

#[test]
fn popped_bitmap_can_be_taken_back() {
    let mut stack: ContextStack<&str> = ContextStack::new();
    let id = stack.push_bitmap("bitmap");
    stack.push_framebuffer();
    assert!(stack.pop().is_none());
    let popped = stack.pop().unwrap();
    assert_eq!(popped, id);
    stack.release_id(popped);
    assert_eq!(stack.take_bitmap(id), Some("bitmap"));
}

#[test]
fn taken_bitmap_is_gone() {
    let mut stack: ContextStack<u32> = ContextStack::new();
    let id = stack.push_bitmap(7);
    let copy = stack.clone_id(&id);
    let popped = stack.pop().unwrap();
    assert_eq!(stack.take_bitmap(popped), Some(7));
    assert_eq!(stack.take_bitmap(copy), None);
    stack.release_id(id);
}

#[test]
fn bitmap_not_referred_to_is_dropped() {
    let mut stack: ContextStack<u32> = ContextStack::new();
    let id = stack.push_bitmap(1);
    let again = stack.clone_id(&id);
    stack.release_id(id);
    stack.release_id(again);
    assert!(stack.pop().is_none());
}

#[test]
fn bitmap_held_while_referred_to() {
    let mut stack: ContextStack<u32> = ContextStack::new();
    let id = stack.push_bitmap(1);
    let popped = stack.pop().unwrap();
    stack.release_id(popped);
    let copy = stack.clone_id(&id);
    stack.release_id(id);
    assert_eq!(stack.take_bitmap(copy), Some(1));
}

#[test]
fn ids_are_unique_across_reset() {
    let mut stack: ContextStack<u32> = ContextStack::new();
    let a = stack.push_bitmap(1);
    stack.reset();
    let b = stack.push_bitmap(2);
    assert_ne!(a, b);
    assert!(a < b);
    assert!(stack.pop().is_some());
    assert_eq!(stack.take_bitmap(a), None);
    assert_eq!(stack.take_bitmap(b), Some(2));
}

#[test]
fn pop_on_empty_stack() {
    let mut stack: ContextStack<u32> = ContextStack::new();
    assert!(stack.pop().is_none());
}

#[test]
fn stack_checks_before_counting() {
    let mut stack: ContextStack<u8> = ContextStack::new();
    assert!(stack.can_push_bitmap());
    assert!(stack.can_pop());
    let id = stack.push_bitmap(3);
    assert!(stack.can_pop());
    assert!(stack.can_clone_id(&id));
    let copy = stack.clone_id(&id);
    let popped = stack.pop().unwrap();
    assert_eq!(stack.take_bitmap(copy), Some(3));
    // The bitmap was taken back, so its id is no longer held and can not be cloned.
    assert!(!stack.can_clone_id(&id));
    assert!(!stack.can_clone_id(&popped));
    assert!(stack.can_pop());
}

#[test]
fn stencil_generation_only_last_setting_is_current() {
    let mut g = SettingGeneration::new();
    assert!(g.can_set());
    let first = g.set();
    assert_eq!(first, 1);
    assert!(g.is_current(first));
    let second = g.set();
    assert_eq!(second, 2);
    assert!(!g.is_current(first));
    assert!(g.is_current(second));
}
