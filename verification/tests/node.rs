use lyken::node::Node;

#[test]
fn new_handle_holds_the_value() {
    let node = Node::new(41u32);
    assert_eq!(*node.get(), 41);
    assert_eq!(*node, 41);
}

#[test]
fn clone_is_a_handle_on_the_same_value() {
    let node = Node::new(String::from("shared"));
    let twin = node.clone();
    assert!(Node::ptr_eq(&node, &twin));
    assert_eq!(twin.get(), "shared");
    assert!(std::ptr::eq(node.get(), twin.get()));
}

#[test]
fn equal_values_built_apart_are_not_shared() {
    let one = Node::new(7u8);
    let other = Node::new(7u8);
    assert!(!Node::ptr_eq(&one, &other));
    assert_eq!(*one.get(), *other.get());
}

#[test]
fn value_lives_as_long_as_any_handle() {
    let node = Node::new(vec![1u8, 2, 3]);
    let twin = node.clone();
    drop(node);
    assert_eq!(twin.get(), &vec![1u8, 2, 3]);
}
