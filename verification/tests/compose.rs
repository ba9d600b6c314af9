use bevy_compose::compose::dynamic::Dynamic;
use bevy_compose::compose::memo::{hash_key, memo};
use bevy_compose::compose::remember::remember;
use bevy_compose::compose::{Compose, ComposeError};
use bevy_compose::host::{Host, HostCommand};
use std::hash::Hasher;

fn text(s: &str) -> String {
    String::from(s)
}

fn spawns(commands: &[HostCommand]) -> usize {
    commands.iter().filter(|c| matches!(c, HostCommand::Spawn { .. })).count()
}

fn despawns(commands: &[HostCommand]) -> usize {
    commands.iter().filter(|c| matches!(c, HostCommand::Despawn { .. })).count()
}

#[test]
fn unit_builds_and_rebuilds_nothing() {
    let mut host = Host::<u32>::new();
    let mut state = ().build(&mut host, None);
    assert_eq!(().rebuild(&mut state, &mut host), Ok(()));
    <() as Compose<u32>>::remove(state, &mut host);
    assert_eq!(host.pending(), 0);
    assert_eq!(host.node_count(), 0);
}

#[test]
fn text_build_spawns_one_node_with_content() {
    let mut host = Host::<u32>::new();
    let state = text("hello").build(&mut host, Some(7));
    assert_eq!(state.node, 0);
    assert_eq!(state.content, "hello");
    assert_eq!(
        host.take_commands(),
        vec![HostCommand::Spawn { node: 0, parent: Some(7), text: Some(text("hello")) }]
    );
}

#[test]
fn text_rebuild_with_equal_content_is_silent() {
    let mut host = Host::<u32>::new();
    let mut state = text("same").build(&mut host, None);
    host.take_commands();
    for _ in 0..5 {
        assert_eq!(text("same").rebuild(&mut state, &mut host), Ok(()));
    }
    assert_eq!(host.pending(), 0);
    assert_eq!(state.content, "same");
    assert_eq!(state.node, 0);
}

#[test]
fn text_rebuild_with_new_content_updates_once() {
    let mut host = Host::<u32>::new();
    let mut state = text("old").build(&mut host, None);
    host.take_commands();
    assert_eq!(text("new").rebuild(&mut state, &mut host), Ok(()));
    assert_eq!(
        host.take_commands(),
        vec![HostCommand::SetText { node: 0, content: text("new") }]
    );
    assert_eq!(state.content, "new");
    assert_eq!(host.node_count(), 1);
}

#[test]
fn empty_text_is_a_text_like_any_other() {
    let mut host = Host::<u32>::new();
    let mut state = text("").build(&mut host, None);
    assert_eq!(
        host.take_commands(),
        vec![HostCommand::Spawn { node: 0, parent: None, text: Some(text("")) }]
    );
    assert_eq!(text("").rebuild(&mut state, &mut host), Ok(()));
    assert_eq!(host.pending(), 0);
}

#[test]
fn text_remove_despawns_its_node() {
    let mut host = Host::<u32>::new();
    let state = text("bye").build(&mut host, None);
    host.take_commands();
    <String as Compose<u32>>::remove(state, &mut host);
    assert_eq!(host.take_commands(), vec![HostCommand::Despawn { node: 0 }]);
}

#[test]
fn pair_visits_children_in_declared_order() {
    let mut host = Host::<u32>::new();
    let mut state = (text("a"), text("b")).build(&mut host, None);
    assert_eq!(state.0.node, 0);
    assert_eq!(state.1.node, 1);
    assert_eq!(
        host.take_commands(),
        vec![
            HostCommand::Spawn { node: 0, parent: None, text: Some(text("a")) },
            HostCommand::Spawn { node: 1, parent: None, text: Some(text("b")) },
        ]
    );
    assert_eq!((text("x"), text("y")).rebuild(&mut state, &mut host), Ok(()));
    assert_eq!(
        host.take_commands(),
        vec![
            HostCommand::SetText { node: 0, content: text("x") },
            HostCommand::SetText { node: 1, content: text("y") },
        ]
    );
    assert_eq!((text("x"), text("z")).rebuild(&mut state, &mut host), Ok(()));
    assert_eq!(host.take_commands(), vec![HostCommand::SetText { node: 1, content: text("z") }]);
}

#[test]
fn nested_pairs_make_wider_products() {
    let mut host = Host::<u32>::new();
    let state = ((text("a"), text("b")), text("c")).build(&mut host, None);
    assert_eq!(((state.0).0.node, (state.0).1.node, state.1.node), (0, 1, 2));
    assert_eq!(host.node_count(), 3);
}

#[test]
fn optional_absent_to_absent_does_nothing() {
    let mut host = Host::<u32>::new();
    let mut state = None::<String>.build(&mut host, None);
    assert_eq!(None::<String>.rebuild(&mut state, &mut host), Ok(()));
    assert!(state.child.is_none());
    assert_eq!(host.pending(), 0);
}

#[test]
fn optional_absent_to_present_builds_below_the_stored_parent() {
    let mut host = Host::<u32>::new();
    let mut state = None::<String>.build(&mut host, Some(3));
    assert_eq!(Some(text("now")).rebuild(&mut state, &mut host), Ok(()));
    assert_eq!(
        host.take_commands(),
        vec![HostCommand::Spawn { node: 0, parent: Some(3), text: Some(text("now")) }]
    );
    assert_eq!(state.child.as_ref().map(|s| s.node), Some(0));
}

#[test]
fn optional_present_to_present_rebuilds_in_place() {
    let mut host = Host::<u32>::new();
    let mut state = Some(text("a")).build(&mut host, None);
    host.take_commands();
    assert_eq!(Some(text("b")).rebuild(&mut state, &mut host), Ok(()));
    assert_eq!(host.take_commands(), vec![HostCommand::SetText { node: 0, content: text("b") }]);
    assert_eq!(state.child.as_ref().map(|s| s.node), Some(0));
}

#[test]
fn optional_present_to_absent_removes_and_drops_state() {
    let mut host = Host::<u32>::new();
    let mut state = Some(text("a")).build(&mut host, None);
    host.take_commands();
    assert_eq!(None::<String>.rebuild(&mut state, &mut host), Ok(()));
    assert_eq!(host.take_commands(), vec![HostCommand::Despawn { node: 0 }]);
    assert!(state.child.is_none());
}

#[test]
fn optional_toggle_removes_once_and_builds_twice() {
    let mut host = Host::<u32>::new();
    let mut state = Some(text("first")).build(&mut host, None);
    assert_eq!(None::<String>.rebuild(&mut state, &mut host), Ok(()));
    assert_eq!(Some(text("second")).rebuild(&mut state, &mut host), Ok(()));
    let commands = host.take_commands();
    assert_eq!(spawns(&commands), 2);
    assert_eq!(despawns(&commands), 1);
    assert_eq!(
        commands,
        vec![
            HostCommand::Spawn { node: 0, parent: None, text: Some(text("first")) },
            HostCommand::Despawn { node: 0 },
            HostCommand::Spawn { node: 1, parent: None, text: Some(text("second")) },
        ]
    );
}

#[test]
fn hash_key_is_the_standard_hash_of_one_write() {
    let mut hasher = std::collections::hash_map::DefaultHasher::new();
    hasher.write(b"key");
    assert_eq!(hash_key(b"key"), hasher.finish());
    assert_eq!(hash_key(b"key"), hash_key(b"key"));
    assert_ne!(hash_key(b"key"), hash_key(b"kez"));
    assert_eq!(memo(b"key", ()).hash, hasher.finish());
    assert_eq!(remember(b"key", ()).hash, hasher.finish());
}

#[test]
fn memo_builds_whatever_the_key() {
    let mut host = Host::<u32>::new();
    let state = memo(b"k", text("inner")).build(&mut host, None);
    assert_eq!(state.0, hash_key(b"k"));
    assert_eq!(
        host.take_commands(),
        vec![HostCommand::Spawn { node: 0, parent: None, text: Some(text("inner")) }]
    );
}

#[test]
fn memo_with_unchanged_key_never_rebuilds_inner() {
    let mut host = Host::<u32>::new();
    let mut state = memo(b"k", text("v0")).build(&mut host, None);
    host.take_commands();
    for pass in 1..10 {
        let content = format!("v{}", pass);
        assert_eq!(memo(b"k", content).rebuild(&mut state, &mut host), Ok(()));
    }
    assert_eq!(host.pending(), 0);
    assert_eq!(state.1.content, "v0");
}

#[test]
fn memo_with_changed_key_rebuilds_inner_exactly_once() {
    let mut host = Host::<u32>::new();
    let mut state = memo(b"k1", text("v0")).build(&mut host, None);
    host.take_commands();
    assert_eq!(memo(b"k2", text("v1")).rebuild(&mut state, &mut host), Ok(()));
    assert_eq!(memo(b"k2", text("v2")).rebuild(&mut state, &mut host), Ok(()));
    assert_eq!(host.take_commands(), vec![HostCommand::SetText { node: 0, content: text("v1") }]);
    assert_eq!(state.0, hash_key(b"k2"));
    assert_eq!(state.1.content, "v1");
}

#[test]
fn memo_remove_removes_inner() {
    let mut host = Host::<u32>::new();
    let state = memo(b"k", text("v")).build(&mut host, None);
    host.take_commands();
    <bevy_compose::compose::memo::Memo<String> as Compose<u32>>::remove(state, &mut host);
    assert_eq!(host.take_commands(), vec![HostCommand::Despawn { node: 0 }]);
}

#[test]
fn remember_behaves_as_memo() {
    let mut host = Host::<u32>::new();
    let mut state = remember(b"k1", text("v0")).build(&mut host, None);
    host.take_commands();
    assert_eq!(remember(b"k1", text("v1")).rebuild(&mut state, &mut host), Ok(()));
    assert_eq!(host.pending(), 0);
    assert_eq!(remember(b"k2", text("v2")).rebuild(&mut state, &mut host), Ok(()));
    assert_eq!(host.take_commands(), vec![HostCommand::SetText { node: 0, content: text("v2") }]);
    assert_eq!(state.0, hash_key(b"k2"));
}

type TextOrPair = Dynamic<String, (String, String)>;

#[test]
fn dynamic_same_shape_rebuilds_in_place() {
    let mut host = Host::<u32>::new();
    let first: TextOrPair = Dynamic::First(text("a"));
    let mut state = first.build(&mut host, None);
    host.take_commands();
    let next: TextOrPair = Dynamic::First(text("b"));
    assert_eq!(next.rebuild(&mut state, &mut host), Ok(()));
    assert_eq!(host.take_commands(), vec![HostCommand::SetText { node: 0, content: text("b") }]);
}

#[test]
fn dynamic_shape_change_fails_and_touches_nothing() {
    let mut host = Host::<u32>::new();
    let first: TextOrPair = Dynamic::First(text("a"));
    let mut state = first.build(&mut host, None);
    host.take_commands();
    let next: TextOrPair = Dynamic::Second((text("b"), text("c")));
    assert_eq!(next.rebuild(&mut state, &mut host), Err(ComposeError::TypeMismatch));
    assert_eq!(host.pending(), 0);
    assert_eq!(host.node_count(), 1);
    match state {
        Dynamic::First(s) => {
            assert_eq!(s.content, "a");
            assert_eq!(s.node, 0);
        }
        Dynamic::Second(_) => panic!("the state changed its shape"),
    }
}

#[test]
fn dynamic_shape_change_the_other_way_fails_too() {
    let mut host = Host::<u32>::new();
    let first: TextOrPair = Dynamic::Second((text("b"), text("c")));
    let mut state = first.build(&mut host, None);
    host.take_commands();
    let next: TextOrPair = Dynamic::First(text("a"));
    assert!(next.is_first());
    assert_eq!(next.rebuild(&mut state, &mut host), Err(ComposeError::TypeMismatch));
    assert_eq!(host.pending(), 0);
    assert!(!state.is_first());
}

#[test]
fn pair_reports_a_failed_child_and_still_visits_the_other() {
    let mut host = Host::<u32>::new();
    let first: (TextOrPair, String) = (Dynamic::First(text("a")), text("x"));
    let mut state = first.build(&mut host, None);
    host.take_commands();
    let next: (TextOrPair, String) = (Dynamic::Second((text("b"), text("c"))), text("y"));
    assert_eq!(next.rebuild(&mut state, &mut host), Err(ComposeError::TypeMismatch));
    assert_eq!(host.take_commands(), vec![HostCommand::SetText { node: 1, content: text("y") }]);
}

#[test]
fn dynamic_remove_removes_the_built_shape() {
    let mut host = Host::<u32>::new();
    let first: TextOrPair = Dynamic::Second((text("b"), text("c")));
    let state = first.build(&mut host, None);
    host.take_commands();
    <TextOrPair as Compose<u32>>::remove(state, &mut host);
    assert_eq!(
        host.take_commands(),
        vec![HostCommand::Despawn { node: 0 }, HostCommand::Despawn { node: 1 }]
    );
}

#[test]
fn static_text_builds_and_rebuilds_like_owned_text() {
    let mut host = Host::<u32>::new();
    let mut state = "up".build(&mut host, Some(2));
    assert_eq!((state.content, state.node), ("up", 0));
    assert_eq!("up".rebuild(&mut state, &mut host), Ok(()));
    assert_eq!(host.pending(), 1);
    assert_eq!("down".rebuild(&mut state, &mut host), Ok(()));
    assert_eq!("down".rebuild(&mut state, &mut host), Ok(()));
    assert_eq!(state.content, "down");
    <&'static str as Compose<u32>>::remove(state, &mut host);
    assert_eq!(
        host.take_commands(),
        vec![
            HostCommand::Spawn { node: 0, parent: Some(2), text: Some(text("up")) },
            HostCommand::SetText { node: 0, content: text("down") },
            HostCommand::Despawn { node: 0 },
        ]
    );
}

#[test]
fn static_text_with_a_common_prefix_is_not_equal() {
    let mut host = Host::<u32>::new();
    let mut state = "count".build(&mut host, None);
    host.take_commands();
    assert_eq!("count: 1".rebuild(&mut state, &mut host), Ok(()));
    assert_eq!(
        host.take_commands(),
        vec![HostCommand::SetText { node: 0, content: text("count: 1") }]
    );
}

#[test]
fn element_slot_hands_a_description_over_once() {
    let mut host = Host::<u32>::new();
    let mut state = text("a").build(&mut host, None);
    host.take_commands();
    let mut slot = bevy_compose::compose::TupleCompose::new();
    assert_eq!(slot.run(&mut state, &mut host), Ok(()));
    assert_eq!(host.pending(), 0);
    slot.put(text("b"));
    slot.put(text("c"));
    assert_eq!(slot.run(&mut state, &mut host), Ok(()));
    assert!(slot.0.is_none());
    assert_eq!(slot.run(&mut state, &mut host), Ok(()));
    assert_eq!(host.take_commands(), vec![HostCommand::SetText { node: 0, content: text("c") }]);
}
