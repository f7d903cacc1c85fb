use rcc::declref::{DeclRef, DeclTable};
use rcc::redeclarable::RedeclarableArena;
use rcc::primitive::Primitive;
use rcc::storage::{Storage, VarDeclKind};
use rcc::types::{QualifiedType, Qualifiers, Type};

fn int_type() -> QualifiedType {
    QualifiedType { qualifiers: Qualifiers::empty(), unqualified_type: Type::Primitive(Primitive::Int) }
}

#[test]
fn redeclarable() {
    let datas = [0, 1, 2];
    let mut arena: RedeclarableArena<i32> = RedeclarableArena::new_arena();

    let head = arena.new_canonical(datas[0]);
    assert_eq!(*arena.get(head), datas[0]);
    assert_eq!(arena.canonical(head), head);
    assert_eq!(arena.latest(head), head);
    assert!(arena.prev(head).is_none());
    assert!(arena.is_canonical(head));
    assert!(arena.is_latest(head));

    let second = arena.new_node(head, datas[1]);
    assert_eq!(*arena.get(second), datas[1]);
    assert_eq!(arena.canonical(second), head);
    assert_eq!(arena.latest(second), second);
    assert_eq!(arena.prev(second).unwrap(), head);
    assert!(!arena.is_canonical(second));
    assert!(arena.is_latest(second));

    assert_eq!(arena.canonical(head), head);
    assert_eq!(arena.latest(head), second);
    assert!(arena.prev(head).is_none());
    assert!(arena.is_canonical(head));
    assert!(!arena.is_latest(head));

    let third = arena.new_node(second, datas[2]);
    assert_eq!(*arena.get(third), datas[2]);
    assert_eq!(arena.canonical(third), head);
    assert_eq!(arena.latest(third), third);
    assert_eq!(arena.prev(third).unwrap(), second);
    assert!(!arena.is_canonical(third));
    assert!(arena.is_latest(third));

    assert_eq!(arena.canonical(second), head);
    assert_eq!(arena.latest(second), third);
    assert_eq!(arena.prev(second).unwrap(), head);
    assert!(!arena.is_canonical(second));
    assert!(!arena.is_latest(second));

    assert_eq!(arena.canonical(head), head);
    assert_eq!(arena.latest(head), third);
    assert!(arena.prev(head).is_none());
    assert!(arena.is_canonical(head));
    assert!(!arena.is_latest(head));

    let mut iter = arena.iter(third);
    assert_eq!(*arena.get(iter.next(&arena).unwrap()), datas[2]);
    assert_eq!(*arena.get(iter.next(&arena).unwrap()), datas[1]);
    assert_eq!(*arena.get(iter.next(&arena).unwrap()), datas[0]);
    assert!(iter.next(&arena).is_none());
    assert!(iter.next(&arena).is_none());
}

#[test]
fn intrusive_redeclarable() {
    let datas = [(0u8, "a"), (1u8, "b"), (2u8, "c")];
    let mut arena: RedeclarableArena<(u8, &str)> = RedeclarableArena::new_arena();

    let head = arena.new_canonical(datas[0]);
    assert_eq!(arena.get(head).0, datas[0].0);
    assert_eq!(arena.get(head).1, datas[0].1);
    assert_eq!(arena.canonical(head), head);
    assert_eq!(arena.latest(head), head);
    assert!(arena.prev(head).is_none());
    assert!(arena.is_canonical(head));
    assert!(arena.is_latest(head));

    let second = arena.new_node(head, datas[1]);
    assert_eq!(arena.get(second).0, datas[1].0);
    assert_eq!(arena.get(second).1, datas[1].1);
    assert_eq!(arena.canonical(second), head);
    assert_eq!(arena.latest(second), second);
    assert_eq!(arena.prev(second).unwrap(), head);
    assert!(!arena.is_canonical(second));
    assert!(arena.is_latest(second));
    assert_eq!(arena.latest(head), second);
    assert!(!arena.is_latest(head));

    let third = arena.new(Some(second), datas[2]);
    assert_eq!(arena.get(third).0, datas[2].0);
    assert_eq!(arena.get(third).1, datas[2].1);
    assert_eq!(arena.canonical(third), head);
    assert_eq!(arena.latest(third), third);
    assert_eq!(arena.prev(third).unwrap(), second);
    assert!(!arena.is_canonical(third));
    assert!(arena.is_latest(third));
    assert_eq!(arena.canonical(second), head);
    assert_eq!(arena.latest(second), third);
    assert_eq!(arena.prev(second).unwrap(), head);
    assert!(!arena.is_latest(second));
    assert_eq!(arena.latest(head), third);
    assert!(!arena.is_latest(head));

    let mut iter = arena.iter(third);
    assert_eq!(arena.get(iter.next(&arena).unwrap()).0, datas[2].0);
    assert_eq!(arena.get(iter.next(&arena).unwrap()).0, datas[1].0);
    assert_eq!(arena.get(iter.next(&arena).unwrap()).0, datas[0].0);
    assert!(iter.next(&arena).is_none());
    assert!(iter.next(&arena).is_none());
}

#[test]
fn redeclarable_chains_are_independent() {
    let mut arena: RedeclarableArena<u8> = RedeclarableArena::new_arena();
    let a = arena.new(None, 1);
    let b = arena.new(None, 2);
    let a2 = arena.new(Some(a), 3);
    assert_eq!(arena.latest(a), a2);
    assert_eq!(arena.latest(b), b);
    assert_eq!(arena.num_nodes(), 3);
    let mut it = arena.iter(a2);
    assert_eq!(it.collect_all(&arena), vec![a2, a]);
    let mut it = arena.iter(b);
    assert_eq!(it.collect_all(&arena), vec![b]);
}

#[test]
fn law_chain_shape_on_a_branching_chain() {
    let mut arena: RedeclarableArena<u8> = RedeclarableArena::new_arena();
    let root = arena.new_canonical(0);
    let x = arena.new_node(root, 1);
    let y = arena.new_node(root, 2);
    let z = arena.new_node(x, 3);
    assert_eq!(arena.latest(root), z);
    assert_eq!(arena.latest(y), z);
    let mut it = arena.iter(z);
    let chain = it.collect_all(&arena);
    assert_eq!(chain, vec![z, x, root]);
    assert_eq!(*chain.last().unwrap(), arena.canonical(z));
}

#[test]
fn decl_ref_chain_and_definition() {
    let mut table: DeclTable = RedeclarableArena::new_arena();
    let d1 = DeclRef::decl(&mut table, int_type(), Storage::Static, "a".to_string(), None);
    assert!(d1.definition(&table).is_none());
    let d2 = DeclRef::tentative(&mut table, int_type(), Storage::Static, "a".to_string(), Some(d1));
    assert!(d2.definition(&table).is_none());
    let d3 = DeclRef::def(&mut table, int_type(), Storage::Static, "a".to_string(), Some(d2));
    let d4 = DeclRef::decl(&mut table, int_type(), Storage::Static, "a".to_string(), Some(d3));
    assert_eq!(d1.definition(&table), Some(d3));
    assert_eq!(d4.definition(&table), Some(d3));
    assert_eq!(d1.latest_decl(&table), d4);
    assert_eq!(d4.canonical_decl(&table), d1);
    assert_eq!(d4.previous_decl(&table), Some(d3));
    assert_eq!(d1.previous_decl(&table), None);
    assert!(d1.is_canonical(&table));
    assert!(d4.is_latest(&table));
    assert!(!d4.is_typedef(&table));
    assert!(d3.is_definition(&table));
    assert_eq!(d3.declkind(&table), VarDeclKind::Definition);
    assert_eq!(d3.storage_class(&table), Storage::Static);
    assert_eq!(d3.name(&table), "a");
    assert_eq!(d3.qualified_type(&table).unqualified_type.pretty_print(), "int");
    let mut it = d2.iter(&table);
    let mut seen = Vec::new();
    while let Some(d) = it.next(&table) {
        seen.push(d);
    }
    assert_eq!(seen, vec![d4, d3, d2, d1]);
}

#[test]
fn decl_ref_latest_definition_wins() {
    let mut table: DeclTable = RedeclarableArena::new_arena();
    let d1 = DeclRef::def(&mut table, int_type(), Storage::Static, "f".to_string(), None);
    let d2 = DeclRef::def(&mut table, int_type(), Storage::Static, "f".to_string(), Some(d1));
    assert_eq!(d1.definition(&table), Some(d2));
}
