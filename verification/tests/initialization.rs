use rcc::integral::Integral;
use rcc::initialization::{
    check_string_initializer, complete_type_if_eligible, designator_index, copy_type, merge_array_types_max, relative_scalar_path_from_flat, scalar_leaf_width, ArraySize,
    ArrayTree, DesignatorInput, ExprId, InitDiag, InitEntry, InitInput, InitNode, Initialization, ObjType,
};

fn scalar() -> ObjType {
    ObjType::Scalar { is_character: false }
}

fn arr(e: ObjType, n: usize) -> ObjType {
    ObjType::Array(Box::new(e), ArraySize::Constant(n))
}

fn expr(id: usize) -> InitInput {
    InitInput::Expression(ExprId { id, is_string_literal: false })
}

fn leaf_id(node: &InitNode) -> usize {
    match node {
        InitNode::Scalar(e) => e.id,
        InitNode::List(_) => panic!("not a scalar"),
    }
}

fn child(node: &InitNode) -> &ArrayTree {
    match node {
        InitNode::List(t) => t,
        InitNode::Scalar(_) => panic!("not a list"),
    }
}

#[test]
fn leaf_width_and_flat_paths() {
    let t = arr(arr(scalar(), 3), 2);
    assert_eq!(scalar_leaf_width(&t), 6);
    assert_eq!(relative_scalar_path_from_flat(&t, 4), vec![1, 1]);
    assert_eq!(relative_scalar_path_from_flat(&t, 0), vec![0, 0]);
    let open = ObjType::Array(Box::new(scalar()), ArraySize::Incomplete);
    assert_eq!(scalar_leaf_width(&open), 0);
    assert_eq!(scalar_leaf_width(&scalar()), 1);
}

#[test]
fn flat_list_fills_in_order() {
    let init = Initialization::new(false);
    let mut diags = Vec::new();
    let entries = vec![InitEntry::Anonymous(expr(1)), InitEntry::Anonymous(expr(2))];
    let (tree, ty) = init.array(entries, &arr(scalar(), 3), &mut diags);
    assert!(diags.is_empty());
    assert_eq!(tree.entries.len(), 2);
    assert_eq!(tree.entries[0].index, 0);
    assert_eq!(leaf_id(&tree.entries[1].node), 2);
    assert!(tree.entries[1].is_implicit);
    assert_eq!(ty, arr(scalar(), 3));
}

#[test]
fn brace_elision_fills_nested_arrays() {
    let init = Initialization::new(false);
    let mut diags = Vec::new();
    let entries = (0..4).map(|i| InitEntry::Anonymous(expr(i))).collect();
    let (tree, _) = init.array(entries, &arr(arr(scalar(), 2), 2), &mut diags);
    assert!(diags.is_empty());
    assert_eq!(tree.entries.len(), 2);
    let row1 = child(&tree.entries[1].node);
    assert_eq!(row1.entries.len(), 2);
    assert_eq!(leaf_id(&row1.entries[1].node), 3);
}

#[test]
fn excess_elements_are_reported() {
    let init = Initialization::new(false);
    let mut diags = Vec::new();
    let entries = (0..3).map(|i| InitEntry::Anonymous(expr(i))).collect();
    let (tree, _) = init.array(entries, &arr(scalar(), 2), &mut diags);
    assert_eq!(tree.entries.len(), 2);
    assert_eq!(diags, vec![InitDiag::ExcessElemInInitializer]);
}

#[test]
fn designators_move_the_cursor_and_duplicates_are_reported() {
    let init = Initialization::new(false);
    let mut diags = Vec::new();
    let entries = vec![
        InitEntry::Designated(vec![DesignatorInput::Index(Some(2))], expr(10)),
        InitEntry::Anonymous(expr(11)),
        InitEntry::Designated(vec![DesignatorInput::Index(Some(2))], expr(12)),
    ];
    let open = ObjType::Array(Box::new(scalar()), ArraySize::Incomplete);
    let (tree, ty) = init.array(entries, &open, &mut diags);
    assert_eq!(diags, vec![InitDiag::DuplicateInitializer(vec![2])]);
    assert_eq!(tree.entries.len(), 2);
    assert_eq!(tree.entries[0].index, 2);
    assert_eq!(leaf_id(&tree.entries[0].node), 12);
    assert!(!tree.entries[0].is_implicit);
    assert_eq!(tree.entries[1].index, 3);
    assert_eq!(tree.max_index, 3);
    assert_eq!(ty, arr(scalar(), 4));
}

#[test]
fn designator_errors() {
    let init = Initialization::new(false);
    let mut diags = Vec::new();
    let entries = vec![
        InitEntry::Designated(vec![DesignatorInput::Index(Some(5))], expr(1)),
        InitEntry::Designated(vec![DesignatorInput::Field], expr(2)),
        InitEntry::Designated(vec![DesignatorInput::Index(Some(0)), DesignatorInput::Index(Some(1))], expr(3)),
        InitEntry::Designated(vec![DesignatorInput::Index(None)], expr(4)),
    ];
    let (tree, _) = init.array(entries, &arr(scalar(), 2), &mut diags);
    assert_eq!(
        diags,
        vec![
            InitDiag::DesignatorIndexOutOfBound(5, 2),
            InitDiag::InvalidDesignator,
            InitDiag::DesignatorOnNonArray(1),
        ]
    );
    assert_eq!(tree.entries.len(), 1);
    assert_eq!(tree.entries[0].index, 5);
}

#[test]
fn braced_elements_and_inferred_lengths() {
    let init = Initialization::new(false);
    let mut diags = Vec::new();
    let inner = |ids: Vec<usize>| InitEntry::Anonymous(InitInput::List(ids.into_iter().map(|i| InitEntry::Anonymous(expr(i))).collect()));
    let entries = vec![inner(vec![1]), inner(vec![2, 3, 4])];
    let t = ObjType::Array(Box::new(ObjType::Array(Box::new(scalar()), ArraySize::Incomplete)), ArraySize::Incomplete);
    let (tree, ty) = init.array(entries, &t, &mut diags);
    assert!(diags.is_empty());
    assert_eq!(ty, arr(arr(scalar(), 3), 2));
    assert_eq!(child(&tree.entries[1].node).entries.len(), 3);
}

#[test]
fn braces_around_a_scalar() {
    let init = Initialization::new(false);
    let mut diags = Vec::new();
    let entries = vec![InitEntry::Anonymous(InitInput::List(vec![InitEntry::Anonymous(expr(7))]))];
    let (tree, _) = init.array(entries, &arr(scalar(), 1), &mut diags);
    assert_eq!(diags, vec![InitDiag::ExcessBraceAroundScalarInitializer]);
    assert_eq!(leaf_id(&tree.entries[0].node), 7);

    let mut diags = Vec::new();
    let entries = vec![InitEntry::Anonymous(InitInput::List(vec![InitEntry::Designated(
        vec![DesignatorInput::Index(Some(0))],
        expr(8),
    )]))];
    let (tree, _) = init.array(entries, &arr(scalar(), 1), &mut diags);
    assert_eq!(
        diags,
        vec![InitDiag::ExcessBraceAroundScalarInitializer, InitDiag::DesignatorForNonAggregate]
    );
    assert!(tree.entries.is_empty());
}

#[test]
fn string_literal_initializes_a_char_array() {
    let init = Initialization::new(false);
    let mut diags = Vec::new();
    let chars = ObjType::Array(Box::new(ObjType::Scalar { is_character: true }), ArraySize::Constant(4));
    let s = InitInput::Expression(ExprId { id: 3, is_string_literal: true });
    let entries = vec![InitEntry::Anonymous(s), InitEntry::Anonymous(expr(4))];
    let (tree, _) = init.array(entries, &arr(chars, 2), &mut diags);
    assert!(diags.is_empty());
    assert_eq!(leaf_id(&tree.entries[0].node), 3);
    assert_eq!(tree.entries[1].index, 1);
}

#[test]
fn top_level_lists() {
    let init = Initialization::new(true);
    let mut diags = Vec::new();
    assert!(init.top_list(vec![InitEntry::Anonymous(expr(1))], None, &mut diags).is_none());
    assert_eq!(diags, vec![InitDiag::DeducedTypeWithBracedInitializer]);
    let mut diags = Vec::new();
    let vla = ObjType::Array(Box::new(scalar()), ArraySize::Variable);
    let (tree, ty) = init.top_list(vec![InitEntry::Anonymous(expr(1))], Some(&vla), &mut diags).unwrap();
    assert_eq!(diags, vec![InitDiag::NonEmptyInitVLA]);
    assert!(tree.is_empty());
    assert_eq!(ty, vla);
    let mut diags = Vec::new();
    let (tree, ty) = init.top_list(vec![InitEntry::Anonymous(expr(1))], Some(&scalar()), &mut diags).unwrap();
    assert!(diags.is_empty());
    assert_eq!(ty, scalar());
    assert_eq!(leaf_id(&tree.entries[0].node), 1);
    let mut diags = Vec::new();
    let (tree, _) = init.list(vec![], &ObjType::Record, &mut diags);
    assert_eq!(diags, vec![InitDiag::UnsupportedFeature]);
    assert_eq!(tree.entries[0].index, usize::MAX);
}

#[test]
fn law_reinitialization_replaces_on_values() {
    let mut tree = ArrayTree::new();
    assert!(!tree.insert_leaf(4, InitNode::Scalar(ExprId { id: 1, is_string_literal: false }), true));
    assert!(tree.insert_leaf(4, InitNode::Scalar(ExprId { id: 2, is_string_literal: false }), false));
    assert_eq!(tree.entries.len(), 1);
    assert_eq!(leaf_id(&tree.entries[0].node), 2);
    assert!(!tree.entries[0].is_implicit);
    assert!(!tree.insert_path(&[1, 2], InitNode::Scalar(ExprId { id: 3, is_string_literal: false }), true));
    assert!(tree.insert_path(&[4, 0], InitNode::Scalar(ExprId { id: 4, is_string_literal: false }), true));
    assert_eq!(tree.max_index, 4);
}

#[test]
fn merging_array_types() {
    let a = ObjType::Array(Box::new(arr(scalar(), 2)), ArraySize::Incomplete);
    let b = arr(arr(scalar(), 5), 3);
    assert_eq!(merge_array_types_max(&a, &b), arr(arr(scalar(), 5), 3));
    assert_eq!(copy_type(&b), b);
}

#[test]
fn string_literals_complete_char_arrays() {
    let chars = ObjType::Array(Box::new(ObjType::Scalar { is_character: true }), ArraySize::Incomplete);
    assert_eq!(
        complete_type_if_eligible(&chars, Some(5)),
        ObjType::Array(Box::new(ObjType::Scalar { is_character: true }), ArraySize::Constant(6))
    );
    assert_eq!(complete_type_if_eligible(&chars, None), chars);
    let ints = ObjType::Array(Box::new(scalar()), ArraySize::Incomplete);
    assert_eq!(complete_type_if_eligible(&ints, Some(5)), ints);
    let fixed = ObjType::Array(Box::new(ObjType::Scalar { is_character: true }), ArraySize::Constant(3));
    assert_eq!(complete_type_if_eligible(&fixed, Some(5)), fixed);
    assert_eq!(check_string_initializer(&fixed, 5), Some(InitDiag::InitializerStringTooLong(5, 3)));
    assert_eq!(check_string_initializer(&fixed, 3), None);
    assert_eq!(check_string_initializer(&chars, 100), None);
}

#[test]
fn designator_indices_are_checked() {
    assert_eq!(designator_index(false, Some(Integral::from(1))), Err(InitDiag::NonIntegerInArraySubscript));
    assert_eq!(designator_index(true, None), Err(InitDiag::ExprNotConstant));
    assert_eq!(designator_index(true, Some(Integral::from(3))), Ok(3));
    assert_eq!(designator_index(true, Some(Integral::from(0u8))), Ok(0));
    assert_eq!(designator_index(true, Some(Integral::from(u64::MAX))), Ok(u64::MAX as usize));
    assert_eq!(
        designator_index(true, Some(Integral::from(-1))),
        Err(InitDiag::DesignatorIndexNegative(Integral::from(-1)))
    );
    assert_eq!(
        designator_index(true, Some(Integral::from(u128::MAX))),
        Err(InitDiag::DesignatorIndexNegative(Integral::from(u128::MAX)))
    );
}
