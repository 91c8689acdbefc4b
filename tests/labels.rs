use nes_disassembler::labeller::{Labeller, Role};

#[test]
fn request_is_idempotent() {
    let mut labeller = Labeller::new();
    let first = labeller.request_label(Role::BranchTarget, 0x8010);
    let second = labeller.request_label(Role::BranchTarget, 0x8010);
    assert_eq!(first, "branch_target_0");
    assert_eq!(first, second);
    let next = labeller.request_label(Role::BranchTarget, 0x8020);
    assert_eq!(next, "branch_target_1");
}

#[test]
fn roles_give_distinct_labels() {
    let mut labeller = Labeller::new();
    let b = labeller.request_label_for_branch_target(0x9000);
    let j = labeller.request_label_for_jump_target(0x9000);
    let s = labeller.request_label_for_subroutine(0x9000);
    assert_eq!(b, "branch_target_0");
    assert_eq!(j, "jump_target_0");
    assert_eq!(s, "subroutine_0");
    assert_ne!(b, j);
    assert_ne!(j, s);
    assert_ne!(b, s);
}

#[test]
fn numbering_is_per_role_and_sequential() {
    let mut labeller = Labeller::new();
    assert_eq!(labeller.request_label_for_subroutine(5), "subroutine_0");
    assert_eq!(labeller.request_label_for_jump_target(7), "jump_target_0");
    assert_eq!(labeller.request_label_for_subroutine(6), "subroutine_1");
    assert_eq!(labeller.request_label_for_subroutine(5), "subroutine_0");
    assert_eq!(labeller.request_label_for_jump_target(5), "jump_target_1");
    assert_eq!(labeller.request_label_for_subroutine(7), "subroutine_2");
}

#[test]
fn numbers_beyond_nine_use_several_digits() {
    let mut labeller = Labeller::new();
    for a in 0..12usize {
        labeller.request_label_for_branch_target(a);
    }
    assert_eq!(labeller.get_branch_target_label(10).map(|s| s.as_str()), Some("branch_target_10"));
    assert_eq!(labeller.get_branch_target_label(11).map(|s| s.as_str()), Some("branch_target_11"));
}

#[test]
fn lookup_allocates_nothing() {
    let mut labeller = Labeller::new();
    assert_eq!(labeller.lookup(Role::JumpTarget, 0x8000), None);
    assert_eq!(labeller.get_jump_target_label(0x8000), None);
    assert_eq!(labeller.request_label(Role::JumpTarget, 0x8001), "jump_target_0");
    assert_eq!(labeller.lookup(Role::JumpTarget, 0x8001).map(|s| s.as_str()), Some("jump_target_0"));
    assert_eq!(labeller.lookup(Role::Subroutine, 0x8001), None);
    assert_eq!(labeller.get_subroutine_label(0x8001), None);
    assert_eq!(labeller.get_branch_target_label(0x8001), None);
}

#[test]
fn any_address_is_accepted() {
    let mut labeller = Labeller::new();
    assert_eq!(labeller.request_label(Role::Subroutine, usize::MAX), "subroutine_0");
    assert_eq!(labeller.request_label(Role::Subroutine, 0), "subroutine_1");
}
