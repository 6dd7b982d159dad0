//! Behavior of the block matcher constructions.

use decor::matcher::BlockMatcher;

#[test]
fn all_matches_every_block() {
    let m = BlockMatcher::<u32>::all();
    assert!(m.matches(&0));
    assert!(m.matches(&42));
    assert!(m.matches(&u32::MAX));
    assert!(m.blacklist);
    assert!(m.blocks.is_empty());
}

#[test]
fn none_matches_no_block() {
    let m = BlockMatcher::<u32>::none();
    assert!(!m.matches(&0));
    assert!(!m.matches(&42));
    assert!(!m.matches(&u32::MAX));
    assert!(!m.blacklist);
    assert!(m.blocks.is_empty());
}

#[test]
fn is_matches_only_that_block() {
    let m = BlockMatcher::<u32>::is(7);
    assert!(m.matches(&7));
    assert!(!m.matches(&6));
    assert!(!m.matches(&8));
    assert!(!m.matches(&0));
}

#[test]
fn is_not_matches_every_other_block() {
    let m = BlockMatcher::<u32>::is_not(7);
    assert!(!m.matches(&7));
    assert!(m.matches(&6));
    assert!(m.matches(&8));
    assert!(m.matches(&0));
}

#[test]
fn among_matches_exactly_the_listed_blocks() {
    let m = BlockMatcher::<u32>::among(&vec![1, 2, 3]);
    assert!(m.matches(&1));
    assert!(m.matches(&2));
    assert!(m.matches(&3));
    assert!(!m.matches(&4));
    assert!(!m.matches(&0));
}

#[test]
fn among_removes_duplicates() {
    let m = BlockMatcher::<u32>::among(&vec![5, 5, 9, 5, 9]);
    assert_eq!(m.blocks.len(), 2);
    assert!(m.matches(&5));
    assert!(m.matches(&9));
    assert!(!m.matches(&6));
}

#[test]
fn exclude_matches_exactly_the_unlisted_blocks() {
    let m = BlockMatcher::<u32>::exclude(&vec![1, 2]);
    assert!(!m.matches(&1));
    assert!(!m.matches(&2));
    assert!(m.matches(&3));
    assert!(m.matches(&0));
}

#[test]
fn matches_is_membership_xor_blacklist() {
    let whitelist = BlockMatcher::<u32> { blocks: vec![1, 2], blacklist: false };
    let blacklist = BlockMatcher::<u32> { blocks: vec![1, 2], blacklist: true };
    for b in [0u32, 1, 2, 3, 99] {
        let member = b == 1 || b == 2;
        assert_eq!(whitelist.matches(&b), member);
        assert_eq!(blacklist.matches(&b), !member);
    }
}
