use mmm::royalty::pay_creator_fees;

#[test]
fn royalty_split_by_share_rounds_down() {
    let (pays, total) = pay_creator_fees(46_728, &vec![60, 30, 10]);
    assert_eq!(pays, vec![28_036, 14_018, 4_672]);
    assert_eq!(total, 46_726);
}

#[test]
fn royalty_split_clips_last_creator() {
    let (pays, total) = pay_creator_fees(1_000, &vec![70, 50]);
    assert_eq!(pays, vec![700, 300]);
    assert_eq!(total, 1_000);
}

#[test]
fn royalty_split_without_creators_pays_nothing() {
    let (pays, total) = pay_creator_fees(1_000, &vec![]);
    assert!(pays.is_empty());
    assert_eq!(total, 0);
}
