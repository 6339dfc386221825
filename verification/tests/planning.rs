use distributor::batch::{
    announcement, collect, find_non_positive, order_for, plan, settle, DistributeError, Mode,
    Notice, Order, Refusal,
};

#[test]
fn direct_plan_reports_the_total() {
    let batch = vec![("a", 10i128), ("b", 20i128)];
    assert_eq!(plan(Mode::Direct, &batch), Ok(vec![Notice::Batch { total: 30 }]));
}

#[test]
fn allowance_plan_reports_each_transfer() {
    let batch = vec![("a", 10i128), ("b", 20i128)];
    assert_eq!(
        plan(Mode::Allowance, &batch),
        Ok(vec![
            Notice::Transfer { index: 0, amount: 10 },
            Notice::Transfer { index: 1, amount: 20 },
        ])
    );
}

#[test]
fn empty_batch_is_accepted() {
    let batch: Vec<(u8, i128)> = Vec::new();
    assert_eq!(plan(Mode::Direct, &batch), Ok(vec![Notice::Batch { total: 0 }]));
    assert_eq!(plan(Mode::Allowance, &batch), Ok(Vec::new()));
    assert_eq!(find_non_positive(&batch), None);
}

#[test]
fn negative_amount_is_rejected() {
    let batch = vec![("a", -5i128)];
    assert_eq!(plan(Mode::Direct, &batch), Err(DistributeError::NonPositiveAmount { index: 0 }));
    assert_eq!(plan(Mode::Allowance, &batch), Err(DistributeError::NonPositiveAmount { index: 0 }));
}

#[test]
fn zero_amount_is_rejected() {
    let batch = vec![(1u32, 7i128), (2u32, 0i128), (3u32, 9i128)];
    assert_eq!(plan(Mode::Direct, &batch), Err(DistributeError::NonPositiveAmount { index: 1 }));
    assert_eq!(plan(Mode::Allowance, &batch), Err(DistributeError::NonPositiveAmount { index: 1 }));
}

#[test]
fn first_of_several_bad_amounts_is_named() {
    let batch = vec![(1u32, 7i128), (2u32, 3i128), (3u32, -1i128), (4u32, 0i128), (5u32, i128::MIN)];
    assert_eq!(find_non_positive(&batch), Some(2));
    assert_eq!(plan(Mode::Direct, &batch), Err(DistributeError::NonPositiveAmount { index: 2 }));
}

#[test]
fn all_positive_batch_has_no_bad_amount() {
    let batch = vec![(1u32, 1i128), (2u32, i128::MAX)];
    assert_eq!(find_non_positive(&batch), None);
}

#[test]
fn total_at_the_limit_is_accepted() {
    let batch = vec![(1u32, i128::MAX - 1), (2u32, 1i128)];
    assert_eq!(plan(Mode::Direct, &batch), Ok(vec![Notice::Batch { total: i128::MAX }]));
}

#[test]
fn total_past_the_limit_is_rejected_in_direct_mode() {
    let batch = vec![(1u32, i128::MAX), (2u32, 1i128)];
    assert_eq!(plan(Mode::Direct, &batch), Err(DistributeError::TotalOverflow));
}

#[test]
fn total_past_the_limit_is_no_matter_in_allowance_mode() {
    let batch = vec![(1u32, i128::MAX), (2u32, 1i128)];
    assert_eq!(
        plan(Mode::Allowance, &batch),
        Ok(vec![
            Notice::Transfer { index: 0, amount: i128::MAX },
            Notice::Transfer { index: 1, amount: 1 },
        ])
    );
}

#[test]
fn bad_amount_is_named_before_an_overflow() {
    let batch = vec![(1u32, i128::MAX), (2u32, i128::MAX), (3u32, -1i128)];
    assert_eq!(plan(Mode::Direct, &batch), Err(DistributeError::NonPositiveAmount { index: 2 }));
}

#[test]
fn settle_keeps_the_plan_when_nothing_was_refused() {
    let notices = vec![Notice::Batch { total: 30 }];
    assert_eq!(settle(notices.clone(), &vec![Ok(()), Ok(())]), Ok(notices.clone()));
    assert_eq!(settle(notices.clone(), &Vec::new()), Ok(notices));
}

#[test]
fn settle_names_the_refused_transfer() {
    let notices = vec![Notice::Batch { total: 30 }];
    assert_eq!(
        settle(notices.clone(), &vec![Ok(()), Err(Refusal::Contract { code: 10 })]),
        Err(DistributeError::TransferFailed { index: 1, reason: Refusal::Contract { code: 10 } })
    );
    assert_eq!(
        settle(notices.clone(), &vec![Err(Refusal::Abort)]),
        Err(DistributeError::TransferFailed { index: 0, reason: Refusal::Abort })
    );
    assert_eq!(
        settle(notices, &vec![Err(Refusal::NoContract)]),
        Err(DistributeError::TransferFailed { index: 0, reason: Refusal::NoContract })
    );
}

#[test]
fn settle_goes_by_the_first_refusal() {
    let notices = vec![Notice::Transfer { index: 0, amount: 5 }];
    assert_eq!(
        settle(notices, &vec![Ok(()), Err(Refusal::Reply), Ok(()), Err(Refusal::Abort)]),
        Err(DistributeError::TransferFailed { index: 1, reason: Refusal::Reply })
    );
}

#[test]
fn direct_order_names_no_spender() {
    let sender = "s";
    let entry = ("a", 10i128);
    assert_eq!(
        order_for(Mode::Direct, &sender, &entry),
        Order { spender: None, from: &"s", to: &"a", amount: 10 }
    );
}

#[test]
fn allowance_order_names_the_sender_as_spender() {
    let sender = "s";
    let entry = ("a", 10i128);
    assert_eq!(
        order_for(Mode::Allowance, &sender, &entry),
        Order { spender: Some(&"s"), from: &"s", to: &"a", amount: 10 }
    );
}

#[test]
fn collect_keeps_the_pairs_in_order() {
    let list = vec![Some(("a", 10i128)), Some(("b", -20i128)), Some(("a", 0i128))];
    assert_eq!(collect(list), Ok(vec![("a", 10), ("b", -20), ("a", 0)]));
    let none: Vec<Option<(u8, i128)>> = Vec::new();
    assert_eq!(collect(none), Ok(Vec::new()));
}

#[test]
fn collect_names_the_first_malformed_entry() {
    let list = vec![Some(("a", 10i128)), None, Some(("b", 5i128)), None];
    assert_eq!(collect(list), Err(DistributeError::MalformedEntry { index: 1 }));
    let list: Vec<Option<(u8, i128)>> = vec![None];
    assert_eq!(collect(list), Err(DistributeError::MalformedEntry { index: 0 }));
}

#[test]
fn batch_notice_is_published_under_the_token() {
    let batch = vec![("a", 10i128), ("b", 20i128)];
    assert_eq!(
        announcement(&Notice::Batch { total: 30 }, &"t", &batch),
        Some(("distribute_batch", &"t", 30))
    );
}

#[test]
fn transfer_notice_is_published_under_its_recipient() {
    let batch = vec![("a", 10i128), ("b", 20i128)];
    assert_eq!(
        announcement(&Notice::Transfer { index: 1, amount: 20 }, &"t", &batch),
        Some(("distributed", &"b", 20))
    );
    assert_eq!(
        announcement(&Notice::Transfer { index: 0, amount: 10 }, &"t", &batch),
        Some(("distributed", &"a", 10))
    );
}

#[test]
fn transfer_notice_past_the_batch_is_not_published() {
    let batch = vec![("a", 10i128), ("b", 20i128)];
    assert_eq!(announcement(&Notice::Transfer { index: 2, amount: 20 }, &"t", &batch), None);
}
