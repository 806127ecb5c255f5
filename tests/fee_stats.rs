use lite_rpc_relay::calculate_supp_stats;

#[test]
fn test_calculate_supp_info() {
    let prio_fees_in_block = vec![(2, 2), (4, 4), (5, 5), (3, 3), (1, 1)];
    let supp_info = calculate_supp_stats(&prio_fees_in_block);
    assert_eq!(supp_info.p_min, 1);
    assert_eq!(supp_info.p_median, 3);
    assert_eq!(supp_info.p_75, 4);
    assert_eq!(supp_info.p_90, 5);
    assert_eq!(supp_info.p_max, 5);
}

#[test]
fn test_statisticshowto() {
    let prio_fees_in_block = vec![
        (30, 1),
        (33, 2),
        (43, 3),
        (53, 4),
        (56, 5),
        (67, 6),
        (68, 7),
        (72, 8),
    ];
    let supp_info = calculate_supp_stats(&prio_fees_in_block);
    println!("supp_info.dist_fee {:?}", &supp_info.dist_fee_by_index);
    assert_eq!(supp_info.dist_fee_by_index[5], ("p25".to_string(), 43));
}

#[test]
fn test_large_list() {
    let prio_fees_in_block: Vec<(u64, u64)> = (0..1000).map(|x| (x, x)).collect();
    let supp_info = calculate_supp_stats(&prio_fees_in_block);
    assert_eq!(supp_info.dist_fee_by_index[19], ("p95".to_string(), 950));
}

#[test]
fn empty_block_counts_as_one_zero_entry() {
    let supp_info = calculate_supp_stats(&vec![]);
    assert_eq!(supp_info.p_min, 0);
    assert_eq!(supp_info.p_max, 0);
    assert_eq!(supp_info.dist_fee_by_index.len(), 21);
    assert_eq!(supp_info.dist_fee_by_index[0], ("p0".to_string(), 0));
    assert_eq!(supp_info.dist_fee_by_index[20], ("p100".to_string(), 0));
    assert_eq!(supp_info.p_median_cu, 0);
    assert_eq!(supp_info.p_95_cu, 0);
    assert!(supp_info.dist_fee_by_cu.is_empty());
}

#[test]
fn compute_unit_percentiles() {
    let prio_fees_in_block = vec![
        (72, 8),
        (30, 1),
        (56, 5),
        (33, 2),
        (68, 7),
        (43, 3),
        (67, 6),
        (53, 4),
    ];
    let supp_info = calculate_supp_stats(&prio_fees_in_block);
    // 36 units: running sums 1, 3, 6, 10, 15, 21, 28, 36
    assert_eq!(supp_info.p_median_cu, 67);
    assert_eq!(supp_info.p_75_cu, 68);
    assert_eq!(supp_info.p_90_cu, 72);
    assert_eq!(supp_info.p_95_cu, 72);
    assert_eq!(supp_info.dist_fee_by_cu.len(), 20);
    assert_eq!(supp_info.dist_fee_by_cu[0], ("p0".to_string(), 30));
    assert_eq!(supp_info.dist_fee_by_cu[10], ("p50".to_string(), 67));
    assert_eq!(supp_info.dist_fee_by_cu[19], ("p95".to_string(), 72));
    assert_eq!(supp_info.p_min, 30);
    assert_eq!(supp_info.p_median, 56);
    assert_eq!(supp_info.p_max, 72);
}

#[test]
fn index_labels_run_in_steps_of_five() {
    let prio_fees_in_block: Vec<(u64, u64)> = (0..20).map(|x| (100 - x, 1)).collect();
    let supp_info = calculate_supp_stats(&prio_fees_in_block);
    for (k, (label, fee)) in supp_info.dist_fee_by_index.iter().enumerate() {
        assert_eq!(label, &format!("p{}", 5 * k));
        if k < 20 {
            assert_eq!(*fee, 81 + k as u64);
        } else {
            assert_eq!(*fee, 100);
        }
    }
}

#[test]
fn equal_fees_give_the_same_statistics_in_any_order() {
    let a = calculate_supp_stats(&vec![(5, 1), (5, 9), (2, 3), (7, 2)]);
    let b = calculate_supp_stats(&vec![(7, 2), (5, 9), (5, 1), (2, 3)]);
    assert_eq!(a.dist_fee_by_index, b.dist_fee_by_index);
    assert_eq!(a.dist_fee_by_cu, b.dist_fee_by_cu);
    assert_eq!(a.p_median_cu, b.p_median_cu);
    assert_eq!(a.p_median_cu, 5);
}

#[test]
fn huge_compute_units_do_not_overflow() {
    let supp_info = calculate_supp_stats(&vec![(1, u64::MAX), (2, u64::MAX), (3, u64::MAX)]);
    assert_eq!(supp_info.p_median_cu, 2);
    assert_eq!(supp_info.p_95_cu, 3);
}
