//! Tests of the encoded operations.

use mpp_support::encoded_ops::{
    AggFuncType, DimensionJoinRequest, EncodedBloomFilterHint, EncodedFilterRequest,
    EncodedGroupByRequest, EncodedOpsRequest, EncodedStarJoinRequest, EncodingHint,
};

#[test]
fn test_encoding_hint_default() {
    let hint = EncodingHint::default();
    assert_eq!(hint.max_cardinality, 4096);
    assert!(!hint.enable_encoded_filter);
    assert!(!hint.enable_encoded_group_by);
    assert!(!hint.enable_encoded_bloom_filter);
    assert!(!hint.has_any_encoded_ops());
    assert!(hint.dict_eligible_columns.is_empty());
}

#[test]
fn test_encoding_hint_with_ops() {
    let hint = EncodingHint {
        dict_eligible_columns: vec![1, 2, 3],
        max_cardinality: 2048,
        enable_encoded_filter: true,
        enable_encoded_group_by: true,
        enable_encoded_bloom_filter: false,
    };
    assert!(hint.has_any_encoded_ops());
    assert!(hint.is_column_eligible(1));
    assert!(hint.is_column_eligible(2));
    assert!(hint.is_column_eligible(3));
    assert!(!hint.is_column_eligible(4));
}

#[test]
fn test_bloom_filter_hint() {
    let hint = EncodedBloomFilterHint {
        column_id: 5,
        hash_values: vec![123, 456, 789],
        num_bits: 1024,
        num_hash_funcs: 3,
    };
    assert_eq!(hint.column_id, 5);
    // Bloom filter should never return false negative
    assert!(hint.might_contain(123));
}

#[test]
fn test_encoded_filter_request() {
    let req = EncodedFilterRequest {
        column_id: 10,
        filter_type: "eq".to_string(),
        filter_values: vec![b"hello".to_vec()],
        can_use_encoded_path: true,
    };
    assert_eq!(req.column_id, 10);
    assert_eq!(req.filter_type, "eq");
    assert!(req.can_use_encoded_path);
}

#[test]
fn test_encoded_group_by_request() {
    let req = EncodedGroupByRequest {
        group_by_column_ids: vec![1, 2],
        agg_funcs: vec![AggFuncType::Sum, AggFuncType::Count],
        agg_column_ids: vec![3, 0],
        estimated_groups: 100,
        can_use_encoded_path: true,
    };
    assert_eq!(req.group_by_column_ids.len(), 2);
    assert_eq!(req.agg_funcs.len(), 2);
    assert_eq!(req.estimated_groups, 100);
    assert!(req.can_use_encoded_path);
}

#[test]
fn test_encoded_star_join_request() {
    let req = EncodedStarJoinRequest {
        fact_table_id: 1,
        dimension_joins: vec![
            DimensionJoinRequest {
                dimension_table_id: 2,
                fact_join_column_id: 10,
                dim_join_column_id: 1,
                dim_group_column_id: 2,
                estimated_dim_size: 500,
            },
            DimensionJoinRequest {
                dimension_table_id: 3,
                fact_join_column_id: 11,
                dim_join_column_id: 1,
                dim_group_column_id: 3,
                estimated_dim_size: 100,
            },
        ],
        has_group_by_above: true,
        can_use_fused_path: true,
    };
    assert_eq!(req.fact_table_id, 1);
    assert_eq!(req.dimension_joins.len(), 2);
    assert!(req.has_group_by_above);
    assert!(req.can_use_fused_path);
}

#[test]
fn test_encoded_ops_request_empty() {
    let req = EncodedOpsRequest::new();
    assert!(!req.has_any_ops());
    assert_eq!(req.active_phases(), 0);
}

#[test]
fn test_encoded_ops_request_full() {
    let req = EncodedOpsRequest {
        encoding_hint: Some(EncodingHint {
            dict_eligible_columns: vec![1],
            max_cardinality: 4096,
            enable_encoded_filter: true,
            enable_encoded_group_by: true,
            enable_encoded_bloom_filter: false,
        }),
        filter_requests: vec![EncodedFilterRequest {
            column_id: 1,
            filter_type: "eq".to_string(),
            filter_values: vec![],
            can_use_encoded_path: true,
        }],
        group_by_request: Some(EncodedGroupByRequest {
            group_by_column_ids: vec![1],
            agg_funcs: vec![AggFuncType::Sum],
            agg_column_ids: vec![2],
            estimated_groups: 50,
            can_use_encoded_path: true,
        }),
        star_join_request: Some(EncodedStarJoinRequest {
            fact_table_id: 1,
            dimension_joins: vec![],
            has_group_by_above: true,
            can_use_fused_path: true,
        }),
    };
    assert!(req.has_any_ops());
    assert_eq!(req.active_phases(), 4);
}

#[test]
fn test_agg_func_type_clone() {
    let func = AggFuncType::Sum;
    let cloned = func.clone();
    assert_eq!(func, cloned);
}

#[test]
fn test_hint_passthrough_fidelity() {
    // Verify encoding hint is bit-identical after clone (simulating relay).
    let original = EncodingHint {
        dict_eligible_columns: vec![1, 5, 99, -1, i64::MAX],
        max_cardinality: 2048,
        enable_encoded_filter: true,
        enable_encoded_group_by: false,
        enable_encoded_bloom_filter: true,
    };
    let relayed = original.clone();
    assert_eq!(original, relayed, "hint must be identical after clone/relay");
}

#[test]
fn test_partial_encoding_capabilities() {
    // Phase 1 only: encoding hint present but no filter/groupby/star-join.
    let req = EncodedOpsRequest {
        encoding_hint: Some(EncodingHint {
            dict_eligible_columns: vec![1],
            max_cardinality: 4096,
            enable_encoded_filter: false,
            enable_encoded_group_by: false,
            enable_encoded_bloom_filter: false,
        }),
        filter_requests: vec![],
        group_by_request: None,
        star_join_request: None,
    };
    assert!(req.has_any_ops());
    assert_eq!(req.active_phases(), 1);
    // The hint itself reports no encoded ops enabled.
    assert!(!req.encoding_hint.as_ref().unwrap().has_any_encoded_ops());
}

#[test]
fn test_large_filter_list() {
    // >100 IN-list values in encoded filter hint — verify no truncation.
    let large_values: Vec<Vec<u8>> = (0..200)
        .map(|i| format!("val_{}", i).into_bytes())
        .collect();
    let req = EncodedFilterRequest {
        column_id: 42,
        filter_type: "in".to_string(),
        filter_values: large_values.clone(),
        can_use_encoded_path: true,
    };
    assert_eq!(req.filter_values.len(), 200);
    assert_eq!(req.filter_values[0], b"val_0");
    assert_eq!(req.filter_values[199], b"val_199");
}

#[test]
fn test_full_request_clone_fidelity() {
    // Full 4-phase request must survive clone without data loss.
    let req = EncodedOpsRequest {
        encoding_hint: Some(EncodingHint {
            dict_eligible_columns: vec![1, 2, 3],
            max_cardinality: 1024,
            enable_encoded_filter: true,
            enable_encoded_group_by: true,
            enable_encoded_bloom_filter: true,
        }),
        filter_requests: vec![
            EncodedFilterRequest {
                column_id: 1,
                filter_type: "eq".to_string(),
                filter_values: vec![b"active".to_vec()],
                can_use_encoded_path: true,
            },
            EncodedFilterRequest {
                column_id: 2,
                filter_type: "in".to_string(),
                filter_values: vec![b"a".to_vec(), b"b".to_vec(), b"c".to_vec()],
                can_use_encoded_path: true,
            },
        ],
        group_by_request: Some(EncodedGroupByRequest {
            group_by_column_ids: vec![1],
            agg_funcs: vec![AggFuncType::Sum, AggFuncType::Count, AggFuncType::Min, AggFuncType::Max],
            agg_column_ids: vec![3, 0, 3, 3],
            estimated_groups: 50,
            can_use_encoded_path: true,
        }),
        star_join_request: Some(EncodedStarJoinRequest {
            fact_table_id: 100,
            dimension_joins: vec![
                DimensionJoinRequest {
                    dimension_table_id: 200,
                    fact_join_column_id: 10,
                    dim_join_column_id: 1,
                    dim_group_column_id: 2,
                    estimated_dim_size: 500,
                },
            ],
            has_group_by_above: true,
            can_use_fused_path: true,
        }),
    };
    let cloned = req.clone();
    assert_eq!(req, cloned);
    assert_eq!(cloned.active_phases(), 4);
    assert_eq!(cloned.filter_requests.len(), 2);
    assert_eq!(cloned.filter_requests[1].filter_values.len(), 3);
}

#[test]
fn test_all_agg_func_types() {
    // Verify all AggFuncType variants are distinct.
    let funcs = vec![
        AggFuncType::Sum,
        AggFuncType::Count,
        AggFuncType::Min,
        AggFuncType::Max,
        AggFuncType::Any,
    ];
    for i in 0..funcs.len() {
        for j in (i + 1)..funcs.len() {
            assert_ne!(funcs[i], funcs[j], "AggFuncType variants must be distinct");
        }
    }
}

fn bloom(num_bits: u32, num_hash_funcs: u32) -> EncodedBloomFilterHint {
    EncodedBloomFilterHint { column_id: 1, hash_values: vec![9], num_bits, num_hash_funcs }
}

fn filter(column_id: i64, filter_type: &str, values: Vec<Vec<u8>>) -> EncodedFilterRequest {
    EncodedFilterRequest {
        column_id,
        filter_type: filter_type.to_string(),
        filter_values: values,
        can_use_encoded_path: true,
    }
}

fn group_by(funcs: Vec<AggFuncType>) -> EncodedGroupByRequest {
    EncodedGroupByRequest {
        group_by_column_ids: vec![1],
        agg_funcs: funcs,
        agg_column_ids: vec![3],
        estimated_groups: 50,
        can_use_encoded_path: true,
    }
}

fn star_join(dim_size: u64) -> EncodedStarJoinRequest {
    EncodedStarJoinRequest {
        fact_table_id: 100,
        dimension_joins: vec![DimensionJoinRequest {
            dimension_table_id: 200,
            fact_join_column_id: 10,
            dim_join_column_id: 1,
            dim_group_column_id: 2,
            estimated_dim_size: dim_size,
        }],
        has_group_by_above: true,
        can_use_fused_path: true,
    }
}

#[test]
fn new_hint_is_the_default_hint() {
    assert_eq!(EncodingHint::new(), EncodingHint::default());
    assert_eq!(EncodedOpsRequest::new(), EncodedOpsRequest::default());
}

#[test]
fn no_column_is_eligible_by_default() {
    let hint = EncodingHint::new();
    for col_id in [i64::MIN, -1, 0, 1, i64::MAX] {
        assert!(!hint.is_column_eligible(col_id));
    }
}

#[test]
fn each_flag_enables_encoded_ops() {
    for flag in 0..3 {
        let mut hint = EncodingHint::new();
        hint.enable_encoded_filter = flag == 0;
        hint.enable_encoded_group_by = flag == 1;
        hint.enable_encoded_bloom_filter = flag == 2;
        assert!(hint.has_any_encoded_ops());
    }
}

#[test]
fn hints_that_differ_in_a_field_are_not_equal() {
    let hint = EncodingHint::new();
    let mut other = hint.clone();
    other.dict_eligible_columns = vec![1];
    assert_ne!(hint, other);
    let mut longer = other.clone();
    longer.dict_eligible_columns.push(2);
    assert_ne!(other, longer);
    let mut other = hint.clone();
    other.max_cardinality = 1;
    assert_ne!(hint, other);
    let mut other = hint.clone();
    other.enable_encoded_filter = true;
    assert_ne!(hint, other);
    let mut other = hint.clone();
    other.enable_encoded_group_by = true;
    assert_ne!(hint, other);
    let mut other = hint.clone();
    other.enable_encoded_bloom_filter = true;
    assert_ne!(hint, other);
}

#[test]
fn bloom_filter_never_rules_a_value_out() {
    for num_bits in [0, 1, 7, 8, 9, 1024, u32::MAX] {
        for num_hash_funcs in [0, 1, 3] {
            let hint = bloom(num_bits, num_hash_funcs);
            for hash in [0, 1, 9, u64::MAX] {
                assert!(hint.might_contain(hash));
            }
        }
    }
}

#[test]
fn bloom_filter_probes_by_double_hashing() {
    // The first probe is the hash itself, reduced to the size of the filter.
    assert_eq!(bloom(5, 1).probe_position(7, 0), 2);
    // 1 + 2 * 2^32 = 8589934593
    assert_eq!(bloom(1000, 1).probe_position(1, 2), 593);
    // Exchanging the halves of 0x1_0000_0000 gives 1.
    assert_eq!(bloom(u32::MAX, 1).probe_position(0x1_0000_0000, 4), 5);
    // 2^64 - 1 + 2 * (2^64 - 1) wraps to 2^64 - 3 = 18446744073709551613.
    assert_eq!(bloom(1000, 1).probe_position(u64::MAX, 2), 613);
}

#[test]
fn bloom_filter_probes_fall_into_the_filter() {
    for num_bits in [1, 7, 8, 9, 1024, u32::MAX] {
        for i in [0, 1, 2, 1000, u32::MAX] {
            for hash in [0, 1, 0x1234_5678_9ABC_DEF0, u64::MAX] {
                let bit_pos = bloom(num_bits, 1).probe_position(hash, i);
                assert!(bit_pos < num_bits as u64);
                assert!(bit_pos / 8 < (num_bits as u64 + 7) / 8);
            }
        }
    }
}

#[test]
fn bloom_filter_hints_compare_by_their_fields() {
    let hint = bloom(8, 2);
    assert_eq!(hint, hint.clone());
    assert_ne!(hint, bloom(9, 2));
    assert_ne!(hint, bloom(8, 3));
    let mut other = hint.clone();
    other.column_id = 2;
    assert_ne!(hint, other);
    let mut other = hint.clone();
    other.hash_values[0] = 10;
    assert_ne!(hint, other);
}

#[test]
fn filters_compare_by_their_fields() {
    let request = filter(1, "in", vec![b"a".to_vec(), b"b".to_vec()]);
    assert_eq!(request, request.clone());
    assert_ne!(request, filter(2, "in", vec![b"a".to_vec(), b"b".to_vec()]));
    assert_ne!(request, filter(1, "eq", vec![b"a".to_vec(), b"b".to_vec()]));
    assert_ne!(request, filter(1, "in", vec![b"a".to_vec()]));
    assert_ne!(request, filter(1, "in", vec![b"a".to_vec(), b"c".to_vec()]));
    assert_ne!(request, filter(1, "in", vec![b"a".to_vec(), b"bb".to_vec()]));
    let mut other = request.clone();
    other.can_use_encoded_path = false;
    assert_ne!(request, other);
}

#[test]
fn group_bys_and_star_joins_compare_by_their_fields() {
    let request = group_by(vec![AggFuncType::Sum]);
    assert_eq!(request, request.clone());
    assert_ne!(request, group_by(vec![AggFuncType::Any]));
    assert_ne!(request, group_by(vec![]));
    let mut other = request.clone();
    other.agg_column_ids[0] = 4;
    assert_ne!(request, other);
    let mut other = request.clone();
    other.group_by_column_ids[0] = 4;
    assert_ne!(request, other);
    let mut other = request.clone();
    other.estimated_groups = 51;
    assert_ne!(request, other);

    let request = star_join(500);
    assert_eq!(request, request.clone());
    assert_ne!(request, star_join(501));
    let mut other = request.clone();
    other.dimension_joins[0].dim_group_column_id = 3;
    assert_ne!(request, other);
    let mut other = request.clone();
    other.fact_table_id = 101;
    assert_ne!(request, other);
    let mut other = request.clone();
    other.has_group_by_above = false;
    assert_ne!(request, other);
}

#[test]
fn every_agg_func_type_equals_its_clone() {
    let funcs = vec![
        AggFuncType::Sum,
        AggFuncType::Count,
        AggFuncType::Min,
        AggFuncType::Max,
        AggFuncType::Any,
    ];
    for func in &funcs {
        assert_eq!(func.clone(), *func);
    }
}

#[test]
fn phases_are_counted_one_by_one() {
    for mask in 0..16u32 {
        let mut request = EncodedOpsRequest::new();
        if mask & 1 != 0 {
            request.encoding_hint = Some(EncodingHint::new());
        }
        if mask & 2 != 0 {
            // However many filters there are, they are one phase.
            request.filter_requests = vec![filter(1, "eq", vec![]), filter(2, "ne", vec![])];
        }
        if mask & 4 != 0 {
            request.group_by_request = Some(group_by(vec![]));
        }
        if mask & 8 != 0 {
            request.star_join_request = Some(star_join(1));
        }
        assert_eq!(request.active_phases(), mask.count_ones());
        assert_eq!(request.has_any_ops(), request.active_phases() > 0);
        assert_eq!(request == EncodedOpsRequest::new(), mask == 0);
        assert_eq!(request, request.clone());
        assert_eq!(request.clone().active_phases(), request.active_phases());
    }
}

#[test]
fn requests_that_differ_in_a_phase_are_not_equal() {
    let mut request = EncodedOpsRequest::new();
    request.encoding_hint = Some(EncodingHint::new());
    request.filter_requests = vec![filter(1, "eq", vec![])];
    request.group_by_request = Some(group_by(vec![]));
    request.star_join_request = Some(star_join(1));
    let mut other = request.clone();
    other.encoding_hint = None;
    assert_ne!(request, other);
    let mut other = request.clone();
    other.filter_requests[0].column_id = 2;
    assert_ne!(request, other);
    let mut other = request.clone();
    other.filter_requests.push(filter(2, "eq", vec![]));
    assert_ne!(request, other);
    let mut other = request.clone();
    other.group_by_request = Some(group_by(vec![AggFuncType::Min]));
    assert_ne!(request, other);
    let mut other = request.clone();
    other.star_join_request = Some(star_join(2));
    assert_ne!(request, other);
}
