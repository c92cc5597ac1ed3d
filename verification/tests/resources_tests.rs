use auraed::resources::{CgroupSpec, CpuCpus, CpuQuota, CpuWeight, CpusetMems};
use auraed::validation::ValidationError;

#[test]
fn cpu_cpus_test_validation_success() {
    let cases: Vec<(Vec<i32>, &str)> =
        vec![(vec![], ""), (vec![0], "0"), (vec![1, 2], "1,2"), (vec![1, 4, 5], "1,4,5")];
    for (input, expectation) in cases {
        let input: CpuCpus = CpuCpus::new(input);
        assert_eq!(input.as_string(), expectation);
        assert!(CpuCpus::validate_for_creation(Some(input.into_inner()), "cpu_cpus", None).is_ok());
    }
}

#[test]
fn cpu_quota_test_validation_success() {
    let input: CpuQuota = CpuQuota::new(100000);
    assert!(CpuQuota::validate_for_creation(Some(input.into_inner()), "cpu_quota", None).is_ok());
}

#[test]
fn cpu_quota_test_validation_failure() {
    let input: CpuQuota = CpuQuota::new(2000000);
    assert!(CpuQuota::validate_for_creation(Some(input.into_inner()), "cpu_quota", None).is_err());
}

#[test]
fn cpu_weight_test_validation_success() {
    let input: CpuWeight = CpuWeight::new(100);
    assert!(CpuWeight::validate_for_creation(Some(input.into_inner()), "cpu_weight", None).is_ok());
}

#[test]
fn cpu_weight_test_validation_failure() {
    let input: CpuWeight = CpuWeight::new(1000000);
    assert!(CpuWeight::validate_for_creation(Some(input.into_inner()), "cpu_weight", None).is_err());
}

#[test]
fn quota_and_weight_bounds_are_inclusive() {
    assert!(CpuQuota::validate_for_creation(Some(1000000), "cpu_quota", None).is_ok());
    assert!(CpuQuota::validate_for_creation(Some(1000001), "cpu_quota", None).is_err());
    assert!(CpuWeight::validate_for_creation(Some(10000), "cpu_weight", None).is_ok());
    assert!(CpuWeight::validate_for_creation(Some(10001), "cpu_weight", None).is_err());
}

#[test]
fn maximum_errors_name_the_field_and_limit() {
    match CpuQuota::validate_for_creation(Some(2000000), "cpu_quota", Some("cell")) {
        Err(ValidationError::Maximum { field, maximum, units }) => {
            assert_eq!(field, "cell.cpu_quota");
            assert_eq!(maximum, "1000000");
            assert_eq!(units, "microseconds");
        }
        _ => panic!("expected a maximum error"),
    }
    match CpuWeight::validate_for_creation(Some(1000000), "cpu_weight", None) {
        Err(ValidationError::Maximum { field, maximum, units }) => {
            assert_eq!(field, "cpu_weight");
            assert_eq!(maximum, "10000");
            assert_eq!(units, "units");
        }
        _ => panic!("expected a maximum error"),
    }
}

#[test]
fn missing_values_are_required() {
    match CpuQuota::validate_for_creation(None, "cpu_quota", None) {
        Err(ValidationError::Required { field }) => assert_eq!(field, "cpu_quota"),
        _ => panic!("expected a required error"),
    }
}

#[test]
fn cgroup_settings_carry_the_spec() {
    let spec = CgroupSpec {
        cpu_cpus: CpuCpus::new(vec![0, 2]),
        cpu_quota: CpuQuota::new(50000),
        cpu_weight: CpuWeight::new(100),
        cpuset_mems: CpusetMems::new(String::from("0")),
    };
    let s = spec.settings();
    assert_eq!(s.shares, 100);
    assert_eq!(s.quota, 50000);
    assert_eq!(s.period, 1000000);
    assert_eq!(s.cpus, "0,2");
    assert_eq!(s.mems, "0");
}

#[test]
fn negative_cpu_ids_are_written_with_a_sign() {
    assert_eq!(CpuCpus::new(vec![-1, 3]).as_string(), "-1,3");
}
