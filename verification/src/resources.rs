//! The cgroup resource settings of a cell: CPU quota, CPU weight, the CPUs
//! and memory nodes it may use.
use vstd::prelude::*;
use crate::cell_path::{free_of, lemma_join_then_split, split_on};
use crate::text::{i64_decimal, int_decimal, join_with, lemma_int_decimal_chars, lemma_int_decimal_injective, seq_join, views_of};
use crate::validation::{
    is_maximum_error, is_required_error, maximum_value_i64, maximum_value_u64, opt_view,
    required, ValidationError,
};

verus! {

/// The largest CPU quota, in microseconds per second.
pub const MAX_CPU_QUOTA: i64 = 1000000;

/// The largest CPU weight (see cpu.weight in the cgroup v2 documentation).
pub const MAX_CPU_WEIGHT: u64 = 10000;

/// The maximum CPU time of a cell, in microseconds per second.
#[derive(Debug, Clone, Copy)]
pub struct CpuQuota(i64);

impl View for CpuQuota {
    type V = i64;

    closed spec fn view(&self) -> i64 {
        self.0
    }
}

impl CpuQuota {
    /// Wraps a quota without checking it.
    pub fn new(cpu_quota: i64) -> (r: Self)
        ensures
            r@ == cpu_quota,
    {
        Self(cpu_quota)
    }

    /// The quota in microseconds per second.
    pub fn into_inner(self) -> (r: i64)
        ensures
            r == self@,
    {
        self.0
    }

    /// Accepts any present quota.
    pub fn validate(input: Option<i64>, field: &str, parent: Option<&str>) -> (r: Result<Self, ValidationError>)
        ensures
            input matches Some(v) ==> (r matches Ok(q) && q@ == v),
            input is None ==> (r matches Err(e) && is_required_error(e, field@, opt_view(parent))),
    {
        let input = required(input, field, parent)?;
        Ok(Self(input))
    }

    /// Accepts a present quota of at most [MAX_CPU_QUOTA] microseconds.
    pub fn validate_for_creation(input: Option<i64>, field: &str, parent: Option<&str>) -> (r: Result<Self, ValidationError>)
        ensures
            (input matches Some(v) && v <= MAX_CPU_QUOTA) ==> (r matches Ok(q) && q@ == input->0),
            (input matches Some(v) && v > MAX_CPU_QUOTA) ==> (r matches Err(e)
                && is_maximum_error(e, field@, opt_view(parent), MAX_CPU_QUOTA as int, "microseconds"@)),
            input is None ==> (r matches Err(e) && is_required_error(e, field@, opt_view(parent))),
    {
        let input = Self::validate(input, field, parent)?;
        maximum_value_i64(input.0, MAX_CPU_QUOTA, "microseconds", field, parent)?;
        Ok(input)
    }
}

/// The relative CPU weight of a cell.
#[derive(Debug, Clone, Copy)]
pub struct CpuWeight(u64);

impl View for CpuWeight {
    type V = u64;

    closed spec fn view(&self) -> u64 {
        self.0
    }
}

impl CpuWeight {
    /// Wraps a weight without checking it.
    pub fn new(cpu_weight: u64) -> (r: Self)
        ensures
            r@ == cpu_weight,
    {
        Self(cpu_weight)
    }

    /// The weight.
    pub fn into_inner(self) -> (r: u64)
        ensures
            r == self@,
    {
        self.0
    }

    /// Accepts any present weight.
    pub fn validate(input: Option<u64>, field: &str, parent: Option<&str>) -> (r: Result<Self, ValidationError>)
        ensures
            input matches Some(v) ==> (r matches Ok(w) && w@ == v),
            input is None ==> (r matches Err(e) && is_required_error(e, field@, opt_view(parent))),
    {
        let input = required(input, field, parent)?;
        Ok(Self(input))
    }

    /// Accepts a present weight of at most [MAX_CPU_WEIGHT].
    pub fn validate_for_creation(input: Option<u64>, field: &str, parent: Option<&str>) -> (r: Result<Self, ValidationError>)
        ensures
            (input matches Some(v) && v <= MAX_CPU_WEIGHT) ==> (r matches Ok(w) && w@ == input->0),
            (input matches Some(v) && v > MAX_CPU_WEIGHT) ==> (r matches Err(e)
                && is_maximum_error(e, field@, opt_view(parent), MAX_CPU_WEIGHT as int, "units"@)),
            input is None ==> (r matches Err(e) && is_required_error(e, field@, opt_view(parent))),
    {
        let input = Self::validate(input, field, parent)?;
        maximum_value_u64(input.0, MAX_CPU_WEIGHT, "units", field, parent)?;
        Ok(input)
    }
}

/// The CPUs a cell may run on.
#[derive(Debug, Clone)]
pub struct CpuCpus(Vec<i32>);

impl View for CpuCpus {
    type V = Seq<i32>;

    closed spec fn view(&self) -> Seq<i32> {
        self.0@
    }
}

/// The decimal forms of the CPU ids, in order.
pub open spec fn cpu_id_texts(ids: Seq<i32>) -> Seq<Seq<char>> {
    ids.map_values(|id: i32| int_decimal(id as int))
}

/// The list of CPU ids as the cgroup `cpuset.cpus` file takes it: the
/// decimal ids separated by commas.
pub open spec fn cpu_list_text(ids: Seq<i32>) -> Seq<char> {
    seq_join(cpu_id_texts(ids), seq![','])
}

/// The text [CpuCpus::as_string] writes determines the CPU ids: two lists
/// written out the same are the same list.
pub proof fn law_cpu_list_text_determines_ids(a: Seq<i32>, b: Seq<i32>)
    requires
        cpu_list_text(a) == cpu_list_text(b),
    ensures
        a == b,
{
    lemma_cpu_texts_split_back(a);
    lemma_cpu_texts_split_back(b);
    let ta = cpu_id_texts(a);
    let tb = cpu_id_texts(b);
    if a.len() == 0 && b.len() > 0 {
        assert(split_on(Seq::<char>::empty(), ',') == seq![Seq::<char>::empty()]);
        lemma_int_decimal_chars(b[0] as int);
        assert(tb[0] == int_decimal(b[0] as int));
    } else if b.len() == 0 && a.len() > 0 {
        assert(split_on(Seq::<char>::empty(), ',') == seq![Seq::<char>::empty()]);
        lemma_int_decimal_chars(a[0] as int);
        assert(ta[0] == int_decimal(a[0] as int));
    } else if a.len() > 0 {
        assert(ta == tb);
        assert forall|i: int| 0 <= i < a.len() implies a[i] == b[i] by {
            assert(ta[i] == int_decimal(a[i] as int));
            assert(tb[i] == int_decimal(b[i] as int));
            lemma_int_decimal_injective(a[i] as int, b[i] as int);
        }
        assert(a =~= b);
    } else {
        assert(a =~= b);
    }
}

proof fn lemma_cpu_texts_split_back(ids: Seq<i32>)
    ensures
        ids.len() >= 1 ==> split_on(cpu_list_text(ids), ',') == cpu_id_texts(ids),
        ids.len() == 0 ==> cpu_list_text(ids) == Seq::<char>::empty(),
{
    let t = cpu_id_texts(ids);
    if ids.len() >= 1 {
        assert forall|i: int| 0 <= i < t.len() implies free_of(#[trigger] t[i], ',') by {
            lemma_int_decimal_chars(ids[i] as int);
            assert(t[i] == int_decimal(ids[i] as int));
        }
        lemma_join_then_split(t, ',');
    }
}

impl CpuCpus {
    /// Wraps a list of CPU ids without checking it.
    pub fn new(cpu_cpus: Vec<i32>) -> (r: Self)
        ensures
            r@ == cpu_cpus@,
    {
        Self(cpu_cpus)
    }

    /// The CPU ids.
    pub fn into_inner(self) -> (r: Vec<i32>)
        ensures
            r@ == self@,
    {
        self.0
    }

    /// The CPU ids.
    pub fn as_slice(&self) -> (r: &[i32])
        ensures
            r@ == self@,
    {
        self.0.as_slice()
    }

    /// The CPU ids written out and separated by commas.
    pub fn as_string(&self) -> (r: String)
        ensures
            r@ == cpu_list_text(self@),
    {
        let mut parts: Vec<String> = Vec::new();
        let mut i: usize = 0;
        while i < self.0.len()
            invariant
                i <= self.0.len(),
                parts.len() == i,
                forall|k: int| 0 <= k < i ==> (#[trigger] parts@[k])@ == int_decimal(self.0@[k] as int),
            decreases self.0.len() - i,
        {
            parts.push(i64_decimal(self.0[i] as i64));
            i = i + 1;
        }
        let mut sep = String::new();
        crate::text::string_push(&mut sep, ',');
        proof {
            assert(views_of(parts@) =~= cpu_id_texts(self.0@));
        }
        join_with(&parts, sep.as_str())
    }

    /// Accepts any present list.
    pub fn validate(input: Option<Vec<i32>>, field: &str, parent: Option<&str>) -> (r: Result<Self, ValidationError>)
        ensures
            input matches Some(v) ==> (r matches Ok(c) && c@ == v@),
            input is None ==> (r matches Err(e) && is_required_error(e, field@, opt_view(parent))),
    {
        let input = required(input, field, parent)?;
        Ok(Self(input))
    }

    /// New cells take any present list.
    pub fn validate_for_creation(input: Option<Vec<i32>>, field: &str, parent: Option<&str>) -> (r: Result<Self, ValidationError>)
        ensures
            input matches Some(v) ==> (r matches Ok(c) && c@ == v@),
            input is None ==> (r matches Err(e) && is_required_error(e, field@, opt_view(parent))),
    {
        Self::validate(input, field, parent)
    }
}

/// The memory nodes a cell may use, in the text form of `cpuset.mems`.
#[derive(Debug, Clone)]
pub struct CpusetMems(String);

impl View for CpusetMems {
    type V = Seq<char>;

    closed spec fn view(&self) -> Seq<char> {
        self.0@
    }
}

impl CpusetMems {
    /// Wraps a node list without checking it.
    pub fn new(cpuset_mems: String) -> (r: Self)
        ensures
            r@ == cpuset_mems@,
    {
        Self(cpuset_mems)
    }

    /// The node list.
    pub fn into_inner(self) -> (r: String)
        ensures
            r@ == self@,
    {
        self.0
    }

    /// The node list as a string slice.
    pub fn as_str(&self) -> (r: &str)
        ensures
            r@ == self@,
    {
        self.0.as_str()
    }
}

/// The resource settings of a cell's cgroup.
#[derive(Debug, Clone)]
pub struct CgroupSpec {
    pub cpu_cpus: CpuCpus,
    pub cpu_quota: CpuQuota,
    pub cpu_weight: CpuWeight,
    pub cpuset_mems: CpusetMems,
}

/// The CPU scheduling period, in microseconds: the quota is given per second.
pub const MICROSECONDS_PER_SECOND: u64 = 1000000;

/// What the cgroup builder is told for a cell: `cpu.weight`, `cpu.max`
/// (quota and period), `cpuset.cpus` and `cpuset.mems`.
#[derive(Debug, Clone)]
pub struct CgroupSettings {
    pub shares: u64,
    pub quota: i64,
    pub period: u64,
    pub cpus: String,
    pub mems: String,
}

/// Whether `s` are the builder settings of `spec`.
pub open spec fn is_settings_of(s: CgroupSettings, spec: CgroupSpec) -> bool {
    &&& s.shares == spec.cpu_weight@
    &&& s.quota == spec.cpu_quota@
    &&& s.period == MICROSECONDS_PER_SECOND
    &&& s.cpus@ == cpu_list_text(spec.cpu_cpus@)
    &&& s.mems@ == spec.cpuset_mems@
}

impl CgroupSpec {
    /// The builder settings for this spec: the weight as shares, the quota
    /// over a period of one second, the CPU list and the memory nodes.
    pub fn settings(&self) -> (r: CgroupSettings)
        ensures
            is_settings_of(r, *self),
    {
        CgroupSettings {
            shares: self.cpu_weight.into_inner(),
            quota: self.cpu_quota.into_inner(),
            period: MICROSECONDS_PER_SECOND,
            cpus: self.cpu_cpus.as_string(),
            mems: String::from_str(self.cpuset_mems.as_str()),
        }
    }
}

} // verus!
