//! Cgroup limits: which CPU and memory settings a runtime spec's resources ask
//! for. A limit that is absent or zero is left unset.

use vstd::prelude::*;

verus! {

/// CPU limits of a runtime spec.
#[derive(Clone, Copy, Debug)]
pub struct CpuLimits {
    pub shares: Option<u64>,
    pub period: Option<u64>,
    pub quota: Option<i64>,
    pub realtime_runtime: Option<i64>,
    pub realtime_period: Option<u64>,
}

/// Memory limits of a runtime spec.
#[derive(Clone, Copy, Debug)]
pub struct MemoryLimits {
    pub limit: Option<i64>,
    pub swappiness: Option<u64>,
    pub kernel: Option<i64>,
    pub kernel_tcp: Option<i64>,
    pub reservation: Option<i64>,
    pub disable_oom_killer: Option<bool>,
}

/// The resources of a runtime spec.
#[derive(Clone, Copy, Debug)]
pub struct Resources {
    pub cpu: Option<CpuLimits>,
    pub memory: Option<MemoryLimits>,
}

/// One setting of the CPU cgroup.
#[derive(PartialEq, Eq, Structural, Clone, Copy, Debug)]
pub enum CpuSetting {
    Shares(u64),
    CfsPeriodUs(u64),
    CfsQuotaUs(i64),
    RtRuntimeUs(i64),
    RtPeriodUs(u64),
}

/// One setting of the memory cgroup.
#[derive(PartialEq, Eq, Structural, Clone, Copy, Debug)]
pub enum MemorySetting {
    LimitInBytes(i64),
    Swappiness(u64),
    KmemLimitInBytes(i64),
    KmemTcpLimitInBytes(i64),
    SoftLimitInBytes(i64),
    DisableOomKiller(bool),
}

/// The setting `f(v)` when `v` is present and non-zero, else nothing.
pub open spec fn set_u64<T>(v: Option<u64>, f: spec_fn(u64) -> T) -> Seq<T> {
    if v is Some && v->0 != 0 {
        seq![f(v->0)]
    } else {
        Seq::empty()
    }
}

/// The setting `f(v)` when `v` is present and non-zero, else nothing.
pub open spec fn set_i64<T>(v: Option<i64>, f: spec_fn(i64) -> T) -> Seq<T> {
    if v is Some && v->0 != 0 {
        seq![f(v->0)]
    } else {
        Seq::empty()
    }
}

/// The CPU settings that limits ask for, in order: shares, CFS period, CFS
/// quota, real-time runtime, real-time period.
pub open spec fn cpu_settings_of(l: CpuLimits) -> Seq<CpuSetting> {
    set_u64(l.shares, |v: u64| CpuSetting::Shares(v)) + set_u64(
        l.period,
        |v: u64| CpuSetting::CfsPeriodUs(v),
    ) + set_i64(l.quota, |v: i64| CpuSetting::CfsQuotaUs(v)) + set_i64(
        l.realtime_runtime,
        |v: i64| CpuSetting::RtRuntimeUs(v),
    ) + set_u64(l.realtime_period, |v: u64| CpuSetting::RtPeriodUs(v))
}

/// The memory settings that limits ask for, in order: limit, swappiness,
/// kernel limit, kernel TCP limit, soft limit, then the OOM-killer switch,
/// which is set whenever it is present.
pub open spec fn memory_settings_of(l: MemoryLimits) -> Seq<MemorySetting> {
    set_i64(l.limit, |v: i64| MemorySetting::LimitInBytes(v)) + set_u64(
        l.swappiness,
        |v: u64| MemorySetting::Swappiness(v),
    ) + set_i64(l.kernel, |v: i64| MemorySetting::KmemLimitInBytes(v)) + set_i64(
        l.kernel_tcp,
        |v: i64| MemorySetting::KmemTcpLimitInBytes(v),
    ) + set_i64(l.reservation, |v: i64| MemorySetting::SoftLimitInBytes(v)) + (
    match l.disable_oom_killer {
        Some(b) => seq![MemorySetting::DisableOomKiller(b)],
        None => Seq::empty(),
    })
}

/// The CPU settings that limits ask for.
pub fn cpu_settings(l: &CpuLimits) -> (r: Vec<CpuSetting>)
    ensures
        r@ == cpu_settings_of(*l),
{
    let mut r: Vec<CpuSetting> = Vec::new();
    if let Some(v) = l.shares {
        if v != 0 {
            r.push(CpuSetting::Shares(v));
        }
    }
    let ghost a = set_u64(l.shares, |v: u64| CpuSetting::Shares(v));
    assert(r@ =~= a);
    if let Some(v) = l.period {
        if v != 0 {
            r.push(CpuSetting::CfsPeriodUs(v));
        }
    }
    let ghost b = a + set_u64(l.period, |v: u64| CpuSetting::CfsPeriodUs(v));
    assert(r@ =~= b);
    if let Some(v) = l.quota {
        if v != 0 {
            r.push(CpuSetting::CfsQuotaUs(v));
        }
    }
    let ghost c = b + set_i64(l.quota, |v: i64| CpuSetting::CfsQuotaUs(v));
    assert(r@ =~= c);
    if let Some(v) = l.realtime_runtime {
        if v != 0 {
            r.push(CpuSetting::RtRuntimeUs(v));
        }
    }
    let ghost d = c + set_i64(l.realtime_runtime, |v: i64| CpuSetting::RtRuntimeUs(v));
    assert(r@ =~= d);
    if let Some(v) = l.realtime_period {
        if v != 0 {
            r.push(CpuSetting::RtPeriodUs(v));
        }
    }
    assert(r@ =~= cpu_settings_of(*l));
    r
}

/// The memory settings that limits ask for.
pub fn memory_settings(l: &MemoryLimits) -> (r: Vec<MemorySetting>)
    ensures
        r@ == memory_settings_of(*l),
{
    let mut r: Vec<MemorySetting> = Vec::new();
    if let Some(v) = l.limit {
        if v != 0 {
            r.push(MemorySetting::LimitInBytes(v));
        }
    }
    let ghost a = set_i64(l.limit, |v: i64| MemorySetting::LimitInBytes(v));
    assert(r@ =~= a);
    if let Some(v) = l.swappiness {
        if v != 0 {
            r.push(MemorySetting::Swappiness(v));
        }
    }
    let ghost b = a + set_u64(l.swappiness, |v: u64| MemorySetting::Swappiness(v));
    assert(r@ =~= b);
    if let Some(v) = l.kernel {
        if v != 0 {
            r.push(MemorySetting::KmemLimitInBytes(v));
        }
    }
    let ghost c = b + set_i64(l.kernel, |v: i64| MemorySetting::KmemLimitInBytes(v));
    assert(r@ =~= c);
    if let Some(v) = l.kernel_tcp {
        if v != 0 {
            r.push(MemorySetting::KmemTcpLimitInBytes(v));
        }
    }
    let ghost d = c + set_i64(l.kernel_tcp, |v: i64| MemorySetting::KmemTcpLimitInBytes(v));
    assert(r@ =~= d);
    if let Some(v) = l.reservation {
        if v != 0 {
            r.push(MemorySetting::SoftLimitInBytes(v));
        }
    }
    let ghost e = d + set_i64(l.reservation, |v: i64| MemorySetting::SoftLimitInBytes(v));
    assert(r@ =~= e);
    if let Some(b) = l.disable_oom_killer {
        r.push(MemorySetting::DisableOomKiller(b));
    }
    assert(r@ =~= memory_settings_of(*l));
    r
}

} // verus!
