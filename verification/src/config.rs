//! Settings that the daemon's own rules read.

use crate::footprint::pressure::{ram_relative_thresholds, thresholds_for};
use vstd::prelude::*;

verus! {

/// Settings on memory use.
#[derive(Debug, Clone)]
pub struct PerformanceConfig {
    /// Working set above which heavy work moves to other processes, in MB.
    pub memory_warning_mb: u64,
    /// Working set above which background work stops, in MB.
    pub memory_critical_mb: u64,
    /// Whether analysis may move to other processes under pressure.
    pub external_argus_under_pressure: bool,
    /// Workers to keep under pressure; zero leaves the number alone.
    pub max_resident_workers_on_pressure: u32,
    /// "low", "normal" or "aggressive".
    pub memory_profile: String,
}

pub const DEFAULT_MEMORY_WARNING_MB: u64 = 1500;

pub const DEFAULT_MEMORY_CRITICAL_MB: u64 = 2500;

impl Default for PerformanceConfig {
    fn default() -> (config: Self)
        ensures
            config.memory_warning_mb == 1500,
            config.memory_critical_mb == 2500,
            config.external_argus_under_pressure,
            config.max_resident_workers_on_pressure == 1,
            config.memory_profile@ == "normal"@,
    {
        PerformanceConfig {
            memory_warning_mb: DEFAULT_MEMORY_WARNING_MB,
            memory_critical_mb: DEFAULT_MEMORY_CRITICAL_MB,
            external_argus_under_pressure: true,
            max_resident_workers_on_pressure: 1,
            memory_profile: "normal".to_owned(),
        }
    }
}

/// Whether nobody has chosen thresholds.
pub open spec fn thresholds_untouched(config: PerformanceConfig) -> bool {
    config.memory_warning_mb == 1500 && config.memory_critical_mb == 2500
}

/// The settings once thresholds that nobody chose are fitted to the machine.
pub open spec fn fitted(config: PerformanceConfig, total_ram_mb: Option<u64>) -> PerformanceConfig {
    match total_ram_mb {
        Some(ram) => if thresholds_untouched(config) {
            PerformanceConfig {
                memory_warning_mb: thresholds_for(ram as nat, config.memory_profile@).0 as u64,
                memory_critical_mb: thresholds_for(ram as nat, config.memory_profile@).1 as u64,
                ..config
            }
        } else {
            config
        },
        None => config,
    }
}

impl PerformanceConfig {
    /// Fit untouched thresholds to the memory of the machine, where its size is
    /// known. Thresholds that somebody chose stay.
    pub fn resolve_thresholds(&mut self, total_ram_mb: Option<u64>)
        ensures
            *final(self) == fitted(*old(self), total_ram_mb),
            *final(self) == (match total_ram_mb {
                Some(ram) => if thresholds_untouched(*old(self)) {
                    PerformanceConfig {
                        memory_warning_mb: thresholds_for(
                            ram as nat,
                            old(self).memory_profile@,
                        ).0 as u64,
                        memory_critical_mb: thresholds_for(
                            ram as nat,
                            old(self).memory_profile@,
                        ).1 as u64,
                        ..*old(self)
                    }
                } else {
                    *old(self)
                },
                None => *old(self),
            }),
    {
        if self.memory_warning_mb == DEFAULT_MEMORY_WARNING_MB && self.memory_critical_mb
            == DEFAULT_MEMORY_CRITICAL_MB {
            if let Some(ram) = total_ram_mb {
                let (warning, critical) = ram_relative_thresholds(
                    ram,
                    self.memory_profile.as_str(),
                );
                self.memory_warning_mb = warning;
                self.memory_critical_mb = critical;
            }
        }
    }
}

/// Thresholds that somebody chose stay; those that nobody chose are fitted to the
/// memory of the machine, where its size is known. No other setting changes.
pub proof fn chosen_thresholds_stay(config: PerformanceConfig, total_ram_mb: Option<u64>)
    ensures
        ({
            let after = fitted(config, total_ram_mb);
            &&& config.memory_warning_mb != 1500 || config.memory_critical_mb != 2500 ==> after
                == config
            &&& total_ram_mb is None ==> after == config
            &&& (config.memory_warning_mb == 1500 && config.memory_critical_mb == 2500
                && total_ram_mb is Some) ==> after.memory_warning_mb == thresholds_for(
                total_ram_mb->0 as nat,
                config.memory_profile@,
            ).0 && after.memory_critical_mb == thresholds_for(
                total_ram_mb->0 as nat,
                config.memory_profile@,
            ).1
            &&& after.external_argus_under_pressure == config.external_argus_under_pressure
            &&& after.max_resident_workers_on_pressure == config.max_resident_workers_on_pressure
            &&& after.memory_profile == config.memory_profile
        }),
{
    if total_ram_mb is Some {
        crate::footprint::pressure::thresholds_are_ordered(
            total_ram_mb->0 as nat,
            config.memory_profile@,
        );
    }
}

} // verus!
