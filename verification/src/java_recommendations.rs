//! Per-instance Java recommendations and the resolution of the settings a launch uses.
use vstd::prelude::*;
use crate::jvm_args::{dedup_by_key, deduplicate_jvm_args, views};
use crate::system_memory::{
    clamp_against_total_bytes, clamp_recommended_memory, law_machine_clamp,
    MemorySettings,
};
use crate::jvm_args::{arg_key, has_key, law_dedup_keeps_every_key};

verus! {

/// The name of the file in which an instance recommends Java settings.
pub const JAVA_SETTINGS_CONFIG_NAME: &'static str = "java-settings.json";

/// Java settings that an instance recommends.
#[derive(Debug, Clone, PartialEq, Eq)]
pub struct JavaRecommendationConfig {
    pub recommended_memory_mb: Option<u32>,
    pub recommended_jvm_args: Vec<String>,
}

impl Default for JavaRecommendationConfig {
    fn default() -> (config: Self)
        ensures
            config.recommended_memory_mb is None,
            config.recommended_jvm_args@.len() == 0,
    {
        JavaRecommendationConfig { recommended_memory_mb: None, recommended_jvm_args: Vec::new() }
    }
}

/// The recommendation holds a heap size.
pub open spec fn recommends_memory(recommendation: Option<&JavaRecommendationConfig>) -> bool {
    recommendation matches Some(rec) && rec.recommended_memory_mb is Some
}

/// The recommendation holds at least one JVM argument.
pub open spec fn recommends_jvm_args(recommendation: Option<&JavaRecommendationConfig>) -> bool {
    recommendation matches Some(rec) && rec.recommended_jvm_args@.len() > 0
}

/// Resolves the heap settings of a launch, by priority: the instance's own override, then
/// the recommendation clamped against this machine's memory, then the global default.
pub fn resolve_effective_memory(
    override_memory: Option<MemorySettings>,
    global_memory: MemorySettings,
    recommendation: Option<&JavaRecommendationConfig>,
) -> (effective: MemorySettings)
    ensures
        override_memory matches Some(mem) ==> effective == mem,
        override_memory is None && recommends_memory(recommendation) ==> {
            let rec_mb = recommendation.unwrap().recommended_memory_mb.unwrap();
            &&& exists|total_memory_bytes: u64|
                effective.maximum == #[trigger] clamp_against_total_bytes(
                    rec_mb,
                    total_memory_bytes,
                )
            &&& rec_mb > 0 ==> effective.maximum > 0
            &&& call_ensures(clamp_recommended_memory, (rec_mb,), effective.maximum)
        },
        override_memory is None && !recommends_memory(recommendation) ==> effective
            == global_memory,
{
    if let Some(mem) = override_memory {
        return mem;
    }
    if let Some(rec) = recommendation {
        if let Some(rec_mb) = rec.recommended_memory_mb {
            let clamped: u32 = clamp_recommended_memory(rec_mb);
            return MemorySettings { maximum: clamped };
        }
    }
    global_memory
}

/// Resolves the JVM arguments of a launch, by priority: the instance's own override, then
/// the global arguments merged with the recommended ones without duplicate flags, then the
/// global arguments.
pub fn resolve_effective_jvm_args(
    override_args: Option<Vec<String>>,
    global_args: Vec<String>,
    recommendation: Option<&JavaRecommendationConfig>,
) -> (effective: Vec<String>)
    ensures
        override_args matches Some(args) ==> effective@ == args@,
        override_args is None && recommends_jvm_args(recommendation) ==> views(effective@)
            == dedup_by_key(
            views(global_args@) + views(recommendation.unwrap().recommended_jvm_args@),
        ),
        override_args is None && !recommends_jvm_args(recommendation) ==> effective@
            == global_args@,
{
    if let Some(args) = override_args {
        return args;
    }
    if let Some(rec) = recommendation {
        if !rec.recommended_jvm_args.is_empty() {
            return deduplicate_jvm_args(global_args.as_slice(), rec.recommended_jvm_args.as_slice());
        }
    }
    global_args
}

/// An instance recommends a heap size exactly when its recommendation holds one.
pub proof fn law_recommends_memory(rec: JavaRecommendationConfig)
    ensures
        recommends_memory(Some(&rec)) == (rec.recommended_memory_mb is Some),
        !recommends_memory(None),
{
}

/// An instance recommends JVM arguments exactly when its recommendation holds at least one.
pub proof fn law_recommends_jvm_args(rec: JavaRecommendationConfig)
    ensures
        recommends_jvm_args(Some(&rec)) == (rec.recommended_jvm_args@.len() >= 1),
        !recommends_jvm_args(None),
{
}

/// Without an override, a recommended heap size `r` is granted as the clamp of `r` against
/// this machine's memory, the same value the machine clamp gives: on a machine of more than
/// 2048 MB it is `min(r, total - 2048)`, leaving 2048 MB to the system.
pub proof fn law_recommended_memory_clamped_against_machine(
    global_memory: MemorySettings,
    rec: JavaRecommendationConfig,
    effective: MemorySettings,
)
    requires
        call_ensures(resolve_effective_memory, (None, global_memory, Some(&rec)), effective),
        rec.recommended_memory_mb is Some,
    ensures
        call_ensures(
            clamp_recommended_memory,
            (rec.recommended_memory_mb.unwrap(),),
            effective.maximum,
        ),
        exists|refreshing: &mut sysinfo::System, total_memory_bytes: u64|
            {
                &&& call_ensures(sysinfo::System::refresh_memory, (refreshing,), ())
                &&& call_ensures(
                    sysinfo::System::total_memory,
                    (&mut_ref_future(refreshing),),
                    total_memory_bytes,
                )
                &&& ((total_memory_bytes / 1048576) as u32) > 2048 ==> {
                    &&& effective.maximum == if rec.recommended_memory_mb.unwrap() + 2048 <= ((
                    total_memory_bytes / 1048576) as u32) {
                        rec.recommended_memory_mb.unwrap() as int
                    } else {
                        ((total_memory_bytes / 1048576) as u32) - 2048
                    }
                    &&& effective.maximum + 2048 <= ((total_memory_bytes / 1048576) as u32)
                }
            },
{
    law_machine_clamp(rec.recommended_memory_mb.unwrap(), effective.maximum);
}

/// Without an override, a recommendation holding one or more JVM arguments is merged after
/// the global arguments without duplicate flags, and every flag it sets is set in the result.
pub proof fn law_recommended_args_merged(
    global_args: Vec<String>,
    rec: JavaRecommendationConfig,
    effective: Vec<String>,
)
    requires
        call_ensures(resolve_effective_jvm_args, (None::<Vec<String>>, global_args, Some(&rec)), effective),
        rec.recommended_jvm_args@.len() >= 1,
    ensures
        views(effective@) == dedup_by_key(views(global_args@) + views(rec.recommended_jvm_args@)),
        forall|key: Seq<char>|
            has_key(views(rec.recommended_jvm_args@), key) ==> has_key(views(effective@), key),
        forall|key: Seq<char>|
            has_key(views(global_args@), key) ==> has_key(views(effective@), key),
{
    let g = views(global_args@);
    let r = views(rec.recommended_jvm_args@);
    assert forall|key: Seq<char>| has_key(r, key) implies has_key(views(effective@), key) by {
        let i = choose|i: int| 0 <= i < r.len() && arg_key(#[trigger] r[i]) == key;
        assert((g + r)[g.len() + i] == r[i]);
        law_dedup_keeps_every_key(g, r, key);
    }
    assert forall|key: Seq<char>| has_key(g, key) implies has_key(views(effective@), key) by {
        let i = choose|i: int| 0 <= i < g.len() && arg_key(#[trigger] g[i]) == key;
        assert((g + r)[i] == g[i]);
        law_dedup_keeps_every_key(g, r, key);
    }
}

} // verus!
