//! Statistics counters kept while the simulation runs.
//!
//! The counters are pure instrumentation: they are incremented as a side
//! effect of the per-stage handlers and never influence control flow.

use vstd::prelude::*;

verus! {

#[derive(Clone, Copy, Debug)]
pub struct NzeaTimes {
    pub cycles: u64,
    pub instructions: u64,
    pub ifu_catch: u64,
    pub icache_map_miss: u64,
    pub icache_cache_miss: u64,
    pub icache_cache_hit: u64,
    pub icache_average_memory_acess_cycle: u64,
    pub idu_catch_al: u64,
    pub idu_catch_ls: u64,
    pub idu_catch_cs: u64,
    pub alu_catch: u64,
}

/// All counters at zero.
pub open spec fn zero_times() -> NzeaTimes {
    NzeaTimes {
        cycles: 0,
        instructions: 0,
        ifu_catch: 0,
        icache_map_miss: 0,
        icache_cache_miss: 0,
        icache_cache_hit: 0,
        icache_average_memory_acess_cycle: 0,
        idu_catch_al: 0,
        idu_catch_ls: 0,
        idu_catch_cs: 0,
        alu_catch: 0,
    }
}

impl NzeaTimes {
    pub open spec fn with_cycles(self, v: u64) -> NzeaTimes {
        NzeaTimes { cycles: v, ..self }
    }

    pub open spec fn with_instructions(self, v: u64) -> NzeaTimes {
        NzeaTimes { instructions: v, ..self }
    }

    pub open spec fn with_ifu_catch(self, v: u64) -> NzeaTimes {
        NzeaTimes { ifu_catch: v, ..self }
    }

    pub open spec fn with_alu_catch(self, v: u64) -> NzeaTimes {
        NzeaTimes { alu_catch: v, ..self }
    }

    pub open spec fn with_icache_map_miss(self, v: u64) -> NzeaTimes {
        NzeaTimes { icache_map_miss: v, ..self }
    }

    pub open spec fn with_icache_cache_miss(self, v: u64) -> NzeaTimes {
        NzeaTimes { icache_cache_miss: v, ..self }
    }

    pub open spec fn with_icache_cache_hit(self, v: u64) -> NzeaTimes {
        NzeaTimes { icache_cache_hit: v, ..self }
    }

    pub open spec fn with_icache_amac(self, v: u64) -> NzeaTimes {
        NzeaTimes { icache_average_memory_acess_cycle: v, ..self }
    }
}

impl Default for NzeaTimes {
    fn default() -> (t: Self)
        ensures
            t == zero_times(),
    {
        NzeaTimes {
            cycles: 0,
            instructions: 0,
            ifu_catch: 0,
            icache_map_miss: 0,
            icache_cache_miss: 0,
            icache_cache_hit: 0,
            icache_average_memory_acess_cycle: 0,
            idu_catch_al: 0,
            idu_catch_ls: 0,
            idu_catch_cs: 0,
            alu_catch: 0,
        }
    }
}

} // verus!
