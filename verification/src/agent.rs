//! The agent's per-tick core: the configuration, the correlation engine that
//! persists across ticks, and the detection step each tick performs on the
//! events it collected. The surrounding binary owns the loop: it waits on the
//! stop channel, polls the failsafe, collects events, and performs the
//! responses this core decides.

use vstd::prelude::*;
use crate::config::{Config, Mode};
use crate::engine::{incidents_match, run_spec, Engine};
use crate::protected_paths::Roots;
use crate::types::{Event, Incident};

verus! {

/// The mode the agent actually runs in: strict is demoted to learning when no
/// rule ids are active. The built-in rule list is never empty, so with it the
/// configured mode stands.
pub fn effective_mode(cfg: &Config) -> (r: Mode)
    ensures
        r == cfg.mode,
{
    let active = crate::rules::active_rule_ids();
    if cfg.mode == Mode::Strict && active.len() == 0 {
        proof {
            assert(crate::config::strs_view(active@).len() == active@.len());
        }
        Mode::Learning
    } else {
        cfg.mode
    }
}

/// The agent core: its configuration and the correlation state carried from
/// tick to tick.
pub struct Agent {
    pub cfg: Config,
    pub engine: Engine,
}

impl Agent {
    /// A fresh agent with empty correlation state.
    pub fn new(cfg: Config) -> (r: Agent)
        ensures
            r.cfg@ == cfg@,
            r.engine@ =~= crate::engine::empty_engine(),
    {
        Agent { cfg, engine: Engine::new() }
    }

    /// One tick's detection step: the collected events run through the
    /// engine, which keeps its per-process state for the next tick. The
    /// caller passes each incident to the response engine and persists it.
    pub fn process_events(&mut self, roots: &Roots, events: &Vec<Event>) -> (incidents: Vec<
        Incident,
    >)
        ensures
            final(self).cfg == old(self).cfg,
            ({
                let out = run_spec(
                    old(self).cfg@,
                    roots.local_appdata@,
                    roots.roaming_appdata@,
                    old(self).engine@,
                    events@.map_values(|e: Event| e@),
                );
                final(self).engine@ == out.state && incidents_match(
                    incidents@.map_values(|x: Incident| x@),
                    out.groups,
                )
            }),
    {
        self.engine.process(&self.cfg, roots, events)
    }
}

} // verus!
