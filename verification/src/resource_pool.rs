//! What all outputs share: the cache of compiled transition programs and the
//! pool of free textures, with the counts that are reported of them.

use crate::program_cache::after_get;
use crate::program_cache::after_insert;
use crate::program_cache::has_key;
use crate::program_cache::lookup;
use crate::program_cache::PipelineLRU;
use crate::shaders::ShaderChoice;
use crate::texture_pool::bumped;
use crate::texture_pool::sweep_due;
use crate::texture_pool::sweep_is_due;
use crate::texture_pool::TexturePool;
use crate::texture_pool::TexturePoolEntry;
use crate::transition::Transition;
use vstd::prelude::*;

verus! {

/// Most compiled transition programs kept at a time.
pub const MAX_PIPELINE_CACHE_SIZE: usize = 50;

/// The caches shared by all outputs.
pub struct ResourcePool<T, P> {
    pub transition_pipelines: PipelineLRU<P>,
    pub texture_pool: TexturePool<T>,
    /// Effects whose own shader failed to compile, counted once for each time a program was made.
    pub compile_failures: u64,
    /// Effects for which not even the fade could be compiled.
    pub fatal_compile_failures: u64,
    /// When the texture pool was last swept.
    pub last_sweep: u64,
}

/// What the cache says to a request for the program of an effect.
pub enum ProgramLookup<P> {
    /// The program is cached.
    Cached { program: P },
    /// No program is cached under this name: one has to be made.
    Missing { name: String },
}

impl<T, P> ResourcePool<T, P> {
    /// Both caches are in order.
    pub open spec fn wf(&self) -> bool {
        self.transition_pipelines.wf() && self.texture_pool.wf()
    }

    /// Empty caches, the pool counting as swept at `now`.
    pub fn new(now: u64) -> (pool: Self)
        ensures
            pool.wf(),
            pool.transition_pipelines@.len() == 0,
            pool.transition_pipelines.capacity() == MAX_PIPELINE_CACHE_SIZE,
            pool.texture_pool.hit_count() == 0 && pool.texture_pool.miss_count() == 0,
            forall|w: u32, h: u32| #[trigger]
                pool.texture_pool.bucket(w, h) == Seq::<TexturePoolEntry<T>>::empty(),
            pool.compile_failures == 0 && pool.fatal_compile_failures == 0,
            pool.last_sweep == now,
    {
        ResourcePool {
            transition_pipelines: PipelineLRU::new(MAX_PIPELINE_CACHE_SIZE),
            texture_pool: TexturePool::new(),
            compile_failures: 0,
            fatal_compile_failures: 0,
            last_sweep: now,
        }
    }

    /// Keeps the program made for the effect called `name`, whichever shader
    /// it was made from, and counts a failure of the effect's own shader.
    ///
    /// The program is cached under the name that was asked for. So an effect
    /// whose shader fails is compiled, and its failure counted, once: the next
    /// request for it is served from the cache, with the program of the fade.
    pub fn store_program(&mut self, name: String, program: P, own_shader_failed: bool)
        ensures
            final(self).transition_pipelines@ == after_insert(
                old(self).transition_pipelines@,
                old(self).transition_pipelines.capacity(),
                name@,
                program,
            ),
            final(self).transition_pipelines.capacity() == old(
                self,
            ).transition_pipelines.capacity(),
            has_key(final(self).transition_pipelines@, name@),
            final(self).compile_failures == if own_shader_failed {
                bumped(old(self).compile_failures)
            } else {
                old(self).compile_failures
            },
            final(self).fatal_compile_failures == old(self).fatal_compile_failures,
            final(self).texture_pool == old(self).texture_pool,
            final(self).last_sweep == old(self).last_sweep,
            old(self).wf() ==> final(self).wf(),
    {
        self.transition_pipelines.insert(name, program);
        if own_shader_failed && self.compile_failures < u64::MAX {
            self.compile_failures = self.compile_failures + 1;
        }
    }

    /// Counts an effect for which no shader at all could be compiled: the
    /// output then switches without a transition.
    pub fn note_unavailable(&mut self)
        ensures
            final(self).compile_failures == bumped(old(self).compile_failures),
            final(self).fatal_compile_failures == bumped(old(self).fatal_compile_failures),
            final(self).transition_pipelines == old(self).transition_pipelines,
            final(self).texture_pool == old(self).texture_pool,
            final(self).last_sweep == old(self).last_sweep,
    {
        if self.compile_failures < u64::MAX {
            self.compile_failures = self.compile_failures + 1;
        }
        if self.fatal_compile_failures < u64::MAX {
            self.fatal_compile_failures = self.fatal_compile_failures + 1;
        }
    }

    /// Settles what compiling the shader of the effect called `name` has
    /// led to: `program` is what the caller made of the chosen shader.
    ///
    /// Where the choice has a shader, the program is kept under the name
    /// that was asked for, whichever shader it was made from. A failure of
    /// the effect's own shader is counted, once; that not even the fade
    /// could be compiled is counted as well, and nothing is kept then.
    pub fn settle(&mut self, name: String, choice: &ShaderChoice, program: Option<P>)
        ensures
            final(self).transition_pipelines@ == match program {
                Some(p) => if choice.has_shader() {
                    after_insert(
                        old(self).transition_pipelines@,
                        old(self).transition_pipelines.capacity(),
                        name@,
                        p,
                    )
                } else {
                    old(self).transition_pipelines@
                },
                None => old(self).transition_pipelines@,
            },
            final(self).transition_pipelines.capacity() == old(
                self,
            ).transition_pipelines.capacity(),
            final(self).compile_failures == if choice.is_failure() {
                bumped(old(self).compile_failures)
            } else {
                old(self).compile_failures
            },
            final(self).fatal_compile_failures == if choice.has_shader() {
                old(self).fatal_compile_failures
            } else {
                bumped(old(self).fatal_compile_failures)
            },
            final(self).texture_pool == old(self).texture_pool,
            final(self).last_sweep == old(self).last_sweep,
            old(self).wf() ==> final(self).wf(),
    {
        match choice {
            ShaderChoice::Primary { .. } => {
                match program {
                    Some(p) => {
                        self.store_program(name, p, false);
                    },
                    None => {},
                }
            },
            ShaderChoice::Fallback { .. } => {
                match program {
                    Some(p) => {
                        self.store_program(name, p, true);
                    },
                    None => {
                        if self.compile_failures < u64::MAX {
                            self.compile_failures = self.compile_failures + 1;
                        }
                    },
                }
            },
            ShaderChoice::Unavailable { .. } => {
                self.note_unavailable();
            },
        }
    }

    /// Takes a free texture of the given size out of the pool, if a fresh one waits there.
    pub fn acquire_texture(&mut self, width: u32, height: u32, now: u64) -> (hit: Option<T>)
        requires
            old(self).texture_pool.wf(),
        ensures
            TexturePool::acquired(
                old(self).texture_pool,
                final(self).texture_pool,
                width,
                height,
                now,
                hit,
            ),
            final(self).transition_pipelines == old(self).transition_pipelines,
            final(self).compile_failures == old(self).compile_failures,
            final(self).fatal_compile_failures == old(self).fatal_compile_failures,
            final(self).last_sweep == old(self).last_sweep,
    {
        self.texture_pool.get_texture_from_pool(width, height, now)
    }

    /// Gives a texture back for reuse. From a full bucket it comes back to the caller.
    pub fn release_texture(&mut self, texture: T, width: u32, height: u32, now: u64) -> (excess:
        Option<T>)
        requires
            old(self).texture_pool.wf(),
        ensures
            TexturePool::released(
                old(self).texture_pool,
                final(self).texture_pool,
                texture,
                width,
                height,
                now,
                excess,
            ),
            final(self).transition_pipelines == old(self).transition_pipelines,
            final(self).compile_failures == old(self).compile_failures,
            final(self).fatal_compile_failures == old(self).fatal_compile_failures,
            final(self).last_sweep == old(self).last_sweep,
    {
        self.texture_pool.return_texture_to_pool(texture, width, height, now)
    }

    /// Sweeps the texture pool if the last sweep is long enough ago, and says whether it did.
    pub fn sweep(&mut self, now: u64) -> (swept: bool)
        requires
            old(self).texture_pool.wf(),
        ensures
            final(self).texture_pool.wf(),
            swept == sweep_is_due(old(self).last_sweep, now),
            final(self).last_sweep == if swept {
                now
            } else {
                old(self).last_sweep
            },
            if swept {
                TexturePool::swept(old(self).texture_pool, final(self).texture_pool, now)
            } else {
                final(self).texture_pool == old(self).texture_pool
            },
            final(self).transition_pipelines == old(self).transition_pipelines,
            final(self).compile_failures == old(self).compile_failures,
            final(self).fatal_compile_failures == old(self).fatal_compile_failures,
    {
        if sweep_due(self.last_sweep, now) {
            self.texture_pool.cleanup_texture_pool(now);
            self.last_sweep = now;
            true
        } else {
            false
        }
    }
}

impl<T, P: Clone> ResourcePool<T, P> {
    /// Looks the program of the effect called `name` up. A hit makes it the
    /// most recently used program.
    pub fn get_program(&mut self, name: &str) -> (hit: Option<P>)
        ensures
            final(self).transition_pipelines@ == after_get(old(self).transition_pipelines@, name@),
            final(self).transition_pipelines.capacity() == old(
                self,
            ).transition_pipelines.capacity(),
            match hit {
                Some(p) => lookup(old(self).transition_pipelines@, name@) matches Some(stored)
                    && cloned(stored, p),
                None => lookup(old(self).transition_pipelines@, name@).is_none(),
            },
            hit.is_some() == has_key(old(self).transition_pipelines@, name@),
            final(self).texture_pool == old(self).texture_pool,
            final(self).compile_failures == old(self).compile_failures,
            final(self).fatal_compile_failures == old(self).fatal_compile_failures,
            final(self).last_sweep == old(self).last_sweep,
            old(self).wf() ==> final(self).wf(),
    {
        self.transition_pipelines.get(name)
    }

    /// Looks the program of an effect up under the name the effect reports.
    pub fn get_transition_pipeline(&mut self, transition: &Transition) -> (found: ProgramLookup<P>)
        ensures
            final(self).transition_pipelines@ == after_get(
                old(self).transition_pipelines@,
                transition.spec_name(),
            ),
            final(self).transition_pipelines.capacity() == old(
                self,
            ).transition_pipelines.capacity(),
            match found {
                ProgramLookup::Cached { program } => lookup(
                    old(self).transition_pipelines@,
                    transition.spec_name(),
                ) matches Some(stored) && cloned(stored, program),
                ProgramLookup::Missing { name } => name@ == transition.spec_name() && lookup(
                    old(self).transition_pipelines@,
                    transition.spec_name(),
                ).is_none(),
            },
            final(self).texture_pool == old(self).texture_pool,
            final(self).compile_failures == old(self).compile_failures,
            final(self).fatal_compile_failures == old(self).fatal_compile_failures,
            final(self).last_sweep == old(self).last_sweep,
            old(self).wf() ==> final(self).wf(),
    {
        let name = transition.name();
        match self.transition_pipelines.get(name.as_str()) {
            Some(program) => ProgramLookup::Cached { program },
            None => ProgramLookup::Missing { name },
        }
    }
}

} // verus!
