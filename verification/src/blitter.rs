//! Pipeline cache of the post-processing blit pass.
//!
//! Blitting recurs with a handful of format/mode combinations.  The cache
//! is populated eagerly at construction for the known combinations and
//! looked up at draw time; a miss is a programming error, not a runtime
//! condition, so the draw phase requires its key to be cached.  Texture
//! formats are carried as the integer ids the device layer assigns them.

use vstd::prelude::*;

use crate::command::GpuCommand;

verus! {

/// Multisample mode of a render target.
#[derive(Clone, Copy, PartialEq, Eq, Structural, Debug)]
pub enum Msaa {
    Off,
    X2,
    X4,
    X8,
    X16,
}

impl Msaa {
    /// Samples per pixel of this mode.
    pub open spec fn spec_sample_count(self) -> u32 {
        match self {
            Msaa::Off => 1,
            Msaa::X2 => 2,
            Msaa::X4 => 4,
            Msaa::X8 => 8,
            Msaa::X16 => 16,
        }
    }

    /// Samples per pixel of this mode.
    pub fn sample_count(self) -> (r: u32)
        ensures
            r == self.spec_sample_count(),
    {
        match self {
            Msaa::Off => 1,
            Msaa::X2 => 2,
            Msaa::X4 => 4,
            Msaa::X8 => 8,
            Msaa::X16 => 16,
        }
    }

    /// The mode of a texture with `count` samples per pixel.
    pub fn from_sample_count(count: u32) -> (r: Msaa)
        requires
            count == 1 || count == 2 || count == 4 || count == 8 || count == 16,
        ensures
            r.spec_sample_count() == count,
    {
        match count {
            1 => Msaa::Off,
            2 => Msaa::X2,
            4 => Msaa::X4,
            8 => Msaa::X8,
            _ => Msaa::X16,
        }
    }

    /// Whether this mode multisamples at all.
    pub fn multisampling_activated(self) -> (r: bool)
        ensures
            r == (self != Msaa::Off),
    {
        match self {
            Msaa::Off => false,
            _ => true,
        }
    }
}

/// The combination a blit pipeline is compiled for.
#[derive(Clone, Copy, PartialEq, Eq, Structural, Debug)]
pub struct PipelineKey {
    /// Id of the color target's texture format.
    pub format: u32,
    /// Multisample mode of the source texture.
    pub msaa: Msaa,
    /// Whether the shader stores luma in the alpha channel.
    pub luma_in_alpha: bool,
    /// Whether the target is blended over instead of overwritten.
    pub alpha_blending: bool,
}

/// `keys` extended by `key` unless it is already present.
pub open spec fn insert_key(keys: Seq<PipelineKey>, key: PipelineKey) -> Seq<PipelineKey> {
    if keys.contains(key) {
        keys
    } else {
        keys.push(key)
    }
}

/// The combinations compiled eagerly at construction: blit to the surface,
/// blit to the color target in the configured and in the plain multisample
/// mode, the luma-in-alpha variant for the anti-aliasing pass, and the
/// alpha-blended four-sample variant — each cached once.
pub open spec fn cached_keys(
    surface_format: u32,
    color_format: u32,
    luma_format: u32,
    msaa: Msaa,
) -> Seq<PipelineKey> {
    let k1 = PipelineKey {
        format: surface_format,
        msaa: Msaa::Off,
        luma_in_alpha: false,
        alpha_blending: false,
    };
    let k2 = PipelineKey { format: color_format, msaa, luma_in_alpha: false, alpha_blending: false };
    let k3 = PipelineKey { format: luma_format, msaa, luma_in_alpha: true, alpha_blending: false };
    let k4 = PipelineKey {
        format: color_format,
        msaa: Msaa::Off,
        luma_in_alpha: false,
        alpha_blending: false,
    };
    let k5 = PipelineKey {
        format: color_format,
        msaa: Msaa::X4,
        luma_in_alpha: false,
        alpha_blending: true,
    };
    insert_key(insert_key(insert_key(insert_key(insert_key(Seq::empty(), k1), k2), k3), k4), k5)
}

/// Drawer blitting one source texture onto one target, through a pipeline
/// picked from the cache by format and mode.
pub struct PostProcessingBlitterDrawer {
    /// The cached combinations; the pipeline compiled for `keys[i]` sits at
    /// slot `i` of the device layer's pipeline table.
    pub keys: Vec<PipelineKey>,
}

impl PostProcessingBlitterDrawer {
    /// Builds the cache for the known combinations, each cached once.
    pub fn new(surface_format: u32, color_format: u32, luma_format: u32, msaa: Msaa) -> (r:
        PostProcessingBlitterDrawer)
        ensures
            r.keys@ == cached_keys(surface_format, color_format, luma_format, msaa),
            r.keys@.no_duplicates(),
    {
        let mut keys: Vec<PipelineKey> = Vec::new();
        Self::insert(
            &mut keys,
            PipelineKey {
                format: surface_format,
                msaa: Msaa::Off,
                luma_in_alpha: false,
                alpha_blending: false,
            },
        );
        Self::insert(
            &mut keys,
            PipelineKey { format: color_format, msaa, luma_in_alpha: false, alpha_blending: false },
        );
        Self::insert(
            &mut keys,
            PipelineKey { format: luma_format, msaa, luma_in_alpha: true, alpha_blending: false },
        );
        Self::insert(
            &mut keys,
            PipelineKey {
                format: color_format,
                msaa: Msaa::Off,
                luma_in_alpha: false,
                alpha_blending: false,
            },
        );
        Self::insert(
            &mut keys,
            PipelineKey {
                format: color_format,
                msaa: Msaa::X4,
                luma_in_alpha: false,
                alpha_blending: true,
            },
        );
        PostProcessingBlitterDrawer { keys }
    }

    /// Appends `key` unless it is already cached, keeping the cache free of
    /// duplicates.
    fn insert(keys: &mut Vec<PipelineKey>, key: PipelineKey)
        requires
            old(keys)@.no_duplicates(),
        ensures
            final(keys)@ == insert_key(old(keys)@, key),
            final(keys)@.no_duplicates(),
    {
        if Self::position(keys, key).is_none() {
            keys.push(key);
            proof {
                assert forall|i: int, j: int|
                    0 <= i < keys@.len() && 0 <= j < keys@.len() && i != j implies keys@[i]
                    != keys@[j] by {
                    if i < old(keys)@.len() && j < old(keys)@.len() {
                    } else if i < old(keys)@.len() {
                        assert(keys@[i] == old(keys)@[i]);
                        if keys@[i] == key {
                            assert(old(keys)@.contains(key));
                        }
                    } else if j < old(keys)@.len() {
                        assert(keys@[j] == old(keys)@[j]);
                        if keys@[j] == key {
                            assert(old(keys)@.contains(key));
                        }
                    }
                }
            }
        }
    }

    /// Slot of `key` in the cache, or nothing when the combination was
    /// never compiled.
    pub fn position(keys: &Vec<PipelineKey>, key: PipelineKey) -> (r: Option<usize>)
        ensures
            match r {
                Some(i) => i < keys@.len() && keys@[i as int] == key,
                Option::None => !keys@.contains(key),
            },
    {
        let mut i: usize = 0;
        while i < keys.len()
            invariant
                i <= keys@.len(),
                forall|j: int| 0 <= j < i ==> keys@[j] != key,
            decreases keys@.len() - i,
        {
            if keys[i] == key {
                return Some(i);
            }
            i = i + 1;
        }
        proof {
            if keys@.contains(key) {
                let j = choose|j: int| 0 <= j < keys@.len() && keys@[j] == key;
                assert(keys@[j] != key);
            }
        }
        Option::None
    }

    /// The commands blitting one source onto one target: bind the pipeline
    /// compiled for the combination, bind the source texture, draw one
    /// full-screen triangle.  The combination must have been cached at
    /// construction — a miss is a programming error.
    pub fn draw_commands(
        &self,
        target_format: u32,
        source_msaa: Msaa,
        luma_in_alpha: bool,
        alpha_blending: bool,
    ) -> (commands: Vec<GpuCommand>)
        requires
            self.keys@.contains(
                (PipelineKey { format: target_format, msaa: source_msaa, luma_in_alpha, alpha_blending }),
            ),
        ensures
            commands@.len() == 3,
            commands@[1] == (GpuCommand::SetBindGroup { index: 1 }),
            commands@[2] == (GpuCommand::Draw {
                first_vertex: 0,
                vertex_count: 3,
                first_instance: 0,
                instance_count: 1,
            }),
            exists|i: int|
                0 <= i < self.keys@.len() && commands@[0] == (GpuCommand::SetPipeline {
                    pipeline: i as usize,
                }) && self.keys@[i] == (PipelineKey {
                    format: target_format,
                    msaa: source_msaa,
                    luma_in_alpha,
                    alpha_blending,
                }),
    {
        let key = PipelineKey {
            format: target_format,
            msaa: source_msaa,
            luma_in_alpha,
            alpha_blending,
        };
        let mut commands: Vec<GpuCommand> = Vec::new();
        match Self::position(&self.keys, key) {
            Some(index) => {
                commands.push(GpuCommand::SetPipeline { pipeline: index });
                commands.push(GpuCommand::SetBindGroup { index: 1 });
                commands.push(
                    GpuCommand::Draw {
                        first_vertex: 0,
                        vertex_count: 3,
                        first_instance: 0,
                        instance_count: 1,
                    },
                );
                proof {
                    let i = index as int;
                    assert(0 <= i < self.keys@.len() && commands@[0] == (GpuCommand::SetPipeline {
                        pipeline: i as usize,
                    }) && self.keys@[i] == key);
                }
            },
            Option::None => {
                proof {
                    assert(false);
                }
            },
        }
        commands
    }
}

} // verus!
