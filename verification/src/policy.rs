//! Encoding policy: the set of independently optional encoder tunables.
//!
//! A policy can be partial (a per-directory override) or serve as the
//! service-wide default. Resolution merges a partial policy over the
//! default field by field: every field the override sets wins, every
//! absent field falls through. Contracts speak of `PolicyView`, the
//! mathematical content of a policy, with the string fields as character
//! sequences. The quality factor and the target PSNR are whole numbers
//! here; the encoder boundary widens them.

use vstd::prelude::*;

use crate::text::str_eq;

verus! {

/// One level of encoding policy; every field is optional.
#[derive(Clone, Debug, PartialEq)]
pub struct DirectoryLevelConfig {
    pub lossless: Option<i32>,
    pub quality: Option<i32>,
    pub preset: Option<String>,
    pub method: Option<i32>,
    pub image_hint: Option<String>,
    pub target_size: Option<i32>,
    pub target_psnr: Option<i32>,
    pub segments: Option<i32>,
    pub sns_strength: Option<i32>,
    pub filter_strength: Option<i32>,
    pub filter_sharpness: Option<i32>,
    pub filter_type: Option<i32>,
    pub autofilter: Option<i32>,
    pub alpha_compression: Option<i32>,
    pub alpha_filtering: Option<i32>,
    pub alpha_quality: Option<i32>,
    pub pass: Option<i32>,
    pub preprocessing: Option<i32>,
    pub partitions: Option<i32>,
    pub partition_limit: Option<i32>,
    pub emulate_jpeg_size: Option<i32>,
    pub thread_level: Option<i32>,
    pub low_memory: Option<i32>,
    pub near_lossless: Option<i32>,
    pub exact: Option<i32>,
    pub use_delta_palette: Option<i32>,
    pub use_sharp_yuv: Option<i32>,
}

/// The content of a policy, field for field.
#[verifier::ext_equal]
pub ghost struct PolicyView {
    pub lossless: Option<i32>,
    pub quality: Option<i32>,
    pub preset: Option<Seq<char>>,
    pub method: Option<i32>,
    pub image_hint: Option<Seq<char>>,
    pub target_size: Option<i32>,
    pub target_psnr: Option<i32>,
    pub segments: Option<i32>,
    pub sns_strength: Option<i32>,
    pub filter_strength: Option<i32>,
    pub filter_sharpness: Option<i32>,
    pub filter_type: Option<i32>,
    pub autofilter: Option<i32>,
    pub alpha_compression: Option<i32>,
    pub alpha_filtering: Option<i32>,
    pub alpha_quality: Option<i32>,
    pub pass: Option<i32>,
    pub preprocessing: Option<i32>,
    pub partitions: Option<i32>,
    pub partition_limit: Option<i32>,
    pub emulate_jpeg_size: Option<i32>,
    pub thread_level: Option<i32>,
    pub low_memory: Option<i32>,
    pub near_lossless: Option<i32>,
    pub exact: Option<i32>,
    pub use_delta_palette: Option<i32>,
    pub use_sharp_yuv: Option<i32>,
}

impl View for DirectoryLevelConfig {
    type V = PolicyView;

    open spec fn view(&self) -> PolicyView {
        PolicyView {
            lossless: self.lossless,
            quality: self.quality,
            preset: self.preset.deep_view(),
            method: self.method,
            image_hint: self.image_hint.deep_view(),
            target_size: self.target_size,
            target_psnr: self.target_psnr,
            segments: self.segments,
            sns_strength: self.sns_strength,
            filter_strength: self.filter_strength,
            filter_sharpness: self.filter_sharpness,
            filter_type: self.filter_type,
            autofilter: self.autofilter,
            alpha_compression: self.alpha_compression,
            alpha_filtering: self.alpha_filtering,
            alpha_quality: self.alpha_quality,
            pass: self.pass,
            preprocessing: self.preprocessing,
            partitions: self.partitions,
            partition_limit: self.partition_limit,
            emulate_jpeg_size: self.emulate_jpeg_size,
            thread_level: self.thread_level,
            low_memory: self.low_memory,
            near_lossless: self.near_lossless,
            exact: self.exact,
            use_delta_palette: self.use_delta_palette,
            use_sharp_yuv: self.use_sharp_yuv,
        }
    }
}

/// The policy that sets nothing.
pub open spec fn spec_empty_policy() -> DirectoryLevelConfig {
    DirectoryLevelConfig {
        lossless: None,
        quality: None,
        preset: None,
        method: None,
        image_hint: None,
        target_size: None,
        target_psnr: None,
        segments: None,
        sns_strength: None,
        filter_strength: None,
        filter_sharpness: None,
        filter_type: None,
        autofilter: None,
        alpha_compression: None,
        alpha_filtering: None,
        alpha_quality: None,
        pass: None,
        preprocessing: None,
        partitions: None,
        partition_limit: None,
        emulate_jpeg_size: None,
        thread_level: None,
        low_memory: None,
        near_lossless: None,
        exact: None,
        use_delta_palette: None,
        use_sharp_yuv: None,
    }
}

/// Field-by-field merge: a field the override sets wins, an absent field
/// falls through to the default.
pub open spec fn spec_merge(p: PolicyView, g: PolicyView) -> PolicyView {
    PolicyView {
        lossless: if p.lossless is Some {
            p.lossless
        } else {
            g.lossless
        },
        quality: if p.quality is Some {
            p.quality
        } else {
            g.quality
        },
        preset: if p.preset is Some {
            p.preset
        } else {
            g.preset
        },
        method: if p.method is Some {
            p.method
        } else {
            g.method
        },
        image_hint: if p.image_hint is Some {
            p.image_hint
        } else {
            g.image_hint
        },
        target_size: if p.target_size is Some {
            p.target_size
        } else {
            g.target_size
        },
        target_psnr: if p.target_psnr is Some {
            p.target_psnr
        } else {
            g.target_psnr
        },
        segments: if p.segments is Some {
            p.segments
        } else {
            g.segments
        },
        sns_strength: if p.sns_strength is Some {
            p.sns_strength
        } else {
            g.sns_strength
        },
        filter_strength: if p.filter_strength is Some {
            p.filter_strength
        } else {
            g.filter_strength
        },
        filter_sharpness: if p.filter_sharpness is Some {
            p.filter_sharpness
        } else {
            g.filter_sharpness
        },
        filter_type: if p.filter_type is Some {
            p.filter_type
        } else {
            g.filter_type
        },
        autofilter: if p.autofilter is Some {
            p.autofilter
        } else {
            g.autofilter
        },
        alpha_compression: if p.alpha_compression is Some {
            p.alpha_compression
        } else {
            g.alpha_compression
        },
        alpha_filtering: if p.alpha_filtering is Some {
            p.alpha_filtering
        } else {
            g.alpha_filtering
        },
        alpha_quality: if p.alpha_quality is Some {
            p.alpha_quality
        } else {
            g.alpha_quality
        },
        pass: if p.pass is Some {
            p.pass
        } else {
            g.pass
        },
        preprocessing: if p.preprocessing is Some {
            p.preprocessing
        } else {
            g.preprocessing
        },
        partitions: if p.partitions is Some {
            p.partitions
        } else {
            g.partitions
        },
        partition_limit: if p.partition_limit is Some {
            p.partition_limit
        } else {
            g.partition_limit
        },
        emulate_jpeg_size: if p.emulate_jpeg_size is Some {
            p.emulate_jpeg_size
        } else {
            g.emulate_jpeg_size
        },
        thread_level: if p.thread_level is Some {
            p.thread_level
        } else {
            g.thread_level
        },
        low_memory: if p.low_memory is Some {
            p.low_memory
        } else {
            g.low_memory
        },
        near_lossless: if p.near_lossless is Some {
            p.near_lossless
        } else {
            g.near_lossless
        },
        exact: if p.exact is Some {
            p.exact
        } else {
            g.exact
        },
        use_delta_palette: if p.use_delta_palette is Some {
            p.use_delta_palette
        } else {
            g.use_delta_palette
        },
        use_sharp_yuv: if p.use_sharp_yuv is Some {
            p.use_sharp_yuv
        } else {
            g.use_sharp_yuv
        },
    }
}

fn clone_opt_string(s: &Option<String>) -> (r: Option<String>)
    ensures
        r == *s,
{
    match s {
        Some(x) => Some(x.clone()),
        None => None,
    }
}

/// One field of the merge: the override's value if it sets one, else the
/// default's.
fn merge_field_i32(p: Option<i32>, g: Option<i32>) -> (r: Option<i32>)
    ensures
        r == (if p is Some {
            p
        } else {
            g
        }),
{
    if p.is_some() {
        p
    } else {
        g
    }
}

/// One string field of the merge.
fn merge_field_string(p: &Option<String>, g: &Option<String>) -> (r: Option<String>)
    ensures
        r.deep_view() == (if p.deep_view() is Some {
            p.deep_view()
        } else {
            g.deep_view()
        }),
{
    if p.is_some() {
        clone_opt_string(p)
    } else {
        clone_opt_string(g)
    }
}

impl DirectoryLevelConfig {
    /// The policy that sets nothing.
    pub fn new() -> (r: DirectoryLevelConfig)
        ensures
            r == spec_empty_policy(),
    {
        DirectoryLevelConfig {
            lossless: None,
            quality: None,
            preset: None,
            method: None,
            image_hint: None,
            target_size: None,
            target_psnr: None,
            segments: None,
            sns_strength: None,
            filter_strength: None,
            filter_sharpness: None,
            filter_type: None,
            autofilter: None,
            alpha_compression: None,
            alpha_filtering: None,
            alpha_quality: None,
            pass: None,
            preprocessing: None,
            partitions: None,
            partition_limit: None,
            emulate_jpeg_size: None,
            thread_level: None,
            low_memory: None,
            near_lossless: None,
            exact: None,
            use_delta_palette: None,
            use_sharp_yuv: None,
        }
    }

    /// An owned copy, equal field for field. Resolution hands every caller
    /// its own policy value; callers may run concurrently and must not
    /// share mutable state.
    pub fn duplicate(&self) -> (r: DirectoryLevelConfig)
        ensures
            r == *self,
    {
        DirectoryLevelConfig {
            lossless: self.lossless,
            quality: self.quality,
            preset: clone_opt_string(&self.preset),
            method: self.method,
            image_hint: clone_opt_string(&self.image_hint),
            target_size: self.target_size,
            target_psnr: self.target_psnr,
            segments: self.segments,
            sns_strength: self.sns_strength,
            filter_strength: self.filter_strength,
            filter_sharpness: self.filter_sharpness,
            filter_type: self.filter_type,
            autofilter: self.autofilter,
            alpha_compression: self.alpha_compression,
            alpha_filtering: self.alpha_filtering,
            alpha_quality: self.alpha_quality,
            pass: self.pass,
            preprocessing: self.preprocessing,
            partitions: self.partitions,
            partition_limit: self.partition_limit,
            emulate_jpeg_size: self.emulate_jpeg_size,
            thread_level: self.thread_level,
            low_memory: self.low_memory,
            near_lossless: self.near_lossless,
            exact: self.exact,
            use_delta_palette: self.use_delta_palette,
            use_sharp_yuv: self.use_sharp_yuv,
        }
    }

    /// Merges an override over a default, field by field.
    #[verifier::rlimit(100)]
    #[verifier::spinoff_prover]
    pub fn merged_over(&self, global: &DirectoryLevelConfig) -> (r: DirectoryLevelConfig)
        ensures
            r@ == spec_merge(self@, global@),
    {
        let r = DirectoryLevelConfig {
            lossless: merge_field_i32(self.lossless, global.lossless),
            quality: merge_field_i32(self.quality, global.quality),
            preset: merge_field_string(&self.preset, &global.preset),
            method: merge_field_i32(self.method, global.method),
            image_hint: merge_field_string(&self.image_hint, &global.image_hint),
            target_size: merge_field_i32(self.target_size, global.target_size),
            target_psnr: merge_field_i32(self.target_psnr, global.target_psnr),
            segments: merge_field_i32(self.segments, global.segments),
            sns_strength: merge_field_i32(self.sns_strength, global.sns_strength),
            filter_strength: merge_field_i32(self.filter_strength, global.filter_strength),
            filter_sharpness: merge_field_i32(self.filter_sharpness, global.filter_sharpness),
            filter_type: merge_field_i32(self.filter_type, global.filter_type),
            autofilter: merge_field_i32(self.autofilter, global.autofilter),
            alpha_compression: merge_field_i32(self.alpha_compression, global.alpha_compression),
            alpha_filtering: merge_field_i32(self.alpha_filtering, global.alpha_filtering),
            alpha_quality: merge_field_i32(self.alpha_quality, global.alpha_quality),
            pass: merge_field_i32(self.pass, global.pass),
            preprocessing: merge_field_i32(self.preprocessing, global.preprocessing),
            partitions: merge_field_i32(self.partitions, global.partitions),
            partition_limit: merge_field_i32(self.partition_limit, global.partition_limit),
            emulate_jpeg_size: merge_field_i32(self.emulate_jpeg_size, global.emulate_jpeg_size),
            thread_level: merge_field_i32(self.thread_level, global.thread_level),
            low_memory: merge_field_i32(self.low_memory, global.low_memory),
            near_lossless: merge_field_i32(self.near_lossless, global.near_lossless),
            exact: merge_field_i32(self.exact, global.exact),
            use_delta_palette: merge_field_i32(self.use_delta_palette, global.use_delta_palette),
            use_sharp_yuv: merge_field_i32(self.use_sharp_yuv, global.use_sharp_yuv),
        };
        proof {
            assert(r@ == spec_merge(self@, global@));
        }
        r
    }

    /// The quality factor handed to the encoder: the resolved quality, or
    /// the encoder's customary default of 75.
    pub fn effective_quality(&self) -> (r: i32)
        ensures
            match self.quality {
                Some(q) => r == q,
                None => r == 75,
            },
    {
        match self.quality {
            Some(q) => q,
            None => 75,
        }
    }
}

/// Merging the empty override changes nothing: with the sidecar absent or
/// rejected, the resolved policy is the global default, field for field.
pub proof fn lemma_empty_merge_is_global(g: PolicyView)
    ensures
        spec_merge(spec_empty_policy()@, g) == g,
{
    assert(spec_merge(spec_empty_policy()@, g) =~= g);
}

/// An override that sets only the quality leaves every other field of the
/// default untouched; together with the definition of `spec_merge` this is
/// the partial-override rule for each field.
pub proof fn lemma_partial_override_quality(p: PolicyView, g: PolicyView)
    requires
        p.quality is Some,
        p == (PolicyView { quality: p.quality, ..spec_empty_policy()@ }),
    ensures
        spec_merge(p, g) == (PolicyView { quality: p.quality, ..g }),
{
    assert(spec_merge(p, g) =~= PolicyView { quality: p.quality, ..g });
}

/// The encoder's preset selector.
pub open spec fn spec_preset_code(preset: Option<Seq<char>>) -> int {
    match preset {
        Some(s) => {
            if s == "picture"@ {
                2
            } else if s == "photo"@ {
                3
            } else if s == "drawing"@ {
                4
            } else if s == "icon"@ {
                5
            } else if s == "text"@ {
                6
            } else {
                1
            }
        },
        None => 1,
    }
}

/// Maps the resolved preset name to the encoder's preset selector; an
/// unknown or absent name means the default preset.
pub fn preset_code(preset: &Option<String>) -> (r: i32)
    ensures
        r as int == spec_preset_code(preset.deep_view()),
{
    match preset {
        Some(s) => {
            if str_eq(s.as_str(), "picture") {
                2
            } else if str_eq(s.as_str(), "photo") {
                3
            } else if str_eq(s.as_str(), "drawing") {
                4
            } else if str_eq(s.as_str(), "icon") {
                5
            } else if str_eq(s.as_str(), "text") {
                6
            } else {
                1
            }
        },
        None => 1,
    }
}

/// The encoder's image-hint selector.
pub open spec fn spec_image_hint_code(hint: Option<Seq<char>>) -> int {
    match hint {
        Some(s) => {
            if s == "picture"@ {
                2
            } else if s == "photo"@ {
                3
            } else if s == "graph"@ {
                4
            } else {
                1
            }
        },
        None => 1,
    }
}

/// Maps the resolved image hint to the encoder's hint selector; an
/// unknown or absent name means the default hint.
pub fn image_hint_code(hint: &Option<String>) -> (r: i32)
    ensures
        r as int == spec_image_hint_code(hint.deep_view()),
{
    match hint {
        Some(s) => {
            if str_eq(s.as_str(), "picture") {
                2
            } else if str_eq(s.as_str(), "photo") {
                3
            } else if str_eq(s.as_str(), "graph") {
                4
            } else {
                1
            }
        },
        None => 1,
    }
}

} // verus!
