//! The option blocks of one generation: how charts are cut and how they are
//! packed.
//!
//! Real-valued options are carried as scalars: the bit pattern of their
//! value, which reaches the engine bit for bit.

use vstd::prelude::*;
use crate::scalar::Scalar;

verus! {

/// Bit pattern of zero.
pub const ZERO: u32 = 0x0000_0000;

/// Bit pattern of one hundredth, rounded to single precision.
pub const ONE_HUNDREDTH: u32 = 0x3C23_D70A;

/// Bit pattern of one half.
pub const ONE_HALF: u32 = 0x3F00_0000;

/// Bit pattern of two.
pub const TWO: u32 = 0x4000_0000;

/// Bit pattern of four.
pub const FOUR: u32 = 0x4080_0000;

/// Bit pattern of six.
pub const SIX: u32 = 0x40C0_0000;

/// Weights and limits that steer how the surface is cut into charts.
#[derive(Clone, Copy, Debug, PartialEq, Eq, Structural)]
pub struct ChartOptions {
    pub proxy_fit_metric_weight: Scalar,
    pub roundness_metric_weight: Scalar,
    pub straightness_metric_weight: Scalar,
    pub normal_seam_metric_weight: Scalar,
    pub texture_seam_metric_weight: Scalar,
    /// Zero leaves the area of a chart unbounded.
    pub max_chart_area: Scalar,
    /// Zero leaves the boundary length of a chart unbounded.
    pub max_boundary_length: Scalar,
    pub max_threshold: Scalar,
    pub grow_face_count: u32,
    pub max_iterations: u32,
}

/// The chart parameter block of the engine, with its fields in the order in
/// which the engine declares them.
#[derive(Clone, Copy, Debug, PartialEq, Eq, Structural)]
pub struct ChartParams {
    pub proxy_fit_metric_weight: Scalar,
    pub roundness_metric_weight: Scalar,
    pub straightness_metric_weight: Scalar,
    pub normal_seam_metric_weight: Scalar,
    pub texture_seam_metric_weight: Scalar,
    pub max_chart_area: Scalar,
    pub max_boundary_length: Scalar,
    pub max_threshold: Scalar,
    pub grow_face_count: u32,
    pub max_iterations: u32,
}

/// Parameters that steer how charts are packed into atlases.
#[derive(Clone, Copy, Debug, PartialEq, Eq, Structural)]
pub struct PackOptions {
    pub attempts: i32,
    /// Zero lets the engine choose the scale.
    pub texels_per_unit: Scalar,
    /// Zero lets the engine choose the resolution.
    pub resolution: u32,
    pub max_chart_size: u32,
    pub block_align: bool,
    pub conservative: bool,
    pub padding: u32,
}

/// The pack parameter block of the engine, with its fields in the order in
/// which the engine declares them.
#[derive(Clone, Copy, Debug, PartialEq, Eq, Structural)]
pub struct PackParams {
    pub attempts: i32,
    pub texels_per_unit: Scalar,
    pub resolution: u32,
    pub max_chart_size: u32,
    pub block_align: bool,
    pub conservative: bool,
    pub padding: u32,
}

impl ChartOptions {
    /// The engine's parameter block for these options, field for field.
    pub open spec fn params(&self) -> ChartParams {
        ChartParams {
            proxy_fit_metric_weight: self.proxy_fit_metric_weight,
            roundness_metric_weight: self.roundness_metric_weight,
            straightness_metric_weight: self.straightness_metric_weight,
            normal_seam_metric_weight: self.normal_seam_metric_weight,
            texture_seam_metric_weight: self.texture_seam_metric_weight,
            max_chart_area: self.max_chart_area,
            max_boundary_length: self.max_boundary_length,
            max_threshold: self.max_threshold,
            grow_face_count: self.grow_face_count,
            max_iterations: self.max_iterations,
        }
    }

    /// The options that a caller gets without setting any.
    pub open spec fn standard() -> ChartOptions {
        ChartOptions {
            proxy_fit_metric_weight: Scalar { bits: TWO },
            roundness_metric_weight: Scalar { bits: ONE_HUNDREDTH },
            straightness_metric_weight: Scalar { bits: SIX },
            normal_seam_metric_weight: Scalar { bits: FOUR },
            texture_seam_metric_weight: Scalar { bits: ONE_HALF },
            max_chart_area: Scalar { bits: ZERO },
            max_boundary_length: Scalar { bits: ZERO },
            max_threshold: Scalar { bits: TWO },
            grow_face_count: 32,
            max_iterations: 1,
        }
    }

    /// Lays the options out as the engine's parameter block. Every field
    /// goes over unchanged.
    pub fn convert(&self) -> (params: ChartParams)
        ensures
            params == self.params(),
    {
        ChartParams {
            proxy_fit_metric_weight: self.proxy_fit_metric_weight,
            roundness_metric_weight: self.roundness_metric_weight,
            straightness_metric_weight: self.straightness_metric_weight,
            normal_seam_metric_weight: self.normal_seam_metric_weight,
            texture_seam_metric_weight: self.texture_seam_metric_weight,
            max_chart_area: self.max_chart_area,
            max_boundary_length: self.max_boundary_length,
            max_threshold: self.max_threshold,
            grow_face_count: self.grow_face_count,
            max_iterations: self.max_iterations,
        }
    }
}

impl Default for ChartOptions {
    /// Proxy fit two, roundness one hundredth, straightness six, normal seam
    /// four, texture seam one half, no bound on chart area or boundary
    /// length, threshold two, 32 faces to grow by, one iteration.
    fn default() -> (options: ChartOptions)
        ensures
            options == ChartOptions::standard(),
    {
        ChartOptions {
            proxy_fit_metric_weight: Scalar { bits: TWO },
            roundness_metric_weight: Scalar { bits: ONE_HUNDREDTH },
            straightness_metric_weight: Scalar { bits: SIX },
            normal_seam_metric_weight: Scalar { bits: FOUR },
            texture_seam_metric_weight: Scalar { bits: ONE_HALF },
            max_chart_area: Scalar { bits: ZERO },
            max_boundary_length: Scalar { bits: ZERO },
            max_threshold: Scalar { bits: TWO },
            grow_face_count: 32,
            max_iterations: 1,
        }
    }
}

impl PackOptions {
    /// The engine's parameter block for these options, field for field.
    pub open spec fn params(&self) -> PackParams {
        PackParams {
            attempts: self.attempts,
            texels_per_unit: self.texels_per_unit,
            resolution: self.resolution,
            max_chart_size: self.max_chart_size,
            block_align: self.block_align,
            conservative: self.conservative,
            padding: self.padding,
        }
    }

    /// The options that a caller gets without setting any.
    pub open spec fn standard() -> PackOptions {
        PackOptions {
            attempts: 4096,
            texels_per_unit: Scalar { bits: ZERO },
            resolution: 0,
            max_chart_size: 1024,
            block_align: false,
            conservative: false,
            padding: 0,
        }
    }

    /// Lays the options out as the engine's parameter block. Every field
    /// goes over unchanged.
    pub fn convert(&self) -> (params: PackParams)
        ensures
            params == self.params(),
    {
        PackParams {
            attempts: self.attempts,
            texels_per_unit: self.texels_per_unit,
            resolution: self.resolution,
            max_chart_size: self.max_chart_size,
            block_align: self.block_align,
            conservative: self.conservative,
            padding: self.padding,
        }
    }
}

impl Default for PackOptions {
    /// 4096 attempts, scale and resolution left to the engine, charts of at
    /// most 1024 texels, no block alignment, not conservative, no padding.
    fn default() -> (options: PackOptions)
        ensures
            options == PackOptions::standard(),
    {
        PackOptions {
            attempts: 4096,
            texels_per_unit: Scalar { bits: ZERO },
            resolution: 0,
            max_chart_size: 1024,
            block_align: false,
            conservative: false,
            padding: 0,
        }
    }
}

} // verus!
