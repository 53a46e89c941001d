//! The host plugin's parameter-slot layout: the fixed control slots, the
//! per-parameter slot arithmetic, and the kind ordering that maps each
//! registered parameter onto its backing slot.

use crate::variant::Variant;
use vstd::prelude::*;

verus! {

/// The most user parameters one instance exposes to the host UI.
pub const MAX_INPUTS: i32 = 32;

/// How many backing slots each parameter consumes: one per kind.
pub const PARAM_TYPE_COUNT: i32 = 7;

/// The first slot index past the fixed controls.
pub const STATIC_PARAMS_OFFSET: i32 = 19;

/// One host-side parameter slot: the fixed controls, and the dynamic
/// slots that back user parameters.
#[derive(Debug, PartialEq, Eq, Structural, PartialOrd, Clone, Copy, Hash)]
pub enum ParamIdx {
    ScriptGroupStart,
    LoadButton,
    UnloadButton,
    SetVenv,
    UnsetVenv,
    ReloadButton,
    ScriptGroupEnd,
    IsImageFilter,
    DebugGroupBegin,
    ShowDebug,
    DebugOffset,
    TemporalWindow,
    DebugGroupEnd,
    ContinuousRenderGroupBegin,
    StartRender,
    CancelRender,
    ContinuousRenderGroupEnd,
    ParametersStart,
    ParametersEnd,
    Dynamic(i32),
}

impl ParamIdx {
    /// The host-side index of this slot.
    pub open spec fn spec_idx(&self) -> i32 {
        match self {
            ParamIdx::ScriptGroupStart => 1,
            ParamIdx::LoadButton => 2,
            ParamIdx::UnloadButton => 3,
            ParamIdx::SetVenv => 4,
            ParamIdx::UnsetVenv => 5,
            ParamIdx::ReloadButton => 6,
            ParamIdx::ScriptGroupEnd => 7,
            ParamIdx::DebugGroupBegin => 8,
            ParamIdx::ShowDebug => 9,
            ParamIdx::DebugOffset => 10,
            ParamIdx::TemporalWindow => 11,
            ParamIdx::DebugGroupEnd => 12,
            ParamIdx::ContinuousRenderGroupBegin => 13,
            ParamIdx::StartRender => 14,
            ParamIdx::CancelRender => 15,
            ParamIdx::ContinuousRenderGroupEnd => 16,
            ParamIdx::ParametersStart => 17,
            ParamIdx::IsImageFilter => 18,
            ParamIdx::Dynamic(x) => *x,
            ParamIdx::ParametersEnd => 243,
        }
    }

    #[verifier::when_used_as_spec(spec_idx)]
    pub fn idx(&self) -> (r: i32)
        ensures
            r == self.spec_idx(),
    {
        match self {
            ParamIdx::ScriptGroupStart => 1,
            ParamIdx::LoadButton => 2,
            ParamIdx::UnloadButton => 3,
            ParamIdx::SetVenv => 4,
            ParamIdx::UnsetVenv => 5,
            ParamIdx::ReloadButton => 6,
            ParamIdx::ScriptGroupEnd => 7,
            ParamIdx::DebugGroupBegin => 8,
            ParamIdx::ShowDebug => 9,
            ParamIdx::DebugOffset => 10,
            ParamIdx::TemporalWindow => 11,
            ParamIdx::DebugGroupEnd => 12,
            ParamIdx::ContinuousRenderGroupBegin => 13,
            ParamIdx::StartRender => 14,
            ParamIdx::CancelRender => 15,
            ParamIdx::ContinuousRenderGroupEnd => 16,
            ParamIdx::ParametersStart => 17,
            ParamIdx::IsImageFilter => 18,
            ParamIdx::Dynamic(x) => *x,
            ParamIdx::ParametersEnd => 18 + MAX_INPUTS * PARAM_TYPE_COUNT + 1,
        }
    }
}

/// The slot a host index names: the fixed slots map back to their
/// variants, the last dynamic slot is the parameter-group end marker,
/// and everything else is a dynamic slot.
pub open spec fn spec_param_from_index(value: usize) -> ParamIdx {
    if value == 1 {
        ParamIdx::ScriptGroupStart
    } else if value == 2 {
        ParamIdx::LoadButton
    } else if value == 3 {
        ParamIdx::UnloadButton
    } else if value == 4 {
        ParamIdx::SetVenv
    } else if value == 5 {
        ParamIdx::UnsetVenv
    } else if value == 6 {
        ParamIdx::ReloadButton
    } else if value == 7 {
        ParamIdx::ScriptGroupEnd
    } else if value == 8 {
        ParamIdx::DebugGroupBegin
    } else if value == 9 {
        ParamIdx::ShowDebug
    } else if value == 10 {
        ParamIdx::DebugOffset
    } else if value == 11 {
        ParamIdx::TemporalWindow
    } else if value == 12 {
        ParamIdx::DebugGroupEnd
    } else if value == 13 {
        ParamIdx::ContinuousRenderGroupBegin
    } else if value == 14 {
        ParamIdx::StartRender
    } else if value == 15 {
        ParamIdx::CancelRender
    } else if value == 16 {
        ParamIdx::ContinuousRenderGroupEnd
    } else if value == 17 {
        ParamIdx::ParametersStart
    } else if value == 18 {
        ParamIdx::IsImageFilter
    } else if value == 243 {
        ParamIdx::ParametersEnd
    } else {
        ParamIdx::Dynamic(value as i32)
    }
}

impl vstd::std_specs::convert::FromSpecImpl<usize> for ParamIdx {
    open spec fn obeys_from_spec() -> bool {
        true
    }

    open spec fn from_spec(v: usize) -> ParamIdx {
        spec_param_from_index(v)
    }
}

impl From<usize> for ParamIdx {
    /// The slot a host index names; see [`spec_param_from_index`].
    fn from(value: usize) -> (r: ParamIdx)
        ensures
            r == spec_param_from_index(value),
    {
        match value {
            1 => ParamIdx::ScriptGroupStart,
            2 => ParamIdx::LoadButton,
            3 => ParamIdx::UnloadButton,
            4 => ParamIdx::SetVenv,
            5 => ParamIdx::UnsetVenv,
            6 => ParamIdx::ReloadButton,
            7 => ParamIdx::ScriptGroupEnd,
            8 => ParamIdx::DebugGroupBegin,
            9 => ParamIdx::ShowDebug,
            10 => ParamIdx::DebugOffset,
            11 => ParamIdx::TemporalWindow,
            12 => ParamIdx::DebugGroupEnd,
            13 => ParamIdx::ContinuousRenderGroupBegin,
            14 => ParamIdx::StartRender,
            15 => ParamIdx::CancelRender,
            16 => ParamIdx::ContinuousRenderGroupEnd,
            17 => ParamIdx::ParametersStart,
            18 => ParamIdx::IsImageFilter,
            243 => ParamIdx::ParametersEnd,
            n => ParamIdx::Dynamic(n as i32),
        }
    }
}

/// The seven backing-slot kinds, in slot order.
#[derive(Debug, Clone, Copy, PartialEq, Eq, Structural)]
pub enum AeVariant {
    Float,
    Int,
    IntList,
    Point,
    Bool,
    Color,
    Image,
}

impl AeVariant {
    /// This kind's offset within a parameter's block of backing slots.
    pub open spec fn spec_offset(&self) -> i32 {
        match self {
            AeVariant::Float => 0,
            AeVariant::Int => 1,
            AeVariant::IntList => 2,
            AeVariant::Point => 3,
            AeVariant::Bool => 4,
            AeVariant::Color => 5,
            AeVariant::Image => 6,
        }
    }

    #[verifier::when_used_as_spec(spec_offset)]
    pub fn offset(&self) -> (r: i32)
        ensures
            r == self.spec_offset(),
    {
        match self {
            AeVariant::Float => 0,
            AeVariant::Int => 1,
            AeVariant::IntList => 2,
            AeVariant::Point => 3,
            AeVariant::Bool => 4,
            AeVariant::Color => 5,
            AeVariant::Image => 6,
        }
    }
}

/// The backing-slot kind of a parameter.
pub open spec fn spec_variant_kind(variant: crate::variant::VariantV) -> AeVariant {
    match variant {
        crate::variant::VariantV::Float(_) => AeVariant::Float,
        crate::variant::VariantV::Int(_) => AeVariant::Int,
        crate::variant::VariantV::TaggedInt(_) => AeVariant::IntList,
        crate::variant::VariantV::Vector2(_) => AeVariant::Point,
        crate::variant::VariantV::Bool(_) => AeVariant::Bool,
        crate::variant::VariantV::Color(_) => AeVariant::Color,
        crate::variant::VariantV::Image(_) => AeVariant::Image,
    }
}

/// The dynamic slot that backs the parameter at registry position
/// `index`: each parameter owns a block of seven slots past the fixed
/// controls, one per kind.
pub fn as_param_index(index: usize, variant: &Variant) -> (r: ParamIdx)
    requires
        index <= MAX_INPUTS,
    ensures
        r == ParamIdx::Dynamic(
            (index * PARAM_TYPE_COUNT + STATIC_PARAMS_OFFSET + spec_variant_kind(
                variant@,
            ).spec_offset()) as i32,
        ),
{
    let kind = match variant {
        Variant::Float(_) => AeVariant::Float,
        Variant::Int(_) => AeVariant::Int,
        Variant::TaggedInt(_) => AeVariant::IntList,
        Variant::Vector2(_) => AeVariant::Point,
        Variant::Bool(_) => AeVariant::Bool,
        Variant::Color(_) => AeVariant::Color,
        Variant::Image(_) => AeVariant::Image,
    };
    ParamIdx::Dynamic((index as i32) * PARAM_TYPE_COUNT + STATIC_PARAMS_OFFSET + kind.offset())
}

} // verus!
