//! Enumerations stored as one byte in a Binary Asset; a value out of range stands for the
//! enumeration's default.

use vstd::prelude::*;

verus! {

/// Which faces of a polygon are culled.
#[derive(Clone, Copy, Debug, PartialEq, Eq, Structural)]
pub enum CullMode {
    CullNone,
    Clockwise,
    CounterClockwise,
    Unchanged,
}

impl View for CullMode {
    type V = CullMode;

    open spec fn view(&self) -> CullMode {
        *self
    }
}

impl CullMode {
    /// The variant that byte `b` stands for: variant `b` in declaration order, or `Clockwise`.
    pub open spec fn from_byte(b: u8) -> Self {
        if b == 0 {
            CullMode::CullNone
        } else if b == 1 {
            CullMode::Clockwise
        } else if b == 2 {
            CullMode::CounterClockwise
        } else if b == 3 {
            CullMode::Unchanged
        } else {
            CullMode::Clockwise
        }
    }

    /// Decodes a stored byte (see `from_byte`).
    pub fn from_u8(b: u8) -> (r: Self)
        ensures
            r == Self::from_byte(b),
    {
        match b {
            0 => CullMode::CullNone,
            1 => CullMode::Clockwise,
            2 => CullMode::CounterClockwise,
            3 => CullMode::Unchanged,
            _ => CullMode::Clockwise,
        }
    }
}

/// Whether depth writes are on.
#[derive(Clone, Copy, Debug, PartialEq, Eq, Structural)]
pub enum DepthMode {
    Off,
    On,
}

impl View for DepthMode {
    type V = DepthMode;

    open spec fn view(&self) -> DepthMode {
        *self
    }
}

impl DepthMode {
    /// The variant that byte `b` stands for: variant `b` in declaration order, or `On`.
    pub open spec fn from_byte(b: u8) -> Self {
        if b == 0 {
            DepthMode::Off
        } else if b == 1 {
            DepthMode::On
        } else {
            DepthMode::On
        }
    }

    /// Decodes a stored byte (see `from_byte`).
    pub fn from_u8(b: u8) -> (r: Self)
        ensures
            r == Self::from_byte(b),
    {
        match b {
            0 => DepthMode::Off,
            1 => DepthMode::On,
            _ => DepthMode::On,
        }
    }
}

/// Where the color of a ColorAttrib comes from.
#[derive(Clone, Copy, Debug, PartialEq, Eq, Structural)]
pub enum ColorType {
    Vertex,
    Flat,
    Off,
}

impl View for ColorType {
    type V = ColorType;

    open spec fn view(&self) -> ColorType {
        *self
    }
}

impl ColorType {
    /// The variant that byte `b` stands for: variant `b` in declaration order, or `Vertex`.
    pub open spec fn from_byte(b: u8) -> Self {
        if b == 0 {
            ColorType::Vertex
        } else if b == 1 {
            ColorType::Flat
        } else if b == 2 {
            ColorType::Off
        } else {
            ColorType::Vertex
        }
    }

    /// Decodes a stored byte (see `from_byte`).
    pub fn from_u8(b: u8) -> (r: Self)
        ensures
            r == Self::from_byte(b),
    {
        match b {
            0 => ColorType::Vertex,
            1 => ColorType::Flat,
            2 => ColorType::Off,
            _ => ColorType::Vertex,
        }
    }
}

/// Kind of bounding volume a node computes.
#[derive(Clone, Copy, Debug, PartialEq, Eq, Structural)]
pub enum BoundsType {
    Default,
    Best,
    Sphere,
    Box,
    Fastest,
}

impl View for BoundsType {
    type V = BoundsType;

    open spec fn view(&self) -> BoundsType {
        *self
    }
}

impl BoundsType {
    /// The variant that byte `b` stands for: variant `b` in declaration order, or `Default`.
    pub open spec fn from_byte(b: u8) -> Self {
        if b == 0 {
            BoundsType::Default
        } else if b == 1 {
            BoundsType::Best
        } else if b == 2 {
            BoundsType::Sphere
        } else if b == 3 {
            BoundsType::Box
        } else if b == 4 {
            BoundsType::Fastest
        } else {
            BoundsType::Default
        }
    }

    /// Decodes a stored byte (see `from_byte`).
    pub fn from_u8(b: u8) -> (r: Self)
        ensures
            r == Self::from_byte(b),
    {
        match b {
            0 => BoundsType::Default,
            1 => BoundsType::Best,
            2 => BoundsType::Sphere,
            3 => BoundsType::Box,
            4 => BoundsType::Fastest,
            _ => BoundsType::Default,
        }
    }
}

/// How an animation plays.
#[derive(Clone, Copy, Debug, PartialEq, Eq, Structural)]
pub enum PlayMode {
    Pose,
    Play,
    Loop,
    PingPong,
}

impl View for PlayMode {
    type V = PlayMode;

    open spec fn view(&self) -> PlayMode {
        *self
    }
}

impl PlayMode {
    /// The variant that byte `b` stands for: variant `b` in declaration order, or `Pose`.
    pub open spec fn from_byte(b: u8) -> Self {
        if b == 0 {
            PlayMode::Pose
        } else if b == 1 {
            PlayMode::Play
        } else if b == 2 {
            PlayMode::Loop
        } else if b == 3 {
            PlayMode::PingPong
        } else {
            PlayMode::Pose
        }
    }

    /// Decodes a stored byte (see `from_byte`).
    pub fn from_u8(b: u8) -> (r: Self)
        ensures
            r == Self::from_byte(b),
    {
        match b {
            0 => PlayMode::Pose,
            1 => PlayMode::Play,
            2 => PlayMode::Loop,
            3 => PlayMode::PingPong,
            _ => PlayMode::Pose,
        }
    }
}

/// Where vertex animation is computed.
#[derive(Clone, Copy, Debug, PartialEq, Eq, Structural)]
pub enum AnimationType {
    NoAnimation,
    Panda,
    Hardware,
}

impl View for AnimationType {
    type V = AnimationType;

    open spec fn view(&self) -> AnimationType {
        *self
    }
}

impl AnimationType {
    /// The variant that byte `b` stands for: variant `b` in declaration order, or `None`.
    pub open spec fn from_byte(b: u8) -> Self {
        if b == 0 {
            AnimationType::NoAnimation
        } else if b == 1 {
            AnimationType::Panda
        } else if b == 2 {
            AnimationType::Hardware
        } else {
            AnimationType::NoAnimation
        }
    }

    /// Decodes a stored byte (see `from_byte`).
    pub fn from_u8(b: u8) -> (r: Self)
        ensures
            r == Self::from_byte(b),
    {
        match b {
            0 => AnimationType::NoAnimation,
            1 => AnimationType::Panda,
            2 => AnimationType::Hardware,
            _ => AnimationType::NoAnimation,
        }
    }
}

/// How often vertex data is expected to change, from most dynamic to most static.
#[derive(Clone, Copy, Debug, PartialEq, Eq, Structural)]
pub enum UsageHint {
    Client,
    Stream,
    Dynamic,
    Static,
    Unspecified,
}

impl View for UsageHint {
    type V = UsageHint;

    open spec fn view(&self) -> UsageHint {
        *self
    }
}

impl UsageHint {
    /// The variant that byte `b` stands for: variant `b` in declaration order, or `Unspecified`.
    pub open spec fn from_byte(b: u8) -> Self {
        if b == 0 {
            UsageHint::Client
        } else if b == 1 {
            UsageHint::Stream
        } else if b == 2 {
            UsageHint::Dynamic
        } else if b == 3 {
            UsageHint::Static
        } else if b == 4 {
            UsageHint::Unspecified
        } else {
            UsageHint::Unspecified
        }
    }

    /// Decodes a stored byte (see `from_byte`).
    pub fn from_u8(b: u8) -> (r: Self)
        ensures
            r == Self::from_byte(b),
    {
        match b {
            0 => UsageHint::Client,
            1 => UsageHint::Stream,
            2 => UsageHint::Dynamic,
            3 => UsageHint::Static,
            4 => UsageHint::Unspecified,
            _ => UsageHint::Unspecified,
        }
    }
}

/// Storage type of a vertex column component.
#[derive(Clone, Copy, Debug, PartialEq, Eq, Structural)]
pub enum NumericType {
    U8,
    U16,
    U32,
    PackedDCBA,
    PackedDABC,
    F32,
    F64,
    StdFloat,
    I8,
    I16,
    I32,
    PackedUFloat,
}

impl View for NumericType {
    type V = NumericType;

    open spec fn view(&self) -> NumericType {
        *self
    }
}

impl NumericType {
    /// The variant that byte `b` stands for: variant `b` in declaration order, or `U8`.
    pub open spec fn from_byte(b: u8) -> Self {
        if b == 0 {
            NumericType::U8
        } else if b == 1 {
            NumericType::U16
        } else if b == 2 {
            NumericType::U32
        } else if b == 3 {
            NumericType::PackedDCBA
        } else if b == 4 {
            NumericType::PackedDABC
        } else if b == 5 {
            NumericType::F32
        } else if b == 6 {
            NumericType::F64
        } else if b == 7 {
            NumericType::StdFloat
        } else if b == 8 {
            NumericType::I8
        } else if b == 9 {
            NumericType::I16
        } else if b == 10 {
            NumericType::I32
        } else if b == 11 {
            NumericType::PackedUFloat
        } else {
            NumericType::U8
        }
    }

    /// Decodes a stored byte (see `from_byte`).
    pub fn from_u8(b: u8) -> (r: Self)
        ensures
            r == Self::from_byte(b),
    {
        match b {
            0 => NumericType::U8,
            1 => NumericType::U16,
            2 => NumericType::U32,
            3 => NumericType::PackedDCBA,
            4 => NumericType::PackedDABC,
            5 => NumericType::F32,
            6 => NumericType::F64,
            7 => NumericType::StdFloat,
            8 => NumericType::I8,
            9 => NumericType::I16,
            10 => NumericType::I32,
            11 => NumericType::PackedUFloat,
            _ => NumericType::U8,
        }
    }
}

/// Meaning of a vertex column.
#[derive(Clone, Copy, Debug, PartialEq, Eq, Structural)]
pub enum Contents {
    Other,
    Point,
    ClipPoint,
    Vector,
    TexCoord,
    Color,
    Index,
    MorphDelta,
    Matrix,
    Normal,
}

impl View for Contents {
    type V = Contents;

    open spec fn view(&self) -> Contents {
        *self
    }
}

impl Contents {
    /// The variant that byte `b` stands for: variant `b` in declaration order, or `Other`.
    pub open spec fn from_byte(b: u8) -> Self {
        if b == 0 {
            Contents::Other
        } else if b == 1 {
            Contents::Point
        } else if b == 2 {
            Contents::ClipPoint
        } else if b == 3 {
            Contents::Vector
        } else if b == 4 {
            Contents::TexCoord
        } else if b == 5 {
            Contents::Color
        } else if b == 6 {
            Contents::Index
        } else if b == 7 {
            Contents::MorphDelta
        } else if b == 8 {
            Contents::Matrix
        } else if b == 9 {
            Contents::Normal
        } else {
            Contents::Other
        }
    }

    /// Decodes a stored byte (see `from_byte`).
    pub fn from_u8(b: u8) -> (r: Self)
        ensures
            r == Self::from_byte(b),
    {
        match b {
            0 => Contents::Other,
            1 => Contents::Point,
            2 => Contents::ClipPoint,
            3 => Contents::Vector,
            4 => Contents::TexCoord,
            5 => Contents::Color,
            6 => Contents::Index,
            7 => Contents::MorphDelta,
            8 => Contents::Matrix,
            9 => Contents::Normal,
            _ => Contents::Other,
        }
    }
}

/// How a primitive is shaded.
#[derive(Clone, Copy, Debug, PartialEq, Eq, Structural)]
pub enum ShadeModel {
    Uniform,
    Smooth,
    FlatFirstVertex,
    FlatLastVertex,
}

impl View for ShadeModel {
    type V = ShadeModel;

    open spec fn view(&self) -> ShadeModel {
        *self
    }
}

impl ShadeModel {
    /// The variant that byte `b` stands for: variant `b` in declaration order, or `Uniform`.
    pub open spec fn from_byte(b: u8) -> Self {
        if b == 0 {
            ShadeModel::Uniform
        } else if b == 1 {
            ShadeModel::Smooth
        } else if b == 2 {
            ShadeModel::FlatFirstVertex
        } else if b == 3 {
            ShadeModel::FlatLastVertex
        } else {
            ShadeModel::Uniform
        }
    }

    /// Decodes a stored byte (see `from_byte`).
    pub fn from_u8(b: u8) -> (r: Self)
        ensures
            r == Self::from_byte(b),
    {
        match b {
            0 => ShadeModel::Uniform,
            1 => ShadeModel::Smooth,
            2 => ShadeModel::FlatFirstVertex,
            3 => ShadeModel::FlatLastVertex,
            _ => ShadeModel::Uniform,
        }
    }
}

/// Kind of primitive a Geom holds.
#[derive(Clone, Copy, Debug, PartialEq, Eq, Structural)]
pub enum PrimitiveType {
    NoPrimitive,
    Polygons,
    Lines,
    Points,
    Patches,
}

impl View for PrimitiveType {
    type V = PrimitiveType;

    open spec fn view(&self) -> PrimitiveType {
        *self
    }
}

impl PrimitiveType {
    /// The variant that byte `b` stands for: variant `b` in declaration order, or `None`.
    pub open spec fn from_byte(b: u8) -> Self {
        if b == 0 {
            PrimitiveType::NoPrimitive
        } else if b == 1 {
            PrimitiveType::Polygons
        } else if b == 2 {
            PrimitiveType::Lines
        } else if b == 3 {
            PrimitiveType::Points
        } else if b == 4 {
            PrimitiveType::Patches
        } else {
            PrimitiveType::NoPrimitive
        }
    }

    /// Decodes a stored byte (see `from_byte`).
    pub fn from_u8(b: u8) -> (r: Self)
        ensures
            r == Self::from_byte(b),
    {
        match b {
            0 => PrimitiveType::NoPrimitive,
            1 => PrimitiveType::Polygons,
            2 => PrimitiveType::Lines,
            3 => PrimitiveType::Points,
            4 => PrimitiveType::Patches,
            _ => PrimitiveType::NoPrimitive,
        }
    }
}

/// How a flatten operation may change a ModelNode's transform.
#[derive(Clone, Copy, Debug, PartialEq, Eq, Structural)]
pub enum PreserveTransform {
    NoPreserve,
    Local,
    Net,
    DropNode,
    NoTouch,
}

impl View for PreserveTransform {
    type V = PreserveTransform;

    open spec fn view(&self) -> PreserveTransform {
        *self
    }
}

impl PreserveTransform {
    /// The variant that byte `b` stands for: variant `b` in declaration order, or `None`.
    pub open spec fn from_byte(b: u8) -> Self {
        if b == 0 {
            PreserveTransform::NoPreserve
        } else if b == 1 {
            PreserveTransform::Local
        } else if b == 2 {
            PreserveTransform::Net
        } else if b == 3 {
            PreserveTransform::DropNode
        } else if b == 4 {
            PreserveTransform::NoTouch
        } else {
            PreserveTransform::NoPreserve
        }
    }

    /// Decodes a stored byte (see `from_byte`).
    pub fn from_u8(b: u8) -> (r: Self)
        ensures
            r == Self::from_byte(b),
    {
        match b {
            0 => PreserveTransform::NoPreserve,
            1 => PreserveTransform::Local,
            2 => PreserveTransform::Net,
            3 => PreserveTransform::DropNode,
            4 => PreserveTransform::NoTouch,
            _ => PreserveTransform::NoPreserve,
        }
    }
}

/// How a PartBundle blends animations.
#[derive(Clone, Copy, Debug, PartialEq, Eq, Structural)]
pub enum BlendType {
    Linear,
    NormalizedLinear,
    Componentwise,
    ComponentwiseQuat,
}

impl View for BlendType {
    type V = BlendType;

    open spec fn view(&self) -> BlendType {
        *self
    }
}

impl BlendType {
    /// The variant that byte `b` stands for: variant `b` in declaration order, or `NormalizedLinear`.
    pub open spec fn from_byte(b: u8) -> Self {
        if b == 0 {
            BlendType::Linear
        } else if b == 1 {
            BlendType::NormalizedLinear
        } else if b == 2 {
            BlendType::Componentwise
        } else if b == 3 {
            BlendType::ComponentwiseQuat
        } else {
            BlendType::NormalizedLinear
        }
    }

    /// Decodes a stored byte (see `from_byte`).
    pub fn from_u8(b: u8) -> (r: Self)
        ensures
            r == Self::from_byte(b),
    {
        match b {
            0 => BlendType::Linear,
            1 => BlendType::NormalizedLinear,
            2 => BlendType::Componentwise,
            3 => BlendType::ComponentwiseQuat,
            _ => BlendType::NormalizedLinear,
        }
    }
}

/// How texture coordinates outside [0, 1] are treated.
#[derive(Clone, Copy, Debug, PartialEq, Eq, Structural)]
pub enum WrapMode {
    Clamp,
    Repeat,
    Mirror,
    MirrorOnce,
    BorderColor,
    Invalid,
}

impl View for WrapMode {
    type V = WrapMode;

    open spec fn view(&self) -> WrapMode {
        *self
    }
}

impl WrapMode {
    /// The variant that byte `b` stands for: variant `b` in declaration order, or `Repeat`.
    pub open spec fn from_byte(b: u8) -> Self {
        if b == 0 {
            WrapMode::Clamp
        } else if b == 1 {
            WrapMode::Repeat
        } else if b == 2 {
            WrapMode::Mirror
        } else if b == 3 {
            WrapMode::MirrorOnce
        } else if b == 4 {
            WrapMode::BorderColor
        } else if b == 5 {
            WrapMode::Invalid
        } else {
            WrapMode::Repeat
        }
    }

    /// Decodes a stored byte (see `from_byte`).
    pub fn from_u8(b: u8) -> (r: Self)
        ensures
            r == Self::from_byte(b),
    {
        match b {
            0 => WrapMode::Clamp,
            1 => WrapMode::Repeat,
            2 => WrapMode::Mirror,
            3 => WrapMode::MirrorOnce,
            4 => WrapMode::BorderColor,
            5 => WrapMode::Invalid,
            _ => WrapMode::Repeat,
        }
    }
}

/// Texture filtering.
#[derive(Clone, Copy, Debug, PartialEq, Eq, Structural)]
pub enum FilterType {
    Nearest,
    Linear,
    NearestMipmapNearest,
    LinearMipmapNearest,
    NearestMipmapLinear,
    LinearMipmapLinear,
    Shadow,
    Default,
    Invalid,
}

impl View for FilterType {
    type V = FilterType;

    open spec fn view(&self) -> FilterType {
        *self
    }
}

impl FilterType {
    /// The variant that byte `b` stands for: variant `b` in declaration order, or `Default`.
    pub open spec fn from_byte(b: u8) -> Self {
        if b == 0 {
            FilterType::Nearest
        } else if b == 1 {
            FilterType::Linear
        } else if b == 2 {
            FilterType::NearestMipmapNearest
        } else if b == 3 {
            FilterType::LinearMipmapNearest
        } else if b == 4 {
            FilterType::NearestMipmapLinear
        } else if b == 5 {
            FilterType::LinearMipmapLinear
        } else if b == 6 {
            FilterType::Shadow
        } else if b == 7 {
            FilterType::Default
        } else if b == 8 {
            FilterType::Invalid
        } else {
            FilterType::Default
        }
    }

    /// Decodes a stored byte (see `from_byte`).
    pub fn from_u8(b: u8) -> (r: Self)
        ensures
            r == Self::from_byte(b),
    {
        match b {
            0 => FilterType::Nearest,
            1 => FilterType::Linear,
            2 => FilterType::NearestMipmapNearest,
            3 => FilterType::LinearMipmapNearest,
            4 => FilterType::NearestMipmapLinear,
            5 => FilterType::LinearMipmapLinear,
            6 => FilterType::Shadow,
            7 => FilterType::Default,
            8 => FilterType::Invalid,
            _ => FilterType::Default,
        }
    }
}

/// How a texture's size is adjusted to a power of two.
#[derive(Clone, Copy, Debug, PartialEq, Eq, Structural)]
pub enum AutoTextureScale {
    NoScale,
    Down,
    Up,
    Pad,
    Unspecified,
}

impl View for AutoTextureScale {
    type V = AutoTextureScale;

    open spec fn view(&self) -> AutoTextureScale {
        *self
    }
}

impl AutoTextureScale {
    /// The variant that byte `b` stands for: variant `b` in declaration order, or `Unspecified`.
    pub open spec fn from_byte(b: u8) -> Self {
        if b == 0 {
            AutoTextureScale::NoScale
        } else if b == 1 {
            AutoTextureScale::Down
        } else if b == 2 {
            AutoTextureScale::Up
        } else if b == 3 {
            AutoTextureScale::Pad
        } else {
            AutoTextureScale::Unspecified
        }
    }

    /// Decodes a stored byte (see `from_byte`).
    pub fn from_u8(b: u8) -> (r: Self)
        ensures
            r == Self::from_byte(b),
    {
        match b {
            0 => AutoTextureScale::NoScale,
            1 => AutoTextureScale::Down,
            2 => AutoTextureScale::Up,
            3 => AutoTextureScale::Pad,
            _ => AutoTextureScale::Unspecified,
        }
    }
}

} // verus!
