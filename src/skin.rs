use vstd::prelude::*;

verus! {

/// The two arm widths of a player model: classic (four pixels wide) and slim (three).
#[derive(Clone, Copy, Debug, PartialEq, Eq, Structural)]
pub enum SkinModel {
    Classic,
    Slim,
}

/// A body part of the player model.
#[derive(Clone, Copy, Debug, PartialEq, Eq, Structural)]
pub enum SkinPart {
    Head,
    ArmLeft,
    ArmRight,
    Body,
    LegLeft,
    LegRight,
}

/// The base layer of a body part, its overlay layer, or both of them.
#[derive(Clone, Copy, Debug, PartialEq, Eq, Structural)]
pub enum SkinLayer {
    Bottom,
    Top,
    Both,
}

/// A face of a body part's cuboid.
#[derive(Clone, Copy, Debug, PartialEq, Eq, Structural)]
pub enum SkinFace {
    Top,
    Bottom,
    Right,
    Front,
    Left,
    Back,
}

/// A body part together with one of its layers.
pub struct SkinSection<'a>(pub &'a SkinPart, pub SkinLayer);

} // verus!
