//! Colour roles of the Material Design 3 scheme that the widgets use, and
//! the paints that the widgets derive from them.

use vstd::prelude::*;

verus! {

/// A colour role of the Material Design 3 colour scheme.
#[derive(Clone, Copy, Debug, PartialEq, Eq, Structural)]
pub enum ColorRole {
    Primary,
    OnSurface,
    OnSurfaceVariant,
    Outline,
    SecondaryContainer,
    OnSecondaryContainer,
    SurfaceContainer,
    SurfaceContainerHighest,
}

/// The name under which the theme stores the colour of a role.
pub open spec fn role_key(role: ColorRole) -> Seq<char> {
    match role {
        ColorRole::Primary => "primary"@,
        ColorRole::OnSurface => "onSurface"@,
        ColorRole::OnSurfaceVariant => "onSurfaceVariant"@,
        ColorRole::Outline => "outline"@,
        ColorRole::SecondaryContainer => "secondaryContainer"@,
        ColorRole::OnSecondaryContainer => "onSecondaryContainer"@,
        ColorRole::SurfaceContainer => "surfaceContainer"@,
        ColorRole::SurfaceContainerHighest => "surfaceContainerHighest"@,
    }
}

impl ColorRole {
    /// The theme's name for this role, e.g. `"onSurfaceVariant"`.
    pub fn key(&self) -> (k: &'static str)
        ensures
            k@ == role_key(*self),
    {
        match self {
            ColorRole::Primary => "primary",
            ColorRole::OnSurface => "onSurface",
            ColorRole::OnSurfaceVariant => "onSurfaceVariant",
            ColorRole::Outline => "outline",
            ColorRole::SecondaryContainer => "secondaryContainer",
            ColorRole::OnSecondaryContainer => "onSecondaryContainer",
            ColorRole::SurfaceContainer => "surfaceContainer",
            ColorRole::SurfaceContainerHighest => "surfaceContainerHighest",
        }
    }
}

/// How a widget part is painted, in terms of the theme's colour roles.
#[derive(Clone, Copy, Debug, PartialEq, Eq, Structural)]
pub enum Paint {
    /// Fully transparent: nothing shows.
    Transparent,
    /// The role's colour as the theme gives it.
    Solid(ColorRole),
    /// The role's red, green and blue with the given (unmultiplied) alpha.
    WithAlpha(ColorRole, u8),
    /// The role's colour with every channel scaled by `percent / 100`.
    Faded(ColorRole, u8),
}

impl Paint {
    /// Whether painting with this paint leaves the surface untouched.
    pub open spec fn is_transparent(self) -> bool {
        self is Transparent
    }

    /// The colour role that this paint is derived from, if any.
    pub open spec fn role(self) -> Option<ColorRole> {
        match self {
            Paint::Transparent => None,
            Paint::Solid(r) => Some(r),
            Paint::WithAlpha(r, _) => Some(r),
            Paint::Faded(r, _) => Some(r),
        }
    }
}

/// Distinct roles are stored under distinct names, so no role's colour can
/// stand in for another's.
pub proof fn lemma_role_keys_distinct(a: ColorRole, b: ColorRole)
    requires
        a != b,
    ensures
        role_key(a) != role_key(b),
{
    reveal_strlit("primary");
    reveal_strlit("onSurface");
    reveal_strlit("onSurfaceVariant");
    reveal_strlit("outline");
    reveal_strlit("secondaryContainer");
    reveal_strlit("onSecondaryContainer");
    reveal_strlit("surfaceContainer");
    reveal_strlit("surfaceContainerHighest");
    assert(role_key(a).len() != role_key(b).len() || role_key(a)[0] != role_key(b)[0]);
}

} // verus!
