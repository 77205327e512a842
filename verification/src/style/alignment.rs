use vstd::prelude::*;
use vstd::std_specs::convert::FromSpecImpl;

use crate::style::direction::Direction;

verus! {

/// Controls how child nodes are aligned in the cross/block axis.
///
/// [MDN](https://developer.mozilla.org/en-US/docs/Web/CSS/align-items)
#[derive(Copy, Clone, PartialEq, Eq, Debug, Structural)]
pub enum AlignItems {
    /// Uses the layout mode's normal alignment.
    Normal,
    /// Items are packed toward the start of the axis.
    Start,
    /// Items are packed toward the end of the axis.
    End,
    /// Items are packed toward the flex-relative start of the axis.
    FlexStart,
    /// Items are packed toward the flex-relative end of the axis.
    FlexEnd,
    /// Items are packed toward their self-relative start edge.
    SelfStart,
    /// Items are packed toward their self-relative end edge.
    SelfEnd,
    /// Items are packed around the center of the axis.
    Center,
    /// Items are aligned so their baselines align.
    Baseline,
    /// Items are stretched to fill the container.
    Stretch,
    /// Safe `start` alignment.
    SafeStart,
    /// Safe `end` alignment.
    SafeEnd,
    /// Safe `flex-start` alignment.
    SafeFlexStart,
    /// Safe `flex-end` alignment.
    SafeFlexEnd,
    /// Safe `self-start` alignment.
    SafeSelfStart,
    /// Safe `self-end` alignment.
    SafeSelfEnd,
    /// Safe `center` alignment.
    SafeCenter,
}

impl AlignItems {
    /// Uses the layout mode's normal alignment.
    pub const NORMAL: Self = Self::Normal;
    /// Items are packed toward the start of the axis.
    pub const START: Self = Self::Start;
    /// Items are packed toward the end of the axis.
    pub const END: Self = Self::End;
    /// Items are packed toward the flex-relative start of the axis.
    pub const FLEX_START: Self = Self::FlexStart;
    /// Items are packed toward the flex-relative end of the axis.
    pub const FLEX_END: Self = Self::FlexEnd;
    /// Items are packed toward their self-relative start edge.
    pub const SELF_START: Self = Self::SelfStart;
    /// Items are packed toward their self-relative end edge.
    pub const SELF_END: Self = Self::SelfEnd;
    /// Items are packed around the center of the axis.
    pub const CENTER: Self = Self::Center;
    /// Items are aligned so their baselines align.
    pub const BASELINE: Self = Self::Baseline;
    /// Items are stretched to fill the container.
    pub const STRETCH: Self = Self::Stretch;
    /// Safe `start` alignment.
    pub const SAFE_START: Self = Self::SafeStart;
    /// Safe `end` alignment.
    pub const SAFE_END: Self = Self::SafeEnd;
    /// Safe `flex-start` alignment.
    pub const SAFE_FLEX_START: Self = Self::SafeFlexStart;
    /// Safe `flex-end` alignment.
    pub const SAFE_FLEX_END: Self = Self::SafeFlexEnd;
    /// Safe `self-start` alignment.
    pub const SAFE_SELF_START: Self = Self::SafeSelfStart;
    /// Safe `self-end` alignment.
    pub const SAFE_SELF_END: Self = Self::SafeSelfEnd;
    /// Safe `center` alignment.
    pub const SAFE_CENTER: Self = Self::SafeCenter;

    /// Whether this value carries the `safe` overflow-position modifier.
    pub open spec fn is_safe_spec(self) -> bool {
        match self {
            Self::SafeStart | Self::SafeEnd | Self::SafeFlexStart | Self::SafeFlexEnd | Self::SafeSelfStart | Self::SafeSelfEnd | Self::SafeCenter => true,
            _ => false,
        }
    }

    /// Returns `true` if this value carries the `safe` overflow-position modifier.
    #[verifier::when_used_as_spec(is_safe_spec)]
    pub fn is_safe(self) -> (r: bool)
        ensures
            r == self.is_safe_spec(),
    {
        matches!(self, Self::SafeStart | Self::SafeEnd | Self::SafeFlexStart | Self::SafeFlexEnd | Self::SafeSelfStart | Self::SafeSelfEnd | Self::SafeCenter)
    }

    /// The value of a property that may be left unset: `value` where there is one, the CSS
    /// initial value `normal` otherwise.
    pub fn or_initial(value: Option<Self>) -> (r: Self)
        ensures
            r == match value {
                Some(v) => v,
                None => Self::Normal,
            },
    {
        match value {
            Some(v) => v,
            None => Self::Normal,
        }
    }

}

impl Default for AlignItems {
    /// The CSS initial value, `normal`.
    fn default() -> (r: Self)
        ensures
            r == AlignItems::Normal,
    {
        Self::Normal
    }
}

/// Controls alignment of an individual node in the cross/block axis.
///
/// Overrides the parent node's [`AlignItems`] property.
///
/// [MDN](https://developer.mozilla.org/en-US/docs/Web/CSS/align-self)
#[derive(Copy, Clone, PartialEq, Eq, Debug, Structural)]
pub enum AlignSelf {
    /// Uses the parent node's [`AlignItems`] value.
    Auto,
    /// Uses the layout mode's normal alignment.
    Normal,
    /// The item is packed toward the start of the axis.
    Start,
    /// The item is packed toward the end of the axis.
    End,
    /// The item is packed toward the flex-relative start of the axis.
    FlexStart,
    /// The item is packed toward the flex-relative end of the axis.
    FlexEnd,
    /// The item is packed toward its self-relative start edge.
    SelfStart,
    /// The item is packed toward its self-relative end edge.
    SelfEnd,
    /// The item is packed around the center of the axis.
    Center,
    /// The item is aligned by its baseline.
    Baseline,
    /// The item is stretched to fill its alignment container.
    Stretch,
    /// Safe `start` alignment.
    SafeStart,
    /// Safe `end` alignment.
    SafeEnd,
    /// Safe `flex-start` alignment.
    SafeFlexStart,
    /// Safe `flex-end` alignment.
    SafeFlexEnd,
    /// Safe `self-start` alignment.
    SafeSelfStart,
    /// Safe `self-end` alignment.
    SafeSelfEnd,
    /// Safe `center` alignment.
    SafeCenter,
}

impl AlignSelf {
    /// Uses the parent node's [`AlignItems`] value.
    pub const AUTO: Self = Self::Auto;
    /// Uses the layout mode's normal alignment.
    pub const NORMAL: Self = Self::Normal;
    /// The item is packed toward the start of the axis.
    pub const START: Self = Self::Start;
    /// The item is packed toward the end of the axis.
    pub const END: Self = Self::End;
    /// The item is packed toward the flex-relative start of the axis.
    pub const FLEX_START: Self = Self::FlexStart;
    /// The item is packed toward the flex-relative end of the axis.
    pub const FLEX_END: Self = Self::FlexEnd;
    /// The item is packed toward its self-relative start edge.
    pub const SELF_START: Self = Self::SelfStart;
    /// The item is packed toward its self-relative end edge.
    pub const SELF_END: Self = Self::SelfEnd;
    /// The item is packed around the center of the axis.
    pub const CENTER: Self = Self::Center;
    /// The item is aligned by its baseline.
    pub const BASELINE: Self = Self::Baseline;
    /// The item is stretched to fill its alignment container.
    pub const STRETCH: Self = Self::Stretch;
    /// Safe `start` alignment.
    pub const SAFE_START: Self = Self::SafeStart;
    /// Safe `end` alignment.
    pub const SAFE_END: Self = Self::SafeEnd;
    /// Safe `flex-start` alignment.
    pub const SAFE_FLEX_START: Self = Self::SafeFlexStart;
    /// Safe `flex-end` alignment.
    pub const SAFE_FLEX_END: Self = Self::SafeFlexEnd;
    /// Safe `self-start` alignment.
    pub const SAFE_SELF_START: Self = Self::SafeSelfStart;
    /// Safe `self-end` alignment.
    pub const SAFE_SELF_END: Self = Self::SafeSelfEnd;
    /// Safe `center` alignment.
    pub const SAFE_CENTER: Self = Self::SafeCenter;

    /// Whether this value carries the `safe` overflow-position modifier.
    pub open spec fn is_safe_spec(self) -> bool {
        match self {
            Self::SafeStart | Self::SafeEnd | Self::SafeFlexStart | Self::SafeFlexEnd | Self::SafeSelfStart | Self::SafeSelfEnd | Self::SafeCenter => true,
            _ => false,
        }
    }

    /// Returns `true` if this value carries the `safe` overflow-position modifier.
    #[verifier::when_used_as_spec(is_safe_spec)]
    pub fn is_safe(self) -> (r: bool)
        ensures
            r == self.is_safe_spec(),
    {
        matches!(self, Self::SafeStart | Self::SafeEnd | Self::SafeFlexStart | Self::SafeFlexEnd | Self::SafeSelfStart | Self::SafeSelfEnd | Self::SafeCenter)
    }

    /// The value with the `safe` overflow-position modifier removed.
    pub open spec fn unsafe_variant_spec(self) -> Self {
        match self {
            Self::SafeStart => Self::Start,
            Self::SafeEnd => Self::End,
            Self::SafeFlexStart => Self::FlexStart,
            Self::SafeFlexEnd => Self::FlexEnd,
            Self::SafeSelfStart => Self::SelfStart,
            Self::SafeSelfEnd => Self::SelfEnd,
            Self::SafeCenter => Self::Center,
            value => value,
        }
    }

    /// Removes the `safe` overflow-position modifier.
    #[verifier::when_used_as_spec(unsafe_variant_spec)]
    pub fn unsafe_variant(self) -> (r: Self)
        ensures
            r == self.unsafe_variant_spec(),
    {
        match self {
            Self::SafeStart => Self::Start,
            Self::SafeEnd => Self::End,
            Self::SafeFlexStart => Self::FlexStart,
            Self::SafeFlexEnd => Self::FlexEnd,
            Self::SafeSelfStart => Self::SelfStart,
            Self::SafeSelfEnd => Self::SelfEnd,
            Self::SafeCenter => Self::Center,
            value => value,
        }
    }

    /// Whether `self-start`/`self-end` swap sides: only in the inline axis, and only where the
    /// item's direction differs from its container's.
    pub open spec fn self_relative_flips(item_direction: Direction, container_direction: Direction, axis_is_inline: bool) -> bool {
        axis_is_inline && item_direction != container_direction
    }

    /// The value with `self-start`/`self-end` resolved to `start`/`end`, swapping the two when `flip`.
    pub open spec fn resolve_self_relative_with(self, flip: bool) -> Self {
        match (self, flip) {
            (Self::SelfStart, false) => Self::Start,
            (Self::SelfStart, true) => Self::End,
            (Self::SelfEnd, false) => Self::End,
            (Self::SelfEnd, true) => Self::Start,
            (Self::SafeSelfStart, false) => Self::SafeStart,
            (Self::SafeSelfStart, true) => Self::SafeEnd,
            (Self::SafeSelfEnd, false) => Self::SafeEnd,
            (Self::SafeSelfEnd, true) => Self::SafeStart,
            (value, _) => value,
        }
    }

    /// `self-start`/`self-end` resolved against the item's own direction.
    pub open spec fn resolve_self_relative_spec(self, item_direction: Direction, container_direction: Direction, axis_is_inline: bool) -> Self {
        self.resolve_self_relative_with(Self::self_relative_flips(item_direction, container_direction, axis_is_inline))
    }

    /// Resolves `self-start` and `self-end` against the item's own direction.
    #[verifier::when_used_as_spec(resolve_self_relative_spec)]
    pub fn resolve_self_relative(self, item_direction: Direction, container_direction: Direction, axis_is_inline: bool) -> (r: Self)
        ensures
            r == self.resolve_self_relative_spec(item_direction, container_direction, axis_is_inline),
    {
        let flip = axis_is_inline && item_direction != container_direction;
        match (self, flip) {
            (Self::SelfStart, false) => Self::Start,
            (Self::SelfStart, true) => Self::End,
            (Self::SelfEnd, false) => Self::End,
            (Self::SelfEnd, true) => Self::Start,
            (Self::SafeSelfStart, false) => Self::SafeStart,
            (Self::SafeSelfStart, true) => Self::SafeEnd,
            (Self::SafeSelfEnd, false) => Self::SafeEnd,
            (Self::SafeSelfEnd, true) => Self::SafeStart,
            (value, _) => value,
        }
    }

    /// The value of a property that may be left unset: `value` where there is one, the CSS
    /// initial value `auto` otherwise.
    pub fn or_initial(value: Option<Self>) -> (r: Self)
        ensures
            r == match value {
                Some(v) => v,
                None => Self::Auto,
            },
    {
        match value {
            Some(v) => v,
            None => Self::Auto,
        }
    }

}

impl Default for AlignSelf {
    /// The CSS initial value, `auto`.
    fn default() -> (r: Self)
        ensures
            r == AlignSelf::Auto,
    {
        Self::Auto
    }
}

impl From<AlignItems> for AlignSelf {
    fn from(value: AlignItems) -> (r: Self) {
        match value {
            AlignItems::Normal => Self::Normal,
            AlignItems::Start => Self::Start,
            AlignItems::End => Self::End,
            AlignItems::FlexStart => Self::FlexStart,
            AlignItems::FlexEnd => Self::FlexEnd,
            AlignItems::SelfStart => Self::SelfStart,
            AlignItems::SelfEnd => Self::SelfEnd,
            AlignItems::Center => Self::Center,
            AlignItems::Baseline => Self::Baseline,
            AlignItems::Stretch => Self::Stretch,
            AlignItems::SafeStart => Self::SafeStart,
            AlignItems::SafeEnd => Self::SafeEnd,
            AlignItems::SafeFlexStart => Self::SafeFlexStart,
            AlignItems::SafeFlexEnd => Self::SafeFlexEnd,
            AlignItems::SafeSelfStart => Self::SafeSelfStart,
            AlignItems::SafeSelfEnd => Self::SafeSelfEnd,
            AlignItems::SafeCenter => Self::SafeCenter,
        }
    }
}

impl FromSpecImpl<AlignItems> for AlignSelf {
    open spec fn obeys_from_spec() -> bool {
        true
    }

    /// Each `AlignItems` value becomes the `AlignSelf` value of the same name.
    open spec fn from_spec(value: AlignItems) -> Self {
        match value {
            AlignItems::Normal => Self::Normal,
            AlignItems::Start => Self::Start,
            AlignItems::End => Self::End,
            AlignItems::FlexStart => Self::FlexStart,
            AlignItems::FlexEnd => Self::FlexEnd,
            AlignItems::SelfStart => Self::SelfStart,
            AlignItems::SelfEnd => Self::SelfEnd,
            AlignItems::Center => Self::Center,
            AlignItems::Baseline => Self::Baseline,
            AlignItems::Stretch => Self::Stretch,
            AlignItems::SafeStart => Self::SafeStart,
            AlignItems::SafeEnd => Self::SafeEnd,
            AlignItems::SafeFlexStart => Self::SafeFlexStart,
            AlignItems::SafeFlexEnd => Self::SafeFlexEnd,
            AlignItems::SafeSelfStart => Self::SafeSelfStart,
            AlignItems::SafeSelfEnd => Self::SafeSelfEnd,
            AlignItems::SafeCenter => Self::SafeCenter,
        }
    }
}

/// Controls how child nodes are aligned in the inline axis.
///
/// [MDN](https://developer.mozilla.org/en-US/docs/Web/CSS/justify-items)
#[derive(Copy, Clone, PartialEq, Eq, Debug, Structural)]
pub enum JustifyItems {
    /// Uses the layout mode's normal alignment.
    Normal,
    /// Items are packed toward the start of the axis.
    Start,
    /// Items are packed toward the end of the axis.
    End,
    /// Items are packed toward the flex-relative start of the axis.
    FlexStart,
    /// Items are packed toward the flex-relative end of the axis.
    FlexEnd,
    /// Items are packed toward their self-relative start edge.
    SelfStart,
    /// Items are packed toward their self-relative end edge.
    SelfEnd,
    /// Items are packed around the center of the axis.
    Center,
    /// Items are aligned so their baselines align.
    Baseline,
    /// Items are stretched to fill the container.
    Stretch,
    /// Safe `start` alignment.
    SafeStart,
    /// Safe `end` alignment.
    SafeEnd,
    /// Safe `flex-start` alignment.
    SafeFlexStart,
    /// Safe `flex-end` alignment.
    SafeFlexEnd,
    /// Safe `self-start` alignment.
    SafeSelfStart,
    /// Safe `self-end` alignment.
    SafeSelfEnd,
    /// Safe `center` alignment.
    SafeCenter,
}

impl JustifyItems {
    /// Uses the layout mode's normal alignment.
    pub const NORMAL: Self = Self::Normal;
    /// Items are packed toward the start of the axis.
    pub const START: Self = Self::Start;
    /// Items are packed toward the end of the axis.
    pub const END: Self = Self::End;
    /// Items are packed toward the flex-relative start of the axis.
    pub const FLEX_START: Self = Self::FlexStart;
    /// Items are packed toward the flex-relative end of the axis.
    pub const FLEX_END: Self = Self::FlexEnd;
    /// Items are packed toward their self-relative start edge.
    pub const SELF_START: Self = Self::SelfStart;
    /// Items are packed toward their self-relative end edge.
    pub const SELF_END: Self = Self::SelfEnd;
    /// Items are packed around the center of the axis.
    pub const CENTER: Self = Self::Center;
    /// Items are aligned so their baselines align.
    pub const BASELINE: Self = Self::Baseline;
    /// Items are stretched to fill the container.
    pub const STRETCH: Self = Self::Stretch;
    /// Safe `start` alignment.
    pub const SAFE_START: Self = Self::SafeStart;
    /// Safe `end` alignment.
    pub const SAFE_END: Self = Self::SafeEnd;
    /// Safe `flex-start` alignment.
    pub const SAFE_FLEX_START: Self = Self::SafeFlexStart;
    /// Safe `flex-end` alignment.
    pub const SAFE_FLEX_END: Self = Self::SafeFlexEnd;
    /// Safe `self-start` alignment.
    pub const SAFE_SELF_START: Self = Self::SafeSelfStart;
    /// Safe `self-end` alignment.
    pub const SAFE_SELF_END: Self = Self::SafeSelfEnd;
    /// Safe `center` alignment.
    pub const SAFE_CENTER: Self = Self::SafeCenter;

    /// Whether this value carries the `safe` overflow-position modifier.
    pub open spec fn is_safe_spec(self) -> bool {
        match self {
            Self::SafeStart | Self::SafeEnd | Self::SafeFlexStart | Self::SafeFlexEnd | Self::SafeSelfStart | Self::SafeSelfEnd | Self::SafeCenter => true,
            _ => false,
        }
    }

    /// Returns `true` if this value carries the `safe` overflow-position modifier.
    #[verifier::when_used_as_spec(is_safe_spec)]
    pub fn is_safe(self) -> (r: bool)
        ensures
            r == self.is_safe_spec(),
    {
        matches!(self, Self::SafeStart | Self::SafeEnd | Self::SafeFlexStart | Self::SafeFlexEnd | Self::SafeSelfStart | Self::SafeSelfEnd | Self::SafeCenter)
    }

    /// The value of a property that may be left unset: `value` where there is one, the CSS
    /// initial value `normal` otherwise.
    pub fn or_initial(value: Option<Self>) -> (r: Self)
        ensures
            r == match value {
                Some(v) => v,
                None => Self::Normal,
            },
    {
        match value {
            Some(v) => v,
            None => Self::Normal,
        }
    }

}

impl Default for JustifyItems {
    /// The CSS initial value, `normal`.
    fn default() -> (r: Self)
        ensures
            r == JustifyItems::Normal,
    {
        Self::Normal
    }
}

/// Controls alignment of an individual node in the inline axis.
///
/// Overrides the parent node's [`JustifyItems`] property.
///
/// [MDN](https://developer.mozilla.org/en-US/docs/Web/CSS/justify-self)
#[derive(Copy, Clone, PartialEq, Eq, Debug, Structural)]
pub enum JustifySelf {
    /// Uses the parent node's [`JustifyItems`] value.
    Auto,
    /// Uses the layout mode's normal alignment.
    Normal,
    /// The item is packed toward the start of the axis.
    Start,
    /// The item is packed toward the end of the axis.
    End,
    /// The item is packed toward the flex-relative start of the axis.
    FlexStart,
    /// The item is packed toward the flex-relative end of the axis.
    FlexEnd,
    /// The item is packed toward its self-relative start edge.
    SelfStart,
    /// The item is packed toward its self-relative end edge.
    SelfEnd,
    /// The item is packed around the center of the axis.
    Center,
    /// The item is aligned by its baseline.
    Baseline,
    /// The item is stretched to fill its alignment container.
    Stretch,
    /// Safe `start` alignment.
    SafeStart,
    /// Safe `end` alignment.
    SafeEnd,
    /// Safe `flex-start` alignment.
    SafeFlexStart,
    /// Safe `flex-end` alignment.
    SafeFlexEnd,
    /// Safe `self-start` alignment.
    SafeSelfStart,
    /// Safe `self-end` alignment.
    SafeSelfEnd,
    /// Safe `center` alignment.
    SafeCenter,
}

impl JustifySelf {
    /// Uses the parent node's [`JustifyItems`] value.
    pub const AUTO: Self = Self::Auto;
    /// Uses the layout mode's normal alignment.
    pub const NORMAL: Self = Self::Normal;
    /// The item is packed toward the start of the axis.
    pub const START: Self = Self::Start;
    /// The item is packed toward the end of the axis.
    pub const END: Self = Self::End;
    /// The item is packed toward the flex-relative start of the axis.
    pub const FLEX_START: Self = Self::FlexStart;
    /// The item is packed toward the flex-relative end of the axis.
    pub const FLEX_END: Self = Self::FlexEnd;
    /// The item is packed toward its self-relative start edge.
    pub const SELF_START: Self = Self::SelfStart;
    /// The item is packed toward its self-relative end edge.
    pub const SELF_END: Self = Self::SelfEnd;
    /// The item is packed around the center of the axis.
    pub const CENTER: Self = Self::Center;
    /// The item is aligned by its baseline.
    pub const BASELINE: Self = Self::Baseline;
    /// The item is stretched to fill its alignment container.
    pub const STRETCH: Self = Self::Stretch;
    /// Safe `start` alignment.
    pub const SAFE_START: Self = Self::SafeStart;
    /// Safe `end` alignment.
    pub const SAFE_END: Self = Self::SafeEnd;
    /// Safe `flex-start` alignment.
    pub const SAFE_FLEX_START: Self = Self::SafeFlexStart;
    /// Safe `flex-end` alignment.
    pub const SAFE_FLEX_END: Self = Self::SafeFlexEnd;
    /// Safe `self-start` alignment.
    pub const SAFE_SELF_START: Self = Self::SafeSelfStart;
    /// Safe `self-end` alignment.
    pub const SAFE_SELF_END: Self = Self::SafeSelfEnd;
    /// Safe `center` alignment.
    pub const SAFE_CENTER: Self = Self::SafeCenter;

    /// Whether this value carries the `safe` overflow-position modifier.
    pub open spec fn is_safe_spec(self) -> bool {
        match self {
            Self::SafeStart | Self::SafeEnd | Self::SafeFlexStart | Self::SafeFlexEnd | Self::SafeSelfStart | Self::SafeSelfEnd | Self::SafeCenter => true,
            _ => false,
        }
    }

    /// Returns `true` if this value carries the `safe` overflow-position modifier.
    #[verifier::when_used_as_spec(is_safe_spec)]
    pub fn is_safe(self) -> (r: bool)
        ensures
            r == self.is_safe_spec(),
    {
        matches!(self, Self::SafeStart | Self::SafeEnd | Self::SafeFlexStart | Self::SafeFlexEnd | Self::SafeSelfStart | Self::SafeSelfEnd | Self::SafeCenter)
    }

    /// The value with the `safe` overflow-position modifier removed.
    pub open spec fn unsafe_variant_spec(self) -> Self {
        match self {
            Self::SafeStart => Self::Start,
            Self::SafeEnd => Self::End,
            Self::SafeFlexStart => Self::FlexStart,
            Self::SafeFlexEnd => Self::FlexEnd,
            Self::SafeSelfStart => Self::SelfStart,
            Self::SafeSelfEnd => Self::SelfEnd,
            Self::SafeCenter => Self::Center,
            value => value,
        }
    }

    /// Removes the `safe` overflow-position modifier.
    #[verifier::when_used_as_spec(unsafe_variant_spec)]
    pub fn unsafe_variant(self) -> (r: Self)
        ensures
            r == self.unsafe_variant_spec(),
    {
        match self {
            Self::SafeStart => Self::Start,
            Self::SafeEnd => Self::End,
            Self::SafeFlexStart => Self::FlexStart,
            Self::SafeFlexEnd => Self::FlexEnd,
            Self::SafeSelfStart => Self::SelfStart,
            Self::SafeSelfEnd => Self::SelfEnd,
            Self::SafeCenter => Self::Center,
            value => value,
        }
    }

    /// Whether `self-start`/`self-end` swap sides: only in the inline axis, and only where the
    /// item's direction differs from its container's.
    pub open spec fn self_relative_flips(item_direction: Direction, container_direction: Direction, axis_is_inline: bool) -> bool {
        axis_is_inline && item_direction != container_direction
    }

    /// The value with `self-start`/`self-end` resolved to `start`/`end`, swapping the two when `flip`.
    pub open spec fn resolve_self_relative_with(self, flip: bool) -> Self {
        match (self, flip) {
            (Self::SelfStart, false) => Self::Start,
            (Self::SelfStart, true) => Self::End,
            (Self::SelfEnd, false) => Self::End,
            (Self::SelfEnd, true) => Self::Start,
            (Self::SafeSelfStart, false) => Self::SafeStart,
            (Self::SafeSelfStart, true) => Self::SafeEnd,
            (Self::SafeSelfEnd, false) => Self::SafeEnd,
            (Self::SafeSelfEnd, true) => Self::SafeStart,
            (value, _) => value,
        }
    }

    /// `self-start`/`self-end` resolved against the item's own direction.
    pub open spec fn resolve_self_relative_spec(self, item_direction: Direction, container_direction: Direction, axis_is_inline: bool) -> Self {
        self.resolve_self_relative_with(Self::self_relative_flips(item_direction, container_direction, axis_is_inline))
    }

    /// Resolves `self-start` and `self-end` against the item's own direction.
    #[verifier::when_used_as_spec(resolve_self_relative_spec)]
    pub fn resolve_self_relative(self, item_direction: Direction, container_direction: Direction, axis_is_inline: bool) -> (r: Self)
        ensures
            r == self.resolve_self_relative_spec(item_direction, container_direction, axis_is_inline),
    {
        let flip = axis_is_inline && item_direction != container_direction;
        match (self, flip) {
            (Self::SelfStart, false) => Self::Start,
            (Self::SelfStart, true) => Self::End,
            (Self::SelfEnd, false) => Self::End,
            (Self::SelfEnd, true) => Self::Start,
            (Self::SafeSelfStart, false) => Self::SafeStart,
            (Self::SafeSelfStart, true) => Self::SafeEnd,
            (Self::SafeSelfEnd, false) => Self::SafeEnd,
            (Self::SafeSelfEnd, true) => Self::SafeStart,
            (value, _) => value,
        }
    }

    /// The value of a property that may be left unset: `value` where there is one, the CSS
    /// initial value `auto` otherwise.
    pub fn or_initial(value: Option<Self>) -> (r: Self)
        ensures
            r == match value {
                Some(v) => v,
                None => Self::Auto,
            },
    {
        match value {
            Some(v) => v,
            None => Self::Auto,
        }
    }

}

impl Default for JustifySelf {
    /// The CSS initial value, `auto`.
    fn default() -> (r: Self)
        ensures
            r == JustifySelf::Auto,
    {
        Self::Auto
    }
}

impl From<JustifyItems> for JustifySelf {
    fn from(value: JustifyItems) -> (r: Self) {
        match value {
            JustifyItems::Normal => Self::Normal,
            JustifyItems::Start => Self::Start,
            JustifyItems::End => Self::End,
            JustifyItems::FlexStart => Self::FlexStart,
            JustifyItems::FlexEnd => Self::FlexEnd,
            JustifyItems::SelfStart => Self::SelfStart,
            JustifyItems::SelfEnd => Self::SelfEnd,
            JustifyItems::Center => Self::Center,
            JustifyItems::Baseline => Self::Baseline,
            JustifyItems::Stretch => Self::Stretch,
            JustifyItems::SafeStart => Self::SafeStart,
            JustifyItems::SafeEnd => Self::SafeEnd,
            JustifyItems::SafeFlexStart => Self::SafeFlexStart,
            JustifyItems::SafeFlexEnd => Self::SafeFlexEnd,
            JustifyItems::SafeSelfStart => Self::SafeSelfStart,
            JustifyItems::SafeSelfEnd => Self::SafeSelfEnd,
            JustifyItems::SafeCenter => Self::SafeCenter,
        }
    }
}

impl FromSpecImpl<JustifyItems> for JustifySelf {
    open spec fn obeys_from_spec() -> bool {
        true
    }

    /// Each `JustifyItems` value becomes the `JustifySelf` value of the same name.
    open spec fn from_spec(value: JustifyItems) -> Self {
        match value {
            JustifyItems::Normal => Self::Normal,
            JustifyItems::Start => Self::Start,
            JustifyItems::End => Self::End,
            JustifyItems::FlexStart => Self::FlexStart,
            JustifyItems::FlexEnd => Self::FlexEnd,
            JustifyItems::SelfStart => Self::SelfStart,
            JustifyItems::SelfEnd => Self::SelfEnd,
            JustifyItems::Center => Self::Center,
            JustifyItems::Baseline => Self::Baseline,
            JustifyItems::Stretch => Self::Stretch,
            JustifyItems::SafeStart => Self::SafeStart,
            JustifyItems::SafeEnd => Self::SafeEnd,
            JustifyItems::SafeFlexStart => Self::SafeFlexStart,
            JustifyItems::SafeFlexEnd => Self::SafeFlexEnd,
            JustifyItems::SafeSelfStart => Self::SafeSelfStart,
            JustifyItems::SafeSelfEnd => Self::SafeSelfEnd,
            JustifyItems::SafeCenter => Self::SafeCenter,
        }
    }
}

/// Sets the distribution of space between and around content items in the block axis.
///
/// [MDN](https://developer.mozilla.org/en-US/docs/Web/CSS/align-content)
#[derive(Copy, Clone, PartialEq, Eq, Debug, Structural)]
pub enum AlignContent {
    /// Uses the layout mode's normal alignment.
    Normal,
    /// Content is packed toward the start of the axis.
    Start,
    /// Content is packed toward the end of the axis.
    End,
    /// Content is packed toward the flex-relative start of the axis.
    FlexStart,
    /// Content is packed toward the flex-relative end of the axis.
    FlexEnd,
    /// Content is centered within the container.
    Center,
    /// Content is stretched to fill the container.
    Stretch,
    /// The first and last items are flush with the container edges.
    SpaceBetween,
    /// The gaps before, between, and after items are equal.
    SpaceEvenly,
    /// The outer gaps are half the size of the gaps between items.
    SpaceAround,
    /// Safe `start` alignment.
    SafeStart,
    /// Safe `end` alignment.
    SafeEnd,
    /// Safe `flex-start` alignment.
    SafeFlexStart,
    /// Safe `flex-end` alignment.
    SafeFlexEnd,
    /// Safe `center` alignment.
    SafeCenter,
}

impl AlignContent {
    /// Uses the layout mode's normal alignment.
    pub const NORMAL: Self = Self::Normal;
    /// Content is packed toward the start of the axis.
    pub const START: Self = Self::Start;
    /// Content is packed toward the end of the axis.
    pub const END: Self = Self::End;
    /// Content is packed toward the flex-relative start of the axis.
    pub const FLEX_START: Self = Self::FlexStart;
    /// Content is packed toward the flex-relative end of the axis.
    pub const FLEX_END: Self = Self::FlexEnd;
    /// Content is centered within the container.
    pub const CENTER: Self = Self::Center;
    /// Content is stretched to fill the container.
    pub const STRETCH: Self = Self::Stretch;
    /// The first and last items are flush with the container edges.
    pub const SPACE_BETWEEN: Self = Self::SpaceBetween;
    /// The gaps before, between, and after items are equal.
    pub const SPACE_EVENLY: Self = Self::SpaceEvenly;
    /// The outer gaps are half the size of the gaps between items.
    pub const SPACE_AROUND: Self = Self::SpaceAround;
    /// Safe `start` alignment.
    pub const SAFE_START: Self = Self::SafeStart;
    /// Safe `end` alignment.
    pub const SAFE_END: Self = Self::SafeEnd;
    /// Safe `flex-start` alignment.
    pub const SAFE_FLEX_START: Self = Self::SafeFlexStart;
    /// Safe `flex-end` alignment.
    pub const SAFE_FLEX_END: Self = Self::SafeFlexEnd;
    /// Safe `center` alignment.
    pub const SAFE_CENTER: Self = Self::SafeCenter;

    /// Whether this value carries the `safe` overflow-position modifier.
    pub open spec fn is_safe_spec(self) -> bool {
        match self {
            Self::SafeStart | Self::SafeEnd | Self::SafeFlexStart | Self::SafeFlexEnd | Self::SafeCenter => true,
            _ => false,
        }
    }

    /// Returns `true` if this value carries the `safe` overflow-position modifier.
    #[verifier::when_used_as_spec(is_safe_spec)]
    pub fn is_safe(self) -> (r: bool)
        ensures
            r == self.is_safe_spec(),
    {
        matches!(self, Self::SafeStart | Self::SafeEnd | Self::SafeFlexStart | Self::SafeFlexEnd | Self::SafeCenter)
    }

    /// The value with the `safe` overflow-position modifier removed.
    pub open spec fn unsafe_variant_spec(self) -> Self {
        match self {
            Self::SafeStart => Self::Start,
            Self::SafeEnd => Self::End,
            Self::SafeFlexStart => Self::FlexStart,
            Self::SafeFlexEnd => Self::FlexEnd,
            Self::SafeCenter => Self::Center,
            value => value,
        }
    }

    /// Removes the `safe` overflow-position modifier.
    #[verifier::when_used_as_spec(unsafe_variant_spec)]
    pub fn unsafe_variant(self) -> (r: Self)
        ensures
            r == self.unsafe_variant_spec(),
    {
        match self {
            Self::SafeStart => Self::Start,
            Self::SafeEnd => Self::End,
            Self::SafeFlexStart => Self::FlexStart,
            Self::SafeFlexEnd => Self::FlexEnd,
            Self::SafeCenter => Self::Center,
            value => value,
        }
    }

    /// The alignment used in a right-to-left context: start and end swap, `stretch` packs to the end.
    pub open spec fn reversed_spec(self) -> Self {
        match self {
            Self::Start => Self::End,
            Self::End => Self::Start,
            Self::FlexStart => Self::FlexEnd,
            Self::FlexEnd => Self::FlexStart,
            Self::SafeStart => Self::SafeEnd,
            Self::SafeEnd => Self::SafeStart,
            Self::SafeFlexStart => Self::SafeFlexEnd,
            Self::SafeFlexEnd => Self::SafeFlexStart,
            Self::Stretch => Self::End,
            value => value,
        }
    }

    /// Returns the reversed alignment for right-to-left contexts.
    #[verifier::when_used_as_spec(reversed_spec)]
    pub fn reversed(self) -> (r: Self)
        ensures
            r == self.reversed_spec(),
    {
        match self {
            Self::Start => Self::End,
            Self::End => Self::Start,
            Self::FlexStart => Self::FlexEnd,
            Self::FlexEnd => Self::FlexStart,
            Self::SafeStart => Self::SafeEnd,
            Self::SafeEnd => Self::SafeStart,
            Self::SafeFlexStart => Self::SafeFlexEnd,
            Self::SafeFlexEnd => Self::SafeFlexStart,
            Self::Stretch => Self::End,
            value => value,
        }
    }

    /// The value of a property that may be left unset: `value` where there is one, the CSS
    /// initial value `normal` otherwise.
    pub fn or_initial(value: Option<Self>) -> (r: Self)
        ensures
            r == match value {
                Some(v) => v,
                None => Self::Normal,
            },
    {
        match value {
            Some(v) => v,
            None => Self::Normal,
        }
    }

}

impl Default for AlignContent {
    /// The CSS initial value, `normal`.
    fn default() -> (r: Self)
        ensures
            r == AlignContent::Normal,
    {
        Self::Normal
    }
}

/// Sets the distribution of space between and around content items in the inline axis.
///
/// [MDN](https://developer.mozilla.org/en-US/docs/Web/CSS/justify-content)
#[derive(Copy, Clone, PartialEq, Eq, Debug, Structural)]
pub enum JustifyContent {
    /// Uses the layout mode's normal alignment.
    Normal,
    /// Content is packed toward the start of the axis.
    Start,
    /// Content is packed toward the end of the axis.
    End,
    /// Content is packed toward the flex-relative start of the axis.
    FlexStart,
    /// Content is packed toward the flex-relative end of the axis.
    FlexEnd,
    /// Content is centered within the container.
    Center,
    /// Content is stretched to fill the container.
    Stretch,
    /// The first and last items are flush with the container edges.
    SpaceBetween,
    /// The gaps before, between, and after items are equal.
    SpaceEvenly,
    /// The outer gaps are half the size of the gaps between items.
    SpaceAround,
    /// Safe `start` alignment.
    SafeStart,
    /// Safe `end` alignment.
    SafeEnd,
    /// Safe `flex-start` alignment.
    SafeFlexStart,
    /// Safe `flex-end` alignment.
    SafeFlexEnd,
    /// Safe `center` alignment.
    SafeCenter,
}

impl JustifyContent {
    /// Uses the layout mode's normal alignment.
    pub const NORMAL: Self = Self::Normal;
    /// Content is packed toward the start of the axis.
    pub const START: Self = Self::Start;
    /// Content is packed toward the end of the axis.
    pub const END: Self = Self::End;
    /// Content is packed toward the flex-relative start of the axis.
    pub const FLEX_START: Self = Self::FlexStart;
    /// Content is packed toward the flex-relative end of the axis.
    pub const FLEX_END: Self = Self::FlexEnd;
    /// Content is centered within the container.
    pub const CENTER: Self = Self::Center;
    /// Content is stretched to fill the container.
    pub const STRETCH: Self = Self::Stretch;
    /// The first and last items are flush with the container edges.
    pub const SPACE_BETWEEN: Self = Self::SpaceBetween;
    /// The gaps before, between, and after items are equal.
    pub const SPACE_EVENLY: Self = Self::SpaceEvenly;
    /// The outer gaps are half the size of the gaps between items.
    pub const SPACE_AROUND: Self = Self::SpaceAround;
    /// Safe `start` alignment.
    pub const SAFE_START: Self = Self::SafeStart;
    /// Safe `end` alignment.
    pub const SAFE_END: Self = Self::SafeEnd;
    /// Safe `flex-start` alignment.
    pub const SAFE_FLEX_START: Self = Self::SafeFlexStart;
    /// Safe `flex-end` alignment.
    pub const SAFE_FLEX_END: Self = Self::SafeFlexEnd;
    /// Safe `center` alignment.
    pub const SAFE_CENTER: Self = Self::SafeCenter;

    /// Whether this value carries the `safe` overflow-position modifier.
    pub open spec fn is_safe_spec(self) -> bool {
        match self {
            Self::SafeStart | Self::SafeEnd | Self::SafeFlexStart | Self::SafeFlexEnd | Self::SafeCenter => true,
            _ => false,
        }
    }

    /// Returns `true` if this value carries the `safe` overflow-position modifier.
    #[verifier::when_used_as_spec(is_safe_spec)]
    pub fn is_safe(self) -> (r: bool)
        ensures
            r == self.is_safe_spec(),
    {
        matches!(self, Self::SafeStart | Self::SafeEnd | Self::SafeFlexStart | Self::SafeFlexEnd | Self::SafeCenter)
    }

    /// The value with the `safe` overflow-position modifier removed.
    pub open spec fn unsafe_variant_spec(self) -> Self {
        match self {
            Self::SafeStart => Self::Start,
            Self::SafeEnd => Self::End,
            Self::SafeFlexStart => Self::FlexStart,
            Self::SafeFlexEnd => Self::FlexEnd,
            Self::SafeCenter => Self::Center,
            value => value,
        }
    }

    /// Removes the `safe` overflow-position modifier.
    #[verifier::when_used_as_spec(unsafe_variant_spec)]
    pub fn unsafe_variant(self) -> (r: Self)
        ensures
            r == self.unsafe_variant_spec(),
    {
        match self {
            Self::SafeStart => Self::Start,
            Self::SafeEnd => Self::End,
            Self::SafeFlexStart => Self::FlexStart,
            Self::SafeFlexEnd => Self::FlexEnd,
            Self::SafeCenter => Self::Center,
            value => value,
        }
    }

    /// The alignment used in a right-to-left context: start and end swap, `stretch` packs to the end.
    pub open spec fn reversed_spec(self) -> Self {
        match self {
            Self::Start => Self::End,
            Self::End => Self::Start,
            Self::FlexStart => Self::FlexEnd,
            Self::FlexEnd => Self::FlexStart,
            Self::SafeStart => Self::SafeEnd,
            Self::SafeEnd => Self::SafeStart,
            Self::SafeFlexStart => Self::SafeFlexEnd,
            Self::SafeFlexEnd => Self::SafeFlexStart,
            Self::Stretch => Self::End,
            value => value,
        }
    }

    /// Returns the reversed alignment for right-to-left contexts.
    #[verifier::when_used_as_spec(reversed_spec)]
    pub fn reversed(self) -> (r: Self)
        ensures
            r == self.reversed_spec(),
    {
        match self {
            Self::Start => Self::End,
            Self::End => Self::Start,
            Self::FlexStart => Self::FlexEnd,
            Self::FlexEnd => Self::FlexStart,
            Self::SafeStart => Self::SafeEnd,
            Self::SafeEnd => Self::SafeStart,
            Self::SafeFlexStart => Self::SafeFlexEnd,
            Self::SafeFlexEnd => Self::SafeFlexStart,
            Self::Stretch => Self::End,
            value => value,
        }
    }

    /// The value of a property that may be left unset: `value` where there is one, the CSS
    /// initial value `normal` otherwise.
    pub fn or_initial(value: Option<Self>) -> (r: Self)
        ensures
            r == match value {
                Some(v) => v,
                None => Self::Normal,
            },
    {
        match value {
            Some(v) => v,
            None => Self::Normal,
        }
    }

}

impl Default for JustifyContent {
    /// The CSS initial value, `normal`.
    fn default() -> (r: Self)
        ensures
            r == JustifyContent::Normal,
    {
        Self::Normal
    }
}

} // verus!
