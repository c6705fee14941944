//! The class lists of the shared widgets: buttons, icon buttons, badges and alerts, each a
//! variant's classes, then a size class if any, then the caller's own classes if any.
use vstd::prelude::*;
use crate::text::{i64_text, int_text};

verus! {

/// The classes of a widget, separated by single spaces: the variant's, the size's when it has
/// one, and the extra classes when some were given.
pub open spec fn class_list(variant: Seq<char>, size: Seq<char>, extra: Option<Seq<char>>) -> Seq<char> {
    variant + (if size.len() > 0 {
        " "@ + size
    } else {
        Seq::<char>::empty()
    }) + match extra {
        Some(e) => " "@ + e,
        None => Seq::<char>::empty(),
    }
}

/// Joins a widget's classes.
pub fn join_classes(variant: &str, size: &str, extra: Option<&str>) -> (r: String)
    ensures
        r@ == class_list(variant@, size@, match extra {
            Some(e) => Some(e@),
            None => None,
        }),
{
    let mut r = String::from_str(variant);
    let ghost v = r@;
    if !size.is_empty() {
        r.append(" ");
        r.append(size);
        assert(r@ =~= v + (" "@ + size@));
    } else {
        assert(r@ =~= v + Seq::<char>::empty());
    }
    let ghost vs = r@;
    match extra {
        Some(e) => {
            r.append(" ");
            r.append(e);
            assert(r@ =~= vs + (" "@ + e@));
        },
        None => {
            assert(r@ =~= vs + Seq::<char>::empty());
        },
    }
    r
}

/// The look of a button.
#[derive(Debug, Clone, Copy, PartialEq, Eq, Structural)]
pub enum ButtonVariant {
    Primary,
    Secondary,
    Outline,
    Danger,
    Success,
    Icon,
}

/// The size of a button.
#[derive(Debug, Clone, Copy, PartialEq, Eq, Structural)]
pub enum ButtonSize {
    Medium,
    Small,
    ExtraSmall,
}

/// The classes of each button look.
pub open spec fn button_variant_text(v: ButtonVariant) -> Seq<char> {
    match v {
        ButtonVariant::Primary => "btn btn-primary"@,
        ButtonVariant::Secondary => "btn"@,
        ButtonVariant::Outline => "btn btn-outline"@,
        ButtonVariant::Danger => "btn btn-danger"@,
        ButtonVariant::Success => "btn btn-success"@,
        ButtonVariant::Icon => "btn btn-icon"@,
    }
}

/// The class of each button size; none for the medium size.
pub open spec fn button_size_text(s: ButtonSize) -> Seq<char> {
    match s {
        ButtonSize::Medium => ""@,
        ButtonSize::Small => "btn-sm"@,
        ButtonSize::ExtraSmall => "btn-xs"@,
    }
}

/// A button's classes.
pub fn button_class(variant: ButtonVariant, size: ButtonSize, extra: Option<&str>) -> (r: String)
    ensures
        r@ == class_list(button_variant_text(variant), button_size_text(size), match extra {
            Some(e) => Some(e@),
            None => None,
        }),
{
    let v = match variant {
        ButtonVariant::Primary => "btn btn-primary",
        ButtonVariant::Secondary => "btn",
        ButtonVariant::Outline => "btn btn-outline",
        ButtonVariant::Danger => "btn btn-danger",
        ButtonVariant::Success => "btn btn-success",
        ButtonVariant::Icon => "btn btn-icon",
    };
    let s = match size {
        ButtonSize::Medium => "",
        ButtonSize::Small => "btn-sm",
        ButtonSize::ExtraSmall => "btn-xs",
    };
    join_classes(v, s, extra)
}

/// A button takes no clicks while disabled or while its action is under way.
pub fn button_disabled(disabled: bool, loading: bool) -> (r: bool)
    ensures
        r == (disabled || loading),
{
    disabled || loading
}

/// The look of a badge.
#[derive(Debug, Clone, Copy, PartialEq, Eq, Structural)]
pub enum BadgeVariant {
    Default,
    Primary,
    Success,
    Warning,
    Danger,
    Info,
    Private,
    Shared,
    Owner,
    Admin,
    Member,
}

/// The size of a badge.
#[derive(Debug, Clone, Copy, PartialEq, Eq, Structural)]
pub enum BadgeSize {
    Medium,
    Small,
}

/// The classes of each badge look; primary and info share one.
pub open spec fn badge_variant_text(v: BadgeVariant) -> Seq<char> {
    match v {
        BadgeVariant::Default => "badge"@,
        BadgeVariant::Primary => "badge badge-info"@,
        BadgeVariant::Success => "badge badge-success"@,
        BadgeVariant::Warning => "badge badge-warning"@,
        BadgeVariant::Danger => "badge badge-danger"@,
        BadgeVariant::Info => "badge badge-info"@,
        BadgeVariant::Private => "badge badge-private"@,
        BadgeVariant::Shared => "badge badge-shared"@,
        BadgeVariant::Owner => "badge badge-owner"@,
        BadgeVariant::Admin => "badge badge-admin"@,
        BadgeVariant::Member => "badge badge-member"@,
    }
}

/// A badge's classes.
pub fn badge_class(variant: BadgeVariant, size: BadgeSize, extra: Option<&str>) -> (r: String)
    ensures
        r@ == class_list(
            badge_variant_text(variant),
            match size {
                BadgeSize::Medium => ""@,
                BadgeSize::Small => "badge-sm"@,
            },
            match extra {
                Some(e) => Some(e@),
                None => None,
            },
        ),
{
    let v = match variant {
        BadgeVariant::Default => "badge",
        BadgeVariant::Primary => "badge badge-info",
        BadgeVariant::Success => "badge badge-success",
        BadgeVariant::Warning => "badge badge-warning",
        BadgeVariant::Danger => "badge badge-danger",
        BadgeVariant::Info => "badge badge-info",
        BadgeVariant::Private => "badge badge-private",
        BadgeVariant::Shared => "badge badge-shared",
        BadgeVariant::Owner => "badge badge-owner",
        BadgeVariant::Admin => "badge badge-admin",
        BadgeVariant::Member => "badge badge-member",
    };
    let s = match size {
        BadgeSize::Medium => "",
        BadgeSize::Small => "badge-sm",
    };
    join_classes(v, s, extra)
}

/// The look of an alert.
#[derive(Debug, Clone, Copy, PartialEq, Eq, Structural)]
pub enum AlertVariant {
    Info,
    Success,
    Warning,
    Error,
}

/// The classes of each alert look.
pub open spec fn alert_variant_text(v: AlertVariant) -> Seq<char> {
    match v {
        AlertVariant::Info => "alert"@,
        AlertVariant::Success => "alert alert-success"@,
        AlertVariant::Warning => "alert alert-warning"@,
        AlertVariant::Error => "alert alert-error"@,
    }
}

/// An alert's classes.
pub fn alert_class(variant: AlertVariant, extra: Option<&str>) -> (r: String)
    ensures
        r@ == class_list(alert_variant_text(variant), ""@, match extra {
            Some(e) => Some(e@),
            None => None,
        }),
{
    let v = match variant {
        AlertVariant::Info => "alert",
        AlertVariant::Success => "alert alert-success",
        AlertVariant::Warning => "alert alert-warning",
        AlertVariant::Error => "alert alert-error",
    };
    proof {
        reveal_strlit("");
    }
    join_classes(v, "", extra)
}

/// The look of an icon button.
#[derive(Debug, Clone, Copy, PartialEq, Eq, Structural)]
pub enum IconButtonVariant {
    Default,
    Primary,
    Danger,
    Outline,
}

/// The classes of each icon button look.
pub open spec fn icon_button_variant_text(v: IconButtonVariant) -> Seq<char> {
    match v {
        IconButtonVariant::Default => "btn btn-icon"@,
        IconButtonVariant::Primary => "btn btn-icon btn-primary"@,
        IconButtonVariant::Danger => "btn btn-icon btn-danger"@,
        IconButtonVariant::Outline => "btn btn-icon btn-outline"@,
    }
}

/// An icon button's classes.
pub fn icon_button_class(variant: IconButtonVariant, extra: Option<&str>) -> (r: String)
    ensures
        r@ == class_list(icon_button_variant_text(variant), ""@, match extra {
            Some(e) => Some(e@),
            None => None,
        }),
{
    let v = match variant {
        IconButtonVariant::Default => "btn btn-icon",
        IconButtonVariant::Primary => "btn btn-icon btn-primary",
        IconButtonVariant::Danger => "btn btn-icon btn-danger",
        IconButtonVariant::Outline => "btn btn-icon btn-outline",
    };
    proof {
        reveal_strlit("");
    }
    join_classes(v, "", extra)
}

/// A points badge's text: the points and `pts`, such as `-50 pts`.
pub fn points_label(points: i64) -> (r: String)
    ensures
        r@ == int_text(points as int) + " pts"@,
{
    let mut r = i64_text(points);
    r.append(" pts");
    r
}

} // verus!
