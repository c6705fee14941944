use haushalt_frontend::ui_classes::{
    alert_class, badge_class, button_class, button_disabled, icon_button_class, points_label,
    AlertVariant, BadgeSize, BadgeVariant, ButtonSize, ButtonVariant, IconButtonVariant,
};

#[test]
fn button_classes_join_variant_size_and_extra() {
    assert_eq!(button_class(ButtonVariant::Primary, ButtonSize::Medium, None), "btn btn-primary");
    assert_eq!(button_class(ButtonVariant::Secondary, ButtonSize::Small, None), "btn btn-sm");
    assert_eq!(button_class(ButtonVariant::Danger, ButtonSize::ExtraSmall, Some("wide")), "btn btn-danger btn-xs wide");
    assert!(button_disabled(false, true));
    assert!(!button_disabled(false, false));
}

#[test]
fn badge_and_alert_classes() {
    assert_eq!(badge_class(BadgeVariant::Primary, BadgeSize::Small, None), "badge badge-info badge-sm");
    assert_eq!(badge_class(BadgeVariant::Default, BadgeSize::Medium, Some("x")), "badge x");
    assert_eq!(alert_class(AlertVariant::Info, None), "alert");
    assert_eq!(alert_class(AlertVariant::Error, Some("mt")), "alert alert-error mt");
    assert_eq!(icon_button_class(IconButtonVariant::Outline, None), "btn btn-icon btn-outline");
}

#[test]
fn test_points_format_positive() {
    assert_eq!(points_label(100), "100 pts");
}

#[test]
fn test_points_format_negative() {
    assert_eq!(points_label(-50), "-50 pts");
}

#[test]
fn test_points_format_zero() {
    assert_eq!(points_label(0), "0 pts");
}

#[test]
fn test_points_format_large() {
    assert_eq!(points_label(999999), "999999 pts");
}
