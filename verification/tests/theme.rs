use egui_material3::ColorRole;

#[test]
fn role_keys() {
    assert_eq!(ColorRole::Primary.key(), "primary");
    assert_eq!(ColorRole::OnSurface.key(), "onSurface");
    assert_eq!(ColorRole::OnSurfaceVariant.key(), "onSurfaceVariant");
    assert_eq!(ColorRole::Outline.key(), "outline");
    assert_eq!(ColorRole::SecondaryContainer.key(), "secondaryContainer");
    assert_eq!(ColorRole::OnSecondaryContainer.key(), "onSecondaryContainer");
    assert_eq!(ColorRole::SurfaceContainer.key(), "surfaceContainer");
    assert_eq!(ColorRole::SurfaceContainerHighest.key(), "surfaceContainerHighest");
}

#[test]
fn role_keys_distinct() {
    let all = [
        ColorRole::Primary,
        ColorRole::OnSurface,
        ColorRole::OnSurfaceVariant,
        ColorRole::Outline,
        ColorRole::SecondaryContainer,
        ColorRole::OnSecondaryContainer,
        ColorRole::SurfaceContainer,
        ColorRole::SurfaceContainerHighest,
    ];
    for a in all {
        for b in all {
            assert_eq!(a == b, a.key() == b.key());
        }
    }
}
