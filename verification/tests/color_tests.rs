use ampere::PieceColor;

#[test]
fn light_display() {
    assert_eq!(PieceColor::Light.name(), "Light");
}

#[test]
fn dark_display() {
    assert_eq!(PieceColor::Dark.name(), "Dark");
}

#[test]
fn flip() {
    let light = PieceColor::Light;
    let dark = PieceColor::Dark;
    assert_eq!(light.flip(), dark);
    assert_eq!(dark.flip(), light);
}

#[test]
fn flip_if() {
    let light = PieceColor::Light;
    let dark = PieceColor::Dark;

    assert_eq!(light.flip_if(true), dark);
    assert_eq!(light.flip_if(false), light);
    assert_eq!(dark.flip_if(true), light);
    assert_eq!(dark.flip_if(false), dark);
}

#[test]
fn color_test_send() {
    fn assert_send<T: Send>() {}
    assert_send::<PieceColor>();
}

#[test]
fn color_test_sync() {
    fn assert_sync<T: Sync>() {}
    assert_sync::<PieceColor>();
}
