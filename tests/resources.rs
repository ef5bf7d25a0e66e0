use opencraft::camera::Direction;
use opencraft::resources::{ResourceReader, Texture};

#[test]
fn texture_paths() {
    assert_eq!(Texture::Grass.path(), "textures/block/grass.png");
    assert_eq!(Texture::Crosshair.path(), "textures/ui/crosshair.png");
}

#[test]
fn asset_url_joins_origin_and_path() {
    let reader = ResourceReader::new(String::from("https://example.org"));
    assert_eq!(
        reader.asset_url(Texture::Grass.path()),
        "https://example.org/assets/textures/block/grass.png"
    );
    assert_eq!(
        reader.asset_url("fonts/monocraft_v4.2.1.woff2"),
        "https://example.org/assets/fonts/monocraft_v4.2.1.woff2"
    );
}

#[test]
fn asset_url_with_empty_origin() {
    let reader = ResourceReader::new(String::new());
    assert_eq!(reader.asset_url(""), "/assets/");
}

#[test]
fn directions_differ() {
    assert_ne!(Direction::Forward, Direction::Backward);
}
