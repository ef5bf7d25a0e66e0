use vstd::prelude::*;
use vstd::string::StringExecFns;

verus! {

/// A texture image among the game's assets.
#[derive(Debug, Clone, Copy, PartialEq, Eq, Structural)]
pub enum Texture {
    Grass,
    Crosshair,
}

impl Texture {
    /// Location of the texture file, relative to the assets directory.
    pub open spec fn spec_path(self) -> Seq<char> {
        match self {
            Texture::Grass => "textures/block/grass.png"@,
            Texture::Crosshair => "textures/ui/crosshair.png"@,
        }
    }

    pub fn path(self) -> (r: &'static str)
        ensures
            r@ == self.spec_path(),
    {
        match self {
            Texture::Grass => "textures/block/grass.png",
            Texture::Crosshair => "textures/ui/crosshair.png",
        }
    }
}

/// Locates assets served next to the page that runs the game.
pub struct ResourceReader {
    origin: String,
}

impl ResourceReader {
    /// The origin (scheme, host and port) that assets are fetched from.
    pub closed spec fn spec_origin(&self) -> Seq<char> {
        self.origin@
    }

    /// A reader for the assets served at `origin`.
    pub fn new(origin: String) -> (r: ResourceReader)
        ensures
            r.spec_origin() == origin@,
    {
        ResourceReader { origin }
    }

    /// URL of the asset at `path` inside the assets directory:
    /// `{origin}/assets/{path}`.
    pub fn asset_url(&self, path: &str) -> (r: String)
        ensures
            r@ == self.spec_origin() + "/assets/"@ + path@,
    {
        let url = self.origin.clone();
        let url = url.concat("/assets/");
        url.concat(path)
    }
}

} // verus!
