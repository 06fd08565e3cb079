//! Renderer configuration: the builder the bridge consumes, with the
//! documented defaults. The pixel-ratio scale factor is a floating-point
//! concern of the unverified shell and lives there; everything else is held
//! and verified here.

use vstd::prelude::*;

verus! {

/// The mathematical value of a configuration.
pub struct OptionsView {
    pub width: u32,
    pub height: u32,
    pub cache_path: Seq<char>,
    pub asset_root: Seq<char>,
    pub api_key: Seq<char>,
    pub base_url: Seq<char>,
    pub uri_scheme_alias: Seq<char>,
    pub api_key_parameter_name: Seq<char>,
    pub source_template: Seq<char>,
    pub style_template: Seq<char>,
    pub sprites_template: Seq<char>,
    pub glyphs_template: Seq<char>,
    pub tile_template: Seq<char>,
    pub default_style_url: Seq<char>,
    pub requires_api_key: bool,
}

/// Configuration options for a still-image renderer backed by a tile
/// server.
#[derive(Debug)]
pub struct ImageRendererOptions {
    pub width: u32,
    pub height: u32,
    pub cache_path: String,
    pub asset_root: String,
    pub api_key: String,
    pub base_url: String,
    pub uri_scheme_alias: String,
    pub api_key_parameter_name: String,
    pub source_template: String,
    pub style_template: String,
    pub sprites_template: String,
    pub glyphs_template: String,
    pub tile_template: String,
    pub default_style_url: String,
    pub requires_api_key: bool,
}

impl View for ImageRendererOptions {
    type V = OptionsView;

    open spec fn view(&self) -> OptionsView {
        OptionsView {
            width: self.width,
            height: self.height,
            cache_path: self.cache_path@,
            asset_root: self.asset_root@,
            api_key: self.api_key@,
            base_url: self.base_url@,
            uri_scheme_alias: self.uri_scheme_alias@,
            api_key_parameter_name: self.api_key_parameter_name@,
            source_template: self.source_template@,
            style_template: self.style_template@,
            sprites_template: self.sprites_template@,
            glyphs_template: self.glyphs_template@,
            tile_template: self.tile_template@,
            default_style_url: self.default_style_url@,
            requires_api_key: self.requires_api_key,
        }
    }
}

/// The documented default configuration.
pub open spec fn spec_default_options() -> OptionsView {
    OptionsView {
        width: 512,
        height: 512,
        cache_path: "cache.sqlite"@,
        asset_root: "."@,
        api_key: Seq::empty(),
        base_url: "https://demotiles.maplibre.org"@,
        uri_scheme_alias: "maplibre"@,
        api_key_parameter_name: Seq::empty(),
        source_template: "/tiles/{domain}.json"@,
        style_template: "{path}.json"@,
        sprites_template: "/{path}/sprite{scale}.{format}"@,
        glyphs_template: "/font/{fontstack}/{start}-{end}.pbf"@,
        tile_template: "/{path}"@,
        default_style_url: "https://demotiles.maplibre.org/style.json"@,
        requires_api_key: false,
    }
}

impl ImageRendererOptions {
    /// A configuration holding every documented default.
    pub fn new() -> (r: Self)
        ensures
            r@ == spec_default_options(),
    {
        let r = ImageRendererOptions {
            width: 512,
            height: 512,
            cache_path: "cache.sqlite".to_owned(),
            asset_root: ".".to_owned(),
            api_key: String::new(),
            base_url: "https://demotiles.maplibre.org".to_owned(),
            uri_scheme_alias: "maplibre".to_owned(),
            api_key_parameter_name: String::new(),
            source_template: "/tiles/{domain}.json".to_owned(),
            style_template: "{path}.json".to_owned(),
            sprites_template: "/{path}/sprite{scale}.{format}".to_owned(),
            glyphs_template: "/font/{fontstack}/{start}-{end}.pbf".to_owned(),
            tile_template: "/{path}".to_owned(),
            default_style_url: "https://demotiles.maplibre.org/style.json".to_owned(),
            requires_api_key: false,
        };
        proof {
            assert(r@ == spec_default_options());
        }
        r
    }

    pub fn with_size(&mut self, width: u32, height: u32)
        ensures
            final(self)@ == (OptionsView { width, height, ..old(self)@ }),
    {
        self.width = width;
        self.height = height;
    }

    pub fn with_cache_path(&mut self, cache_path: String)
        ensures
            final(self)@ == (OptionsView { cache_path: cache_path@, ..old(self)@ }),
    {
        self.cache_path = cache_path;
    }

    pub fn with_asset_root(&mut self, asset_root: String)
        ensures
            final(self)@ == (OptionsView { asset_root: asset_root@, ..old(self)@ }),
    {
        self.asset_root = asset_root;
    }

    pub fn with_api_key(&mut self, api_key: String)
        ensures
            final(self)@ == (OptionsView { api_key: api_key@, ..old(self)@ }),
    {
        self.api_key = api_key;
    }

    pub fn with_base_url(&mut self, base_url: String)
        ensures
            final(self)@ == (OptionsView { base_url: base_url@, ..old(self)@ }),
    {
        self.base_url = base_url;
    }

    pub fn with_uri_scheme_alias(&mut self, uri_scheme_alias: String)
        ensures
            final(self)@ == (OptionsView {
                uri_scheme_alias: uri_scheme_alias@,
                ..old(self)@
            }),
    {
        self.uri_scheme_alias = uri_scheme_alias;
    }

    pub fn with_api_key_parameter_name(&mut self, api_key_parameter_name: String)
        ensures
            final(self)@ == (OptionsView {
                api_key_parameter_name: api_key_parameter_name@,
                ..old(self)@
            }),
    {
        self.api_key_parameter_name = api_key_parameter_name;
    }

    pub fn with_source_template(&mut self, source_template: String)
        ensures
            final(self)@ == (OptionsView {
                source_template: source_template@,
                ..old(self)@
            }),
    {
        self.source_template = source_template;
    }

    pub fn with_style_template(&mut self, style_template: String)
        ensures
            final(self)@ == (OptionsView { style_template: style_template@, ..old(self)@ }),
    {
        self.style_template = style_template;
    }

    pub fn with_sprites_template(&mut self, sprites_template: String)
        ensures
            final(self)@ == (OptionsView {
                sprites_template: sprites_template@,
                ..old(self)@
            }),
    {
        self.sprites_template = sprites_template;
    }

    pub fn with_glyphs_template(&mut self, glyphs_template: String)
        ensures
            final(self)@ == (OptionsView {
                glyphs_template: glyphs_template@,
                ..old(self)@
            }),
    {
        self.glyphs_template = glyphs_template;
    }

    pub fn with_tile_template(&mut self, tile_template: String)
        ensures
            final(self)@ == (OptionsView { tile_template: tile_template@, ..old(self)@ }),
    {
        self.tile_template = tile_template;
    }

    pub fn with_default_style_url(&mut self, default_style_url: String)
        ensures
            final(self)@ == (OptionsView {
                default_style_url: default_style_url@,
                ..old(self)@
            }),
    {
        self.default_style_url = default_style_url;
    }

    pub fn set_requires_api_key(&mut self, requires_api_key: bool)
        ensures
            final(self)@ == (OptionsView { requires_api_key, ..old(self)@ }),
    {
        self.requires_api_key = requires_api_key;
    }
}

impl Default for ImageRendererOptions {
    fn default() -> (r: Self)
        ensures
            r@ == spec_default_options(),
    {
        Self::new()
    }
}

} // verus!
