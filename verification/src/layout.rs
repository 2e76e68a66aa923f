use vstd::prelude::*;

verus! {

/// Where the compositor stacks a layer-shell surface.
#[derive(Debug, Copy, Clone, PartialEq, Eq, Structural)]
pub enum OverlayLayer {
    Background,
    Bottom,
    Top,
    Overlay,
}

/// How much of the keyboard a layer-shell surface takes.
#[derive(Debug, Copy, Clone, PartialEq, Eq, Structural)]
pub enum KeyboardMode {
    /// The surface never receives keyboard input.
    NoInput,
    /// The compositor decides when the surface has the keyboard.
    OnDemand,
    /// The surface takes all keyboard input while it is shown.
    Exclusive,
}

/// The placement of the panel: its size, the screen edges it is anchored
/// to, its margins, its stacking layer, and its claim on the keyboard.
#[derive(Debug, Copy, Clone, PartialEq, Eq, Structural)]
pub struct OverlaySettings {
    pub width: u32,
    pub height: u32,
    /// How much space the surface reserves for itself at its edge;
    /// zero reserves none.
    pub exclusive_zone: i32,
    pub anchor_left: bool,
    pub anchor_right: bool,
    pub anchor_top: bool,
    pub anchor_bottom: bool,
    pub margin_top: i32,
    pub margin_right: i32,
    pub margin_bottom: i32,
    pub margin_left: i32,
    pub layer: OverlayLayer,
    pub keyboard_mode: KeyboardMode,
}

/// How the panel is placed: an 800 by 400 surface anchored to the left and
/// right screen edges, 100 pixels of margin on every side, stacked on the
/// overlay layer, holding the keyboard exclusively, reserving no space.
pub fn overlay_settings() -> (s: OverlaySettings)
    ensures
        s.width == 800,
        s.height == 400,
        s.exclusive_zone == 0,
        s.anchor_left,
        s.anchor_right,
        !s.anchor_top,
        !s.anchor_bottom,
        s.margin_top == 100,
        s.margin_right == 100,
        s.margin_bottom == 100,
        s.margin_left == 100,
        s.layer == OverlayLayer::Overlay,
        s.keyboard_mode == KeyboardMode::Exclusive,
{
    OverlaySettings {
        width: 800,
        height: 400,
        exclusive_zone: 0,
        anchor_left: true,
        anchor_right: true,
        anchor_top: false,
        anchor_bottom: false,
        margin_top: 100,
        margin_right: 100,
        margin_bottom: 100,
        margin_left: 100,
        layer: OverlayLayer::Overlay,
        keyboard_mode: KeyboardMode::Exclusive,
    }
}

/// The path of a bundled icon when the overlay runs from its source tree:
/// the asset's name under `./assets/`.
pub fn svg_path(asset: &str) -> (r: String)
    ensures
        r@ == "./assets/"@ + asset@,
{
    String::from_str("./assets/").concat(asset)
}

/// The path of an installed icon: from the directory holding the
/// executable, up one level and into the shared pixmap directory.
pub fn installed_svg_path(exe_dir: &str, asset: &str) -> (r: String)
    ensures
        r@ == exe_dir@ + "/../share/pixmaps/oxishut/"@ + asset@,
{
    String::from_str(exe_dir).concat("/../share/pixmaps/oxishut/").concat(asset)
}

} // verus!
