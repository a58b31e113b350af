//! Configuration of the fluxbox-style window manager: the `init` resources
//! and the settings of sessions, windows, workspaces, menus, the toolbar,
//! the slit, focus, keys and per-application rules.

use vstd::prelude::*;
use std::collections::HashMap;
use std::path::PathBuf;
use crate::core_types::{Layer, Rectangle};
use crate::text::{find_char, index_of, lines, lines_of, string_of, trim, trim_range};
use vstd::std_specs::hash::obeys_key_model;

verus! {

#[verifier::external_type_specification]
#[verifier::external_body]
pub struct ExPathBuf(PathBuf);

/// `PathBuf::from("")`, the empty path; nothing is stated of it.
#[verifier::external_body]
fn empty_path() -> PathBuf {
    PathBuf::from("")
}

pub struct FluxboxConfig {
    pub init: InitConfig,
    pub keys: KeysConfig,
    pub menu: MenuConfig,
    pub apps: AppsConfig,
    pub startup: Vec<String>,
}

pub struct InitConfig {
    pub session: SessionConfig,
    pub window: WindowConfig,
    pub workspace: WorkspaceConfig,
    pub menu: MenuConfig,
    pub toolbar: ToolbarConfig,
    pub slit: SlitConfig,
    pub focus: FocusConfig,
    pub resources: HashMap<String, String>,
    pub extra_config_files: Vec<PathBuf>,
}

pub struct SessionConfig {
    pub style_file: PathBuf,
    pub screen_count: u32,
    pub auto_raise_delay: u32,
    pub cache_life: u32,
    pub cache_max: u32,
    pub double_click_interval: u32,
    pub opacity: OpacityConfig,
}

pub struct OpacityConfig {
    pub focused: u8,
    pub unfocused: u8,
    pub menu: u8,
    pub window: u8,
    pub slit: u8,
}

pub struct WindowConfig {
    pub placement: PlacementStrategy,
    pub resize_mode: ResizeMode,
    pub focus_hidden: bool,
    pub faked_focus: bool,
    pub focus_new: bool,
    pub focus_last: bool,
    pub focus_click_raises: bool,
    pub tab_alignment: TabAlignment,
    pub tab_width: u32,
}

#[derive(Debug, Clone, Copy, PartialEq, Eq, Structural)]
pub enum PlacementStrategy {
    Cascade,
    UnderMouse,
    RowSmart,
    ColSmart,
    MinOverlap,
    Last,
}

#[derive(Debug, Clone, Copy, PartialEq, Eq, Structural)]
pub enum ResizeMode {
    Bottom,
    Right,
    BottomRight,
    Top,
    Left,
    TopLeft,
    TopRight,
    BottomLeft,
    Center,
    Any,
}

#[derive(Debug, Clone, Copy, PartialEq, Eq, Structural)]
pub enum TabAlignment {
    Left,
    Center,
    Right,
}

pub struct WorkspaceConfig {
    pub names: Vec<String>,
    pub count: u32,
    pub warping: bool,
    pub mouse_warping: bool,
    pub screen: Option<u32>,
    pub rows: u32,
    pub columns: u32,
}

pub struct MenuConfig {
    pub file: PathBuf,
    pub delay: u32,
}

pub struct ToolbarConfig {
    pub visible: bool,
    pub auto_hide: bool,
    pub width_percent: u32,
    pub height: u32,
    pub x: i32,
    pub y: i32,
    pub on_head: u32,
    pub placement: ToolbarPlacement,
    pub layer: Layer,
    pub alpha: u8,
}

#[derive(Debug, Clone, Copy, PartialEq, Eq, Structural)]
pub enum ToolbarPlacement {
    Top,
    Bottom,
    Left,
    Right,
    Fixed,
}

pub struct SlitConfig {
    pub visible: bool,
    pub auto_hide: bool,
    pub placement: SlitPlacement,
    pub direction: SlitDirection,
    pub layer: Layer,
    pub alpha: u8,
}

#[derive(Debug, Clone, Copy, PartialEq, Eq, Structural)]
pub enum SlitPlacement {
    Top,
    Bottom,
    Left,
    Right,
    TopLeft,
    BottomLeft,
    TopRight,
    BottomRight,
    Center,
    Fixed,
}

#[derive(Debug, Clone, Copy, PartialEq, Eq, Structural)]
pub enum SlitDirection {
    Vertical,
    Horizontal,
}

#[derive(Debug, Clone)]
pub struct FocusConfig {
    pub model: FocusModel,
    pub same_app: bool,
    pub follows_mouse: bool,
    pub strict_focus: bool,
}

impl Default for FocusConfig {
    fn default() -> (r: Self)
        ensures
            r.model == FocusModel::ClickToFocus,
            !r.same_app,
            !r.follows_mouse,
            !r.strict_focus,
    {
        Self {
            model: FocusModel::ClickToFocus,
            same_app: false,
            follows_mouse: false,
            strict_focus: false,
        }
    }
}

#[derive(Debug, Clone, Copy, PartialEq, Eq, Structural)]
pub enum FocusModel {
    ClickToFocus,
    FocusFollowsMouse,
    MouseFocus,
}

pub struct KeysConfig {
    pub file: PathBuf,
    pub bindings: Vec<KeyBinding>,
}

pub struct KeyBinding {
    pub key: String,
    pub mods: KeyModifiers,
    pub command: String,
    pub arguments: Vec<String>,
}

pub struct KeyModifiers {
    pub shift: bool,
    pub control: bool,
    pub mod1: bool,
    pub mod2: bool,
    pub mod3: bool,
    pub mod4: bool,
    pub mod5: bool,
}

pub struct AppsConfig {
    pub groups: Vec<AppGroup>,
}

pub struct AppGroup {
    pub patterns: Vec<AppPattern>,
    pub properties: AppProperties,
}

pub struct AppPattern {
    pub class: Option<String>,
    pub name: Option<String>,
    pub title: Option<String>,
    pub role: Option<String>,
}

pub struct AppProperties {
    pub workspace: Option<u32>,
    pub head: Option<u32>,
    pub layer: Option<Layer>,
    pub alpha: Option<u8>,
    pub hidden: Option<bool>,
    pub sticky: Option<bool>,
    pub shaded: Option<bool>,
    pub maximized: Option<bool>,
    pub minimized: Option<bool>,
    pub fullscreen: Option<bool>,
    pub decorations: Option<WindowDecorations>,
    pub position: Option<Rectangle>,
    pub size: Option<(u16, u16)>,
    pub tab: Option<bool>,
    pub focus_hidden: Option<bool>,
    pub jump: Option<bool>,
}

pub struct WindowDecorations {
    pub titlebar: bool,
    pub handle: bool,
    pub border: bool,
    pub iconify: bool,
    pub maximize: bool,
    pub close: bool,
    pub sticky: bool,
    pub shade: bool,
    pub menu: bool,
}

/// The values `InitConfig::new` starts from, apart from the paths (which
/// are empty) and the empty resource table.
pub open spec fn init_defaults(c: InitConfig) -> bool {
    &&& init_settings(c)
    &&& c.resources@ == Map::<String, String>::empty()
    &&& c.extra_config_files@.len() == 0
}

/// The settings `InitConfig::new` starts from, apart from the paths, the
/// resource table and the extra files.
pub open spec fn init_settings(c: InitConfig) -> bool {
    &&& c.session.screen_count == 1
    &&& c.session.auto_raise_delay == 250
    &&& c.session.cache_life == 5
    &&& c.session.cache_max == 200
    &&& c.session.double_click_interval == 250
    &&& c.session.opacity.focused == 255
    &&& c.session.opacity.unfocused == 255
    &&& c.session.opacity.menu == 255
    &&& c.session.opacity.window == 255
    &&& c.session.opacity.slit == 255
    &&& c.window.placement == PlacementStrategy::Cascade
    &&& c.window.resize_mode == ResizeMode::BottomRight
    &&& !c.window.focus_hidden
    &&& !c.window.faked_focus
    &&& !c.window.focus_new
    &&& c.window.focus_last
    &&& c.window.focus_click_raises
    &&& c.window.tab_alignment == TabAlignment::Center
    &&& c.window.tab_width == 64
    &&& c.workspace.names@.map_values(|s: String| s@) == seq!["1"@, "2"@, "3"@, "4"@]
    &&& c.workspace.count == 4
    &&& c.workspace.warping
    &&& !c.workspace.mouse_warping
    &&& c.workspace.screen is None
    &&& c.workspace.rows == 1
    &&& c.workspace.columns == 1
    &&& c.menu.delay == 200
    &&& c.toolbar.visible
    &&& !c.toolbar.auto_hide
    &&& c.toolbar.width_percent == 100
    &&& c.toolbar.height == 0
    &&& c.toolbar.x == 0
    &&& c.toolbar.y == 0
    &&& c.toolbar.on_head == 0
    &&& c.toolbar.placement == ToolbarPlacement::Bottom
    &&& c.toolbar.layer.value() == 8
    &&& c.toolbar.alpha == 255
    &&& c.slit.visible
    &&& !c.slit.auto_hide
    &&& c.slit.placement == SlitPlacement::TopRight
    &&& c.slit.direction == SlitDirection::Vertical
    &&& c.slit.layer.value() == 8
    &&& c.slit.alpha == 255
    &&& c.focus.model == FocusModel::ClickToFocus
    &&& !c.focus.same_app
    &&& !c.focus.follows_mouse
    &&& !c.focus.strict_focus
}

impl InitConfig {
    /// The built-in settings: one screen, four workspaces named 1 to 4,
    /// cascade placement, click to focus, toolbar at the bottom and slit at
    /// the top right, both in the dock layer, everything opaque.
    pub fn new() -> (r: Self)
        ensures
            init_defaults(r),
    {
        let mut names: Vec<String> = Vec::new();
        names.push(String::from_str("1"));
        names.push(String::from_str("2"));
        names.push(String::from_str("3"));
        names.push(String::from_str("4"));
        let r = InitConfig {
            session: SessionConfig {
                style_file: empty_path(),
                screen_count: 1,
                auto_raise_delay: 250,
                cache_life: 5,
                cache_max: 200,
                double_click_interval: 250,
                opacity: OpacityConfig {
                    focused: 255,
                    unfocused: 255,
                    menu: 255,
                    window: 255,
                    slit: 255,
                },
            },
            window: WindowConfig {
                placement: PlacementStrategy::Cascade,
                resize_mode: ResizeMode::BottomRight,
                focus_hidden: false,
                faked_focus: false,
                focus_new: false,
                focus_last: true,
                focus_click_raises: true,
                tab_alignment: TabAlignment::Center,
                tab_width: 64,
            },
            workspace: WorkspaceConfig {
                names,
                count: 4,
                warping: true,
                mouse_warping: false,
                screen: None,
                rows: 1,
                columns: 1,
            },
            menu: MenuConfig { file: empty_path(), delay: 200 },
            toolbar: ToolbarConfig {
                visible: true,
                auto_hide: false,
                width_percent: 100,
                height: 0,
                x: 0,
                y: 0,
                on_head: 0,
                placement: ToolbarPlacement::Bottom,
                layer: Layer::dock(),
                alpha: 255,
            },
            slit: SlitConfig {
                visible: true,
                auto_hide: false,
                placement: SlitPlacement::TopRight,
                direction: SlitDirection::Vertical,
                layer: Layer::dock(),
                alpha: 255,
            },
            focus: FocusConfig {
                model: FocusModel::ClickToFocus,
                same_app: false,
                follows_mouse: false,
                strict_focus: false,
            },
            resources: HashMap::new(),
            extra_config_files: Vec::new(),
        };
        assert(r.workspace.names@.map_values(|s: String| s@) =~= seq!["1"@, "2"@, "3"@, "4"@]);
        r
    }
}

/// The `key: value` pair that one line of an `init` file defines, both
/// sides trimmed; none for blank lines, comments (`!` or `#` first) and
/// lines without a colon.
pub open spec fn init_line(raw: Seq<char>) -> Option<(Seq<char>, Seq<char>)> {
    let line = trim(raw);
    if line.len() == 0 || line[0] == '!' || line[0] == '#' {
        None
    } else {
        let e = index_of(line, ':');
        if e < 0 {
            None
        } else {
            Some((trim(line.take(e)), trim(line.skip(e + 1))))
        }
    }
}

/// The pairs that the lines `ls` define, in order.
pub open spec fn init_pairs(ls: Seq<Seq<char>>) -> Seq<(Seq<char>, Seq<char>)>
    decreases ls.len(),
{
    if ls.len() == 0 {
        seq![]
    } else {
        match init_line(ls.last()) {
            Some(kv) => init_pairs(ls.drop_last()).push(kv),
            None => init_pairs(ls.drop_last()),
        }
    }
}

/// The texts of the pairs `ps`.
pub open spec fn pair_views(ps: Seq<(String, String)>) -> Seq<(Seq<char>, Seq<char>)> {
    ps.map_values(|p: (String, String)| (p.0@, p.1@))
}

/// The table that inserting `ps` in order makes: a later pair replaces an
/// earlier one with the same key.
pub open spec fn table_of(ps: Seq<(String, String)>) -> Map<String, String>
    decreases ps.len(),
{
    if ps.len() == 0 {
        Map::empty()
    } else {
        table_of(ps.drop_last()).insert(ps.last().0, ps.last().1)
    }
}

/// The `key: value` resources of the text of an `init` file, in the order
/// of its lines.
pub fn init_resources(content: &str) -> (r: Vec<(String, String)>)
    ensures
        pair_views(r@) == init_pairs(lines_of(content@)),
{
    let ls = lines(content);
    let ghost lsv = lines_of(content@);
    let mut out: Vec<(String, String)> = Vec::new();
    let mut i: usize = 0;
    while i < ls.len()
        invariant
            i <= ls@.len(),
            ls@.len() == lsv.len(),
            lsv == lines_of(content@),
            forall|j: int| 0 <= j < ls@.len() ==> #[trigger] ls@[j]@ == lsv[j],
            pair_views(out@) == init_pairs(lsv.take(i as int)),
        decreases ls@.len() - i,
    {
        proof {
            assert(lsv.take(i + 1).drop_last() =~= lsv.take(i as int));
            assert(lsv.take(i + 1).last() == ls@[i as int]@);
        }
        let l = &ls[i];
        let n = l.len();
        let (a, b) = trim_range(l, 0, n);
        assert(l@.subrange(0, n as int) =~= l@);
        let ghost line = l@.subrange(a as int, b as int);
        if !(a == b || l[a] == '!' || l[a] == '#') {
            match find_char(l, a, b, ':') {
                Some(e) => {
                    let (ka, kb) = trim_range(l, a, e);
                    let (va, vb) = trim_range(l, e + 1, b);
                    assert(line.take(e - a) =~= l@.subrange(a as int, e as int));
                    assert(line.skip(e - a + 1) =~= l@.subrange(e + 1, b as int));
                    let ghost before = out@;
                    out.push((string_of(l, ka, kb), string_of(l, va, vb)));
                    proof {
                        assert(pair_views(out@) =~= pair_views(before).push(
                            (out@.last().0@, out@.last().1@),
                        ));
                    }
                },
                None => {},
            }
        }
        i = i + 1;
    }
    assert(lsv.take(ls@.len() as int) =~= lsv);
    out
}

/// The configuration that the text of an `init` file gives: the built-in
/// settings, with the file's `key: value` resources in the resource table,
/// a later line winning over an earlier one with the same key. The table is
/// stated under vstd's key model for `HashMap`, which it does not assert of
/// `String` keys.
pub fn parse_init_text(content: &str) -> (r: InitConfig)
    ensures
        init_settings(r),
        r.extra_config_files@.len() == 0,
        exists|ps: Seq<(String, String)>|
            #[trigger] pair_views(ps) == init_pairs(lines_of(content@))
                && (obeys_key_model::<String>() ==> r.resources@ == table_of(ps)),
{
    broadcast use vstd::std_specs::hash::group_hash_axioms;

    let mut config = InitConfig::new();
    let pairs = init_resources(content);
    let ghost ps = pairs@;
    let mut i: usize = 0;
    while i < pairs.len()
        invariant
            i <= pairs@.len(),
            ps == pairs@,
            init_settings(config),
            config.extra_config_files@.len() == 0,
            obeys_key_model::<String>() ==> config.resources@ == table_of(ps.take(i as int)),
        decreases pairs@.len() - i,
    {
        proof {
            assert(ps.take(i + 1).drop_last() =~= ps.take(i as int));
        }
        let k = pairs[i].0.clone();
        let v = pairs[i].1.clone();
        config.resources.insert(k, v);
        i = i + 1;
    }
    assert(ps.take(pairs@.len() as int) =~= ps);
    assert(pair_views(ps) == init_pairs(lines_of(content@)));
    config
}

impl Default for InitConfig {
    fn default() -> (r: Self)
        ensures
            init_defaults(r),
    {
        Self::new()
    }
}

} // verus!
