use rustbox::core_types::TextureType;
use rustbox::render::texture::{GradientType, Texture};
use rustbox::theme::{Theme, ThemeManager};

const STYLE: &str = "! a style
toolbar.color: #102030
window.title.focus: raised gradient diagonal #ffffff #000000 3
window.label: flat solid
menu.bullet:   yes
menu.borderWidth: 4
bad line without colon
# comment: ignored
toolbar.color: rgb:ff/00/00
border.color: rgb:rgb:#0a0b0c
";

#[test]
fn theme_reads_resources_last_wins() {
    let t = Theme::from_text("mystyle", STYLE);
    assert_eq!(t.name(), "mystyle");
    assert_eq!(t.get("menu.borderWidth"), Some("4"));
    assert_eq!(t.get("toolbar.color"), Some("rgb:ff/00/00"));
    assert_eq!(t.get("# comment"), None);
    assert_eq!(t.get("missing"), None);
    assert_eq!(t.get_int("menu.borderWidth"), Some(4));
    assert_eq!(t.get_int("menu.bullet"), None);
    assert_eq!(t.get_bool("menu.bullet"), Some(true));
    assert_eq!(t.get_bool("menu.borderWidth"), Some(false));
    assert_eq!(t.get_bool("missing"), None);
}

#[test]
fn theme_colors() {
    let t = Theme::from_text("x", "a: #102030\nb: zzz\nc: rgb:rgb:#0a0b0c\n");
    let a = t.get_color("a").unwrap();
    assert_eq!((a.red, a.green, a.blue, a.alpha), (0x1010, 0x2020, 0x3030, 0xffff));
    assert!(t.get_color("b").is_none());
    let c = t.get_color("c").unwrap();
    assert_eq!((c.red, c.green, c.blue), (0x0a0a, 0x0b0b, 0x0c0c));
    assert!(t.get_color("missing").is_none());
}

#[test]
fn theme_textures() {
    let t = Theme::from_text("x", STYLE);
    let tex = t.get_texture("window.title.focus").unwrap();
    assert_eq!(tex.type_, TextureType::Gradient);
    // The word `gradient` alone sets the type; `diagonal` is no keyword.
    assert_eq!(tex.gradient, GradientType::Unset);
    assert_eq!(tex.color.red, 0xffff);
    assert_eq!(tex.color_to.red, 0);
    assert_eq!(tex.bevel_width, 3);
    let flat = t.get_texture("window.label").unwrap();
    assert_eq!(flat.type_, TextureType::Solid);
    assert!(flat.is_solid());
    assert!(!flat.is_gradient());
    assert!(t.get_texture("missing").is_none());
    let g = Theme::from_text("x", "k: GradientGradientPyramid\n").get_texture("k").unwrap();
    assert_eq!(g.gradient, GradientType::Pyramid);
    let d = Theme::from_text("x", "k: raised GradientDiagonal\n").get_texture("k").unwrap();
    assert_eq!(d.type_, TextureType::Gradient);
    assert_eq!(d.gradient, GradientType::Diagonal);
}

#[test]
fn theme_merge_keeps_own_values() {
    let mut a = Theme::from_text("a", "x: 1\ny: 2\n");
    let b = Theme::from_text("b", "y: 20\nz: 30\n");
    a.merge(b);
    assert_eq!(a.get("x"), Some("1"));
    assert_eq!(a.get("y"), Some("2"));
    assert_eq!(a.get("z"), Some("30"));
    assert_eq!(a.name(), "a");
}

#[test]
fn theme_manager_holds_current_theme() {
    let mut m = ThemeManager::new();
    assert!(m.theme().is_none());
    assert!(m.theme_path().is_none());
    m.load_theme("/styles/blue.cfg", "blue", "a: b\n");
    assert_eq!(m.theme().unwrap().name(), "blue");
    assert_eq!(m.theme().unwrap().get("a"), Some("b"));
    assert_eq!(m.theme_path(), Some("/styles/blue.cfg"));
    let d = ThemeManager::default();
    assert!(d.theme().is_none());
}

#[test]
fn texture_defaults() {
    let t = Texture::new();
    assert_eq!(t.type_, TextureType::Flat);
    assert_eq!(t.gradient, GradientType::Unset);
    assert!(t.is_solid());
    assert!(!t.is_pixmap());
    assert_eq!(t.color.alpha, 0xffff);
    let mut p = Texture::default();
    p.type_ = TextureType::Pixmap;
    assert!(!p.is_pixmap());
    p.pixmap = Some("bg.xpm".to_string());
    assert!(p.is_pixmap());
}
