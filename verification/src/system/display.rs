//! The desktop: the compositor, its bar, terminal, launcher and
//! notifications, with the configuration files of each.
use vstd::prelude::*;
use crate::command::{Command, CommandView};
use crate::plan::{credential_free, lemma_credential_free_add, Plan, PlanView, Step, StepView, Unwind};
use crate::system::package_manager::{install_plan, PackageManager};
use crate::text::{join_path, path_under, views};

verus! {

/// The compositor and the programs around it.
pub const DESKTOP_PACKAGES: [&'static str; 20] = [
    "hyprland",
    "waybar",
    "alacritty",
    "wofi",
    "dunst",
    "swaylock-effects",
    "swayidle",
    "wl-clipboard",
    "grim",
    "slurp",
    "pamixer",
    "brightnessctl",
    "blueman",
    "network-manager-applet",
    "polkit-kde-agent",
    "xdg-desktop-portal-hyprland",
    "qt5-wayland",
    "qt6-wayland",
    "nwg-look",
    "hyprpaper",
];

/// The fonts that the desktop uses.
pub const FONT_PACKAGES: [&'static str; 5] = [
    "ttf-jetbrains-mono-nerd",
    "ttf-nerd-fonts-symbols",
    "noto-fonts",
    "noto-fonts-cjk",
    "noto-fonts-emoji",
];

/// The configuration of the compositor.
pub const HYPRLAND_CONF: &'static str = r#"
# xBitOS Hyprland Configuration

# المتغيرات
$mainMod = SUPER
$terminal = alacritty
$menu = wofi --show drun
$browser = firefox

# إعدادات الشاشة
monitor=,preferred,auto,1

# تشغيل تلقائي
exec-once = waybar
exec-once = hyprpaper
exec-once = dunst
exec-once = nm-applet
exec-once = blueman-applet
exec-once = /usr/lib/polkit-kde-authentication-agent-1
exec-once = swayidle -w timeout 300 'swaylock -f' timeout 600 'hyprctl dispatch dpms off' resume 'hyprctl dispatch dpms on'

# إعدادات المدخلات
input {
    kb_layout = us,ar
    kb_options = grp:alt_shift_toggle
    follow_mouse = 1
    touchpad {
        natural_scroll = true
        tap-to-click = true
    }
    sensitivity = 0
}

# إعدادات عامة
general {
    gaps_in = 5
    gaps_out = 10
    border_size = 2
    col.active_border = rgba(33ccffee)
    col.inactive_border = rgba(595959aa)
    layout = dwindle
}

# الزخارف
decoration {
    rounding = 10
    blur {
        enabled = true
        size = 5
        passes = 2
    }
    drop_shadow = true
    shadow_range = 15
    shadow_offset = 3 3
}

# الحركات
animations {
    enabled = yes
    bezier = myBezier, 0.05, 0.9, 0.1, 1.05
    animation = windows, 1, 7, myBezier
    animation = windowsOut, 1, 7, default, popin 80%
    animation = border, 1, 10, default
    animation = fade, 1, 7, default
    animation = workspaces, 1, 6, default
}

# اختصارات لوحة المفاتيح
bind = $mainMod, Return, exec, $terminal
bind = $mainMod, Q, killactive,
bind = $mainMod SHIFT, Q, exit,
bind = $mainMod, Space, togglefloating,
bind = $mainMod, D, exec, $menu
bind = $mainMod, F, fullscreen
bind = $mainMod, B, exec, $browser
bind = $mainMod, L, exec, swaylock
bind = $mainMod SHIFT, S, exec, grim -g "$(slurp)" - | wl-copy

# التنقل بين مساحات العمل
bind = $mainMod, 1, workspace, 1
bind = $mainMod, 2, workspace, 2
bind = $mainMod, 3, workspace, 3
bind = $mainMod, 4, workspace, 4
bind = $mainMod, 5, workspace, 5

# نقل النوافذ بين مساحات العمل
bind = $mainMod SHIFT, 1, movetoworkspace, 1
bind = $mainMod SHIFT, 2, movetoworkspace, 2
bind = $mainMod SHIFT, 3, movetoworkspace, 3
bind = $mainMod SHIFT, 4, movetoworkspace, 4
bind = $mainMod SHIFT, 5, movetoworkspace, 5

# قواعد النوافذ
windowrule = float, ^(pavucontrol)$
windowrule = float, ^(blueman-manager)$
windowrule = float, ^(nm-connection-editor)$
"#;

/// The modules of the bar.
pub const WAYBAR_CONFIG: &'static str = r#"{
    "layer": "top",
    "position": "top",
    "height": 30,
    "modules-left": ["hyprland/workspaces", "hyprland/window"],
    "modules-center": ["clock"],
    "modules-right": ["pulseaudio", "network", "bluetooth", "battery", "tray"],
    
    "hyprland/workspaces": {
        "format": "{icon}",
        "format-icons": {
            "1": "1",
            "2": "2",
            "3": "3",
            "4": "4",
            "5": "5"
        }
    },
    
    "clock": {
        "format": "{:%H:%M}",
        "format-alt": "{:%Y-%m-%d}"
    },
    
    "battery": {
        "format": "{capacity}% {icon}",
        "format-icons": ["", "", "", "", ""]
    },
    
    "network": {
        "format-wifi": "直 {essid}",
        "format-ethernet": " {ipaddr}",
        "format-disconnected": "睊"
    },
    
    "pulseaudio": {
        "format": "{volume}% {icon}",
        "format-bluetooth": "{volume}% {icon}",
        "format-muted": "",
        "format-icons": {
            "headphone": "",
            "hands-free": "",
            "headset": "",
            "phone": "",
            "portable": "",
            "car": "",
            "default": ["", ""]
        }
    },
    
    "bluetooth": {
        "format": " {status}",
        "format-disabled": "",
        "format-connected": " {num_connections}",
        "tooltip-format": "{controller_alias}\t{controller_address}",
        "tooltip-format-connected": "{controller_alias}\t{controller_address}\n\n{device_enumerate}",
        "tooltip-format-enumerate-connected": "{device_alias}\t{device_address}"
    },
    
    "tray": {
        "icon-size": 21,
        "spacing": 10
    }
}"#;

/// The style of the bar.
pub const WAYBAR_STYLE: &'static str = r#"* {
    border: none;
    border-radius: 0;
    font-family: "JetBrainsMono Nerd Font";
    font-size: 14px;
    min-height: 0;
}

window#waybar {
    background: rgba(21, 18, 27, 0.9);
    color: #cdd6f4;
}

#workspaces button {
    padding: 0 5px;
    background: transparent;
    color: #cdd6f4;
    border-bottom: 3px solid transparent;
}

#workspaces button.active {
    background: #11111b;
    border-bottom: 3px solid #cba6f7;
}

#clock,
#battery,
#pulseaudio,
#network,
#bluetooth,
#tray {
    padding: 0 10px;
    margin: 0 5px;
    color: #cdd6f4;
}

#clock {
    background-color: #1e1e2e;
    border-radius: 10px;
}

#battery {
    background-color: #1e1e2e;
    border-radius: 10px;
}

#battery.charging {
    color: #a6e3a1;
}

#battery.warning:not(.charging) {
    color: #f38ba8;
}

#network {
    background-color: #1e1e2e;
    border-radius: 10px;
}

#pulseaudio {
    background-color: #1e1e2e;
    border-radius: 10px;
}

#bluetooth {
    background-color: #1e1e2e;
    border-radius: 10px;
}

#tray {
    background-color: #1e1e2e;
    border-radius: 10px;
}"#;

/// The configuration of the terminal.
pub const ALACRITTY_CONFIG: &'static str = r#"
window:
  padding:
    x: 10
    y: 10
  opacity: 0.95

font:
  normal:
    family: JetBrainsMono Nerd Font
    style: Regular
  size: 11.0

colors:
  primary:
    background: '#1E1E2E'
    foreground: '#CDD6F4'

cursor:
  style:
    shape: Block
    blinking: On
  blink_interval: 750

shell:
  program: /bin/bash
"#;

/// The configuration of the launcher.
pub const WOFI_CONFIG: &'static str = r#"
width=600
height=400
location=center
show=drun
prompt=Search...
filter_rate=100
allow_markup=true
no_actions=true
halign=fill
orientation=vertical
content_halign=fill
insensitive=true
"#;

/// The style of the launcher.
pub const WOFI_STYLE: &'static str = r#"
window {
    margin: 0px;
    border: 2px solid #cba6f7;
    background-color: #1e1e2e;
    border-radius: 15px;
}

#input {
    padding: 10px;
    margin: 10px;
    border: none;
    color: #cdd6f4;
    background-color: #313244;
    border-radius: 10px;
}

#inner-box {
    margin: 5px;
    border: none;
    background-color: transparent;
}

#outer-box {
    margin: 5px;
    border: none;
    background-color: transparent;
}

#text {
    margin: 5px;
    border: none;
    color: #cdd6f4;
}

#entry:selected {
    background-color: #313244;
    border-radius: 10px;
}
"#;

/// The wallpaper that is shown.
pub const HYPRPAPER_CONFIG: &'static str = r#"
preload = /usr/share/backgrounds/xbitos/default.jpg
wallpaper = ,/usr/share/backgrounds/xbitos/default.jpg
"#;

/// The script that starts the compositor.
pub const STARTUP_SCRIPT: &'static str = r#"#!/bin/bash
# تصدير المتغيرات البيئية الضرورية
export XDG_SESSION_TYPE=wayland
export XDG_CURRENT_DESKTOP=Hyprland
export XDG_SESSION_DESKTOP=Hyprland
export QT_QPA_PLATFORM=wayland
export QT_WAYLAND_DISABLE_WINDOWDECORATION=1
export GDK_BACKEND=wayland
export MOZ_ENABLE_WAYLAND=1
export _JAVA_AWT_WM_NONREPARENTING=1

# تشغيل Hyprland
exec Hyprland
"#;

/// The session that the login manager offers.
pub const SESSION_FILE: &'static str = r#"[Desktop Entry]
Name=xBitOS Hyprland
Comment=Hyprland Wayland Compositor
Exec=/usr/local/bin/start-hyprland
Type=Application
"#;

/// The settings of the first toolkit.
pub const GTK_SETTINGS: &'static str = r#"[Settings]
gtk-theme-name=Breeze
gtk-icon-theme-name=Papirus
gtk-font-name=Noto Sans 10
gtk-cursor-theme-name=Breeze_Snow
gtk-cursor-theme-size=24
gtk-toolbar-style=GTK_TOOLBAR_BOTH_HORIZ
gtk-toolbar-icon-size=GTK_ICON_SIZE_LARGE_TOOLBAR
gtk-button-images=1
gtk-menu-images=1
gtk-enable-event-sounds=1
gtk-enable-input-feedback-sounds=0
gtk-xft-antialias=1
gtk-xft-hinting=1
gtk-xft-hintstyle=hintslight
gtk-xft-rgba=rgb
gtk-application-prefer-dark-theme=1
"#;

/// The settings of the second toolkit.
pub const QT_SETTINGS: &'static str = r#"[Appearance]
color_scheme_path=/usr/share/color-schemes/BreezeDark.colors
style=Breeze
icon_theme=Papirus
font="Noto Sans,10,-1,5,50,0,0,0,0,0"
"#;

/// The configuration of the notifications.
pub const DUNST_CONFIG: &'static str = r###"
[global]
    monitor = 0
    follow = mouse
    width = 300
    height = 300
    origin = top-right
    offset = 10x50
    scale = 0
    notification_limit = 0
    progress_bar = true
    progress_bar_height = 10
    progress_bar_frame_width = 1
    progress_bar_min_width = 150
    progress_bar_max_width = 300
    indicate_hidden = yes
    transparency = 0
    separator_height = 2
    padding = 8
    horizontal_padding = 8
    text_icon_padding = 0
    frame_width = 2
    frame_color = "#89B4FA"
    separator_color = frame
    sort = yes
    font = "JetBrains Mono Nerd Font 10"
    line_height = 0
    markup = full
    format = "<b>%s</b>\n%b"
    alignment = left
    vertical_alignment = center
    show_age_threshold = 60
    ellipsize = middle
    ignore_newline = no
    stack_duplicates = true
    hide_duplicate_count = false
    show_indicators = yes
    icon_position = left
    min_icon_size = 0
    max_icon_size = 32
    sticky_history = yes
    history_length = 20
    browser = "/usr/bin/xdg-open"
    always_run_script = true
    title = "Dunst"
    class = "Dunst"
    corner_radius = 10

[urgency_low]
    background = "#1E1E2E"
    foreground = "#CDD6F4"
    timeout = 10

[urgency_normal]
    background = "#1E1E2E"
    foreground = "#CDD6F4"
    timeout = 10

[urgency_critical]
    background = "#1E1E2E"
    foreground = "#F38BA8"
    frame_color = "#F38BA8"
    timeout = 0
"###;

/// Where the script that starts the compositor is installed.
pub const STARTUP_SCRIPT_PATH: &'static str = "/usr/local/bin/start-hyprland";

/// Builds the plan that sets up the desktop.
#[derive(Debug)]
pub struct DisplayManager {
    pub config_path: String,
    pub hypr_config_path: String,
    pub waybar_config_path: String,
}

/// A display manager as plain values.
pub struct DisplayView {
    pub config_path: Seq<char>,
    pub hypr_config_path: Seq<char>,
    pub waybar_config_path: Seq<char>,
}

impl View for DisplayManager {
    type V = DisplayView;

    open spec fn view(&self) -> DisplayView {
        DisplayView {
            config_path: self.config_path@,
            hypr_config_path: self.hypr_config_path@,
            waybar_config_path: self.waybar_config_path@,
        }
    }
}

impl DisplayView {
    /// The directories that the system uses.
    pub open spec fn standard() -> DisplayView {
        DisplayView {
            config_path: "/etc/xbitos/display"@,
            hypr_config_path: "/etc/hypr"@,
            waybar_config_path: "/etc/xdg/waybar"@,
        }
    }

    /// The configuration directories.
    pub open spec fn directory_steps(self) -> Seq<StepView> {
        seq![
            StepView::mkdir(self.config_path),
            StepView::mkdir(self.hypr_config_path),
            StepView::mkdir(self.waybar_config_path),
            StepView::mkdir("/etc/xdg/alacritty"@),
            StepView::mkdir("/etc/xdg/wofi"@),
        ]
    }

    /// The configuration of the compositor.
    pub open spec fn hyprland_steps(self) -> Seq<StepView> {
        seq![StepView::write(path_under(self.hypr_config_path, "hyprland.conf"@), HYPRLAND_CONF@)]
    }

    /// The configuration and the style of the bar.
    pub open spec fn waybar_steps(self) -> Seq<StepView> {
        seq![
            StepView::write(path_under(self.waybar_config_path, "config"@), WAYBAR_CONFIG@),
            StepView::write(path_under(self.waybar_config_path, "style.css"@), WAYBAR_STYLE@),
        ]
    }

    /// The configuration of the terminal.
    pub open spec fn alacritty_steps(self) -> Seq<StepView> {
        seq![StepView::write("/etc/xdg/alacritty/alacritty.yml"@, ALACRITTY_CONFIG@)]
    }

    /// The configuration and the style of the launcher.
    pub open spec fn wofi_steps(self) -> Seq<StepView> {
        seq![
            StepView::write("/etc/xdg/wofi/config"@, WOFI_CONFIG@),
            StepView::write("/etc/xdg/wofi/style.css"@, WOFI_STYLE@),
        ]
    }

    /// The directory of the wallpapers and the configuration of the one shown.
    pub open spec fn wallpaper_steps(self) -> Seq<StepView> {
        seq![
            StepView::mkdir("/usr/share/backgrounds/xbitos"@),
            StepView::write(path_under(self.hypr_config_path, "hyprpaper.conf"@), HYPRPAPER_CONFIG@),
        ]
    }

    /// The script that starts the compositor, made executable.
    pub open spec fn startup_steps(self) -> Seq<StepView> {
        seq![
            StepView::write(STARTUP_SCRIPT_PATH@, STARTUP_SCRIPT@),
            StepView::attempt(CommandView::new("chmod"@).arg("+x"@).arg(STARTUP_SCRIPT_PATH@)),
        ]
    }

    /// The session registered with the login manager.
    pub open spec fn session_steps(self) -> Seq<StepView> {
        seq![
            StepView::mkdir("/usr/share/wayland-sessions"@),
            StepView::write("/usr/share/wayland-sessions/hyprland.desktop"@, SESSION_FILE@),
        ]
    }

    /// The settings of the first toolkit.
    pub open spec fn gtk_steps(self) -> Seq<StepView> {
        seq![StepView::mkdir("/etc/gtk-3.0"@), StepView::write("/etc/gtk-3.0/settings.ini"@, GTK_SETTINGS@)]
    }

    /// The settings of the second toolkit.
    pub open spec fn qt_steps(self) -> Seq<StepView> {
        seq![StepView::mkdir("/etc/xdg/qt5ct"@), StepView::write("/etc/xdg/qt5ct/qt5ct.conf"@, QT_SETTINGS@)]
    }

    /// The configuration of the notifications.
    pub open spec fn dunst_steps(self) -> Seq<StepView> {
        seq![StepView::mkdir("/etc/dunst"@), StepView::write("/etc/dunst/dunstrc"@, DUNST_CONFIG@)]
    }

    /// The whole desktop setup: the packages, the directories, then the
    /// configuration of compositor, bar, terminal, launcher, wallpaper,
    /// start script and session, the fonts, and the configuration of the
    /// toolkits and of the notifications.
    pub open spec fn plan(self) -> PlanView {
        PlanView::of(
            install_plan(views(DESKTOP_PACKAGES@)).steps + self.directory_steps() + self.hyprland_steps()
                + self.waybar_steps() + self.alacritty_steps() + self.wofi_steps() + self.wallpaper_steps()
                + self.startup_steps() + self.session_steps() + install_plan(views(FONT_PACKAGES@)).steps
                + self.gtk_steps() + self.qt_steps() + self.dunst_steps(),
        )
    }
}

/// The desktop setup over the directories that the system uses.
pub open spec fn hyprland_plan() -> PlanView {
    DisplayView::standard().plan()
}

/// Setting up the desktop asks for no credentials.
pub proof fn lemma_desktop_plan_credential_free(display: DisplayView)
    ensures
        credential_free(display.plan().steps),
{
    let packages = install_plan(views(DESKTOP_PACKAGES@)).steps;
    let fonts = install_plan(views(FONT_PACKAGES@)).steps;
    let s1 = packages + display.directory_steps();
    lemma_credential_free_add(packages, display.directory_steps());
    let s2 = s1 + display.hyprland_steps();
    lemma_credential_free_add(s1, display.hyprland_steps());
    let s3 = s2 + display.waybar_steps();
    lemma_credential_free_add(s2, display.waybar_steps());
    let s4 = s3 + display.alacritty_steps();
    lemma_credential_free_add(s3, display.alacritty_steps());
    let s5 = s4 + display.wofi_steps();
    lemma_credential_free_add(s4, display.wofi_steps());
    let s6 = s5 + display.wallpaper_steps();
    lemma_credential_free_add(s5, display.wallpaper_steps());
    let s7 = s6 + display.startup_steps();
    lemma_credential_free_add(s6, display.startup_steps());
    let s8 = s7 + display.session_steps();
    lemma_credential_free_add(s7, display.session_steps());
    let s9 = s8 + fonts;
    lemma_credential_free_add(s8, fonts);
    let s10 = s9 + display.gtk_steps();
    lemma_credential_free_add(s9, display.gtk_steps());
    let s11 = s10 + display.qt_steps();
    lemma_credential_free_add(s10, display.qt_steps());
    lemma_credential_free_add(s11, display.dunst_steps());
}

impl DisplayManager {
    /// A display manager over the directories that the system uses.
    pub fn new() -> (r: Self)
        ensures
            r@ == DisplayView::standard(),
    {
        DisplayManager {
            config_path: String::from_str("/etc/xbitos/display"),
            hypr_config_path: String::from_str("/etc/hypr"),
            waybar_config_path: String::from_str("/etc/xdg/waybar"),
        }
    }

    /// The plan that sets up the whole desktop.
    pub fn setup_hyprland(&self) -> (plan: Plan)
        ensures
            plan@ == self@.plan(),
    {
        let mut plan = PackageManager::new().install_packages(&DESKTOP_PACKAGES);
        plan.extend(self.create_config_directories());
        plan.extend(self.setup_hyprland_config());
        plan.extend(self.setup_waybar_config());
        plan.extend(self.setup_alacritty_config());
        plan.extend(self.setup_wofi_config());
        plan.extend(self.setup_wallpaper());
        plan.extend(self.setup_startup_script());
        plan.extend(self.setup_sddm_session());
        plan.extend(self.install_required_fonts());
        plan.extend(self.setup_gtk_config());
        plan.extend(self.setup_qt_config());
        plan.extend(self.setup_dunst_config());
        plan
    }

    /// The plan that creates the configuration directories.
    pub fn create_config_directories(&self) -> (plan: Plan)
        ensures
            plan@ == PlanView::of(self@.directory_steps()),
    {
        let mut plan = Plan::new(Unwind::Never);
        plan.push(Step::mkdir(self.config_path.as_str()));
        plan.push(Step::mkdir(self.hypr_config_path.as_str()));
        plan.push(Step::mkdir(self.waybar_config_path.as_str()));
        plan.push(Step::mkdir("/etc/xdg/alacritty"));
        plan.push(Step::mkdir("/etc/xdg/wofi"));
        proof {
            assert(plan@.steps =~= self@.directory_steps());
        }
        plan
    }

    /// The plan that writes the configuration of the compositor.
    pub fn setup_hyprland_config(&self) -> (plan: Plan)
        ensures
            plan@ == PlanView::of(self@.hyprland_steps()),
    {
        let mut plan = Plan::new(Unwind::Never);
        let path = join_path(self.hypr_config_path.as_str(), "hyprland.conf");
        plan.push(Step::write(path.as_str(), HYPRLAND_CONF));
        proof {
            assert(plan@.steps =~= self@.hyprland_steps());
        }
        plan
    }

    /// The plan that writes the configuration and the style of the bar.
    pub fn setup_waybar_config(&self) -> (plan: Plan)
        ensures
            plan@ == PlanView::of(self@.waybar_steps()),
    {
        let mut plan = Plan::new(Unwind::Never);
        let config = join_path(self.waybar_config_path.as_str(), "config");
        plan.push(Step::write(config.as_str(), WAYBAR_CONFIG));
        let style = join_path(self.waybar_config_path.as_str(), "style.css");
        plan.push(Step::write(style.as_str(), WAYBAR_STYLE));
        proof {
            assert(plan@.steps =~= self@.waybar_steps());
        }
        plan
    }

    /// The plan that writes the configuration of the terminal.
    pub fn setup_alacritty_config(&self) -> (plan: Plan)
        ensures
            plan@ == PlanView::of(self@.alacritty_steps()),
    {
        let mut plan = Plan::new(Unwind::Never);
        plan.push(Step::write("/etc/xdg/alacritty/alacritty.yml", ALACRITTY_CONFIG));
        proof {
            assert(plan@.steps =~= self@.alacritty_steps());
        }
        plan
    }

    /// The plan that writes the configuration and the style of the launcher.
    pub fn setup_wofi_config(&self) -> (plan: Plan)
        ensures
            plan@ == PlanView::of(self@.wofi_steps()),
    {
        let mut plan = Plan::new(Unwind::Never);
        plan.push(Step::write("/etc/xdg/wofi/config", WOFI_CONFIG));
        plan.push(Step::write("/etc/xdg/wofi/style.css", WOFI_STYLE));
        proof {
            assert(plan@.steps =~= self@.wofi_steps());
        }
        plan
    }

    /// The plan that prepares the wallpaper.
    pub fn setup_wallpaper(&self) -> (plan: Plan)
        ensures
            plan@ == PlanView::of(self@.wallpaper_steps()),
    {
        let mut plan = Plan::new(Unwind::Never);
        plan.push(Step::mkdir("/usr/share/backgrounds/xbitos"));
        let path = join_path(self.hypr_config_path.as_str(), "hyprpaper.conf");
        plan.push(Step::write(path.as_str(), HYPRPAPER_CONFIG));
        proof {
            assert(plan@.steps =~= self@.wallpaper_steps());
        }
        plan
    }

    /// The plan that installs the script that starts the compositor.
    pub fn setup_startup_script(&self) -> (plan: Plan)
        ensures
            plan@ == PlanView::of(self@.startup_steps()),
    {
        let mut plan = Plan::new(Unwind::Never);
        plan.push(Step::write(STARTUP_SCRIPT_PATH, STARTUP_SCRIPT));
        plan.push(Step::attempt(Command::new("chmod").arg("+x").arg(STARTUP_SCRIPT_PATH)));
        proof {
            assert(plan@.steps =~= self@.startup_steps());
        }
        plan
    }

    /// The plan that registers the desktop session with the login manager.
    pub fn setup_sddm_session(&self) -> (plan: Plan)
        ensures
            plan@ == PlanView::of(self@.session_steps()),
    {
        let mut plan = Plan::new(Unwind::Never);
        plan.push(Step::mkdir("/usr/share/wayland-sessions"));
        plan.push(Step::write("/usr/share/wayland-sessions/hyprland.desktop", SESSION_FILE));
        proof {
            assert(plan@.steps =~= self@.session_steps());
        }
        plan
    }

    /// The plan that installs the fonts.
    pub fn install_required_fonts(&self) -> (plan: Plan)
        ensures
            plan@ == install_plan(views(FONT_PACKAGES@)),
    {
        PackageManager::new().install_packages(&FONT_PACKAGES)
    }

    /// The plan that writes the settings of the first toolkit.
    pub fn setup_gtk_config(&self) -> (plan: Plan)
        ensures
            plan@ == PlanView::of(self@.gtk_steps()),
    {
        let mut plan = Plan::new(Unwind::Never);
        plan.push(Step::mkdir("/etc/gtk-3.0"));
        plan.push(Step::write("/etc/gtk-3.0/settings.ini", GTK_SETTINGS));
        proof {
            assert(plan@.steps =~= self@.gtk_steps());
        }
        plan
    }

    /// The plan that writes the settings of the second toolkit.
    pub fn setup_qt_config(&self) -> (plan: Plan)
        ensures
            plan@ == PlanView::of(self@.qt_steps()),
    {
        let mut plan = Plan::new(Unwind::Never);
        plan.push(Step::mkdir("/etc/xdg/qt5ct"));
        plan.push(Step::write("/etc/xdg/qt5ct/qt5ct.conf", QT_SETTINGS));
        proof {
            assert(plan@.steps =~= self@.qt_steps());
        }
        plan
    }

    /// The plan that writes the configuration of the notifications.
    pub fn setup_dunst_config(&self) -> (plan: Plan)
        ensures
            plan@ == PlanView::of(self@.dunst_steps()),
    {
        let mut plan = Plan::new(Unwind::Never);
        plan.push(Step::mkdir("/etc/dunst"));
        plan.push(Step::write("/etc/dunst/dunstrc", DUNST_CONFIG));
        proof {
            assert(plan@.steps =~= self@.dunst_steps());
        }
        plan
    }
}

} // verus!
