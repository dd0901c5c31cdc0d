//! Page-side scripts of the synthetic cursor overlay.
//!
//! The controller is one script; each theme is a static SVG image whose markup is
//! embedded into the generated install script as an escaped string. Nothing is
//! read from disk at run time.

use vstd::prelude::*;
use vstd::string::*;

use crate::json::{js_string, quoted};
use crate::text::{ascii_lowercase, decimal, decimal_text, lower, same_text};

verus! {

/// The page-side controller. It reads `window.__ab_cursor_config`, offers
/// `window.__ab_cursor`, and does nothing where it is installed already.
pub const CONTROLLER_JS: &'static str = r#"(() => {
  const INSTALLED = Symbol.for('__ab_cursor_installed__');
  if (window[INSTALLED]) return;
  window[INSTALLED] = true;

  const ROOT_ID = '__ab_cursor_root__';
  const TOP_LAYER = '2147483647';
  const HOTSPOT = 2;
  const config = Object.assign(
    { size: 28, tweenMs: 250, clickMs: 400, motion: 'auto', svg: '' },
    window.__ab_cursor_config || {}
  );
  const state = { x: -1000, y: -1000 };
  let host = null;
  let pointer = null;
  let ripple = null;
  let moveToken = 0;
  let clickToken = 0;

  function reducedMotion() {
    if (config.motion === 'off') return true;
    if (config.motion === 'always') return false;
    return !!(window.matchMedia && window.matchMedia('(prefers-reduced-motion: reduce)').matches);
  }

  function setStyles(el, styles) {
    for (const name of Object.keys(styles)) el.style[name] = styles[name];
  }

  function ensureHost() {
    if (host && host.isConnected) return true;
    const parent = document.documentElement;
    if (!parent) return false;
    host = document.createElement('div');
    host.id = ROOT_ID;
    host.setAttribute('aria-hidden', 'true');
    setStyles(host, {
      position: 'fixed',
      left: '0',
      top: '0',
      width: '0',
      height: '0',
      overflow: 'visible',
      pointerEvents: 'none',
      zIndex: TOP_LAYER,
    });
    const shadow = host.attachShadow ? host.attachShadow({ mode: 'closed' }) : host;
    ripple = document.createElement('div');
    setStyles(ripple, {
      position: 'fixed',
      left: '0',
      top: '0',
      width: config.size + 'px',
      height: config.size + 'px',
      marginLeft: -config.size / 2 + 'px',
      marginTop: -config.size / 2 + 'px',
      borderRadius: '50%',
      border: '2px solid rgba(37, 99, 235, 0.9)',
      background: 'rgba(37, 99, 235, 0.25)',
      opacity: '0',
      pointerEvents: 'none',
    });
    pointer = document.createElement('div');
    setStyles(pointer, {
      position: 'fixed',
      left: '0',
      top: '0',
      width: config.size + 'px',
      height: config.size + 'px',
      pointerEvents: 'none',
      filter: 'drop-shadow(0 1px 2px rgba(0, 0, 0, 0.45))',
    });
    pointer.innerHTML = config.svg;
    shadow.appendChild(ripple);
    shadow.appendChild(pointer);
    parent.appendChild(host);
    place();
    return true;
  }

  function place() {
    if (!pointer) return;
    pointer.style.transform =
      'translate3d(' + (state.x - HOTSPOT) + 'px, ' + (state.y - HOTSPOT) + 'px, 0)';
  }

  function setCursor(x, y) {
    state.x = Number(x) || 0;
    state.y = Number(y) || 0;
    if (ensureHost()) place();
  }

  function setRipple(x, y, scale, opacity) {
    if (!ensureHost()) return;
    ripple.style.transform =
      'translate3d(' + (Number(x) || 0) + 'px, ' + (Number(y) || 0) + 'px, 0) scale(' + (Number(scale) || 0) + ')';
    ripple.style.opacity = String(Math.max(0, Math.min(1, Number(opacity) || 0)));
  }

  function easeOutCubic(t) {
    return 1 - Math.pow(1 - t, 3);
  }

  function animate(durationMs, live, frame) {
    return new Promise(resolve => {
      const started = performance.now();
      function tick(now) {
        if (!live()) return resolve(false);
        const t = Math.min(1, (now - started) / durationMs);
        frame(t);
        if (t < 1) requestAnimationFrame(tick);
        else resolve(true);
      }
      requestAnimationFrame(tick);
    });
  }

  function moveTo(x, y, durationMs) {
    const token = ++moveToken;
    const ms = Math.max(0, Number(durationMs ?? config.tweenMs) || 0);
    const from = { x: state.x, y: state.y };
    if (ms === 0 || from.x < 0 || from.y < 0 || reducedMotion()) {
      setCursor(x, y);
      return Promise.resolve(true);
    }
    return animate(ms, () => token === moveToken, t => {
      const k = easeOutCubic(t);
      setCursor(from.x + (x - from.x) * k, from.y + (y - from.y) * k);
    });
  }

  function click(x, y, durationMs) {
    const token = ++clickToken;
    const ms = Math.max(1, Number(durationMs ?? config.clickMs) || 400);
    setRipple(x, y, 0.6, 0.85);
    return animate(ms, () => token === clickToken, t => {
      const opacity = t <= 0.55 ? 0.85 : 0.85 * (1 - (t - 0.55) / 0.45);
      setRipple(x, y, 0.6 + easeOutCubic(t) * 2, opacity);
    });
  }

  function destroy() {
    moveToken += 1;
    clickToken += 1;
    if (host) host.remove();
    host = null;
    pointer = null;
    ripple = null;
    delete window.__ab_cursor;
    delete window[INSTALLED];
  }

  window.__ab_cursor = { state, setCursor, setRipple, moveTo, click, destroy };
  if (!ensureHost()) {
    document.addEventListener('DOMContentLoaded', ensureHost, { once: true });
  }
})();
"#;

pub const ARROW_SVG: &'static str = r##"<svg xmlns="http://www.w3.org/2000/svg" width="100%" height="100%" viewBox="0 0 24 24" aria-hidden="true">
  <path d="M2 2 L2 19 L6.6 14.8 L9.6 21.6 L12.6 20.3 L9.7 13.6 L16 13.2 Z" fill="#ffffff" stroke="#111111" stroke-width="1.4" stroke-linejoin="round"/>
</svg>
"##;

pub const DOT_SVG: &'static str = r##"<svg xmlns="http://www.w3.org/2000/svg" width="100%" height="100%" viewBox="0 0 24 24" aria-hidden="true">
  <circle cx="8" cy="8" r="6" fill="#ffffff" fill-opacity="0.92" stroke="#111111" stroke-width="1.4"/>
  <circle cx="8" cy="8" r="2.4" fill="#2563eb"/>
</svg>
"##;

pub const HAND_SVG: &'static str = r##"<svg xmlns="http://www.w3.org/2000/svg" width="100%" height="100%" viewBox="0 0 24 24" aria-hidden="true">
  <path d="M6 2.6 a1.6 1.6 0 0 1 3.2 0 V10 l0.8 0.1 V8.6 a1.5 1.5 0 0 1 3 0 v1.9 l0.8 0.1 V9.6 a1.5 1.5 0 0 1 3 0 v1.4 l0.8 0.1 v-0.6 a1.4 1.4 0 0 1 2.8 0 V15 a6.6 6.6 0 0 1 -6.6 6.6 h-1.6 a6.6 6.6 0 0 1 -5.4 -2.8 L2.6 13.6 a1.5 1.5 0 0 1 2.4 -1.8 L6 13 Z" fill="#ffffff" stroke="#111111" stroke-width="1.2" stroke-linejoin="round"/>
</svg>
"##;

/// Built-in cursor themes.
#[derive(Debug, Clone, Copy, PartialEq, Eq, Structural)]
pub enum Theme {
    Arrow,
    Dot,
    Hand,
}

impl Default for Theme {
    fn default() -> (r: Self)
        ensures
            r == Theme::Arrow,
    {
        Theme::Arrow
    }
}

/// The theme that `text` names, in any case; no text names the default theme.
pub open spec fn theme_named(text: Seq<char>) -> Option<Theme> {
    if text.len() == 0 || lower(text) == "arrow"@ {
        Some(Theme::Arrow)
    } else if lower(text) == "dot"@ {
        Some(Theme::Dot)
    } else if lower(text) == "hand"@ {
        Some(Theme::Hand)
    } else {
        None
    }
}

impl Theme {
    /// The name of the theme.
    pub open spec fn name(self) -> Seq<char> {
        match self {
            Theme::Arrow => "arrow"@,
            Theme::Dot => "dot"@,
            Theme::Hand => "hand"@,
        }
    }

    /// The markup of the theme's image.
    pub open spec fn image(self) -> Seq<char> {
        match self {
            Theme::Arrow => ARROW_SVG@,
            Theme::Dot => DOT_SVG@,
            Theme::Hand => HAND_SVG@,
        }
    }

    /// Stable string identifier used by the command parser and the page.
    pub fn as_str(self) -> (r: &'static str)
        ensures
            r@ == self.name(),
    {
        match self {
            Theme::Arrow => "arrow",
            Theme::Dot => "dot",
            Theme::Hand => "hand",
        }
    }

    /// SVG markup to put into the cursor element.
    pub fn svg(self) -> (r: &'static str)
        ensures
            r@ == self.image(),
    {
        match self {
            Theme::Arrow => ARROW_SVG,
            Theme::Dot => DOT_SVG,
            Theme::Hand => HAND_SVG,
        }
    }

    /// Parses a theme name. The empty string is the default theme. The case of
    /// ASCII letters does not matter.
    pub fn from_str_ci(s: &str) -> (r: Result<Theme, String>)
        ensures
            match r {
                Ok(theme) => theme_named(s@) == Some(theme),
                Err(message) => theme_named(s@) is None && message@ == "unknown cursor theme '"@
                    + lower(s@) + "'; valid options: arrow, dot, hand"@,
            },
    {
        if s.is_empty() {
            return Ok(Theme::default());
        }
        let name = ascii_lowercase(s);
        if same_text(name.as_str(), "arrow") {
            Ok(Theme::Arrow)
        } else if same_text(name.as_str(), "dot") {
            Ok(Theme::Dot)
        } else if same_text(name.as_str(), "hand") {
            Ok(Theme::Hand)
        } else {
            let mut message = "unknown cursor theme '".to_owned();
            message.append(name.as_str());
            message.append("'; valid options: arrow, dot, hand");
            Err(message)
        }
    }
}

/// Reduced-motion handling for the cursor tween.
#[derive(Debug, Clone, Copy, PartialEq, Eq, Structural)]
pub enum MotionMode {
    /// Honor the host's `prefers-reduced-motion` setting (default).
    Auto,
    /// Always tween, regardless of reduced-motion preference.
    Always,
    /// Never tween. The cursor teleports.
    Off,
}

impl Default for MotionMode {
    fn default() -> (r: Self)
        ensures
            r == MotionMode::Auto,
    {
        MotionMode::Auto
    }
}

/// The motion mode that `text` names, in any case; no text names the default mode.
pub open spec fn motion_named(text: Seq<char>) -> Option<MotionMode> {
    if text.len() == 0 || lower(text) == "auto"@ {
        Some(MotionMode::Auto)
    } else if lower(text) == "always"@ {
        Some(MotionMode::Always)
    } else if lower(text) == "off"@ {
        Some(MotionMode::Off)
    } else {
        None
    }
}

impl MotionMode {
    /// The name of the mode.
    pub open spec fn name(self) -> Seq<char> {
        match self {
            MotionMode::Auto => "auto"@,
            MotionMode::Always => "always"@,
            MotionMode::Off => "off"@,
        }
    }

    /// Stable string identifier used by the command parser and the page.
    pub fn as_str(self) -> (r: &'static str)
        ensures
            r@ == self.name(),
    {
        match self {
            MotionMode::Auto => "auto",
            MotionMode::Always => "always",
            MotionMode::Off => "off",
        }
    }

    /// Parses a mode name. The empty string is the default mode. The case of ASCII
    /// letters does not matter.
    pub fn from_str_ci(s: &str) -> (r: Result<MotionMode, String>)
        ensures
            match r {
                Ok(mode) => motion_named(s@) == Some(mode),
                Err(message) => motion_named(s@) is None && message@
                    == "unknown cursor motion mode '"@ + lower(s@)
                    + "'; valid options: auto, always, off"@,
            },
    {
        if s.is_empty() {
            return Ok(MotionMode::default());
        }
        let name = ascii_lowercase(s);
        if same_text(name.as_str(), "auto") {
            Ok(MotionMode::Auto)
        } else if same_text(name.as_str(), "always") {
            Ok(MotionMode::Always)
        } else if same_text(name.as_str(), "off") {
            Ok(MotionMode::Off)
        } else {
            let mut message = "unknown cursor motion mode '".to_owned();
            message.append(name.as_str());
            message.append("'; valid options: auto, always, off");
            Err(message)
        }
    }
}

/// The configuration object that the page-side controller reads.
pub open spec fn page_config(
    size: u32,
    tween_ms: u32,
    click_ms: u32,
    motion: Seq<char>,
    svg: Seq<char>,
) -> Seq<char> {
    "{\"size\":"@ + decimal(size as nat) + ",\"tweenMs\":"@ + decimal(tween_ms as nat)
        + ",\"clickMs\":"@ + decimal(click_ms as nat) + ",\"motion\":"@ + quoted(motion)
        + ",\"svg\":"@ + quoted(svg) + "}"@
}

/// The configuration of a page, then the controller.
pub open spec fn install_script(
    theme: Theme,
    size: u32,
    tween_ms: u32,
    click_ms: u32,
    motion: MotionMode,
) -> Seq<char> {
    "window.__ab_cursor_config = "@ + page_config(
        size,
        tween_ms,
        click_ms,
        motion.name(),
        theme.image(),
    ) + ";\n"@ + CONTROLLER_JS@
}

fn page_config_text(size: u32, tween_ms: u32, click_ms: u32, motion: &str, svg: &str) -> (r: String)
    ensures
        r@ == page_config(size, tween_ms, click_ms, motion@, svg@),
{
    let mut out = "{\"size\":".to_owned();
    out.append(decimal_text(size as u64).as_str());
    out.append(",\"tweenMs\":");
    out.append(decimal_text(tween_ms as u64).as_str());
    out.append(",\"clickMs\":");
    out.append(decimal_text(click_ms as u64).as_str());
    out.append(",\"motion\":");
    out.append(js_string(motion).as_str());
    out.append(",\"svg\":");
    out.append(js_string(svg).as_str());
    out.append("}");
    out
}

/// Builds the install script: a `window.__ab_cursor_config = { ... };` line
/// followed by the controller.
///
/// The controller is guarded, so running this script more than once in the same
/// execution context changes nothing after the first time.
pub fn build_install_script(
    theme: Theme,
    size: u32,
    tween_ms: u32,
    click_ms: u32,
    motion: MotionMode,
) -> (r: String)
    ensures
        r@ == install_script(theme, size, tween_ms, click_ms, motion),
{
    let config = page_config_text(size, tween_ms, click_ms, motion.as_str(), theme.svg());
    let mut out = "window.__ab_cursor_config = ".to_owned();
    out.append(config.as_str());
    out.append(";\n");
    out.append(CONTROLLER_JS);
    out
}

/// The name of a theme is read back as that theme.
pub proof fn theme_names_read_back(theme: Theme)
    ensures
        theme_named(theme.name()) == Some(theme),
{
    reveal_strlit("arrow");
    reveal_strlit("dot");
    reveal_strlit("hand");
    assert(lower("arrow"@) =~= "arrow"@);
    assert(lower("dot"@) =~= "dot"@);
    assert(lower("hand"@) =~= "hand"@);
}

/// The name of a motion mode is read back as that mode.
pub proof fn motion_names_read_back(mode: MotionMode)
    ensures
        motion_named(mode.name()) == Some(mode),
{
    reveal_strlit("auto");
    reveal_strlit("always");
    reveal_strlit("off");
    assert(lower("auto"@) =~= "auto"@);
    assert(lower("always"@) =~= "always"@);
    assert(lower("off"@) =~= "off"@);
    assert("auto"@[1] != "always"@[1]);
}

/// Texts that differ in nothing but the case of ASCII letters name the same theme
/// and the same motion mode.
pub proof fn names_ignore_case(a: Seq<char>, b: Seq<char>)
    requires
        lower(a) == lower(b),
    ensures
        theme_named(a) == theme_named(b),
        motion_named(a) == motion_named(b),
{
    assert(lower(a).len() == a.len());
    assert(lower(b).len() == b.len());
}

} // verus!
