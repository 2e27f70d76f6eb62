//! Typed configuration with documented defaults.
//!
//! A configuration source is a JSON object with two optional members,
//! `window` and `event`, each an object of optional fields. Every field has a
//! documented default that applies wherever the field — or the whole object —
//! is absent; a field that is present with the wrong type, a number out of
//! the field's range, or a malformed source is a format error, never a crash.
//! Reading a path is delegated to a [`ConfigSource`]; a path that cannot be
//! read is an I/O error.

use vstd::prelude::*;

use crate::error::CoreError;
use crate::json::{
    json_as_bool, json_as_str, json_as_u64, json_get, json_is_object, json_model, parse_json,
    parsed_json, Json,
};

verus! {

/// Default width of the window, in pixels.
pub fn default_window_size_width() -> (r: u32)
    ensures
        r == 1600u32,
{
    1600
}

/// Default height of the window, in pixels.
pub fn default_window_size_height() -> (r: u32)
    ensures
        r == 1000u32,
{
    1000
}

/// Default number of anti-aliasing samples.
pub fn default_window_samples() -> (r: u8)
    ensures
        r == 0u8,
{
    0
}

/// By default the window is not fullscreen.
pub fn default_window_fullscreen() -> (r: bool)
    ensures
        r == false,
{
    false
}

/// By default the escape key does not close the window.
pub fn default_window_exit_on_esc() -> (r: bool)
    ensures
        r == false,
{
    false
}

/// By default vertical synchronization is off.
pub fn default_window_vsync() -> (r: bool)
    ensures
        r == false,
{
    false
}

/// By default the sRGB color space is off.
pub fn default_window_srgb() -> (r: bool)
    ensures
        r == false,
{
    false
}

/// By default the window is not resizable.
pub fn default_window_resizable() -> (r: bool)
    ensures
        r == false,
{
    false
}

/// By default the window is not decorated.
pub fn default_window_decorated() -> (r: bool)
    ensures
        r == false,
{
    false
}

/// By default controller support is off.
pub fn default_window_controllers() -> (r: bool)
    ensures
        r == false,
{
    false
}

/// Default cap on frames per second.
pub fn default_event_max_fps() -> (r: u64)
    ensures
        r == 60u64,
{
    60
}

/// Default updates per second.
pub fn default_event_ups() -> (r: u64)
    ensures
        r == 120u64,
{
    120
}

/// Default number of delayed updates before the update counter resets.
pub fn default_event_ups_reset() -> (r: u64)
    ensures
        r == 2u64,
{
    2
}

/// By default buffers are swapped after rendering.
pub fn default_event_swap_buffers() -> (r: bool)
    ensures
        r == true,
{
    true
}

/// By default benchmark mode is off.
pub fn default_event_bench_mode() -> (r: bool)
    ensures
        r == false,
{
    false
}

/// By default the event loop is not lazy.
pub fn default_event_lazy() -> (r: bool)
    ensures
        r == false,
{
    false
}

/// The pixel size of the window.
#[derive(Clone, Copy, Debug, PartialEq, Eq, Structural)]
pub struct WindowConfigSize {
    pub width: u32,
    pub height: u32,
}

/// The window parameters of a configuration.
#[derive(Debug, PartialEq)]
pub struct WindowConfig {
    pub title: String,
    pub size: WindowConfigSize,
    pub samples: u8,
    pub fullscreen: bool,
    pub exit_on_esc: bool,
    pub vsync: bool,
    pub srgb: bool,
    pub resizable: bool,
    pub decorated: bool,
    pub controllers: bool,
}

/// The ghost model of a [`WindowConfig`].
#[verifier::ext_equal]
pub ghost struct WindowConfigV {
    pub title: Seq<char>,
    pub size: WindowConfigSize,
    pub samples: u8,
    pub fullscreen: bool,
    pub exit_on_esc: bool,
    pub vsync: bool,
    pub srgb: bool,
    pub resizable: bool,
    pub decorated: bool,
    pub controllers: bool,
}

impl View for WindowConfig {
    type V = WindowConfigV;

    open spec fn view(&self) -> WindowConfigV {
        WindowConfigV {
            title: self.title@,
            size: self.size,
            samples: self.samples,
            fullscreen: self.fullscreen,
            exit_on_esc: self.exit_on_esc,
            vsync: self.vsync,
            srgb: self.srgb,
            resizable: self.resizable,
            decorated: self.decorated,
            controllers: self.controllers,
        }
    }
}

/// The event-loop tuning parameters of a configuration.
#[derive(Clone, Copy, Debug, PartialEq, Eq, Structural)]
pub struct EventConfig {
    pub max_fps: u64,
    pub ups: u64,
    pub ups_reset: u64,
    pub swap_buffers: bool,
    pub bench_mode: bool,
    pub lazy: bool,
}

/// A whole configuration: window parameters and event-loop tuning.
#[derive(Debug, PartialEq)]
pub struct Config {
    pub window: WindowConfig,
    pub event: EventConfig,
}

/// The ghost model of a [`Config`].
#[verifier::ext_equal]
pub ghost struct ConfigV {
    pub window: WindowConfigV,
    pub event: EventConfig,
}

impl View for Config {
    type V = ConfigV;

    open spec fn view(&self) -> ConfigV {
        ConfigV { window: self.window@, event: self.event }
    }
}

/// The documented default size.
pub open spec fn default_size_spec() -> WindowConfigSize {
    WindowConfigSize { width: 1600, height: 1000 }
}

/// The documented default window parameters: an untitled window of the
/// default size with every toggle off.
pub open spec fn default_window_spec() -> WindowConfigV {
    WindowConfigV {
        title: Seq::empty(),
        size: default_size_spec(),
        samples: 0,
        fullscreen: false,
        exit_on_esc: false,
        vsync: false,
        srgb: false,
        resizable: false,
        decorated: false,
        controllers: false,
    }
}

/// The documented default event-loop tuning.
pub open spec fn default_event_spec() -> EventConfig {
    EventConfig {
        max_fps: 60,
        ups: 120,
        ups_reset: 2,
        swap_buffers: true,
        bench_mode: false,
        lazy: false,
    }
}

/// The configuration an empty source yields.
pub open spec fn default_config_spec() -> ConfigV {
    ConfigV { window: default_window_spec(), event: default_event_spec() }
}

impl Default for WindowConfigSize {
    /// The documented default size.
    fn default() -> (s: WindowConfigSize)
        ensures
            s == default_size_spec(),
    {
        WindowConfigSize {
            width: default_window_size_width(),
            height: default_window_size_height(),
        }
    }
}

impl Default for WindowConfig {
    /// The documented default window parameters.
    fn default() -> (w: WindowConfig)
        ensures
            w@ == default_window_spec(),
    {
        WindowConfig {
            title: String::new(),
            size: WindowConfigSize::default(),
            samples: default_window_samples(),
            fullscreen: default_window_fullscreen(),
            exit_on_esc: default_window_exit_on_esc(),
            vsync: default_window_vsync(),
            srgb: default_window_srgb(),
            resizable: default_window_resizable(),
            decorated: default_window_decorated(),
            controllers: default_window_controllers(),
        }
    }
}

impl Default for EventConfig {
    /// The documented default event-loop tuning.
    fn default() -> (e: EventConfig)
        ensures
            e == default_event_spec(),
    {
        EventConfig {
            max_fps: default_event_max_fps(),
            ups: default_event_ups(),
            ups_reset: default_event_ups_reset(),
            swap_buffers: default_event_swap_buffers(),
            bench_mode: default_event_bench_mode(),
            lazy: default_event_lazy(),
        }
    }
}

impl Default for Config {
    /// The configuration an empty source yields.
    fn default() -> (c: Config)
        ensures
            c@ == default_config_spec(),
    {
        Config { window: WindowConfig::default(), event: EventConfig::default() }
    }
}

/// A `u64` member of an object: its default where absent, the number where it
/// is a `u64` integer, and nothing where it is anything else.
pub open spec fn parse_u64_field(m: Map<Seq<char>, Json>, key: Seq<char>, dflt: u64) -> Option<
    u64,
> {
    if !m.contains_key(key) {
        Some(dflt)
    } else {
        match m[key] {
            Json::Num(Some(n)) => Some(n),
            _ => None,
        }
    }
}

/// A `u32` member of an object, as [`parse_u64_field`] with a range check.
pub open spec fn parse_u32_field(m: Map<Seq<char>, Json>, key: Seq<char>, dflt: u32) -> Option<
    u32,
> {
    if !m.contains_key(key) {
        Some(dflt)
    } else {
        match m[key] {
            Json::Num(Some(n)) => if n <= u32::MAX {
                Some(n as u32)
            } else {
                None
            },
            _ => None,
        }
    }
}

/// A `u8` member of an object, as [`parse_u64_field`] with a range check.
pub open spec fn parse_u8_field(m: Map<Seq<char>, Json>, key: Seq<char>, dflt: u8) -> Option<u8> {
    if !m.contains_key(key) {
        Some(dflt)
    } else {
        match m[key] {
            Json::Num(Some(n)) => if n <= u8::MAX {
                Some(n as u8)
            } else {
                None
            },
            _ => None,
        }
    }
}

/// A boolean member of an object: its default where absent, the boolean where
/// it is one, and nothing otherwise.
pub open spec fn parse_bool_field(m: Map<Seq<char>, Json>, key: Seq<char>, dflt: bool) -> Option<
    bool,
> {
    if !m.contains_key(key) {
        Some(dflt)
    } else {
        match m[key] {
            Json::Bool(b) => Some(b),
            _ => None,
        }
    }
}

/// A string member of an object: its default where absent, the text where it
/// is a string, and nothing otherwise.
pub open spec fn parse_str_field(m: Map<Seq<char>, Json>, key: Seq<char>, dflt: Seq<char>) -> Option<
    Seq<char>,
> {
    if !m.contains_key(key) {
        Some(dflt)
    } else {
        match m[key] {
            Json::Str(s) => Some(s),
            _ => None,
        }
    }
}

/// The `size` member of a window object: the default size where absent, the
/// parsed size object where present, and nothing where it is not an object.
pub open spec fn parse_size_field(m: Map<Seq<char>, Json>) -> Option<WindowConfigSize> {
    if !m.contains_key("size"@) {
        Some(default_size_spec())
    } else {
        match m["size"@] {
            Json::Obj(sm) => {
                let width = parse_u32_field(sm, "width"@, 1600);
                let height = parse_u32_field(sm, "height"@, 1000);
                if width is Some && height is Some {
                    Some(WindowConfigSize { width: width->0, height: height->0 })
                } else {
                    None
                }
            },
            _ => None,
        }
    }
}

/// The window parameters a window object holds, each field defaulted where
/// absent and refused where ill-typed.
pub open spec fn parse_window(m: Map<Seq<char>, Json>) -> Option<WindowConfigV> {
    let title = parse_str_field(m, "title"@, Seq::empty());
    let size = parse_size_field(m);
    let samples = parse_u8_field(m, "samples"@, 0);
    let fullscreen = parse_bool_field(m, "fullscreen"@, false);
    let exit_on_esc = parse_bool_field(m, "exit_on_esc"@, false);
    let vsync = parse_bool_field(m, "vsync"@, false);
    let srgb = parse_bool_field(m, "srgb"@, false);
    let resizable = parse_bool_field(m, "resizable"@, false);
    let decorated = parse_bool_field(m, "decorated"@, false);
    let controllers = parse_bool_field(m, "controllers"@, false);
    if title is Some && size is Some && samples is Some && fullscreen is Some && exit_on_esc
        is Some && vsync is Some && srgb is Some && resizable is Some && decorated is Some
        && controllers is Some {
        Some(
            WindowConfigV {
                title: title->0,
                size: size->0,
                samples: samples->0,
                fullscreen: fullscreen->0,
                exit_on_esc: exit_on_esc->0,
                vsync: vsync->0,
                srgb: srgb->0,
                resizable: resizable->0,
                decorated: decorated->0,
                controllers: controllers->0,
            },
        )
    } else {
        None
    }
}

/// The event-loop tuning an event object holds.
pub open spec fn parse_event(m: Map<Seq<char>, Json>) -> Option<EventConfig> {
    let max_fps = parse_u64_field(m, "max_fps"@, 60);
    let ups = parse_u64_field(m, "ups"@, 120);
    let ups_reset = parse_u64_field(m, "ups_reset"@, 2);
    let swap_buffers = parse_bool_field(m, "swap_buffers"@, true);
    let bench_mode = parse_bool_field(m, "bench_mode"@, false);
    let lazy = parse_bool_field(m, "lazy"@, false);
    if max_fps is Some && ups is Some && ups_reset is Some && swap_buffers is Some && bench_mode
        is Some && lazy is Some {
        Some(
            EventConfig {
                max_fps: max_fps->0,
                ups: ups->0,
                ups_reset: ups_reset->0,
                swap_buffers: swap_buffers->0,
                bench_mode: bench_mode->0,
                lazy: lazy->0,
            },
        )
    } else {
        None
    }
}

/// The `window` member of the root object: the documented defaults where
/// absent, the parsed window object where present, and nothing where it is
/// not an object.
pub open spec fn parse_window_field(m: Map<Seq<char>, Json>) -> Option<WindowConfigV> {
    if !m.contains_key("window"@) {
        Some(default_window_spec())
    } else {
        match m["window"@] {
            Json::Obj(wm) => parse_window(wm),
            _ => None,
        }
    }
}

/// The `event` member of the root object, as [`parse_window_field`].
pub open spec fn parse_event_field(m: Map<Seq<char>, Json>) -> Option<EventConfig> {
    if !m.contains_key("event"@) {
        Some(default_event_spec())
    } else {
        match m["event"@] {
            Json::Obj(em) => parse_event(em),
            _ => None,
        }
    }
}

/// The configuration a JSON document holds: nothing unless the document is an
/// object whose `window` and `event` members parse.
pub open spec fn config_of(j: Json) -> Option<ConfigV> {
    match j {
        Json::Obj(m) => {
            let window = parse_window_field(m);
            let event = parse_event_field(m);
            if window is Some && event is Some {
                Some(ConfigV { window: window->0, event: event->0 })
            } else {
                None
            }
        },
        _ => None,
    }
}

/// What parsing a configuration text yields: the configuration of its JSON
/// document, or [`CoreError::ExternalFormat`] where the text is not
/// well-formed JSON or its document holds no configuration.
pub open spec fn json_config(s: Seq<char>) -> Result<ConfigV, CoreError> {
    match parsed_json(s) {
        None => Err(CoreError::ExternalFormat),
        Some(j) => match config_of(j) {
            None => Err(CoreError::ExternalFormat),
            Some(c) => Ok(c),
        },
    }
}

/// What loading from a source yields: [`CoreError::ExternalIo`] where the
/// source has no such entry, otherwise the parse of the entry's text.
pub open spec fn load_config(contents: Option<Seq<char>>) -> Result<ConfigV, CoreError> {
    match contents {
        None => Err(CoreError::ExternalIo),
        Some(text) => json_config(text),
    }
}

/// A place configuration texts can be read from, addressed by path.
///
/// `contents` is the ghost mapping from paths to texts; `read_to_string`
/// reads exactly it.
pub trait ConfigSource {
    spec fn contents(&self, path: Seq<char>) -> Option<Seq<char>>;

    fn read_to_string(&self, path: &str) -> (r: Option<String>)
        ensures
            match r {
                Some(text) => self.contents(path@) == Some(text@),
                None => self.contents(path@) is None,
            },
    ;
}

/// The text the first entry with the given path holds, if any.
pub open spec fn lookup_text(s: Seq<(String, String)>, path: Seq<char>) -> Option<Seq<char>>
    decreases s.len(),
{
    if s.len() == 0 {
        None
    } else if s[0].0@ == path {
        Some(s[0].1@)
    } else {
        lookup_text(s.drop_first(), path)
    }
}

/// An in-memory configuration source: a list of named texts.
pub struct StaticConfigSource {
    files: Vec<(String, String)>,
}

impl StaticConfigSource {
    /// A source holding exactly `files`, each a path paired with its text;
    /// where one path appears twice, the first entry wins.
    pub fn new(files: Vec<(String, String)>) -> (s: StaticConfigSource)
        ensures
            forall|path: Seq<char>| s.contents(path) == lookup_text(files@, path),
    {
        StaticConfigSource { files }
    }
}

impl ConfigSource for StaticConfigSource {
    closed spec fn contents(&self, path: Seq<char>) -> Option<Seq<char>> {
        lookup_text(self.files@, path)
    }

    fn read_to_string(&self, path: &str) -> (r: Option<String>) {
        let owned = path.to_owned();
        let mut i: usize = 0;
        proof {
            assert(self.files@.skip(0) =~= self.files@);
        }
        while i < self.files.len()
            invariant
                i <= self.files@.len(),
                owned@ == path@,
                lookup_text(self.files@, path@) == lookup_text(
                    self.files@.skip(i as int),
                    path@,
                ),
            decreases self.files@.len() - i,
        {
            proof {
                assert(self.files@.skip(i as int)[0] == self.files@[i as int]);
                assert(self.files@.skip(i as int).drop_first() =~= self.files@.skip(i + 1));
            }
            if self.files[i].0 == owned {
                return Some(self.files[i].1.clone());
            }
            i = i + 1;
        }
        proof {
            assert(self.files@.skip(self.files@.len() as int).len() == 0);
        }
        None
    }
}

/// A `u64` member of the object `obj` holds, per [`parse_u64_field`].
fn get_u64(obj: &serde_json::Value, key: &str, dflt: u64) -> (r: Option<u64>)
    requires
        json_model(*obj) is Obj,
    ensures
        r == parse_u64_field(json_model(*obj)->Obj_0, key@, dflt),
{
    match json_get(obj, key) {
        None => Some(dflt),
        Some(v) => json_as_u64(v),
    }
}

/// A `u32` member of the object `obj` holds, per [`parse_u32_field`].
fn get_u32(obj: &serde_json::Value, key: &str, dflt: u32) -> (r: Option<u32>)
    requires
        json_model(*obj) is Obj,
    ensures
        r == parse_u32_field(json_model(*obj)->Obj_0, key@, dflt),
{
    match json_get(obj, key) {
        None => Some(dflt),
        Some(v) => match json_as_u64(v) {
            Some(n) => if n <= u32::MAX as u64 {
                Some(n as u32)
            } else {
                None
            },
            None => None,
        },
    }
}

/// A `u8` member of the object `obj` holds, per [`parse_u8_field`].
fn get_u8(obj: &serde_json::Value, key: &str, dflt: u8) -> (r: Option<u8>)
    requires
        json_model(*obj) is Obj,
    ensures
        r == parse_u8_field(json_model(*obj)->Obj_0, key@, dflt),
{
    match json_get(obj, key) {
        None => Some(dflt),
        Some(v) => match json_as_u64(v) {
            Some(n) => if n <= u8::MAX as u64 {
                Some(n as u8)
            } else {
                None
            },
            None => None,
        },
    }
}

/// A boolean member of the object `obj` holds, per [`parse_bool_field`].
fn get_bool(obj: &serde_json::Value, key: &str, dflt: bool) -> (r: Option<bool>)
    requires
        json_model(*obj) is Obj,
    ensures
        r == parse_bool_field(json_model(*obj)->Obj_0, key@, dflt),
{
    match json_get(obj, key) {
        None => Some(dflt),
        Some(v) => json_as_bool(v),
    }
}

/// The window title the object `obj` holds, per [`parse_str_field`] with an
/// empty default.
fn get_title(obj: &serde_json::Value, key: &str) -> (r: Option<String>)
    requires
        json_model(*obj) is Obj,
    ensures
        match r {
            Some(text) => parse_str_field(json_model(*obj)->Obj_0, key@, Seq::empty()) == Some(
                text@,
            ),
            None => parse_str_field(json_model(*obj)->Obj_0, key@, Seq::empty()) is None,
        },
{
    match json_get(obj, key) {
        None => Some(String::new()),
        Some(v) => match json_as_str(v) {
            Some(text) => Some(text.to_owned()),
            None => None,
        },
    }
}

/// The size the window object `obj` holds, per [`parse_size_field`].
fn get_size(obj: &serde_json::Value) -> (r: Option<WindowConfigSize>)
    requires
        json_model(*obj) is Obj,
    ensures
        r == parse_size_field(json_model(*obj)->Obj_0),
{
    match json_get(obj, "size") {
        None => Some(WindowConfigSize::default()),
        Some(v) => {
            if !json_is_object(v) {
                return None;
            }
            let width = get_u32(v, "width", default_window_size_width());
            let height = get_u32(v, "height", default_window_size_height());
            match (width, height) {
                (Some(width), Some(height)) => Some(WindowConfigSize { width, height }),
                _ => None,
            }
        },
    }
}

/// The window parameters the window object `obj` holds, per [`parse_window`].
fn get_window(obj: &serde_json::Value) -> (r: Option<WindowConfig>)
    requires
        json_model(*obj) is Obj,
    ensures
        match r {
            Some(w) => parse_window(json_model(*obj)->Obj_0) == Some(w@),
            None => parse_window(json_model(*obj)->Obj_0) is None,
        },
{
    let title = match get_title(obj, "title") {
        Some(title) => title,
        None => {
            return None;
        },
    };
    let size = match get_size(obj) {
        Some(size) => size,
        None => {
            return None;
        },
    };
    let samples = match get_u8(obj, "samples", default_window_samples()) {
        Some(samples) => samples,
        None => {
            return None;
        },
    };
    let fullscreen = match get_bool(obj, "fullscreen", default_window_fullscreen()) {
        Some(fullscreen) => fullscreen,
        None => {
            return None;
        },
    };
    let exit_on_esc = match get_bool(obj, "exit_on_esc", default_window_exit_on_esc()) {
        Some(exit_on_esc) => exit_on_esc,
        None => {
            return None;
        },
    };
    let vsync = match get_bool(obj, "vsync", default_window_vsync()) {
        Some(vsync) => vsync,
        None => {
            return None;
        },
    };
    let srgb = match get_bool(obj, "srgb", default_window_srgb()) {
        Some(srgb) => srgb,
        None => {
            return None;
        },
    };
    let resizable = match get_bool(obj, "resizable", default_window_resizable()) {
        Some(resizable) => resizable,
        None => {
            return None;
        },
    };
    let decorated = match get_bool(obj, "decorated", default_window_decorated()) {
        Some(decorated) => decorated,
        None => {
            return None;
        },
    };
    let controllers = match get_bool(obj, "controllers", default_window_controllers()) {
        Some(controllers) => controllers,
        None => {
            return None;
        },
    };
    Some(
        WindowConfig {
            title,
            size,
            samples,
            fullscreen,
            exit_on_esc,
            vsync,
            srgb,
            resizable,
            decorated,
            controllers,
        },
    )
}

/// The event-loop tuning the event object `obj` holds, per [`parse_event`].
fn get_event(obj: &serde_json::Value) -> (r: Option<EventConfig>)
    requires
        json_model(*obj) is Obj,
    ensures
        r == parse_event(json_model(*obj)->Obj_0),
{
    let max_fps = match get_u64(obj, "max_fps", default_event_max_fps()) {
        Some(max_fps) => max_fps,
        None => {
            return None;
        },
    };
    let ups = match get_u64(obj, "ups", default_event_ups()) {
        Some(ups) => ups,
        None => {
            return None;
        },
    };
    let ups_reset = match get_u64(obj, "ups_reset", default_event_ups_reset()) {
        Some(ups_reset) => ups_reset,
        None => {
            return None;
        },
    };
    let swap_buffers = match get_bool(obj, "swap_buffers", default_event_swap_buffers()) {
        Some(swap_buffers) => swap_buffers,
        None => {
            return None;
        },
    };
    let bench_mode = match get_bool(obj, "bench_mode", default_event_bench_mode()) {
        Some(bench_mode) => bench_mode,
        None => {
            return None;
        },
    };
    let lazy = match get_bool(obj, "lazy", default_event_lazy()) {
        Some(lazy) => lazy,
        None => {
            return None;
        },
    };
    Some(EventConfig { max_fps, ups, ups_reset, swap_buffers, bench_mode, lazy })
}

/// The configuration a parsed JSON value holds: exactly [`config_of`] its
/// tree, with every failure reported as [`CoreError::ExternalFormat`].
pub fn config_from_value(value: &serde_json::Value) -> (r: Result<Config, CoreError>)
    ensures
        match r {
            Ok(c) => config_of(json_model(*value)) == Some(c@),
            Err(e) => config_of(json_model(*value)) is None && e == CoreError::ExternalFormat,
        },
{
    if !json_is_object(value) {
        return Err(CoreError::ExternalFormat);
    }
    let window = match json_get(value, "window") {
        None => WindowConfig::default(),
        Some(w) => {
            if !json_is_object(w) {
                return Err(CoreError::ExternalFormat);
            }
            match get_window(w) {
                Some(window) => window,
                None => {
                    return Err(CoreError::ExternalFormat);
                },
            }
        },
    };
    let event = match json_get(value, "event") {
        None => EventConfig::default(),
        Some(e) => {
            if !json_is_object(e) {
                return Err(CoreError::ExternalFormat);
            }
            match get_event(e) {
                Some(event) => event,
                None => {
                    return Err(CoreError::ExternalFormat);
                },
            }
        },
    };
    Ok(Config { window, event })
}

impl Config {
    /// The configuration a JSON text holds: exactly [`json_config`] of the
    /// text.
    pub fn from_json_str(json_str: &str) -> (r: Result<Config, CoreError>)
        ensures
            match r {
                Ok(c) => json_config(json_str@) == Ok::<ConfigV, CoreError>(c@),
                Err(e) => json_config(json_str@) == Err::<ConfigV, CoreError>(e),
            },
    {
        match parse_json(json_str) {
            Ok(value) => config_from_value(&value),
            Err(_) => Err(CoreError::ExternalFormat),
        }
    }

    /// The configuration at a path of a source: exactly [`load_config`] of
    /// what the source holds there.
    pub fn from_path_str<S: ConfigSource>(path_str: &str, source: &S) -> (r: Result<
        Config,
        CoreError,
    >)
        ensures
            match r {
                Ok(c) => load_config(source.contents(path_str@)) == Ok::<ConfigV, CoreError>(c@),
                Err(e) => load_config(source.contents(path_str@)) == Err::<ConfigV, CoreError>(e),
            },
    {
        match source.read_to_string(path_str) {
            None => Err(CoreError::ExternalIo),
            Some(text) => Config::from_json_str(text.as_str()),
        }
    }
}

} // verus!
