//! `JankyBorders` colors and commands.
//!
//! `JankyBorders` takes `key=value` arguments such as
//! `active_color=0xFFFF0000`. Colors are written as `0xAARRGGBB`. Sending a
//! setting that `JankyBorders` already has makes it redraw every border, so a
//! cache remembers the last argument sent for each key and only changed
//! arguments go out.

use vstd::prelude::*;
use vstd::string::*;

use crate::config::{BorderColor, Rgba, parse_hex_color, parse_hex_color_spec};
use crate::keyed::{
    key_in, keyed_map, lemma_keyed_map_empty, lemma_keyed_map_index, lemma_keyed_map_push,
    lemma_keyed_map_update, unique_keys,
};
use crate::text::{decimal, hex_byte, push_char, push_hex_byte};

verus! {

// ============================================================================
// Color conversion
// ============================================================================

/// The `JankyBorders` spelling `0xAARRGGBB` of a color.
pub open spec fn janky_hex_spec(c: Rgba) -> Seq<char> {
    "0x"@ + hex_byte(c.a) + hex_byte(c.r) + hex_byte(c.g) + hex_byte(c.b)
}

/// The `JankyBorders` spelling of a hex color string, if it parses.
pub open spec fn hex_to_janky_spec(hex: Seq<char>) -> Option<Seq<char>> {
    match parse_hex_color_spec(hex) {
        Some(c) => Some(janky_hex_spec(c)),
        None => None,
    }
}

/// The gradient angle reduced to `[0, 360)`, 135 degrees when absent.
pub open spec fn normalized_angle(angle: Option<i64>) -> int {
    match angle {
        Some(a) => (a as int) % 360,
        None => 135,
    }
}

/// Whether a gradient runs from the top right corner to the bottom left.
pub open spec fn gradient_is_top_right(angle: Option<i64>) -> bool {
    let n = normalized_angle(angle);
    (0 <= n < 90) || (180 <= n < 270)
}

/// The `JankyBorders` spelling of a configured border color.
pub open spec fn border_color_to_janky_spec(color: BorderColor) -> Option<Seq<char>> {
    match color {
        BorderColor::Solid(hex) => hex_to_janky_spec(hex@),
        BorderColor::Gradient { from, to, angle } => {
            match (hex_to_janky_spec(from@), hex_to_janky_spec(to@)) {
                (Some(f), Some(t)) => if gradient_is_top_right(angle) {
                    Some("gradient(top_right="@ + f + ",bottom_left="@ + t + ")"@)
                } else {
                    Some("gradient(top_left="@ + f + ",bottom_right="@ + t + ")"@)
                },
                _ => None,
            }
        },
        BorderColor::Glow(hex) => match hex_to_janky_spec(hex@) {
            Some(h) => Some("glow("@ + h + ")"@),
            None => None,
        },
    }
}

/// Converts an RGBA color to `JankyBorders` hex format (`0xAARRGGBB`).
pub fn rgba_to_hex(rgba: &Rgba) -> (r: String)
    ensures
        r@ == janky_hex_spec(*rgba),
{
    let mut s = String::new();
    s.append("0x");
    push_hex_byte(&mut s, rgba.a);
    push_hex_byte(&mut s, rgba.r);
    push_hex_byte(&mut s, rgba.g);
    push_hex_byte(&mut s, rgba.b);
    assert(s@ =~= janky_hex_spec(*rgba));
    s
}

/// Converts a hex color string to `JankyBorders` format.
///
/// Accepts `#RGB`, `#RRGGBB` and `#RRGGBBAA`.
pub fn hex_to_janky(hex: &str) -> (r: Option<String>)
    ensures
        r is Some == hex_to_janky_spec(hex@) is Some,
        r matches Some(s) ==> s@ == hex_to_janky_spec(hex@)->0,
{
    match parse_hex_color(hex) {
        Some(c) => Some(rgba_to_hex(&c)),
        None => None,
    }
}

/// Whether a gradient at `angle` degrees runs top right to bottom left.
fn gradient_top_right(angle: Option<i64>) -> (r: bool)
    ensures
        r == gradient_is_top_right(angle),
{
    let a: i128 = match angle {
        Some(a) => a as i128,
        None => 135,
    };
    let n: i128 = if a >= 0 {
        a % 360
    } else {
        let m: i128 = (-a) % 360;
        if m == 0 {
            0
        } else {
            360 - m
        }
    };
    assert(n == normalized_angle(angle));
    (0 <= n && n < 90) || (180 <= n && n < 270)
}

/// Converts a `BorderColor` to a `JankyBorders` color string.
///
/// Supports solid colors, gradients, and glow effects.
pub fn border_color_to_janky(color: &BorderColor) -> (r: Option<String>)
    ensures
        r is Some == border_color_to_janky_spec(*color) is Some,
        r matches Some(s) ==> s@ == border_color_to_janky_spec(*color)->0,
{
    match color {
        BorderColor::Solid(hex) => hex_to_janky(hex.as_str()),
        BorderColor::Gradient { from, to, angle } => {
            let from_hex = match hex_to_janky(from.as_str()) {
                Some(h) => h,
                None => {
                    return None;
                },
            };
            let to_hex = match hex_to_janky(to.as_str()) {
                Some(h) => h,
                None => {
                    return None;
                },
            };
            let mut s = String::new();
            if gradient_top_right(*angle) {
                s.append("gradient(top_right=");
                s.append(from_hex.as_str());
                s.append(",bottom_left=");
                s.append(to_hex.as_str());
                s.append(")");
            } else {
                s.append("gradient(top_left=");
                s.append(from_hex.as_str());
                s.append(",bottom_right=");
                s.append(to_hex.as_str());
                s.append(")");
            }
            assert(s@ =~= border_color_to_janky_spec(*color)->0);
            Some(s)
        },
        BorderColor::Glow(hex) => {
            let janky_hex = match hex_to_janky(hex.as_str()) {
                Some(h) => h,
                None => {
                    return None;
                },
            };
            let mut s = String::new();
            s.append("glow(");
            s.append(janky_hex.as_str());
            s.append(")");
            assert(s@ =~= border_color_to_janky_spec(*color)->0);
            Some(s)
        },
    }
}


// ============================================================================
// Command caching
// ============================================================================

/// The position of the first `=` in `a`, if any.
pub open spec fn first_eq_index(a: Seq<char>) -> Option<int> {
    if exists|i: int| 0 <= i < a.len() && a[i] == '=' {
        Some(
            choose|i: int|
                0 <= i < a.len() && a[i] == '=' && forall|j: int| 0 <= j < i ==> a[j] != '=',
        )
    } else {
        None
    }
}

/// The key of a `key=value` argument: the text before its first `=`.
pub open spec fn arg_key(a: Seq<char>) -> Option<Seq<char>> {
    match first_eq_index(a) {
        Some(i) => Some(a.subrange(0, i)),
        None => None,
    }
}

/// One argument against the cache: the cache after it, and whether it is sent.
///
/// A `key=value` argument is sent unless the cache already holds exactly it
/// for its key; a sent argument becomes the cached one. Any other argument
/// is always sent and leaves the cache alone.
pub open spec fn filter_step(cache: Map<Seq<char>, Seq<char>>, a: Seq<char>) -> (
    Map<Seq<char>, Seq<char>>,
    bool,
) {
    match arg_key(a) {
        Some(k) => if cache.contains_key(k) && cache[k] == a {
            (cache, false)
        } else {
            (cache.insert(k, a), true)
        },
        None => (cache, true),
    }
}

/// The arguments of `args` that are sent, in order, and the cache afterwards.
pub open spec fn filter_spec(cache: Map<Seq<char>, Seq<char>>, args: Seq<Seq<char>>) -> (
    Map<Seq<char>, Seq<char>>,
    Seq<Seq<char>>,
)
    decreases args.len(),
{
    if args.len() == 0 {
        (cache, seq![])
    } else {
        let prev = filter_spec(cache, args.drop_last());
        let step = filter_step(prev.0, args.last());
        (step.0, if step.1 {
            prev.1.push(args.last())
        } else {
            prev.1
        })
    }
}

/// The views of a sequence of strings.
pub open spec fn views(s: Seq<&str>) -> Seq<Seq<char>> {
    s.map_values(|x: &str| x@)
}

/// The views of a sequence of owned strings.
pub open spec fn string_views(s: Seq<String>) -> Seq<Seq<char>> {
    s.map_values(|x: String| x@)
}

/// The last argument sent to `JankyBorders` for each setting.
pub struct CommandCache {
    entries: Vec<(String, String)>,
}

impl CommandCache {
    /// The cached pairs, by their views.
    pub closed spec fn pairs(&self) -> Seq<(Seq<char>, Seq<char>)> {
        self.entries@.map_values(|e: (String, String)| (e.0@, e.1@))
    }

    /// The cache as a map from setting key to the argument last sent for it.
    pub closed spec fn view(&self) -> Map<Seq<char>, Seq<char>> {
        keyed_map(self.pairs())
    }

    /// Whether no key is cached twice.
    pub closed spec fn wf(&self) -> bool {
        unique_keys(self.pairs())
    }

    /// Creates an empty cache.
    pub fn new() -> (r: Self)
        ensures
            r.wf(),
            r.view() == Map::<Seq<char>, Seq<char>>::empty(),
    {
        let r = CommandCache { entries: Vec::new() };
        proof {
            lemma_keyed_map_empty(r.pairs());
        }
        r
    }

    /// Looks up the cached argument for `key`.
    fn find(&self, key: &String) -> (r: Option<usize>)
        requires
            self.wf(),
        ensures
            r matches Some(i) ==> i < self.entries@.len() && self.pairs()[i as int].0 == key@,
            r is None ==> !key_in(self.pairs(), key@),
    {
        let mut i: usize = 0;
        while i < self.entries.len()
            invariant
                i <= self.entries@.len(),
                forall|j: int| 0 <= j < i ==> self.pairs()[j].0 != key@,
            decreases self.entries@.len() - i,
        {
            if self.entries[i].0 == *key {
                return Some(i);
            }
            i = i + 1;
        }
        proof {
            assert forall|j: int| 0 <= j < self.pairs().len() implies (#[trigger] self.pairs()[
                j
            ]).0 != key@ by {}
        }
        None
    }

    /// Applies one argument to the cache; returns whether it is sent.
    fn step(&mut self, arg: &str) -> (r: bool)
        requires
            old(self).wf(),
        ensures
            final(self).wf(),
            (final(self).view(), r) == filter_step(old(self).view(), arg@),
    {
        match key_of(arg) {
            None => true,
            Some(key) => {
                let ghost old_pairs = self.pairs();
                match self.find(&key) {
                    Some(i) => {
                        proof {
                            lemma_keyed_map_index(old_pairs, i as int);
                        }
                        let same = self.entries[i].1 == owned_str(arg);
                        if same {
                            false
                        } else {
                            let entry = (key, owned_str(arg));
                            self.entries.set(i, entry);
                            proof {
                                lemma_keyed_map_update(old_pairs, i as int, arg@);
                                assert(self.pairs() =~= old_pairs.update(
                                    i as int,
                                    (old_pairs[i as int].0, arg@),
                                ));
                            }
                            true
                        }
                    },
                    None => {
                        let ghost k = key@;
                        self.entries.push((key, owned_str(arg)));
                        proof {
                            lemma_keyed_map_push(old_pairs, k, arg@);
                            assert(self.pairs() =~= old_pairs.push((k, arg@)));
                        }
                        true
                    },
                }
            },
        }
    }
}

/// A fresh string holding the characters of `a`.
fn owned_str(a: &str) -> (r: String)
    ensures
        r@ == a@,
{
    a.to_owned()
}

/// The key of a `key=value` argument.
fn key_of(arg: &str) -> (r: Option<String>)
    ensures
        r is Some == arg_key(arg@) is Some,
        r matches Some(k) ==> k@ == arg_key(arg@)->0,
{
    let len = arg.unicode_len();
    let mut i: usize = 0;
    while i < len
        invariant
            i <= len,
            len == arg@.len(),
            forall|j: int| 0 <= j < i ==> arg@[j] != '=',
        decreases len - i,
    {
        if arg.get_char(i) == '=' {
            let ghost a = arg@;
            assert(first_eq_index(a) == Some(i as int)) by {
                assert(0 <= i < a.len() && a[i as int] == '=');
                let c = choose|c: int|
                    0 <= c < a.len() && a[c] == '=' && forall|j: int| 0 <= j < c ==> a[j] != '=';
                if c < i {
                    assert(a[c] != '=');
                } else if c > i {
                    assert(a[i as int] != '=');
                }
            }
            return Some(owned_str(arg.substring_char(0, i)));
        }
        i = i + 1;
    }
    None
}

/// Clears the command cache, forcing the next commands to be sent.
pub fn clear_cache(cache: &mut CommandCache)
    ensures
        final(cache).wf(),
        final(cache).view() == Map::<Seq<char>, Seq<char>>::empty(),
{
    *cache = CommandCache::new();
}

/// Returns the arguments that changed since they were last sent, and records them.
///
/// An argument of the form `key=value` is kept unless the same argument was
/// the last one recorded for `key`; any other argument is always kept.
pub fn filter_changed_args<'a>(cache: &mut CommandCache, args: &[&'a str]) -> (r: Vec<&'a str>)
    requires
        old(cache).wf(),
    ensures
        final(cache).wf(),
        (final(cache).view(), views(r@)) == filter_spec(old(cache).view(), views(args@)),
{
    let mut changed: Vec<&'a str> = Vec::new();
    let ghost start = cache.view();
    let mut i: usize = 0;
    while i < args.len()
        invariant
            i <= args@.len(),
            cache.wf(),
            (cache.view(), views(changed@)) == filter_spec(
                start,
                views(args@).subrange(0, i as int),
            ),
        decreases args@.len() - i,
    {
        let ghost before = changed@;
        let send = cache.step(args[i]);
        if send {
            changed.push(args[i]);
        }
        proof {
            let s = views(args@).subrange(0, i as int + 1);
            assert(s.drop_last() =~= views(args@).subrange(0, i as int));
            assert(s.last() == args@[i as int]@);
            if send {
                assert(views(changed@) =~= views(before).push(args@[i as int]@));
            } else {
                assert(views(changed@) =~= views(before));
            }
        }
        i = i + 1;
    }
    assert(views(args@).subrange(0, args@.len() as int) =~= views(args@));
    changed
}

/// Runs one argument through the cache; the result holds it when it is to be sent.
fn send_one_arg(cache: &mut CommandCache, arg: String) -> (r: Vec<String>)
    requires
        old(cache).wf(),
    ensures
        final(cache).wf(),
        (final(cache).view(), string_views(r@)) == filter_spec(old(cache).view(), seq![arg@]),
{
    let ghost start = cache.view();
    let send = cache.step(arg.as_str());
    let mut r: Vec<String> = Vec::new();
    if send {
        r.push(arg);
    }
    proof {
        let s = seq![arg@];
        assert(s.drop_last() =~= Seq::<Seq<char>>::empty());
        assert(filter_spec(start, s.drop_last()) == (start, Seq::<Seq<char>>::empty()));
        if send {
            assert(string_views(r@) =~= seq![arg@]);
        } else {
            assert(string_views(r@) =~= Seq::<Seq<char>>::empty());
        }
    }
    r
}

/// The argument `key=value` built from a key with its `=` and a value.
fn setting(key_eq: &str, value: &str) -> (r: String)
    ensures
        r@ == key_eq@ + value@,
{
    let mut s = String::new();
    s.append(key_eq);
    s.append(value);
    assert(s@ =~= key_eq@ + value@);
    s
}

/// The arguments that apply a border configuration: width (4 when not
/// configured), style (`s` for "square", `r` otherwise, round when not
/// configured), HiDPI (on when not configured), and the active and inactive
/// colors when they are configured.
pub open spec fn config_args_spec(
    width: Option<u32>,
    style: Option<Seq<char>>,
    hidpi: Option<bool>,
    active: Option<Seq<char>>,
    inactive: Option<Seq<char>>,
) -> Seq<Seq<char>> {
    let w: u32 = match width {
        Some(w) => w,
        None => 4,
    };
    let style_char = match style {
        Some(st) => if st == "square"@ {
            's'
        } else {
            'r'
        },
        None => 'r',
    };
    let base = seq![
        "width="@ + decimal(w as nat),
        "style="@ + seq![style_char],
        if match hidpi {
            Some(h) => h,
            None => true,
        } {
            "hidpi=on"@
        } else {
            "hidpi=off"@
        },
    ];
    let with_active = match active {
        Some(c) => base.push("active_color="@ + c),
        None => base,
    };
    match inactive {
        Some(c) => with_active.push("inactive_color="@ + c),
        None => with_active,
    }
}

/// Builds the arguments that apply a border configuration, in the order
/// `config_args_spec` gives; they are sent in one batch.
pub fn border_config_args(
    width: Option<u32>,
    style: Option<&str>,
    hidpi: Option<bool>,
    active: Option<&str>,
    inactive: Option<&str>,
) -> (r: Vec<String>)
    ensures
        string_views(r@) == config_args_spec(
            width,
            match style {
                Some(st) => Some(st@),
                None => None,
            },
            hidpi,
            match active {
                Some(c) => Some(c@),
                None => None,
            },
            match inactive {
                Some(c) => Some(c@),
                None => None,
            },
        ),
{
    let w: u32 = match width {
        Some(w) => w,
        None => 4,
    };
    let mut width_arg = String::new();
    width_arg.append("width=");
    crate::text::push_decimal(&mut width_arg, w as u64);
    let square = match style {
        Some(st) => crate::text::str_equal(st, "square"),
        None => false,
    };
    let mut style_arg = String::new();
    style_arg.append("style=");
    push_char(&mut style_arg, if square { 's' } else { 'r' });
    let on = match hidpi {
        Some(h) => h,
        None => true,
    };
    let hidpi_arg = if on {
        crate::text::owned("hidpi=on")
    } else {
        crate::text::owned("hidpi=off")
    };
    let ghost wv = width_arg@;
    let ghost sv = style_arg@;
    let ghost hv = hidpi_arg@;
    let mut r: Vec<String> = Vec::new();
    r.push(width_arg);
    r.push(style_arg);
    r.push(hidpi_arg);
    proof {
        assert(wv =~= "width="@ + decimal(w as nat));
        assert(sv =~= "style="@ + seq![if square { 's' } else { 'r' }]);
        assert(string_views(r@) =~= seq![wv, sv, hv]);
    }
    if let Some(c) = active {
        let ghost before = string_views(r@);
        r.push(setting("active_color=", c));
        assert(string_views(r@) =~= before.push("active_color="@ + c@));
    }
    if let Some(c) = inactive {
        let ghost before = string_views(r@);
        r.push(setting("inactive_color=", c));
        assert(string_views(r@) =~= before.push("inactive_color="@ + c@));
    }
    r
}

/// The arguments to send for one setting: empty when it is unchanged.
pub open spec fn setting_to_send(cache: Map<Seq<char>, Seq<char>>, arg: Seq<char>) -> (
    Map<Seq<char>, Seq<char>>,
    Seq<Seq<char>>,
) {
    filter_spec(cache, seq![arg])
}

/// Sets the active (focused) border color.
///
/// Returns the arguments that still have to be sent; none when `JankyBorders`
/// already has this color.
pub fn set_active_color(cache: &mut CommandCache, color: &str) -> (r: Vec<String>)
    requires
        old(cache).wf(),
    ensures
        final(cache).wf(),
        (final(cache).view(), string_views(r@)) == setting_to_send(
            old(cache).view(),
            "active_color="@ + color@,
        ),
{
    send_one_arg(cache, setting("active_color=", color))
}

/// Sets the inactive (unfocused) border color.
pub fn set_inactive_color(cache: &mut CommandCache, color: &str) -> (r: Vec<String>)
    requires
        old(cache).wf(),
    ensures
        final(cache).wf(),
        (final(cache).view(), string_views(r@)) == setting_to_send(
            old(cache).view(),
            "inactive_color="@ + color@,
        ),
{
    send_one_arg(cache, setting("inactive_color=", color))
}

/// Sets the background color behind the border.
pub fn set_background_color(cache: &mut CommandCache, color: &str) -> (r: Vec<String>)
    requires
        old(cache).wf(),
    ensures
        final(cache).wf(),
        (final(cache).view(), string_views(r@)) == setting_to_send(
            old(cache).view(),
            "background_color="@ + color@,
        ),
{
    send_one_arg(cache, setting("background_color=", color))
}

/// Sets the border style: `'r'` for round, `'s'` for square.
pub fn set_style(cache: &mut CommandCache, style: char) -> (r: Vec<String>)
    requires
        old(cache).wf(),
    ensures
        final(cache).wf(),
        (final(cache).view(), string_views(r@)) == setting_to_send(
            old(cache).view(),
            "style="@.push(style),
        ),
{
    let mut arg = setting("style=", "");
    push_char(&mut arg, style);
    proof {
        reveal_strlit("");
        assert(arg@ =~= "style="@.push(style));
    }
    send_one_arg(cache, arg)
}

/// Sets the border order: above the windows or below them.
pub fn set_order(cache: &mut CommandCache, above: bool) -> (r: Vec<String>)
    requires
        old(cache).wf(),
    ensures
        final(cache).wf(),
        (final(cache).view(), string_views(r@)) == setting_to_send(
            old(cache).view(),
            if above {
                "order=a"@
            } else {
                "order=b"@
            },
        ),
{
    if above {
        send_one_arg(cache, owned_str("order=a"))
    } else {
        send_one_arg(cache, owned_str("order=b"))
    }
}

/// Sets the `HiDPI` (retina) mode.
pub fn set_hidpi(cache: &mut CommandCache, enabled: bool) -> (r: Vec<String>)
    requires
        old(cache).wf(),
    ensures
        final(cache).wf(),
        (final(cache).view(), string_views(r@)) == setting_to_send(
            old(cache).view(),
            if enabled {
                "hidpi=on"@
            } else {
                "hidpi=off"@
            },
        ),
{
    if enabled {
        send_one_arg(cache, owned_str("hidpi=on"))
    } else {
        send_one_arg(cache, owned_str("hidpi=off"))
    }
}

/// Sets the accessibility focus tracking mode.
pub fn set_ax_focus(cache: &mut CommandCache, enabled: bool) -> (r: Vec<String>)
    requires
        old(cache).wf(),
    ensures
        final(cache).wf(),
        (final(cache).view(), string_views(r@)) == setting_to_send(
            old(cache).view(),
            if enabled {
                "ax_focus=on"@
            } else {
                "ax_focus=off"@
            },
        ),
{
    if enabled {
        send_one_arg(cache, owned_str("ax_focus=on"))
    } else {
        send_one_arg(cache, owned_str("ax_focus=off"))
    }
}

/// Sets the blacklist of apps to exclude from borders (comma-separated).
pub fn set_blacklist(cache: &mut CommandCache, apps: &str) -> (r: Vec<String>)
    requires
        old(cache).wf(),
    ensures
        final(cache).wf(),
        (final(cache).view(), string_views(r@)) == setting_to_send(
            old(cache).view(),
            "blacklist="@ + apps@,
        ),
{
    send_one_arg(cache, setting("blacklist=", apps))
}

/// Sets the whitelist of apps to include (comma-separated).
pub fn set_whitelist(cache: &mut CommandCache, apps: &str) -> (r: Vec<String>)
    requires
        old(cache).wf(),
    ensures
        final(cache).wf(),
        (final(cache).view(), string_views(r@)) == setting_to_send(
            old(cache).view(),
            "whitelist="@ + apps@,
        ),
{
    send_one_arg(cache, setting("whitelist=", apps))
}

/// The color configuration that the active border color follows: the
/// monocle one in a monocle workspace, else the floating one in a floating
/// workspace, else the focused one. `None` stands for a state whose border
/// is disabled or has no color.
pub open spec fn active_color_source(
    is_monocle: bool,
    is_floating: bool,
    focused: Option<BorderColor>,
    monocle: Option<BorderColor>,
    floating: Option<BorderColor>,
) -> Option<BorderColor> {
    if is_monocle {
        monocle
    } else if is_floating {
        floating
    } else {
        focused
    }
}

/// The value behind an optional color reference.
pub open spec fn opt_color(o: Option<&BorderColor>) -> Option<BorderColor> {
    match o {
        Some(c) => Some(*c),
        None => None,
    }
}

/// Updates the active border color for the focused workspace's layout
/// state: the color of `active_color_source`, when it has one that
/// converts, goes through `set_active_color`; otherwise nothing is sent and
/// the cache stays as it was. The inactive color is left alone.
pub fn update_colors_for_state(
    cache: &mut CommandCache,
    is_monocle: bool,
    is_floating: bool,
    focused: Option<&BorderColor>,
    monocle: Option<&BorderColor>,
    floating: Option<&BorderColor>,
) -> (r: Vec<String>)
    requires
        old(cache).wf(),
    ensures
        final(cache).wf(),
        match active_color_source(
            is_monocle,
            is_floating,
            opt_color(focused),
            opt_color(monocle),
            opt_color(floating),
        ) {
            Some(c) => match border_color_to_janky_spec(c) {
                Some(text) => (final(cache).view(), string_views(r@)) == setting_to_send(
                    old(cache).view(),
                    "active_color="@ + text,
                ),
                None => r@.len() == 0 && final(cache).view() == old(cache).view(),
            },
            None => r@.len() == 0 && final(cache).view() == old(cache).view(),
        },
{
    let source = if is_monocle {
        monocle
    } else if is_floating {
        floating
    } else {
        focused
    };
    let color = match source {
        Some(c) => c,
        None => return Vec::new(),
    };
    match border_color_to_janky(color) {
        Some(text) => set_active_color(cache, text.as_str()),
        None => Vec::new(),
    }
}

/// Runs arguments through the cache, in order; the result holds those to be sent.
fn send_args(cache: &mut CommandCache, args: Vec<String>) -> (r: Vec<String>)
    requires
        old(cache).wf(),
    ensures
        final(cache).wf(),
        (final(cache).view(), string_views(r@)) == filter_spec(old(cache).view(), string_views(args@)),
{
    let ghost start = cache.view();
    let mut r: Vec<String> = Vec::new();
    let mut i: usize = 0;
    while i < args.len()
        invariant
            i <= args@.len(),
            cache.wf(),
            (cache.view(), string_views(r@)) == filter_spec(
                start,
                string_views(args@).subrange(0, i as int),
            ),
        decreases args@.len() - i,
    {
        let ghost before = r@;
        let send = cache.step(args[i].as_str());
        if send {
            r.push(args[i].clone());
        }
        proof {
            let s = string_views(args@).subrange(0, i as int + 1);
            assert(s.drop_last() =~= string_views(args@).subrange(0, i as int));
            assert(s.last() == args@[i as int]@);
            if send {
                assert(string_views(r@) =~= string_views(before).push(args@[i as int]@));
            } else {
                assert(string_views(r@) =~= string_views(before));
            }
        }
        i = i + 1;
    }
    assert(string_views(args@).subrange(0, args@.len() as int) =~= string_views(args@));
    r
}

/// The characters of an optional string slice.
pub open spec fn opt_view(o: Option<&str>) -> Option<Seq<char>> {
    match o {
        Some(s) => Some(s@),
        None => None,
    }
}

/// Applies a border configuration: the arguments of `border_config_args`
/// that changed since they were last sent, which the cache records; the
/// caller sends them in one batch.
pub fn apply_config(
    cache: &mut CommandCache,
    width: Option<u32>,
    style: Option<&str>,
    hidpi: Option<bool>,
    active: Option<&str>,
    inactive: Option<&str>,
) -> (r: Vec<String>)
    requires
        old(cache).wf(),
    ensures
        final(cache).wf(),
        (final(cache).view(), string_views(r@)) == filter_spec(
            old(cache).view(),
            config_args_spec(width, opt_view(style), hidpi, opt_view(active), opt_view(inactive)),
        ),
{
    let args = border_config_args(width, style, hidpi, active, inactive);
    send_args(cache, args)
}

/// Whether no two `key=value` arguments share their key.
pub open spec fn distinct_keys(args: Seq<Seq<char>>) -> bool {
    forall|i: int, j: int|
        0 <= i < j < args.len() && (#[trigger] arg_key(args[i])) is Some ==> arg_key(args[i])
            != #[trigger] arg_key(args[j])
}

/// Every key cached after an empty cache took in `args` is the key of one
/// of them.
proof fn lemma_cached_keys_come_from_args(args: Seq<Seq<char>>, k: Seq<char>)
    requires
        filter_spec(Map::empty(), args).0.contains_key(k),
    ensures
        exists|i: int| 0 <= i < args.len() && arg_key(#[trigger] args[i]) == Some(k),
    decreases args.len(),
{
    if args.len() > 0 {
        let prev = filter_spec(Map::empty(), args.drop_last());
        if prev.0.contains_key(k) {
            lemma_cached_keys_come_from_args(args.drop_last(), k);
            let i = choose|i: int| 0 <= i < args.drop_last().len() && arg_key(#[trigger] args.drop_last()[i]) == Some(k);
            assert(args[i] == args.drop_last()[i]);
        } else {
            assert(arg_key(args[args.len() - 1]) == Some(k));
        }
    }
}

/// From an empty cache, arguments with distinct keys are all sent.
pub proof fn lemma_distinct_keys_all_sent(args: Seq<Seq<char>>)
    requires
        distinct_keys(args),
    ensures
        filter_spec(Map::empty(), args).1 == args,
    decreases args.len(),
{
    if args.len() > 0 {
        let init = args.drop_last();
        assert(distinct_keys(init)) by {
            assert forall|i: int, j: int|
                0 <= i < j < init.len() && (#[trigger] arg_key(init[i])) is Some implies arg_key(init[i])
                    != #[trigger] arg_key(init[j]) by {
                assert(init[i] == args[i] && init[j] == args[j]);
            }
        }
        lemma_distinct_keys_all_sent(init);
        let prev = filter_spec(Map::empty(), init);
        let last = args.last();
        match arg_key(last) {
            Some(k) => {
                if prev.0.contains_key(k) {
                    lemma_cached_keys_come_from_args(init, k);
                    let i = choose|i: int| 0 <= i < init.len() && arg_key(#[trigger] init[i]) == Some(k);
                    assert(init[i] == args[i]);
                    assert(arg_key(args[i]) != arg_key(args[args.len() - 1]));
                }
            },
            None => {},
        }
        assert(init.push(last) =~= args);
    }
}

/// The key of an argument whose first `=` is at `i`.
proof fn lemma_key_before(a: Seq<char>, i: int)
    requires
        0 <= i < a.len(),
        a[i] == '=',
        forall|j: int| 0 <= j < i ==> a[j] != '=',
    ensures
        arg_key(a) == Some(a.subrange(0, i)),
{
    let c = choose|c: int| 0 <= c < a.len() && a[c] == '=' && forall|j: int| 0 <= j < c ==> a[j] != '=';
    if c < i {
        assert(a[c] != '=');
    } else if i < c {
        assert(a[i] != '=');
    }
}

/// The key of a setting spelled as a prefix ending in its only `=`, then a
/// value: the prefix without the `=`.
proof fn lemma_setting_key(prefix: Seq<char>, value: Seq<char>)
    requires
        prefix.len() > 0,
        prefix.last() == '=',
        forall|j: int| 0 <= j < prefix.len() - 1 ==> prefix[j] != '=',
    ensures
        arg_key(prefix + value) == Some(prefix.drop_last()),
{
    let a = prefix + value;
    let i = prefix.len() - 1;
    assert forall|j: int| 0 <= j < i implies a[j] != '=' by {
        assert(a[j] == prefix[j]);
    }
    lemma_key_before(a, i);
    assert(a.subrange(0, i) =~= prefix.drop_last());
}

/// The arguments of a border configuration have distinct keys: width,
/// style, HiDPI and the two colors.
#[verifier::rlimit(40)]
proof fn lemma_config_keys_distinct(
    width: Option<u32>,
    style: Option<Seq<char>>,
    hidpi: Option<bool>,
    active: Option<Seq<char>>,
    inactive: Option<Seq<char>>,
)
    ensures
        distinct_keys(config_args_spec(width, style, hidpi, active, inactive)),
{
    let args = config_args_spec(width, style, hidpi, active, inactive);
    let w = "width="@;
    let st = "style="@;
    let h = "hidpi="@;
    let ac = "active_color="@;
    let ic = "inactive_color="@;
    assert(w.len() == 6 && w[5] == '=' && w[0] == 'w' && forall|j: int| 0 <= j < 5 ==> w[j] != '=') by {
        reveal_strlit("width=");
    }
    assert(st.len() == 6 && st[5] == '=' && st[0] == 's' && forall|j: int| 0 <= j < 5 ==> st[j] != '=') by {
        reveal_strlit("style=");
    }
    assert(ac.len() == 13 && ac[12] == '=' && forall|j: int| 0 <= j < 12 ==> ac[j] != '=') by {
        reveal_strlit("active_color=");
    }
    assert(ic.len() == 15 && ic[14] == '=' && forall|j: int| 0 <= j < 14 ==> ic[j] != '=') by {
        reveal_strlit("inactive_color=");
    }
    assert(args[2] == "hidpi=on"@ || args[2] == "hidpi=off"@);
    assert(arg_key(args[2]) is Some && arg_key(args[2]).unwrap().len() == 5 && arg_key(args[2]).unwrap()[0]
        == 'h') by {
        if args[2] == "hidpi=on"@ {
            assert("hidpi=on"@ == seq!['h', 'i', 'd', 'p', 'i', '=', 'o', 'n']) by {
                reveal_strlit("hidpi=on");
            }
            lemma_key_before(args[2], 5);
        } else {
            assert("hidpi=off"@ == seq!['h', 'i', 'd', 'p', 'i', '=', 'o', 'f', 'f']) by {
                reveal_strlit("hidpi=off");
            }
            lemma_key_before(args[2], 5);
        }
    }
    let wv = decimal(match width {
        Some(x) => x,
        None => 4u32,
    } as nat);
    lemma_setting_key(w, wv);
    assert(args[0] == w + wv);
    assert(w.drop_last().len() == 5 && w.drop_last()[0] == 'w');
    let sv = seq![args[1].last()];
    assert(args[1] =~= st + sv);
    lemma_setting_key(st, sv);
    assert(st.drop_last().len() == 5 && st.drop_last()[0] == 's');
    if args.len() > 3 {
        match active {
            Some(c) => {
                lemma_setting_key(ac, c);
                assert(args[3] == ac + c);
                if args.len() > 4 {
                    lemma_setting_key(ic, inactive.unwrap());
                    assert(args[4] == ic + inactive.unwrap());
                }
            },
            None => {
                lemma_setting_key(ic, inactive.unwrap());
                assert(args[3] == ic + inactive.unwrap());
            },
        }
    }
    assert forall|i: int, j: int|
        0 <= i < j < args.len() && (#[trigger] arg_key(args[i])) is Some implies arg_key(args[i])
            != #[trigger] arg_key(args[j]) by {
        let ki = arg_key(args[i]).unwrap();
        let kj = arg_key(args[j]).unwrap();
        if j <= 2 {
            assert(ki[0] != kj[0]);
        } else if i <= 2 {
            assert(ki.len() == 5);
            assert(kj.len() >= 12);
        } else {
            assert(ki.len() == 12);
            assert(kj.len() == 14);
        }
    }
}

/// Forgets every cached argument and applies the border configuration
/// again, so that every setting is sent even when it did not change: the
/// result is all of `border_config_args`, which the cache then records.
pub fn refresh(
    cache: &mut CommandCache,
    width: Option<u32>,
    style: Option<&str>,
    hidpi: Option<bool>,
    active: Option<&str>,
    inactive: Option<&str>,
) -> (r: Vec<String>)
    ensures
        final(cache).wf(),
        (final(cache).view(), string_views(r@)) == filter_spec(
            Map::empty(),
            config_args_spec(width, opt_view(style), hidpi, opt_view(active), opt_view(inactive)),
        ),
        string_views(r@) == config_args_spec(
            width,
            opt_view(style),
            hidpi,
            opt_view(active),
            opt_view(inactive),
        ),
{
    clear_cache(cache);
    let r = apply_config(cache, width, style, hidpi, active, inactive);
    proof {
        lemma_config_keys_distinct(width, opt_view(style), hidpi, opt_view(active), opt_view(inactive));
        lemma_distinct_keys_all_sent(
            config_args_spec(width, opt_view(style), hidpi, opt_view(active), opt_view(inactive)),
        );
    }
    r
}

} // verus!

verus! {

// ============================================================================
// Laws
// ============================================================================

/// A single argument against the cache is one filter step.
pub proof fn lemma_filter_single(cache: Map<Seq<char>, Seq<char>>, arg: Seq<char>)
    ensures
        filter_spec(cache, seq![arg]) == (
            filter_step(cache, arg).0,
            if filter_step(cache, arg).1 {
                seq![arg]
            } else {
                Seq::<Seq<char>>::empty()
            },
        ),
{
    let s = seq![arg];
    assert(s.drop_last() =~= Seq::<Seq<char>>::empty());
    assert(s.last() == arg);
    assert(filter_spec(cache, s.drop_last()) == (cache, Seq::<Seq<char>>::empty()));
    assert(Seq::<Seq<char>>::empty().push(arg) =~= seq![arg]);
}

/// Sending the same `key=value` argument twice in a row sends it only once.
pub proof fn law_repeated_argument_is_skipped(cache: Map<Seq<char>, Seq<char>>, arg: Seq<char>)
    requires
        arg_key(arg) is Some,
    ensures
        filter_spec(filter_spec(cache, seq![arg]).0, seq![arg]).1 == Seq::<Seq<char>>::empty(),
{
    lemma_filter_single(cache, arg);
    let first = filter_spec(cache, seq![arg]).0;
    lemma_filter_single(first, arg);
}

/// After the cache is cleared, every `key=value` argument is sent again.
pub proof fn law_cleared_cache_sends_argument(arg: Seq<char>)
    ensures
        filter_spec(Map::<Seq<char>, Seq<char>>::empty(), seq![arg]).1 == seq![arg],
{
    lemma_filter_single(Map::<Seq<char>, Seq<char>>::empty(), arg);
}

/// A new value for a cached key is sent, and becomes the cached value.
pub proof fn law_changed_value_is_sent(
    cache: Map<Seq<char>, Seq<char>>,
    old_arg: Seq<char>,
    new_arg: Seq<char>,
)
    requires
        arg_key(old_arg) is Some,
        arg_key(new_arg) == arg_key(old_arg),
        new_arg != old_arg,
    ensures
        ({
            let after_old = filter_spec(cache, seq![old_arg]).0;
            let after_new = filter_spec(after_old, seq![new_arg]);
            &&& after_new.1 == seq![new_arg]
            &&& after_new.0[arg_key(new_arg)->0] == new_arg
        }),
{
    lemma_filter_single(cache, old_arg);
    let after_old = filter_spec(cache, seq![old_arg]).0;
    lemma_filter_single(after_old, new_arg);
}

/// Arguments for other keys leave the cached argument of key `k` as it was.
proof fn lemma_other_keys_keep_entry(
    cache: Map<Seq<char>, Seq<char>>,
    args: Seq<Seq<char>>,
    k: Seq<char>,
)
    requires
        forall|i: int| 0 <= i < args.len() ==> arg_key(#[trigger] args[i]) != Some(k),
    ensures
        filter_spec(cache, args).0.contains_key(k) == cache.contains_key(k),
        cache.contains_key(k) ==> filter_spec(cache, args).0[k] == cache[k],
    decreases args.len(),
{
    if args.len() > 0 {
        let init = args.drop_last();
        assert forall|i: int| 0 <= i < init.len() implies arg_key(#[trigger] init[i]) != Some(k) by {
            assert(init[i] == args[i]);
        }
        lemma_other_keys_keep_entry(cache, init, k);
        assert(arg_key(args[args.len() - 1]) != Some(k));
    }
}

/// A setting that was sent stays cached while only other settings are sent:
/// sending it again with the same value sends nothing, and a different value
/// for it is sent.
pub proof fn law_cached_setting_survives_other_settings(
    cache: Map<Seq<char>, Seq<char>>,
    a: Seq<char>,
    others: Seq<Seq<char>>,
    b: Seq<char>,
)
    requires
        arg_key(a) is Some,
        forall|i: int| 0 <= i < others.len() ==> arg_key(#[trigger] others[i]) != arg_key(a),
        arg_key(b) == arg_key(a),
    ensures
        ({
            let after = filter_spec(filter_spec(cache, seq![a]).0, others).0;
            &&& filter_spec(after, seq![a]).1 == Seq::<Seq<char>>::empty()
            &&& b != a ==> filter_spec(after, seq![b]).1 == seq![b]
        }),
{
    let k = arg_key(a)->0;
    lemma_filter_single(cache, a);
    let first = filter_spec(cache, seq![a]).0;
    assert(first.contains_key(k) && first[k] == a);
    lemma_other_keys_keep_entry(first, others, k);
    let after = filter_spec(first, others).0;
    lemma_filter_single(after, a);
    lemma_filter_single(after, b);
}

/// Every argument that is sent is one of the given arguments, in their order.
pub proof fn law_sent_arguments_are_a_subsequence(
    cache: Map<Seq<char>, Seq<char>>,
    args: Seq<Seq<char>>,
)
    ensures
        filter_spec(cache, args).1.len() <= args.len(),
        forall|i: int|
            0 <= i < filter_spec(cache, args).1.len() ==> args.contains(
                #[trigger] filter_spec(cache, args).1[i],
            ),
    decreases args.len(),
{
    if args.len() > 0 {
        law_sent_arguments_are_a_subsequence(cache, args.drop_last());
        let prev = filter_spec(cache, args.drop_last()).1;
        let out = filter_spec(cache, args).1;
        assert forall|i: int| 0 <= i < out.len() implies args.contains(#[trigger] out[i]) by {
            if i < prev.len() {
                assert(out[i] == prev[i]);
                let j = choose|j: int| 0 <= j < args.drop_last().len() && args.drop_last()[j] == prev[i];
                assert(args[j] == prev[i]);
            } else {
                assert(out[i] == args.last());
                assert(args[args.len() - 1] == args.last());
            }
        }
    }
}

/// A `JankyBorders` color is `0x` followed by eight hexadecimal digits.
pub proof fn law_janky_hex_shape(c: Rgba)
    ensures
        janky_hex_spec(c).len() == 10,
        janky_hex_spec(c).subrange(0, 2) == "0x"@,
{
    reveal_strlit("0x");
    assert(janky_hex_spec(c).subrange(0, 2) =~= "0x"@);
}

/// The gradient direction depends only on the angle modulo a full turn.
pub proof fn law_gradient_direction_is_periodic(a: i64)
    requires
        a <= i64::MAX - 360,
    ensures
        gradient_is_top_right(Some(a)) == gradient_is_top_right(Some((a + 360) as i64)),
{
    assert(((a + 360) as int) % 360 == (a as int) % 360) by (nonlinear_arith);
}

} // verus!
