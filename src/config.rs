//! Window settings: the width-height pair and the configuration record, with
//! the values a configuration takes when the caller sets none.
use vstd::prelude::*;

verus! {

/// A width and a height in pixels.
#[derive(PartialEq, Eq, Structural, Clone, Copy, Debug)]
pub struct Tuple {
    pub v1: u32,
    pub v2: u32,
}

impl From<(u32, u32)> for Tuple {
    fn from(tup: (u32, u32)) -> (r: Tuple)
        ensures
            r.v1 == tup.0,
            r.v2 == tup.1,
    {
        Tuple { v1: tup.0, v2: tup.1 }
    }
}

impl vstd::std_specs::convert::FromSpecImpl<(u32, u32)> for Tuple {
    open spec fn obeys_from_spec() -> bool {
        true
    }

    open spec fn from_spec(v: (u32, u32)) -> Tuple {
        tuple_of(v)
    }
}

impl From<Tuple> for (u32, u32) {
    fn from(tup: Tuple) -> (r: (u32, u32))
        ensures
            r == (tup.v1, tup.v2),
    {
        (tup.v1, tup.v2)
    }
}

impl vstd::std_specs::convert::FromSpecImpl<Tuple> for (u32, u32) {
    open spec fn obeys_from_spec() -> bool {
        true
    }

    open spec fn from_spec(v: Tuple) -> (u32, u32) {
        pair_of(v)
    }
}

/// The `Tuple` that holds a pair.
pub open spec fn tuple_of(p: (u32, u32)) -> Tuple {
    Tuple { v1: p.0, v2: p.1 }
}

/// The pair that a `Tuple` holds.
pub open spec fn pair_of(t: Tuple) -> (u32, u32) {
    (t.v1, t.v2)
}

/// Converting a pair to a `Tuple` and back gives the pair, and the other way round.
pub proof fn lemma_tuple_round_trip(p: (u32, u32), t: Tuple)
    ensures
        pair_of(tuple_of(p)) == p,
        tuple_of(pair_of(t)) == t,
{
}

/// Settings of the window to create.
///
/// `title` is `None` where the caller's title could not be read as text.
/// `fullscreen` is `0` for a window, `1` for exclusive fullscreen, `2` for
/// borderless fullscreen. `vsync` and `visibility` are `1` for on. `fps` is the
/// target frame rate in frames per second. Nothing here checks that
/// `min_dimensions <= dimensions <= max_dimensions`: the windowing system
/// decides what it does with bounds out of order.
#[derive(Clone, Debug)]
pub struct DisplayConfig {
    pub title: Option<String>,
    pub icon: String,
    pub fullscreen: u8,
    pub dimensions: Tuple,
    pub min_dimensions: Tuple,
    pub max_dimensions: Tuple,
    pub vsync: u8,
    pub multisampling: u16,
    pub visibility: u8,
    pub fps: u32,
}

/// The title that a configuration which sets none carries.
pub open spec fn default_title_spec() -> Seq<char> {
    seq!['d', 'e', 'f', 'a', 'u', 'l', 't', '_', 't', 'i', 't', 'l', 'e']
}

/// The size used for all three size bounds of a default configuration.
pub open spec fn default_size() -> Tuple {
    Tuple { v1: 800, v2: 600 }
}

/// The title of a configuration that sets none: `"default_title"`.
pub fn default_title() -> (r: String)
    ensures
        r@ == default_title_spec(),
{
    proof {
        reveal_strlit("default_title");
    }
    let r = "default_title".to_owned();
    proof {
        assert(r@ =~= default_title_spec());
    }
    r
}

/// Vertical sync is off unless asked for.
pub fn default_vsync() -> (r: u8)
    ensures
        r == 0,
{
    0
}

/// The antialiasing level of a configuration that sets none.
pub fn default_multisampling() -> (r: u16)
    ensures
        r == 1,
{
    1
}

/// A window is shown unless asked otherwise.
pub fn default_visibility() -> (r: u8)
    ensures
        r == 1,
{
    1
}

/// The target frame rate of a configuration that sets none, in frames per second.
pub fn default_fps() -> (r: u32)
    ensures
        r == 60,
{
    60
}

impl Default for DisplayConfig {
    fn default() -> (r: DisplayConfig)
        ensures
            r.title is Some,
            r.title->Some_0@ == default_title_spec(),
            r.icon@.len() == 0,
            r.fullscreen == 0,
            r.dimensions == default_size(),
            r.min_dimensions == default_size(),
            r.max_dimensions == default_size(),
            r.vsync == 0,
            r.multisampling == 1,
            r.visibility == 1,
            r.fps == 60,
    {
        DisplayConfig {
            title: Some(default_title()),
            icon: String::new(),
            fullscreen: 0,
            dimensions: Tuple { v1: 800, v2: 600 },
            min_dimensions: Tuple { v1: 800, v2: 600 },
            max_dimensions: Tuple { v1: 800, v2: 600 },
            vsync: default_vsync(),
            multisampling: default_multisampling(),
            visibility: default_visibility(),
            fps: default_fps(),
        }
    }
}

} // verus!
