//! Colours of the plotted series: the fixed palettes, random colours, and how
//! many of each a colour scheme uses. Colours are (red, green, blue) bytes.
use vstd::prelude::*;
use rand::distr::Distribution;

verus! {

/// The colour schemes of the series lines.
#[derive(Clone, Copy, Debug, PartialEq, Eq, Structural)]
pub enum ColorScheme {
    Random,
    RandomHSL,
    LightTheme,
    DarkTheme,
}

/// The colour schemes whose colours are bytes throughout: all but the HSL
/// scheme, whose colours are computed with floating point.
#[derive(Clone, Copy, Debug, PartialEq, Eq, Structural)]
pub enum PaletteScheme {
    Random,
    LightTheme,
    DarkTheme,
}

/// The byte-only scheme a colour scheme stands for, if it is one.
pub open spec fn spec_palette_scheme(scheme: ColorScheme) -> Option<PaletteScheme> {
    match scheme {
        ColorScheme::Random => Some(PaletteScheme::Random),
        ColorScheme::RandomHSL => None,
        ColorScheme::LightTheme => Some(PaletteScheme::LightTheme),
        ColorScheme::DarkTheme => Some(PaletteScheme::DarkTheme),
    }
}

impl ColorScheme {
    /// The byte-only scheme this scheme is, or `None` for the HSL scheme.
    pub fn palette_scheme(&self) -> (r: Option<PaletteScheme>)
        ensures
            r == spec_palette_scheme(*self),
    {
        match self {
            ColorScheme::Random => Some(PaletteScheme::Random),
            ColorScheme::RandomHSL => None,
            ColorScheme::LightTheme => Some(PaletteScheme::LightTheme),
            ColorScheme::DarkTheme => Some(PaletteScheme::DarkTheme),
        }
    }
}

/// The scheme a byte-only scheme is.
pub open spec fn spec_scheme_of(p: PaletteScheme) -> ColorScheme {
    match p {
        PaletteScheme::Random => ColorScheme::Random,
        PaletteScheme::LightTheme => ColorScheme::LightTheme,
        PaletteScheme::DarkTheme => ColorScheme::DarkTheme,
    }
}

/// How the colours for `n` series are made: the first `fixed` colours of the
/// scheme's palette (10 for the light theme, 12 for the dark one) followed by
/// `random` random ones, or `hsl` random colours of fixed saturation and
/// lightness; `n` colours in all.
#[derive(Clone, Copy, Debug, PartialEq, Eq, Structural)]
pub struct ColorPlan {
    pub fixed: usize,
    pub random: usize,
    pub hsl: usize,
}

/// The palette is used as far as it reaches, random colours make up the rest.
pub open spec fn spec_color_plan(scheme: ColorScheme, n: usize) -> ColorPlan {
    match scheme {
        ColorScheme::Random => ColorPlan { fixed: 0, random: n, hsl: 0 },
        ColorScheme::RandomHSL => ColorPlan { fixed: 0, random: 0, hsl: n },
        ColorScheme::LightTheme => if n >= 10 {
            ColorPlan { fixed: 10, random: (n - 10) as usize, hsl: 0 }
        } else {
            ColorPlan { fixed: n, random: 0, hsl: 0 }
        },
        ColorScheme::DarkTheme => if n >= 12 {
            ColorPlan { fixed: 12, random: (n - 12) as usize, hsl: 0 }
        } else {
            ColorPlan { fixed: n, random: 0, hsl: 0 }
        },
    }
}

/// How many colours of each sort to make for `n` series.
pub fn color_plan(scheme: ColorScheme, n: usize) -> (r: ColorPlan)
    ensures
        r == spec_color_plan(scheme, n),
        r.fixed + r.random + r.hsl == n,
{
    match scheme {
        ColorScheme::Random => ColorPlan { fixed: 0, random: n, hsl: 0 },
        ColorScheme::RandomHSL => ColorPlan { fixed: 0, random: 0, hsl: n },
        ColorScheme::LightTheme => if n >= 10 {
            ColorPlan { fixed: 10, random: n - 10, hsl: 0 }
        } else {
            ColorPlan { fixed: n, random: 0, hsl: 0 }
        },
        ColorScheme::DarkTheme => if n >= 12 {
            ColorPlan { fixed: 12, random: n - 12, hsl: 0 }
        } else {
            ColorPlan { fixed: n, random: 0, hsl: 0 }
        },
    }
}

/// The palette of the light theme (10 colours).
pub open spec fn spec_light_palette() -> Seq<(u8, u8, u8)> {
    seq![
        (215u8, 25u8, 28u8),
        (253u8, 174u8, 97u8),
        (255u8, 255u8, 191u8),
        (171u8, 217u8, 233u8),
        (44u8, 123u8, 182u8),
        (23u8, 34u8, 109u8),
        (96u8, 119u8, 209u8),
        (191u8, 197u8, 255u8),
        (210u8, 233u8, 206u8),
        (170u8, 182u8, 111u8),
    ]
}

/// The palette of the light theme (10 colours).
pub fn generate_10_colors_scheme1() -> (r: Vec<(u8, u8, u8)>)
    ensures
        r@ == spec_light_palette(),
{
    let mut v: Vec<(u8, u8, u8)> = Vec::new();
    v.push((215, 25, 28));
    v.push((253, 174, 97));
    v.push((255, 255, 191));
    v.push((171, 217, 233));
    v.push((44, 123, 182));
    v.push((23, 34, 109));
    v.push((96, 119, 209));
    v.push((191, 197, 255));
    v.push((210, 233, 206));
    v.push((170, 182, 111));
    assert(v@ =~= spec_light_palette());
    v
}

/// The palette of the dark theme (12 colours).
pub open spec fn spec_dark_palette() -> Seq<(u8, u8, u8)> {
    seq![
        (166u8, 206u8, 227u8),
        (31u8, 120u8, 180u8),
        (178u8, 223u8, 138u8),
        (51u8, 160u8, 44u8),
        (251u8, 154u8, 153u8),
        (227u8, 26u8, 28u8),
        (253u8, 191u8, 111u8),
        (255u8, 127u8, 0u8),
        (202u8, 178u8, 214u8),
        (106u8, 61u8, 154u8),
        (153u8, 50u8, 204u8),
        (177u8, 89u8, 40u8),
    ]
}

/// The palette of the dark theme (12 colours).
pub fn generate_12_colors_scheme2() -> (r: Vec<(u8, u8, u8)>)
    ensures
        r@ == spec_dark_palette(),
{
    let mut v: Vec<(u8, u8, u8)> = Vec::new();
    v.push((166, 206, 227));
    v.push((31, 120, 180));
    v.push((178, 223, 138));
    v.push((51, 160, 44));
    v.push((251, 154, 153));
    v.push((227, 26, 28));
    v.push((253, 191, 111));
    v.push((255, 127, 0));
    v.push((202, 178, 214));
    v.push((106, 61, 154));
    v.push((153, 50, 204));
    v.push((177, 89, 40));
    assert(v@ =~= spec_dark_palette());
    v
}

/// A fixed palette of 44 colours.
pub open spec fn spec_fixed_colors() -> Seq<(u8, u8, u8)> {
    seq![
        (177u8, 157u8, 8u8),
        (0u8, 4u8, 255u8),
        (126u8, 111u8, 0u8),
        (243u8, 219u8, 255u8),
        (127u8, 114u8, 184u8),
        (218u8, 196u8, 0u8),
        (226u8, 203u8, 200u8),
        (152u8, 138u8, 255u8),
        (60u8, 53u8, 31u8),
        (92u8, 80u8, 6u8),
        (157u8, 141u8, 110u8),
        (106u8, 95u8, 132u8),
        (147u8, 134u8, 248u8),
        (255u8, 249u8, 200u8),
        (127u8, 113u8, 86u8),
        (255u8, 231u8, 17u8),
        (255u8, 251u8, 4u8),
        (170u8, 153u8, 140u8),
        (198u8, 179u8, 241u8),
        (92u8, 86u8, 255u8),
        (184u8, 166u8, 4u8),
        (169u8, 152u8, 142u8),
        (125u8, 113u8, 250u8),
        (201u8, 181u8, 114u8),
        (178u8, 160u8, 0u8),
        (237u8, 213u8, 136u8),
        (97u8, 87u8, 148u8),
        (60u8, 55u8, 135u8),
        (255u8, 231u8, 205u8),
        (85u8, 76u8, 103u8),
        (111u8, 99u8, 3u8),
        (119u8, 105u8, 0u8),
        (189u8, 170u8, 244u8),
        (255u8, 251u8, 128u8),
        (125u8, 111u8, 38u8),
        (177u8, 160u8, 216u8),
        (255u8, 235u8, 255u8),
        (255u8, 229u8, 137u8),
        (97u8, 87u8, 97u8),
        (66u8, 61u8, 166u8),
        (186u8, 166u8, 88u8),
        (68u8, 63u8, 219u8),
        (255u8, 239u8, 64u8),
        (127u8, 114u8, 91u8),
    ]
}

/// A fixed palette of 44 colours.
pub fn generate_fixed_colors() -> (r: Vec<(u8, u8, u8)>)
    ensures
        r@ == spec_fixed_colors(),
{
    let mut v: Vec<(u8, u8, u8)> = Vec::new();
    v.push((177, 157, 8));
    v.push((0, 4, 255));
    v.push((126, 111, 0));
    v.push((243, 219, 255));
    v.push((127, 114, 184));
    v.push((218, 196, 0));
    v.push((226, 203, 200));
    v.push((152, 138, 255));
    v.push((60, 53, 31));
    v.push((92, 80, 6));
    v.push((157, 141, 110));
    v.push((106, 95, 132));
    v.push((147, 134, 248));
    v.push((255, 249, 200));
    v.push((127, 113, 86));
    v.push((255, 231, 17));
    v.push((255, 251, 4));
    v.push((170, 153, 140));
    v.push((198, 179, 241));
    v.push((92, 86, 255));
    v.push((184, 166, 4));
    v.push((169, 152, 142));
    v.push((125, 113, 250));
    v.push((201, 181, 114));
    v.push((178, 160, 0));
    v.push((237, 213, 136));
    v.push((97, 87, 148));
    v.push((60, 55, 135));
    v.push((255, 231, 205));
    v.push((85, 76, 103));
    v.push((111, 99, 3));
    v.push((119, 105, 0));
    v.push((189, 170, 244));
    v.push((255, 251, 128));
    v.push((125, 111, 38));
    v.push((177, 160, 216));
    v.push((255, 235, 255));
    v.push((255, 229, 137));
    v.push((97, 87, 97));
    v.push((66, 61, 166));
    v.push((186, 166, 88));
    v.push((68, 63, 219));
    v.push((255, 239, 64));
    v.push((127, 114, 91));
    assert(v@ =~= spec_fixed_colors());
    v
}

/// The visually distinct colours handed out first to the series of a plot (20 colours).
pub open spec fn spec_distinct_palette() -> Seq<(u8, u8, u8)> {
    seq![
        (31u8, 119u8, 180u8),
        (214u8, 39u8, 40u8),
        (44u8, 160u8, 44u8),
        (255u8, 127u8, 14u8),
        (148u8, 103u8, 189u8),
        (23u8, 190u8, 207u8),
        (227u8, 119u8, 194u8),
        (188u8, 189u8, 34u8),
        (140u8, 86u8, 75u8),
        (127u8, 127u8, 127u8),
        (57u8, 59u8, 121u8),
        (82u8, 84u8, 163u8),
        (156u8, 158u8, 222u8),
        (99u8, 121u8, 57u8),
        (140u8, 162u8, 82u8),
        (181u8, 207u8, 107u8),
        (140u8, 109u8, 49u8),
        (189u8, 158u8, 57u8),
        (231u8, 186u8, 82u8),
        (173u8, 73u8, 74u8),
    ]
}

/// The visually distinct colours handed out first to the series of a plot (20 colours).
pub fn distinct_palette() -> (r: Vec<(u8, u8, u8)>)
    ensures
        r@ == spec_distinct_palette(),
{
    let mut v: Vec<(u8, u8, u8)> = Vec::new();
    v.push((31, 119, 180));
    v.push((214, 39, 40));
    v.push((44, 160, 44));
    v.push((255, 127, 14));
    v.push((148, 103, 189));
    v.push((23, 190, 207));
    v.push((227, 119, 194));
    v.push((188, 189, 34));
    v.push((140, 86, 75));
    v.push((127, 127, 127));
    v.push((57, 59, 121));
    v.push((82, 84, 163));
    v.push((156, 158, 222));
    v.push((99, 121, 57));
    v.push((140, 162, 82));
    v.push((181, 207, 107));
    v.push((140, 109, 49));
    v.push((189, 158, 57));
    v.push((231, 186, 82));
    v.push((173, 73, 74));
    assert(v@ =~= spec_distinct_palette());
    v
}

/// One byte drawn uniformly from `low..high` (`rand::rng()` with
/// `rand::distr::Uniform::new(low, high)`). The contract claims only that the
/// byte lies in the range; which byte comes out is left to chance, and the
/// thread's generator panics if the operating system cannot seed it.
#[verifier::external_body]
fn uniform_byte(low: u8, high: u8) -> (r: u8)
    requires
        low < high,
    ensures
        low <= r < high,
{
    let mut rng = rand::rng();
    rand::distr::Uniform::new(low, high).unwrap().sample(&mut rng)
}

/// A random colour is bright enough to be seen: red and blue at least 30,
/// green at least 20, no channel 255.
pub open spec fn is_random_color(c: (u8, u8, u8)) -> bool {
    30 <= c.0 < 255 && 20 <= c.1 < 255 && 30 <= c.2 < 255
}

/// `n` random colours.
pub fn generate_n_random_colors(n: usize) -> (r: Vec<(u8, u8, u8)>)
    ensures
        r@.len() == n,
        forall|i: int| 0 <= i < n ==> is_random_color(#[trigger] r@[i]),
{
    let mut colors: Vec<(u8, u8, u8)> = Vec::new();
    let mut i: usize = 0;
    while i < n
        invariant
            i <= n,
            colors@.len() == i,
            forall|k: int| 0 <= k < i ==> is_random_color(#[trigger] colors@[k]),
        decreases n - i,
    {
        let red = uniform_byte(30, 255);
        let green = uniform_byte(20, 255);
        let blue = uniform_byte(30, 255);
        colors.push((red, green, blue));
        i = i + 1;
    }
    colors
}

/// The colours of a scheme for `n` series, `n` in all: random ones, or the
/// first colours of the theme's palette followed, once `n` exceeds the
/// palette's size, by random ones. (The HSL scheme is not a `PaletteScheme`:
/// its colours are computed with floating point.)
pub fn retrieve_n_colors(selection: PaletteScheme, n: usize) -> (r: Vec<(u8, u8, u8)>)
    ensures
        ({
            let plan = spec_color_plan(spec_scheme_of(selection), n);
            let palette = match selection {
                PaletteScheme::LightTheme => spec_light_palette(),
                PaletteScheme::DarkTheme => spec_dark_palette(),
                PaletteScheme::Random => Seq::empty(),
            };
            &&& r@.len() == n
            &&& plan.fixed + plan.random == n
            &&& r@.subrange(0, plan.fixed as int) == palette.subrange(0, plan.fixed as int)
            &&& forall|i: int| plan.fixed <= i < n ==> is_random_color(#[trigger] r@[i])
        }),
{
    match selection {
        PaletteScheme::Random => {
            let v = generate_n_random_colors(n);
            assert(v@.subrange(0, 0) =~= Seq::<(u8, u8, u8)>::empty());
            v
        },
        PaletteScheme::LightTheme => palette_then_random(generate_10_colors_scheme1(), n),
        PaletteScheme::DarkTheme => palette_then_random(generate_12_colors_scheme2(), n),
    }
}

/// The first `n` colours of the palette, made up to `n` with random ones.
fn palette_then_random(palette: Vec<(u8, u8, u8)>, n: usize) -> (r: Vec<(u8, u8, u8)>)
    ensures
        r@.len() == n,
        ({
            let k = if n >= palette@.len() {
                palette@.len() as int
            } else {
                n as int
            };
            &&& r@.subrange(0, k) == palette@.subrange(0, k)
            &&& forall|i: int| k <= i < n ==> is_random_color(#[trigger] r@[i])
        }),
{
    let mut colors: Vec<(u8, u8, u8)> = Vec::new();
    let k: usize = if n >= palette.len() {
        palette.len()
    } else {
        n
    };
    let mut i: usize = 0;
    while i < k
        invariant
            k <= palette@.len(),
            k <= n,
            i <= k,
            colors@ == palette@.subrange(0, i as int),
        decreases k - i,
    {
        colors.push(palette[i]);
        i = i + 1;
        proof {
            assert(colors@ =~= palette@.subrange(0, i as int));
        }
    }
    let more = generate_n_random_colors(n - k);
    let mut j: usize = 0;
    while j < more.len()
        invariant
            k <= palette@.len(),
            k <= n,
            more@.len() == n - k,
            j <= more@.len(),
            colors@.len() == k + j,
            colors@.subrange(0, k as int) == palette@.subrange(0, k as int),
            forall|q: int| k <= q < colors@.len() ==> colors@[q] == more@[q - k],
            forall|q: int| 0 <= q < more@.len() ==> is_random_color(#[trigger] more@[q]),
        decreases more@.len() - j,
    {
        colors.push(more[j]);
        j = j + 1;
        proof {
            assert(colors@.subrange(0, k as int) =~= palette@.subrange(0, k as int));
        }
    }
    proof {
        assert forall|q: int| k <= q < n implies is_random_color(#[trigger] colors@[q]) by {
            assert(colors@[q] == more@[q - k]);
        }
    }
    colors
}

/// The colour of series number `index` of a plot, while the distinct palette
/// lasts (later ones are computed with floating point).
pub fn distinct_color(index: usize) -> (r: Option<(u8, u8, u8)>)
    ensures
        index < 20 ==> r == Some(spec_distinct_palette()[index as int]),
        index >= 20 ==> r is None,
{
    let palette = distinct_palette();
    if index < palette.len() {
        Some(palette[index])
    } else {
        None
    }
}

/// The distinct palette lives up to its name: no colour occurs in it twice, so
/// the first 20 series of a plot get 20 different colours.
pub proof fn law_distinct_palette_pairwise_distinct()
    ensures
        spec_distinct_palette().len() == 20,
        forall|i: int, j: int|
            0 <= i < j < 20 ==> #[trigger] spec_distinct_palette()[i] != #[trigger] spec_distinct_palette()[j],
{
    let p = spec_distinct_palette();
    assert forall|i: int, j: int| 0 <= i < j < 20 implies #[trigger] p[i] != #[trigger] p[j] by {
        assert(0 <= i < 20);
    }
}

} // verus!
