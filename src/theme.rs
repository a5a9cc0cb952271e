//! The front end's configuration: its colour theme and the files it uses,
//! and the parsing of `#rrggbb` colours.

use vstd::prelude::*;

use crate::about::{version, VERSION};

verus! {

/// The colours of the terminal front end, each a colour name or `#rrggbb`.
#[derive(Debug, Clone)]
pub struct ColorTheme {
    pub default: String,
    pub light: String,
    pub blurred: String,
    pub default_fg: String,
    pub default_bg: String,
    pub error_fg: String,
    pub error_bg: String,
}

impl ColorTheme {
    pub fn builtin() -> (r: ColorTheme)
        ensures
            r.default@ == "#4f5d75"@,
            r.light@ == "#ffd400"@,
            r.blurred@ == "#998a63"@,
            r.default_fg@ == "#f5cb5c"@,
            r.default_bg@ == "#001219"@,
            r.error_fg@ == "#ff7f51"@,
            r.error_bg@ == "#242423"@,
    {
        ColorTheme {
            default: "#4f5d75".to_string(),
            light: "#ffd400".to_string(),
            blurred: "#998a63".to_string(),
            default_fg: "#f5cb5c".to_string(),
            default_bg: "#001219".to_string(),
            error_fg: "#ff7f51".to_string(),
            error_bg: "#242423".to_string(),
        }
    }
}

/// The front end's configuration: its colours and the key, store and log files.
#[derive(Debug, Clone)]
pub struct TombConfig {
    pub colors: ColorTheme,
    pub key_filename: String,
    pub tomb_filename: String,
    pub log_filename: String,
    pub version: Option<String>,
}

impl TombConfig {
    /// A configuration in memory, stamped with this library's version.
    pub fn new(key_filename: &str, tomb_filename: &str, log_filename: &str, colors: ColorTheme) -> (r: TombConfig)
        ensures
            r.key_filename@ == key_filename@,
            r.tomb_filename@ == tomb_filename@,
            r.log_filename@ == log_filename@,
            r.colors == colors,
            r.version is Some && r.version->Some_0@ == VERSION@,
    {
        TombConfig {
            version: Some(version()),
            key_filename: key_filename.to_string(),
            tomb_filename: tomb_filename.to_string(),
            log_filename: log_filename.to_string(),
            colors,
        }
    }

    pub fn set_colors(&mut self, colors: ColorTheme)
        ensures
            *final(self) == (TombConfig { colors, ..*old(self) }),
    {
        self.colors = colors;
    }
}

pub open spec fn is_hex_digit(c: char) -> bool {
    ('0' <= c && c <= '9') || ('a' <= c && c <= 'f') || ('A' <= c && c <= 'F')
}

pub open spec fn hex_value(c: char) -> int {
    if '0' <= c && c <= '9' {
        c as int - '0' as int
    } else if 'a' <= c && c <= 'f' {
        c as int - 'a' as int + 10
    } else {
        c as int - 'A' as int + 10
    }
}

/// Six hex digits start at position `i`.
pub open spec fn hex_run_at(s: Seq<char>, i: int) -> bool {
    0 <= i && i + 6 <= s.len() && forall|j: int| i <= j < i + 6 ==> is_hex_digit(#[trigger] s[j])
}

/// The byte that the two hex digits at position `i` spell.
pub open spec fn hex_byte(s: Seq<char>, i: int) -> u8 {
    (hex_value(s[i]) * 16 + hex_value(s[i + 1])) as u8
}

/// The colour that six hex digits at position `i` spell.
pub open spec fn rgb_at(s: Seq<char>, i: int) -> (u8, u8, u8) {
    (hex_byte(s, i), hex_byte(s, i + 2), hex_byte(s, i + 4))
}

/// The value of one hex digit.
fn hex_digit(c: char) -> (r: Option<u8>)
    ensures
        r is Some <==> is_hex_digit(c),
        r is Some ==> r->Some_0 as int == hex_value(c) && r->Some_0 < 16,
{
    if '0' <= c && c <= '9' {
        Some(((c as u32) - ('0' as u32)) as u8)
    } else if 'a' <= c && c <= 'f' {
        Some(((c as u32) - ('a' as u32) + 10) as u8)
    } else if 'A' <= c && c <= 'F' {
        Some(((c as u32) - ('A' as u32) + 10) as u8)
    } else {
        None
    }
}

/// The byte that two hex digits spell.
fn hex_pair(hi: char, lo: char) -> (r: u8)
    requires
        is_hex_digit(hi),
        is_hex_digit(lo),
    ensures
        r == (hex_value(hi) * 16 + hex_value(lo)) as u8,
{
    let h = hex_digit(hi).unwrap();
    let l = hex_digit(lo).unwrap();
    h * 16 + l
}

/// The colour spelled by the first six consecutive hex digits in `color`
/// (so `ffffff` and `#ffffff` alike), or `None` where there are none.
pub fn parse_rgb_hex(color: &str) -> (r: Option<(u8, u8, u8)>)
    ensures
        match r {
            Some(rgb) => exists|i: int|
                hex_run_at(color@, i) && (forall|j: int| 0 <= j < i ==> !hex_run_at(color@, j))
                    && rgb == rgb_at(color@, i),
            None => forall|i: int| !hex_run_at(color@, i),
        },
{
    let n = color.unicode_len();
    let mut chars: Vec<char> = Vec::new();
    let mut k: usize = 0;
    while k < n
        invariant
            n == color@.len(),
            k <= n,
            chars@ == color@.subrange(0, k as int),
        decreases n - k,
    {
        chars.push(color.get_char(k));
        k = k + 1;
        assert(chars@ =~= color@.subrange(0, k as int));
    }
    assert(chars@ =~= color@);
    let mut i: usize = 0;
    while i < n && n - i >= 6
        invariant
            n == color@.len(),
            i <= n,
            chars@ == color@,
            forall|j: int| 0 <= j < i ==> !hex_run_at(color@, j),
        decreases n - i,
    {
        let mut d: usize = 0;
        while d < 6 && hex_digit(chars[i + d]).is_some()
            invariant
                i + 6 <= n,
                n == color@.len(),
                chars@ == color@,
                d <= 6,
                forall|j: int| i <= j < i + d ==> is_hex_digit(#[trigger] color@[j]),
            decreases 6 - d,
        {
            d = d + 1;
        }
        if d == 6 {
            let rgb = (
                hex_pair(chars[i], chars[i + 1]),
                hex_pair(chars[i + 2], chars[i + 3]),
                hex_pair(chars[i + 4], chars[i + 5]),
            );
            assert(hex_run_at(color@, i as int));
            return Some(rgb);
        }
        assert(!is_hex_digit(color@[(i + d) as int]));
        i = i + 1;
    }
    assert forall|j: int| !hex_run_at(color@, j) by {
        if 0 <= j && j + 6 <= color@.len() {
            assert(j < i);
        }
    }
    None
}

} // verus!
