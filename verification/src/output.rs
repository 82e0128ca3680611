//! Tagging of child output for the shared terminal.
//!
//! Each line that a child writes is shown as `{color}[{name}]{reset} {line}`.
//! Whether colors are used is decided once, when the run starts, and handed
//! to every function here.

use vstd::prelude::*;
use vstd::string::StringExecFns;

verus! {

/// The number of colors in the palette.
pub const PALETTE_SIZE: usize = 5;

/// The escape sequence of palette entry `i`: cyan, magenta, yellow, green, blue.
pub open spec fn palette(i: int) -> Seq<char> {
    if i == 0 {
        "\x1b[36m"@
    } else if i == 1 {
        "\x1b[35m"@
    } else if i == 2 {
        "\x1b[33m"@
    } else if i == 3 {
        "\x1b[32m"@
    } else {
        "\x1b[34m"@
    }
}

/// The color of the process at `index`, as a palette entry.
pub fn color_index(index: usize) -> (i: usize)
    ensures
        i == index % PALETTE_SIZE,
{
    index % PALETTE_SIZE
}

/// The color code for the process at `index`: entry `index mod 5` of the
/// palette, or the empty string when colors are off.
pub fn get_color(index: usize, colors_enabled: bool) -> (code: &'static str)
    ensures
        code@ == if colors_enabled {
            palette((index % PALETTE_SIZE) as int)
        } else {
            Seq::<char>::empty()
        },
{
    if !colors_enabled {
        proof {
            reveal_strlit("");
        }
        return "";
    }
    let i = index % PALETTE_SIZE;
    if i == 0 {
        "\x1b[36m"
    } else if i == 1 {
        "\x1b[35m"
    } else if i == 2 {
        "\x1b[33m"
    } else if i == 3 {
        "\x1b[32m"
    } else {
        "\x1b[34m"
    }
}

/// The code that ends a color, or the empty string when colors are off.
pub fn get_reset(colors_enabled: bool) -> (code: &'static str)
    ensures
        code@ == if colors_enabled {
            "\x1b[0m"@
        } else {
            Seq::<char>::empty()
        },
{
    if colors_enabled {
        "\x1b[0m"
    } else {
        proof {
            reveal_strlit("");
        }
        ""
    }
}

/// A line of output with its tag: `color`, `[name]`, `reset`, a space, `line`.
pub open spec fn tagged(color: Seq<char>, name: Seq<char>, reset: Seq<char>, line: Seq<char>) -> Seq<
    char,
> {
    color + seq!['['] + name + seq![']'] + reset + seq![' '] + line
}

/// Prefixes `line` with the colored tag of the process `name`.
pub fn tag_line(color: &str, name: &str, reset: &str, line: &str) -> (out: String)
    ensures
        out@ == tagged(color@, name@, reset@, line@),
{
    proof {
        reveal_strlit("[");
        reveal_strlit("]");
        reveal_strlit(" ");
    }
    let mut out = String::new();
    out.append(color);
    out.append("[");
    out.append(name);
    out.append("]");
    out.append(reset);
    out.append(" ");
    out.append(line);
    assert(out@ =~= tagged(color@, name@, reset@, line@));
    out
}

} // verus!
