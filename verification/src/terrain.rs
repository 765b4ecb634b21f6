//! Map dressing: the deterministic details drawn on terrain cells and the
//! crash site around the landing zone.
use crate::grid::CellType;
use vstd::prelude::*;

verus! {

/// A decoration drawn on a terrain cell.
#[derive(Clone, Copy, Debug, PartialEq, Eq, Structural)]
pub enum TerrainDetail {
    Bare,
    Scrap,
    Brush,
    Scorch,
    Wreckage,
    Cable,
    Track,
    SupplyCrate,
    HullPanel,
    SignalBeacon,
    FuelDrum,
}

/// A per-cell hash: the coordinates' bit patterns scrambled by two
/// multiplications and a constant.
pub open spec fn spec_terrain_seed(x: i32, y: i32) -> u32 {
    vstd::wrapping::u32_specs::wrapping_mul(x as u32, 73_856_093) ^ vstd::wrapping::u32_specs::wrapping_mul(y as u32, 19_349_663)
        ^ 0x9E37_79B9u32
}

pub fn terrain_seed(x: i32, y: i32) -> (r: u32)
    ensures
        r == spec_terrain_seed(x, y),
{
    let x = x as u32;
    let y = y as u32;
    x.wrapping_mul(73_856_093) ^ y.wrapping_mul(19_349_663) ^ 0x9E37_79B9
}

/// The fixed wreck props around the crash site.
pub open spec fn spec_crash_site(x: int, y: int) -> Option<TerrainDetail> {
    if 10 <= x <= 12 && y == 10 {
        Some(TerrainDetail::SupplyCrate)
    } else if 14 <= x <= 15 && y == 5 {
        Some(TerrainDetail::SignalBeacon)
    } else if 5 <= x <= 7 && 10 <= y <= 11 && (x + y) % 2 == 0 {
        Some(TerrainDetail::HullPanel)
    } else if 12 <= x <= 14 && y == 7 && x % 2 == 1 {
        Some(TerrainDetail::FuelDrum)
    } else if 6 <= x <= 13 && 7 <= y <= 9 && (x + y) % 3 == 0 {
        Some(TerrainDetail::Wreckage)
    } else if 4 <= x <= 15 && -1 <= x - y <= 1 && (x + y) % 4 == 0 {
        Some(TerrainDetail::Track)
    } else if 7 <= x <= 15 && 5 <= y <= 11 && (x * 2 + y) % 11 == 0 {
        Some(TerrainDetail::Cable)
    } else {
        None
    }
}

pub fn crash_site_detail(x: i32, y: i32) -> (r: Option<TerrainDetail>)
    ensures
        r == spec_crash_site(x as int, y as int),
{
    if 10 <= x && x <= 12 && y == 10 {
        return Some(TerrainDetail::SupplyCrate);
    }
    if 14 <= x && x <= 15 && y == 5 {
        return Some(TerrainDetail::SignalBeacon);
    }
    if 5 <= x && x <= 7 && 10 <= y && y <= 11 && (x + y) % 2 == 0 {
        return Some(TerrainDetail::HullPanel);
    }
    if 12 <= x && x <= 14 && y == 7 && x % 2 == 1 {
        return Some(TerrainDetail::FuelDrum);
    }
    if 6 <= x && x <= 13 && 7 <= y && y <= 9 && (x + y) % 3 == 0 {
        return Some(TerrainDetail::Wreckage);
    }
    if 4 <= x && x <= 15 && -1 <= y && y <= 16 && x - y >= -1 && x - y <= 1 && (x + y) % 4 == 0 {
        return Some(TerrainDetail::Track);
    }
    if 7 <= x && x <= 15 && 5 <= y && y <= 11 && (x * 2 + y) % 11 == 0 {
        return Some(TerrainDetail::Cable);
    }
    None
}

pub open spec fn spec_terrain_detail(cell: Option<CellType>, x: i32, y: i32) -> TerrainDetail {
    if cell is None {
        TerrainDetail::Bare
    } else {
        match spec_crash_site(x as int, y as int) {
            Some(d) => d,
            None => {
                let seed = spec_terrain_seed(x, y);
                if seed % 31 == 0 {
                    TerrainDetail::HullPanel
                } else if seed % 29 == 0 {
                    TerrainDetail::SupplyCrate
                } else if seed % 23 == 0 {
                    TerrainDetail::Scrap
                } else if seed % 19 == 0 {
                    TerrainDetail::Scorch
                } else if seed % 13 == 0 {
                    TerrainDetail::Brush
                } else {
                    TerrainDetail::Bare
                }
            },
        }
    }
}

/// The decoration of a cell: nothing off the map, the crash site's props,
/// else an occasional seeded detail.
pub fn terrain_detail(cell_type: Option<CellType>, x: i32, y: i32) -> (r: TerrainDetail)
    ensures
        r == spec_terrain_detail(cell_type, x, y),
{
    if cell_type.is_none() {
        return TerrainDetail::Bare;
    }
    match crash_site_detail(x, y) {
        Some(detail) => return detail,
        None => {},
    }
    let seed = terrain_seed(x, y);
    if seed % 31 == 0 {
        TerrainDetail::HullPanel
    } else if seed % 29 == 0 {
        TerrainDetail::SupplyCrate
    } else if seed % 23 == 0 {
        TerrainDetail::Scrap
    } else if seed % 19 == 0 {
        TerrainDetail::Scorch
    } else if seed % 13 == 0 {
        TerrainDetail::Brush
    } else {
        TerrainDetail::Bare
    }
}

} // verus!
