use crate::text::{
    chars_of, parse_u64, parse_u64_spec, pieces, slice_of, split, split_ranges, string_of, trim,
    trimmed,
};
use vstd::prelude::*;

verus! {

/// The graphics card found, if any.
#[derive(Debug, Clone)]
pub struct GpuInfo {
    pub name: String,
    pub vram_mb: u64,
    pub driver_version: String,
    pub detected: bool,
}

/// The report used when no graphics card was found.
pub fn no_gpu() -> (r: GpuInfo)
    ensures
        r.name@ == "No NVIDIA GPU detected"@,
        r.vram_mb == 0,
        r.driver_version@ == "N/A"@,
        !r.detected,
{
    GpuInfo {
        name: "No NVIDIA GPU detected".to_owned(),
        vram_mb: 0,
        driver_version: "N/A".to_owned(),
        detected: false,
    }
}

/// The comma-separated fields of the card query's output.
pub open spec fn gpu_fields(stdout: Seq<char>) -> Seq<Seq<char>> {
    split(trim(stdout), ", "@)
}

/// The memory that a field of the card query gives, zero when it is not a number.
pub open spec fn vram_of(field: Seq<char>) -> u64 {
    match parse_u64_spec(trim(field)) {
        Some(v) => v,
        None => 0,
    }
}

/// Reads the card from the output of a query for its name, memory (in MB)
/// and driver version, printed as `name, memory, driver`. With fewer than
/// three fields no card was found.
pub fn parse_gpu_query(stdout: &str) -> (r: GpuInfo)
    ensures
        ({
            let f = gpu_fields(stdout@);
            if f.len() >= 3 {
                &&& r.name@ == trim(f[0])
                &&& r.vram_mb == vram_of(f[1])
                &&& r.driver_version@ == trim(f[2])
                &&& r.detected
            } else {
                &&& r.name@ == "No NVIDIA GPU detected"@
                &&& r.vram_mb == 0
                &&& r.driver_version@ == "N/A"@
                &&& !r.detected
            }
        }),
{
    let all = chars_of(stdout);
    let t = trimmed(all.as_slice());
    let sep = chars_of(", ");
    proof {
        reveal_strlit(", ");
    }
    let ranges = split_ranges(t.as_slice(), sep.as_slice());
    let ghost f = pieces(t@, ranges@);
    if ranges.len() < 3 {
        return no_gpu();
    }
    assert(f[0] == t@.subrange(ranges@[0].0 as int, ranges@[0].1 as int));
    let name = trimmed(slice_of(t.as_slice(), ranges[0].0, ranges[0].1).as_slice());
    let vram = trimmed(slice_of(t.as_slice(), ranges[1].0, ranges[1].1).as_slice());
    let driver = trimmed(slice_of(t.as_slice(), ranges[2].0, ranges[2].1).as_slice());
    assert(f[1] == t@.subrange(ranges@[1].0 as int, ranges@[1].1 as int));
    assert(f[2] == t@.subrange(ranges@[2].0 as int, ranges@[2].1 as int));
    let vram_mb: u64 = match parse_u64(vram.as_slice()) {
        Some(v) => v,
        None => 0,
    };
    GpuInfo {
        name: string_of(name.as_slice()),
        vram_mb,
        driver_version: string_of(driver.as_slice()),
        detected: true,
    }
}

} // verus!
