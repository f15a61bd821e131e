//! Parent, children, and level-to-level projection of mesh codes.

use vstd::prelude::*;

verus! {

use crate::arith::{lemma_digit_split, lemma_div_range};
use crate::error::MeshCodeError;
use crate::grid::{lemma_pow10_adds, lemma_pow10_pos, pow10, pow10_u64};
use crate::level::{level_len, level_parent, level_rank, MeshLevel};
use crate::mesh_code::MeshCode;
use vstd::string::StringExecFns;

/// The one-level-coarser code: the digits of this code truncated to the
/// parent level's digit count. Level 1 codes have no parent.
pub fn parent(mesh: MeshCode) -> (r: Option<MeshCode>)
    ensures
        (match level_parent(mesh.spec_level()) {
            None => r is None,
            Some(pl) => r matches Some(p) && p.spec_level() == pl && p.spec_code()
                == mesh.spec_code() as int / pow10((level_len(mesh.spec_level()) - level_len(pl)) as nat) as int,
        }),
{
    let level = mesh.level();
    let pl = match level.parent() {
        None => {
            return None;
        },
        Some(p) => p,
    };
    proof {
        use_type_invariant(&mesh);
    }
    let clen = level.code_length();
    let plen = pl.code_length();
    let shift = clen - plen;
    proof {
        lemma_pow10_pos(shift as nat);
        lemma_pow10_adds(plen as nat, shift as nat);
        lemma_div_range(
            mesh.spec_code() as int,
            pow10(shift as nat) as int,
            0,
            pow10(plen as nat) as int,
        );
    }
    let d = pow10_u64(shift);
    let pcode = mesh.code() / d;
    Some(MeshCode::from_parts(pl, pcode))
}

/// The immediate finer subdivisions of a code: 64 Level 2 cells under a
/// Level 1 cell, 100 Level 3 cells under a Level 2 cell, the 4 half-mesh
/// quadrants under a Level 3 cell, and nothing under the finer levels.
///
/// Each child's code truncates back to this code at the parent level, in
/// row-major latitude-major order.
pub fn children(mesh: MeshCode) -> (r: Vec<MeshCode>)
    ensures
        mesh.spec_level() == MeshLevel::First ==> r@.len() == 64,
        mesh.spec_level() == MeshLevel::Second ==> r@.len() == 100,
        mesh.spec_level() == MeshLevel::Third ==> r@.len() == 4,
        !(mesh.spec_level() == MeshLevel::First || mesh.spec_level() == MeshLevel::Second
            || mesh.spec_level() == MeshLevel::Third) ==> r@.len() == 0,
        mesh.spec_level() == MeshLevel::First ==> (forall|j: int|
            0 <= j < 64 ==> (#[trigger] r@[j]).spec_level() == MeshLevel::Second
                && r@[j].spec_code() == mesh.spec_code() * 100 + (j / 8) * 10 + j % 8
                && r@[j].spec_code() as int / 100 == mesh.spec_code()),
        mesh.spec_level() == MeshLevel::Second ==> (forall|j: int|
            0 <= j < 100 ==> (#[trigger] r@[j]).spec_level() == MeshLevel::Third && r@[j].spec_code()
                == mesh.spec_code() * 100 + (j / 10) * 10 + j % 10 && r@[j].spec_code() as int / 100
                == mesh.spec_code()),
        mesh.spec_level() == MeshLevel::Third ==> (forall|j: int|
            0 <= j < 4 ==> (#[trigger] r@[j]).spec_level() == MeshLevel::FourthHalf
                && r@[j].spec_code() == mesh.spec_code() * 10 + j + 1 && r@[j].spec_code() as int
                / 10 == mesh.spec_code()),
{
    proof {
        use_type_invariant(&mesh);
        assert(pow10(4) == 10000 && pow10(6) == 1000000 && pow10(8) == 100000000 && pow10(9)
            == 1000000000) by {
            reveal_with_fuel(pow10, 10);
        }
    }
    let level = mesh.level();
    let code = mesh.code();
    let mut out: Vec<MeshCode> = Vec::new();
    match level {
        MeshLevel::First => {
            let mut i: usize = 0;
            while i < 64
                invariant
                    i <= 64,
                    out@.len() == i,
                    mesh.spec_code() == code < 10000,
                    forall|j: int|
                        0 <= j < i ==> (#[trigger] out@[j]).spec_level() == MeshLevel::Second
                            && out@[j].spec_code() == code * 100 + (j / 8) * 10 + j % 8
                            && out@[j].spec_code() as int / 100 == code,
                decreases 64 - i,
            {
                let sub = ((i as u64) / 8) * 10 + (i as u64) % 8;
                proof {
                    lemma_digit_split(code as int, sub as int, 100);
                    assert(pow10(6) == 1000000) by {
                        reveal_with_fuel(pow10, 7);
                    }
                }
                out.push(MeshCode::from_parts(MeshLevel::Second, code * 100 + sub));
                i = i + 1;
            }
        },
        MeshLevel::Second => {
            let mut i: usize = 0;
            while i < 100
                invariant
                    i <= 100,
                    out@.len() == i,
                    mesh.spec_code() == code < 1000000,
                    forall|j: int|
                        0 <= j < i ==> (#[trigger] out@[j]).spec_level() == MeshLevel::Third
                            && out@[j].spec_code() == code * 100 + (j / 10) * 10 + j % 10
                            && out@[j].spec_code() as int / 100 == code,
                decreases 100 - i,
            {
                let sub = ((i as u64) / 10) * 10 + (i as u64) % 10;
                proof {
                    lemma_digit_split(code as int, sub as int, 100);
                    assert(pow10(8) == 100000000) by {
                        reveal_with_fuel(pow10, 9);
                    }
                }
                out.push(MeshCode::from_parts(MeshLevel::Third, code * 100 + sub));
                i = i + 1;
            }
        },
        MeshLevel::Third => {
            let mut i: usize = 0;
            while i < 4
                invariant
                    i <= 4,
                    out@.len() == i,
                    mesh.spec_code() == code < 100000000,
                    forall|j: int|
                        0 <= j < i ==> (#[trigger] out@[j]).spec_level() == MeshLevel::FourthHalf
                            && out@[j].spec_code() == code * 10 + j + 1 && out@[j].spec_code() as int
                            / 10 == code,
                decreases 4 - i,
            {
                let sub = (i as u64) + 1;
                proof {
                    lemma_digit_split(code as int, sub as int, 10);
                    assert(pow10(9) == 1000000000) by {
                        reveal_with_fuel(pow10, 10);
                    }
                }
                out.push(MeshCode::from_parts(MeshLevel::FourthHalf, code * 10 + sub));
                i = i + 1;
            }
        },
        _ => {},
    }
    out
}

/// Projects a code to a coarser level by digit truncation.
///
/// The identity at the code's own level; rejected as an unsupported
/// refinement when the target ranks finer, or when the target's digit count
/// exceeds the code's. A truncation to ten digits is classified by its ninth
/// digit, as parsing is, so projecting a quarter or eighth mesh sideways can
/// yield a Level 5 code.
pub fn to_level(mesh: MeshCode, target_level: MeshLevel) -> (r: Result<MeshCode, MeshCodeError>)
    ensures
        mesh.spec_level() == target_level ==> r == Ok::<MeshCode, MeshCodeError>(mesh),
        (mesh.spec_level() != target_level && level_rank(mesh.spec_level()) < level_rank(
            target_level,
        )) ==> (r matches Err(e) && e matches MeshCodeError::InvalidFormat(m) && m@
            == "Cannot convert to finer level without additional information"@),
        (mesh.spec_level() != target_level && level_rank(mesh.spec_level()) >= level_rank(
            target_level,
        ) && level_len(mesh.spec_level()) < level_len(target_level)) ==> (r matches Err(e)
            && e matches MeshCodeError::InvalidFormat(m) && m@ == "Invalid level conversion"@),
        (mesh.spec_level() != target_level && level_rank(mesh.spec_level()) >= level_rank(
            target_level,
        ) && level_len(mesh.spec_level()) >= level_len(target_level)) ==> (r matches Ok(m)
            && m.spec_code() == mesh.spec_code() as int / pow10(
            (level_len(mesh.spec_level()) - level_len(target_level)) as nat,
        ) as int && m.spec_level() == (if level_len(target_level) == 10 {
            if 1 <= (mesh.spec_code() as int / pow10(
                (level_len(mesh.spec_level()) - level_len(target_level)) as nat,
            ) as int / 10) % 10 <= 4 {
                MeshLevel::FourthQuarter
            } else {
                MeshLevel::Fifth
            }
        } else {
            target_level
        })),
{
    let current = mesh.level();
    if current == target_level {
        return Ok(mesh);
    }
    if current.as_u8() < target_level.as_u8() {
        return Err(
            MeshCodeError::InvalidFormat(
                String::from_str("Cannot convert to finer level without additional information"),
            ),
        );
    }
    let clen = current.code_length();
    let tlen = target_level.code_length();
    if clen < tlen {
        return Err(MeshCodeError::InvalidFormat(String::from_str("Invalid level conversion")));
    }
    proof {
        use_type_invariant(&mesh);
        lemma_pow10_pos((clen - tlen) as nat);
        lemma_pow10_adds(tlen as nat, (clen - tlen) as nat);
        lemma_div_range(
            mesh.spec_code() as int,
            pow10((clen - tlen) as nat) as int,
            0,
            pow10(tlen as nat) as int,
        );
    }
    let d = pow10_u64(clen - tlen);
    let t = mesh.code() / d;
    let rl = if tlen == 10 {
        let ninth = (t / 10) % 10;
        if 1 <= ninth && ninth <= 4 {
            MeshLevel::FourthQuarter
        } else {
            MeshLevel::Fifth
        }
    } else {
        target_level
    };
    proof {
        assert(level_len(rl) == tlen);
    }
    Ok(MeshCode::from_parts(rl, t))
}

} // verus!
