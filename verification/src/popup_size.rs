//! A size given either in cells or as a share of the space available.

use vstd::prelude::*;

verus! {

/// A size in cells, or a percentage of the space it is resolved against.
#[derive(Clone, Copy, Debug, PartialEq, Eq, Structural)]
pub enum PopupSize {
    Cells(u16),
    Percent(u16),
}

pub open spec fn min_u16(a: u16, b: u16) -> u16 {
    if a <= b {
        a
    } else {
        b
    }
}

impl PopupSize {
    /// Cells never exceed what is available; a percentage above 100 counts
    /// as 100, and a share that is not a whole number of cells rounds down.
    pub open spec fn spec_resolve(self, available: u16) -> u16 {
        match self {
            PopupSize::Cells(n) => min_u16(n, available),
            PopupSize::Percent(p) => (available * min_u16(p, 100) / 100) as u16,
        }
    }

    /// Number of cells this size takes out of `available` cells.
    pub fn resolve(self, available: u16) -> (r: u16)
        ensures
            r == self.spec_resolve(available),
            r <= available,
            self matches PopupSize::Cells(n) ==> (n <= available ==> r == n) && (n > available
                ==> r == available),
            self matches PopupSize::Percent(p) ==> (p >= 100 ==> r == available) && (p < 100 ==> r
                * 100 <= available * p < (r + 1) * 100),
    {
        proof {
            lemma_resolve_takes_its_share(self, available);
        }
        match self {
            PopupSize::Cells(n) => {
                if n <= available {
                    n
                } else {
                    available
                }
            },
            PopupSize::Percent(p) => {
                let pct: u32 = if p <= 100 {
                    p as u32
                } else {
                    100
                };
                let avail: u32 = available as u32;
                assert(avail * pct <= avail * 100 && avail * pct / 100 <= avail) by (nonlinear_arith)
                    requires
                        pct <= 100,
                ;
                let r: u32 = avail * pct / 100;
                r as u16
            },
        }
    }
}

/// A size in cells takes those cells where they are available and all that
/// is available otherwise. A percentage takes that share of the available
/// cells, rounded down: the largest whole number of cells not above it; at
/// 100 or more it takes everything.
pub proof fn lemma_resolve_takes_its_share(size: PopupSize, available: u16)
    ensures
        size.spec_resolve(available) <= available,
        size matches PopupSize::Cells(n) ==> (n <= available ==> size.spec_resolve(available) == n)
            && (n > available ==> size.spec_resolve(available) == available),
        size matches PopupSize::Percent(p) ==> (p >= 100 ==> size.spec_resolve(available)
            == available) && (p < 100 ==> size.spec_resolve(available) * 100 <= available * p < (
        size.spec_resolve(available) + 1) * 100),
{
    match size {
        PopupSize::Cells(n) => {},
        PopupSize::Percent(p) => {
            let q = min_u16(p, 100);
            assert(available * q / 100 <= available) by (nonlinear_arith)
                requires
                    q <= 100,
            ;
            assert((available * q / 100) * 100 <= available * q < (available * q / 100 + 1) * 100)
                by (nonlinear_arith)
                requires
                    available * q >= 0,
            ;
            if p >= 100 {
                assert(available * 100 / 100 == available) by (nonlinear_arith);
            }
        },
    }
}

} // verus!
