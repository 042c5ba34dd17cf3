//! Experience points and levels.  The level is the integer square root of
//! one hundredth of the total XP, with a floor of one.

use vstd::prelude::*;

use crate::util::str_eq;

verus! {

/// `l` is the integer square root of `n`.
pub open spec fn is_isqrt(l: int, n: int) -> bool {
    0 <= l && l * l <= n && (l + 1) * (l + 1) > n
}

/// The largest `l` with `l * l <= n`, as the level base.
pub open spec fn spec_level(total_xp: u32) -> int {
    let n = total_xp as int / 100;
    let l = choose|l: int| is_isqrt(l, n);
    if l < 1 {
        1
    } else {
        l
    }
}

/// XP (Experience Points) calculation and tracking.
#[derive(Debug, Clone, PartialEq)]
pub struct XPSystem {
    /// Total XP earned by the user.
    total_xp: u32,
    /// XP earned today.
    today_xp: u32,
    /// Date of last XP earned (ISO format).
    last_xp_date: Option<String>,
}

/// Result of awarding XP.
#[derive(Debug, Clone, PartialEq)]
pub struct XPAwardResult {
    /// Amount of XP awarded.
    pub amount_awarded: u32,
    /// New total XP.
    pub new_total: u32,
    /// Total XP earned today.
    pub today_total: u32,
    /// Whether the user leveled up.
    pub leveled_up: bool,
    /// Current level after award.
    pub new_level: u32,
}

impl XPSystem {
    /// The total XP, for specifications.
    pub closed spec fn spec_total_xp(self) -> u32 {
        self.total_xp
    }

    /// Today's XP, for specifications.
    pub closed spec fn spec_today_xp(self) -> u32 {
        self.today_xp
    }

    /// The last date XP was earned, for specifications.
    pub closed spec fn spec_last_xp_date(self) -> Option<String> {
        self.last_xp_date
    }

    /// Create a new XP system.
    pub fn new() -> (r: Self)
        ensures
            r.spec_total_xp() == 0,
            r.spec_today_xp() == 0,
            r.spec_last_xp_date() is None,
    {
        Self { total_xp: 0, today_xp: 0, last_xp_date: None }
    }

    /// Create with existing values (for loading saved progress).
    pub fn with_values(total_xp: u32, today_xp: u32, last_xp_date: Option<String>) -> (r: Self)
        ensures
            r.spec_total_xp() == total_xp,
            r.spec_today_xp() == today_xp,
            r.spec_last_xp_date() == last_xp_date,
    {
        Self { total_xp, today_xp, last_xp_date }
    }

    /// Award XP.  A new day first resets the daily total; then both totals
    /// grow by `amount`.
    pub fn award_xp(&mut self, amount: u32, current_date: &str) -> (r: XPAwardResult)
        requires
            old(self).spec_total_xp() + amount <= u32::MAX,
            old(self).spec_today_xp() + amount <= u32::MAX,
        ensures
            final (self).spec_total_xp() == old(self).spec_total_xp() + amount,
            final (self).spec_today_xp() == (if (match old(self).spec_last_xp_date() {
                Some(d) => d@ != current_date@,
                None => true,
            }) {
                amount as int
            } else {
                old(self).spec_today_xp() + amount
            }),
            final (self).spec_last_xp_date() matches Some(d) && d@ == current_date@,
            r.amount_awarded == amount,
            r.new_total == final (self).spec_total_xp(),
            r.today_total == final (self).spec_today_xp(),
            r.new_level == spec_level(final (self).spec_total_xp()),
            r.leveled_up == (spec_level(final (self).spec_total_xp()) > spec_level(
                old(self).spec_total_xp(),
            )),
    {
        let is_new_day = match &self.last_xp_date {
            Some(d) => !str_eq(d.as_str(), current_date),
            None => true,
        };
        if is_new_day {
            self.today_xp = 0;
        }
        self.last_xp_date = Some(current_date.to_owned());

        let previous_level = Self::level_of(self.total_xp);
        self.total_xp = self.total_xp + amount;
        self.today_xp = self.today_xp + amount;
        let new_level = Self::level_of(self.total_xp);

        XPAwardResult {
            amount_awarded: amount,
            new_total: self.total_xp,
            today_total: self.today_xp,
            leveled_up: new_level > previous_level,
            new_level,
        }
    }

    /// Get total XP.
    pub fn total_xp(&self) -> (r: u32)
        ensures
            r == self.spec_total_xp(),
    {
        self.total_xp
    }

    /// Get XP earned today.
    pub fn today_xp(&self) -> (r: u32)
        ensures
            r == self.spec_today_xp(),
    {
        self.today_xp
    }

    /// The level for a given XP total: the integer square root of one
    /// hundredth of the total, at least one.
    fn level_of(total_xp: u32) -> (r: u32)
        ensures
            r == spec_level(total_xp),
            1 <= r <= 7000,
    {
        let n = total_xp / 100;
        if n == 0 {
            proof {
                let nn = total_xp as int / 100;
                assert(is_isqrt(0, nn));
                let w = choose|w: int| is_isqrt(w, nn);
                assert(w == 0) by (nonlinear_arith)
                    requires
                        0 <= w,
                        w * w <= nn,
                        (w + 1) * (w + 1) > nn,
                        nn == 0,
                ;
                assert(spec_level(total_xp) == 1);
            }
            return 1;
        }
        let mut l: u32 = 1;
        while l < 7000 && (l + 1) * (l + 1) <= n
            invariant
                1 <= l <= 7000,
                l * l <= n,
                l <= n,
                0 < n <= 0x2970E15,
                ((l as int) + 1) * ((l as int) + 1) <= 49028004,
            decreases n - l,
        {
            proof {
                assert(((l as int) + 1) * ((l as int) + 1) <= n ==> l + 1 <= 7000 && l + 1 <= n)
                    by (nonlinear_arith)
                    requires
                        0 < n <= 0x2970E15,
                        l >= 1,
                ;
                assert(((l as int) + 2) * ((l as int) + 2) <= 49028004) by (nonlinear_arith)
                    requires
                        l + 1 <= 7000,
                ;
            }
            l = l + 1;
        }
        proof {
            assert(l < 7000) by (nonlinear_arith)
                requires
                    l * l <= n,
                    n <= 0x2970E15,
                    l >= 1,
                    l <= 7000,
            ;
        }
        proof {
            let nn = total_xp as int / 100;
            assert(l * l <= nn && (l + 1) * (l + 1) > nn);
            assert(is_isqrt(l as int, nn));
            let w = choose|w: int| is_isqrt(w, nn);
            assert(w == l) by (nonlinear_arith)
                requires
                    0 <= w,
                    w * w <= nn,
                    (w + 1) * (w + 1) > nn,
                    1 <= l,
                    l * l <= nn,
                    (l + 1) * (l + 1) > nn,
            ;
            assert(spec_level(total_xp) == l);
        }
        l
    }

    /// Calculate current level based on total XP.
    pub fn current_level(&self) -> (r: u32)
        ensures
            r == spec_level(self.spec_total_xp()),
            r >= 1,
    {
        Self::level_of(self.total_xp)
    }

    /// Get XP required for the next level, saturated at `u32::MAX`.
    pub fn xp_for_next_level(&self) -> (r: u32)
        ensures
            ({
                let want = (spec_level(self.spec_total_xp()) + 1) * (spec_level(
                    self.spec_total_xp(),
                ) + 1) * 100;
                r == (if want > u32::MAX {
                    u32::MAX as int
                } else {
                    want
                })
            }),
    {
        let next_level = Self::level_of(self.total_xp) as u64 + 1;
        proof {
            assert((next_level as int) * (next_level as int) <= 49028004) by (nonlinear_arith)
                requires
                    1 <= next_level <= 7001,
            ;
        }
        let want = next_level * next_level * 100;
        if want > u32::MAX as u64 {
            u32::MAX
        } else {
            want as u32
        }
    }

    /// Get the title for the current level.
    pub fn level_title(&self) -> (r: &'static str)
        ensures
            ({
                let l = spec_level(self.spec_total_xp());
                &&& l == 1 ==> r@ == "Novice"@
                &&& l == 2 ==> r@ == "Learner"@
                &&& l == 3 ==> r@ == "Student"@
                &&& l == 4 ==> r@ == "Apprentice"@
                &&& l == 5 ==> r@ == "Practitioner"@
                &&& (6 <= l <= 7) ==> r@ == "Intermediate"@
                &&& (8 <= l <= 10) ==> r@ == "Advanced"@
                &&& (11 <= l <= 15) ==> r@ == "Expert"@
                &&& (16 <= l <= 20) ==> r@ == "Master"@
                &&& l > 20 ==> r@ == "Grandmaster"@
            }),
    {
        let l = Self::level_of(self.total_xp);
        if l == 1 {
            "Novice"
        } else if l == 2 {
            "Learner"
        } else if l == 3 {
            "Student"
        } else if l == 4 {
            "Apprentice"
        } else if l == 5 {
            "Practitioner"
        } else if l <= 7 {
            "Intermediate"
        } else if l <= 10 {
            "Advanced"
        } else if l <= 15 {
            "Expert"
        } else if l <= 20 {
            "Master"
        } else {
            "Grandmaster"
        }
    }
}

} // verus!
