//! Elliptical flight paths of the enemies, and the maker that hands one
//! template to several enemies in a row.

use vstd::prelude::*;
use crate::consts::{
    ANGLE_UNIT, BASE_SPEED, COORD_MAX, FORMATION_MEMBERS_MAX, PIXEL, PI_MICRO, SPEED_MAX,
    TICK_RATE,
};
use crate::entity::WinSize;
use crate::geometry::{
    clamp_coord, clamp_i64, distance, distance_between, div_toward_zero, product_fits, saturate,
    saturate_i64, trunc_div,
};
use crate::random::{gen_range, gen_ratio};

verus! {

/// An elliptical path: where the enemy starts, the ellipse's radii and pivot,
/// the speed along it and the angle reached.
#[derive(Clone, Copy, PartialEq, Eq, Debug)]
pub struct Formation {
    pub start: (i64, i64),
    pub radius: (i64, i64),
    pub pivot: (i64, i64),
    pub speed: i64,
    /// Changes with every tick on the ellipse.
    pub angle: i64,
}

/// The random part of a new template.
#[derive(Clone, Copy, PartialEq, Eq, Debug)]
pub struct TemplateDraw {
    /// Whether the start lies on the right edge, not the left.
    pub from_right: bool,
    pub start_y: i64,
    pub pivot: (i64, i64),
    pub radius_x: i64,
}

impl TemplateDraw {
    /// Whether the draw lies in the ranges that belong to the window: the
    /// start's height within half the window's height plus 100 pixels either
    /// way, the pivot within a quarter of the width either way and between zero
    /// and a third of the height plus 50 pixels, the horizontal radius from 80
    /// up to 150 pixels. Each range includes its lower end only.
    pub open spec fn fits(self, win: WinSize) -> bool {
        &&& -(win.h / 2 + 100 * PIXEL) <= self.start_y < win.h / 2 + 100 * PIXEL
        &&& -(win.w / 4) <= self.pivot.0 < win.w / 4
        &&& 0 <= self.pivot.1 < win.h / 3 + 50 * PIXEL
        &&& 80 * PIXEL <= self.radius_x < 150 * PIXEL
    }

    /// Draws the random part of a template for the window.
    pub fn random(win_size: &WinSize) -> (d: TemplateDraw)
        requires
            win_size.playable(),
        ensures
            d.fits(*win_size),
    {
        let from_right = gen_ratio(1, 2);
        let h_span: i64 = win_size.h / 2 + 100 * PIXEL;
        let start_y = gen_range(-h_span, h_span);
        let w_span: i64 = win_size.w / 4;
        let h_span: i64 = win_size.h / 3 + 50 * PIXEL;
        let pivot = (gen_range(-w_span, w_span), gen_range(0, h_span));
        let radius_x = gen_range(80 * PIXEL, 150 * PIXEL);
        TemplateDraw { from_right, start_y, pivot, radius_x }
    }
}

impl Formation {
    /// The template that a draw and a start angle give: the start on the left
    /// or right edge of the window widened by 100 pixels, a vertical radius of
    /// 100 pixels, and the base speed.
    pub open spec fn from_draw(win: WinSize, d: TemplateDraw, angle: i64) -> Formation {
        Formation {
            start: (
                if d.from_right {
                    (win.w / 2 + 100 * PIXEL) as i64
                } else {
                    (-(win.w / 2 + 100 * PIXEL)) as i64
                },
                d.start_y,
            ),
            radius: (d.radius_x, (100 * PIXEL) as i64),
            pivot: d.pivot,
            speed: BASE_SPEED,
            angle,
        }
    }

    /// Builds [`Formation::from_draw`].
    pub fn new_template(win_size: &WinSize, d: TemplateDraw, angle: i64) -> (f: Formation)
        requires
            win_size.playable(),
        ensures
            f == Formation::from_draw(*win_size, d, angle),
    {
        let w_span: i64 = win_size.w / 2 + 100 * PIXEL;
        Formation {
            start: (if d.from_right { w_span } else { -w_span }, d.start_y),
            radius: (d.radius_x, 100 * PIXEL),
            pivot: d.pivot,
            speed: BASE_SPEED,
            angle,
        }
    }

    /// The vector from the pivot to the start, vertical part first: the
    /// arguments of the arc tangent that gives the start angle.
    pub open spec fn start_offset(win: WinSize, d: TemplateDraw) -> (i64, i64) {
        let f = Formation::from_draw(win, d, 0);
        ((f.start.1 - f.pivot.1) as i64, (f.start.0 - f.pivot.0) as i64)
    }

    /// Whether the template is one that `make` can produce for the window with
    /// the given arc tangent.
    pub open spec fn fresh_for<F: Fn(i64, i64) -> i64>(self, win: WinSize, atan2: &F) -> bool {
        exists|d: TemplateDraw|
            #![trigger d.fits(win)]
            {
                &&& d.fits(win)
                &&& self == Formation::from_draw(win, d, self.angle)
                &&& atan2.ensures(Formation::start_offset(win, d), self.angle)
            }
    }
}

impl Formation {
    /// Whether the path can be flown: both radii are positive and the speed is
    /// within the range the simulation keeps.
    pub open spec fn valid(self) -> bool {
        &&& self.radius.0 > 0
        &&& self.radius.1 > 0
        &&& -SPEED_MAX <= self.speed <= SPEED_MAX
    }

    /// Computes [`Formation::valid`].
    pub fn is_valid(&self) -> (ok: bool)
        ensures
            ok == self.valid(),
    {
        self.radius.0 > 0 && self.radius.1 > 0 && -SPEED_MAX <= self.speed && self.speed
            <= SPEED_MAX
    }

    /// Sense of rotation: 1 for a start left of the origin, else -1.
    pub open spec fn direction(self) -> int {
        if self.start.0 < 0 {
            1
        } else {
            -1
        }
    }

    /// Distance covered in one tick: the speed times the length of a tick.
    pub open spec fn max_distance(self) -> int {
        trunc_div(self.speed * PIXEL, TICK_RATE as int)
    }

    /// The smaller of the two radii.
    pub open spec fn min_radius(self) -> int {
        if self.radius.0 <= self.radius.1 {
            self.radius.0 as int
        } else {
            self.radius.1 as int
        }
    }

    /// Angle covered in one tick: the distance of a tick over a quarter of the
    /// circumference of the circle with the smaller radius, which is that radius
    /// times half of pi.
    pub open spec fn turn(self) -> int {
        trunc_div(
            self.speed * (2 * PIXEL * ANGLE_UNIT * ANGLE_UNIT),
            self.min_radius() * (TICK_RATE * PI_MICRO),
        )
    }

    /// The angle that the next tick aims for.
    pub open spec fn next_angle(self) -> i64 {
        clamp_i64(self.angle + self.direction() * self.turn())
    }

    /// Computes [`Formation::next_angle`].
    pub fn compute_next_angle(&self) -> (a: i64)
        requires
            self.valid(),
        ensures
            a == self.next_angle(),
    {
        let min_r: i64 = if self.radius.0 <= self.radius.1 {
            self.radius.0
        } else {
            self.radius.1
        };
        let num: i128 = self.speed as i128 * 2_000_000_000_000_000;
        let den: i128 = min_r as i128 * 188_495_580;
        let turn: i128 = div_toward_zero(num, den);
        assert(-2_000_000_000_000_000_000_000_000 <= turn <= 2_000_000_000_000_000_000_000_000)
            by {
            quotient_is_no_larger(num as int, den as int);
        }
        if self.start.0 < 0 {
            saturate_i64(self.angle as i128 + turn)
        } else {
            saturate_i64(self.angle as i128 - turn)
        }
    }

    /// The point of the ellipse at the angle whose cosine and sine are given,
    /// both in millionths.
    pub open spec fn target(self, cos: i64, sin: i64) -> (i64, i64) {
        (
            clamp_coord(trunc_div(self.radius.0 * cos, ANGLE_UNIT as int) + self.pivot.0),
            clamp_coord(trunc_div(self.radius.1 * sin, ANGLE_UNIT as int) + self.pivot.1),
        )
    }

    /// Computes [`Formation::target`].
    pub fn target_point(&self, cos: i64, sin: i64) -> (p: (i64, i64))
        ensures
            p == self.target(cos, sin),
    {
        proof {
            product_fits(self.radius.0, cos);
            product_fits(self.radius.1, sin);
        }
        let x: i128 = div_toward_zero(self.radius.0 as i128 * cos as i128, ANGLE_UNIT as i128);
        let y: i128 = div_toward_zero(self.radius.1 as i128 * sin as i128, ANGLE_UNIT as i128);
        (saturate(x + self.pivot.0 as i128), saturate(y + self.pivot.1 as i128))
    }

    /// How close to its target an enemy has to be for the angle to advance: the
    /// distance of a tick times the speed over 20.
    pub open spec fn tolerance(self) -> int {
        trunc_div(self.max_distance() * self.speed, 20)
    }

    /// Where a coordinate is after one tick toward `to`, `dist` being the
    /// distance to the target: it moves by its share of the distance of a tick
    /// and does not pass the target.
    pub open spec fn approach(self, from: i64, to: i64, dist: int) -> i64 {
        let d = from - to;
        let moved = from - if dist > 0 {
            trunc_div(d * self.max_distance(), dist)
        } else {
            0
        };
        clamp_coord(
            if d > 0 {
                if moved >= to {
                    moved
                } else {
                    to as int
                }
            } else {
                if moved <= to {
                    moved
                } else {
                    to as int
                }
            },
        )
    }

    /// The position after one tick from `at` toward the target for the next
    /// angle, whose cosine and sine are given.
    pub open spec fn position_after(self, at: (i64, i64), cos: i64, sin: i64) -> (i64, i64) {
        let dst = self.target(cos, sin);
        let dist = distance(at, dst);
        (self.approach(at.0, dst.0, dist), self.approach(at.1, dst.1, dist))
    }

    /// The formation after one tick of an enemy at `at`: the angle advances
    /// only while the enemy is closer to its target than the tolerance.
    pub open spec fn after_tick(self, at: (i64, i64), cos: i64, sin: i64) -> Formation {
        let dst = self.target(cos, sin);
        if distance(at, dst) < self.tolerance() {
            Formation { angle: self.next_angle(), ..self }
        } else {
            self
        }
    }

    /// One tick along the path for an enemy at `at`, the cosine and sine of
    /// the next angle being given in millionths. Returns the new position;
    /// the angle advances where [`Formation::after_tick`] says so.
    pub fn advance(&mut self, at: (i64, i64), cos: i64, sin: i64) -> (p: (i64, i64))
        requires
            old(self).valid(),
            -COORD_MAX <= at.0 <= COORD_MAX,
            -COORD_MAX <= at.1 <= COORD_MAX,
        ensures
            p == old(self).position_after(at, cos, sin),
            *final(self) == old(self).after_tick(at, cos, sin),
            final(self).valid(),
            -COORD_MAX <= p.0 <= COORD_MAX,
            -COORD_MAX <= p.1 <= COORD_MAX,
    {
        let next = self.compute_next_angle();
        let dst = self.target_point(cos, sin);
        let dist: u64 = distance_between(at, dst);
        let max_distance: i128 = div_toward_zero(self.speed as i128 * PIXEL as i128, TICK_RATE as i128);
        assert(-1_000_000_000_000 <= max_distance <= 1_000_000_000_000) by {
            quotient_is_no_larger(self.speed * PIXEL, TICK_RATE as int);
        }
        let x = Self::approach_coord(at.0, dst.0, max_distance, dist);
        let y = Self::approach_coord(at.1, dst.1, max_distance, dist);
        assert(-1_000_000_000_000_000_000_000 <= max_distance * self.speed
            <= 1_000_000_000_000_000_000_000) by (nonlinear_arith)
            requires
                -1_000_000_000_000 <= max_distance <= 1_000_000_000_000,
                -1_000_000_000 <= self.speed <= 1_000_000_000,
        ;
        let tolerance: i128 = div_toward_zero(max_distance * self.speed as i128, 20);
        if (dist as i128) < tolerance {
            self.angle = next;
        }
        (x, y)
    }

    fn approach_coord(from: i64, to: i64, max_distance: i128, dist: u64) -> (r: i64)
        requires
            -COORD_MAX <= from <= COORD_MAX,
            -COORD_MAX <= to <= COORD_MAX,
            -1_000_000_000_000 <= max_distance <= 1_000_000_000_000,
        ensures
            r == {
                let d = from - to;
                let moved = from - if dist > 0 {
                    trunc_div(d * max_distance, dist as int)
                } else {
                    0
                };
                clamp_coord(
                    if d > 0 {
                        if moved >= to {
                            moved
                        } else {
                            to as int
                        }
                    } else {
                        if moved <= to {
                            moved
                        } else {
                            to as int
                        }
                    },
                )
            },
            -COORD_MAX <= r <= COORD_MAX,
    {
        let d: i128 = from as i128 - to as i128;
        assert(-2_000_000_000_000_000_000_000 <= d * max_distance
            <= 2_000_000_000_000_000_000_000) by (nonlinear_arith)
            requires
                -2_000_000_000 <= d <= 2_000_000_000,
                -1_000_000_000_000 <= max_distance <= 1_000_000_000_000,
        ;
        let step: i128 = if dist > 0 {
            let q = div_toward_zero(d * max_distance, dist as i128);
            proof {
                quotient_is_no_larger(d * max_distance, dist as int);
            }
            q
        } else {
            0
        };
        let moved: i128 = from as i128 - step;
        let to_wide: i128 = to as i128;
        let bounded: i128 = if d > 0 {
            if moved >= to_wide {
                moved
            } else {
                to_wide
            }
        } else {
            if moved <= to_wide {
                moved
            } else {
                to_wide
            }
        };
        saturate(bounded)
    }
}

/// A quotient rounded toward zero is no larger in size than what was divided.
pub proof fn quotient_is_no_larger(a: int, b: int)
    requires
        b > 0,
    ensures
        a >= 0 ==> 0 <= trunc_div(a, b) <= a,
        a <= 0 ==> a <= trunc_div(a, b) <= 0,
{
    if a >= 0 {
        assert(0 <= a / b <= a) by (nonlinear_arith)
            requires
                a >= 0,
                b > 0,
        ;
    } else {
        assert(0 <= (-a) / b <= -a) by (nonlinear_arith)
            requires
                -a >= 0,
                b > 0,
        ;
    }
}

/// With a speed that is not negative an enemy never passes its target: after
/// a tick each coordinate lies between where it was and the target.
pub proof fn approach_does_not_pass_the_target(f: Formation, from: i64, to: i64, dist: int)
    requires
        f.speed >= 0,
        dist >= 0,
        -COORD_MAX <= from <= COORD_MAX,
        -COORD_MAX <= to <= COORD_MAX,
    ensures
        from <= to ==> from <= f.approach(from, to, dist) <= to,
        from >= to ==> to <= f.approach(from, to, dist) <= from,
{
    let md = f.max_distance();
    quotient_is_no_larger(f.speed * PIXEL, TICK_RATE as int);
    let d = from - to;
    if dist > 0 {
        assert(d >= 0 ==> d * md >= 0) by (nonlinear_arith)
            requires
                md >= 0,
        ;
        assert(d <= 0 ==> d * md <= 0) by (nonlinear_arith)
            requires
                md >= 0,
        ;
        quotient_is_no_larger(d * md, dist);
    }
}

/// A template made from a draw that fits the window can be flown.
pub proof fn drawn_templates_are_valid(win: WinSize, d: TemplateDraw, angle: i64)
    requires
        d.fits(win),
    ensures
        Formation::from_draw(win, d, angle).valid(),
{
}

/// Hands out formations: a new template, then copies of it until the template
/// has served its share of enemies.
#[derive(Clone, Copy, Debug)]
pub struct FormationMaker {
    current_template: Option<Formation>,
    current_members: u32,
}

impl FormationMaker {
    /// The template in use, if any.
    pub closed spec fn template(self) -> Option<Formation> {
        self.current_template
    }

    /// Enemies that got the template in use.
    pub closed spec fn members(self) -> u32 {
        self.current_members
    }

    /// Whether the template in use, if any, can be flown.
    pub open spec fn wf(self) -> bool {
        self.template() is Some ==> self.template()->0.valid()
    }

    /// Whether the next formation is a copy of the template in use.
    pub open spec fn reuses(self) -> bool {
        self.template() is Some && self.members() < FORMATION_MEMBERS_MAX
    }

    /// A maker without a template.
    pub fn new() -> (m: FormationMaker)
        ensures
            m.template() is None,
            m.members() == 0,
            !m.reuses(),
            m.wf(),
    {
        FormationMaker { current_template: None, current_members: 0 }
    }

    /// Whether the next formation is a copy of the template in use.
    pub fn will_reuse(&self) -> (r: bool)
        ensures
            r == self.reuses(),
    {
        self.current_template.is_some() && self.current_members < FORMATION_MEMBERS_MAX
    }

    /// The maker after one formation was handed out, `fresh` being the
    /// template to fall back on.
    pub closed spec fn after_issue(self, fresh: Formation) -> FormationMaker {
        if self.reuses() {
            FormationMaker { current_members: (self.current_members + 1) as u32, ..self }
        } else {
            FormationMaker { current_template: Some(fresh), current_members: 1 }
        }
    }

    /// The formation handed out, `fresh` being the template to fall back on.
    pub closed spec fn issued(self, fresh: Formation) -> Formation {
        if self.reuses() {
            self.current_template->0
        } else {
            fresh
        }
    }

    /// What handing out a formation does, in terms of the template and the
    /// count of its members.
    pub proof fn issue_rule(self, fresh: Formation)
        ensures
            self.reuses() ==> {
                &&& self.issued(fresh) == self.template()->0
                &&& self.after_issue(fresh).template() == self.template()
                &&& self.after_issue(fresh).members() == self.members() + 1
            },
            !self.reuses() ==> {
                &&& self.issued(fresh) == fresh
                &&& self.after_issue(fresh).template() == Some(fresh)
                &&& self.after_issue(fresh).members() == 1
            },
    {
    }

    /// Hands out a formation: a copy of the template in use while it has
    /// served fewer enemies than it may, else `fresh`, which becomes the
    /// template with one member.
    pub fn issue(&mut self, fresh: Formation) -> (f: Formation)
        ensures
            f == old(self).issued(fresh),
            *final(self) == old(self).after_issue(fresh),
            old(self).wf() && fresh.valid() ==> final(self).wf() && f.valid(),
    {
        match self.current_template {
            Some(tmpl) => {
                if self.current_members < FORMATION_MEMBERS_MAX {
                    self.current_members += 1;
                    return tmpl;
                }
            },
            None => {},
        }
        self.current_template = Some(fresh);
        self.current_members = 1;
        fresh
    }

    /// Hands out the next formation for the window. While the template in use
    /// has served fewer enemies than it may, this is a copy of it. Else a new
    /// template is drawn at random, its start angle being the arc tangent of
    /// the vector from the pivot to the start, which `atan2` computes from the
    /// vertical and the horizontal part.
    pub fn make<F: Fn(i64, i64) -> i64>(&mut self, win_size: &WinSize, atan2: &F) -> (f: Formation)
        requires
            old(self).wf(),
            win_size.playable(),
            forall|dy: i64, dx: i64| atan2.requires((dy, dx)),
        ensures
            f == old(self).issued(f),
            *final(self) == old(self).after_issue(f),
            !old(self).reuses() ==> f.fresh_for(*win_size, atan2),
            final(self).wf(),
            f.valid(),
    {
        if self.will_reuse() {
            let tmpl = self.current_template.unwrap();
            self.issue(tmpl)
        } else {
            let d = TemplateDraw::random(win_size);
            let shape = Formation::new_template(win_size, d, 0);
            let angle = atan2(shape.start.1 - shape.pivot.1, shape.start.0 - shape.pivot.0);
            let fresh = Formation { angle, ..shape };
            self.issue(fresh)
        }
    }
}

impl Default for FormationMaker {
    /// A maker without a template.
    fn default() -> (m: FormationMaker)
        ensures
            m.template() is None,
            m.members() == 0,
            m.wf(),
    {
        FormationMaker::new()
    }
}

/// A maker that is about to take a new template hands it out as often as a
/// template may serve, and takes the next new one after that: of three
/// formations in a row the first two are the first template, whatever was
/// offered the second time, and the third is the template offered then.
pub proof fn templates_are_shared_by_two(m: FormationMaker, f1: Formation, f2: Formation, f3: Formation)
    requires
        !m.reuses(),
    ensures
        m.issued(f1) == f1,
        m.after_issue(f1).issued(f2) == f1,
        m.after_issue(f1).after_issue(f2).issued(f3) == f3,
        m.after_issue(f1).after_issue(f2).after_issue(f3).template() == Some(f3),
{
}

} // verus!
