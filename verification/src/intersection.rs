//! Intersections, hit selection, and the per-hit state computation with the
//! refractive containment walk.

use vstd::prelude::*;
use crate::fixed::{
    SCALE, EPSILON, fadd, fsub, fmul, fdiv, fsqrt, fpow, add_f, sub_f, mul_f, div_f, sqrt_f,
    pow_f,
};
use crate::shape::{Shape, shape_eq, normal_at_spec};
use crate::matrix::mdet;
use crate::ray::{Ray, rposition};
use crate::raytuple::{tadd, tsub, tneg, tscale, tdot, treflect};
use crate::computations::Computations;

verus! {

/// One intersection: the parametric distance `t` along the ray and a
/// snapshot of the shape that was struck.
#[derive(Clone, Copy, Debug)]
pub struct Intersection {
    pub t: i64,
    pub object: Shape,
}

/// Intersection equality: the parameter and the shape.
pub open spec fn inter_eq(a: Intersection, b: Intersection) -> bool {
    a.t == b.t && shape_eq(a.object, b.object)
}

impl PartialEq for Intersection {
    fn eq(&self, other: &Self) -> (r: bool) {
        self.t == other.t && self.object == other.object
    }
}

impl vstd::std_specs::cmp::PartialEqSpecImpl for Intersection {
    open spec fn obeys_eq_spec() -> bool {
        true
    }

    open spec fn eq_spec(&self, other: &Intersection) -> bool {
        inter_eq(*self, *other)
    }
}

/// One step of the hit scan: a candidate with non-negative `t` replaces an
/// empty accumulator, or a strictly larger accumulated `t`.
pub open spec fn hit_step(acc: Option<Intersection>, i: Intersection) -> Option<Intersection> {
    let acc1 = if i.t >= 0 && acc is None {
        Some(i)
    } else {
        acc
    };
    match acc1 {
        Some(l) => if i.t >= 0 && l.t > i.t {
            Some(i)
        } else {
            acc1
        },
        None => acc1,
    }
}

/// The hit scan over a sequence, left to right.
pub open spec fn hit_fold(s: Seq<Intersection>, acc: Option<Intersection>) -> Option<Intersection>
    decreases s.len(),
{
    if s.len() == 0 {
        acc
    } else {
        hit_fold(s.drop_first(), hit_step(acc, s[0]))
    }
}

/// The hit of an intersection sequence: the first intersection with the
/// smallest non-negative `t`, or nothing when every `t` is negative.
pub open spec fn hit_spec(s: Seq<Intersection>) -> Option<Intersection> {
    hit_fold(s, None)
}

proof fn lemma_hit_fold_properties(s: Seq<Intersection>, acc: Option<Intersection>)
    requires
        acc matches Some(a) ==> a.t >= 0,
    ensures
        hit_fold(s, acc) matches Some(h) ==> h.t >= 0,
        hit_fold(s, acc) matches Some(h) ==> (acc == Some(h) || s.contains(h)),
        hit_fold(s, acc) is None ==> acc is None,
        hit_fold(s, acc) matches Some(h) ==> (acc matches Some(a) ==> h.t <= a.t),
        forall|j: int|
            0 <= j < s.len() && s[j].t >= 0 ==> (hit_fold(s, acc) matches Some(h) && h.t <= s[j].t),
    decreases s.len(),
{
    if s.len() == 0 {
    } else {
        let acc2 = hit_step(acc, s[0]);
        lemma_hit_fold_properties(s.drop_first(), acc2);
        assert forall|j: int|
            0 <= j < s.len() && s[j].t >= 0 implies (hit_fold(s, acc) matches Some(h) && h.t
            <= s[j].t) by {
            if j == 0 {
                assert(acc2 matches Some(a2) ==> a2.t <= s[0].t);
            } else {
                assert(s.drop_first()[j - 1] == s[j]);
            }
        }
        assert forall|h: Intersection| hit_fold(s, acc) == Some(h) && s.drop_first().contains(
            h,
        ) implies s.contains(h) by {
            let k = choose|k: int| 0 <= k < s.drop_first().len() && s.drop_first()[k] == h;
            assert(s[k + 1] == h);
        }
    }
}

/// What `hit` guarantees: a returned hit has a non-negative `t`, is one of
/// the intersections, and carries the least non-negative `t`; nothing is
/// returned exactly when no intersection has a non-negative `t`.
pub proof fn lemma_hit_properties(s: Seq<Intersection>)
    ensures
        hit_spec(s) matches Some(h) ==> h.t >= 0 && s.contains(h),
        hit_spec(s) matches Some(h) ==> forall|j: int|
            0 <= j < s.len() && s[j].t >= 0 ==> h.t <= s[j].t,
        hit_spec(s) is None <==> (forall|j: int| 0 <= j < s.len() ==> s[j].t < 0),
{
    lemma_hit_fold_properties(s, None);
    if forall|j: int| 0 <= j < s.len() ==> s[j].t < 0 {
        lemma_hit_fold_all_negative(s, None);
    }
    if hit_spec(s) is None {
        assert forall|j: int| 0 <= j < s.len() implies s[j].t < 0 by {
            if s[j].t >= 0 {
                assert((hit_fold(s, None) matches Some(h) && h.t <= s[j].t));
            }
        }
    }
}

proof fn lemma_hit_fold_all_negative(s: Seq<Intersection>, acc: Option<Intersection>)
    requires
        forall|j: int| 0 <= j < s.len() ==> s[j].t < 0,
    ensures
        hit_fold(s, acc) == acc,
    decreases s.len(),
{
    if s.len() > 0 {
        assert(hit_step(acc, s[0]) == acc);
        assert(forall|j: int| 0 <= j < s.drop_first().len() ==> s.drop_first()[j].t < 0);
        lemma_hit_fold_all_negative(s.drop_first(), acc);
    }
}

/// The first index in `cs` holding a shape equal to `sh`, or -1 when none
/// does.
pub open spec fn find_shape(cs: Seq<Shape>, sh: Shape) -> int
    decreases cs.len(),
{
    if cs.len() == 0 {
        -1
    } else if shape_eq(cs[0], sh) {
        0
    } else {
        let r = find_shape(cs.drop_first(), sh);
        if r < 0 {
            -1
        } else {
            r + 1
        }
    }
}

/// Toggles containment of a shape: if an equal shape is present, its first
/// occurrence leaves (the ray exits it); otherwise the shape is appended
/// (the ray enters it).
pub open spec fn toggle_containers(cs: Seq<Shape>, sh: Shape) -> Seq<Shape> {
    let j = find_shape(cs, sh);
    if j >= 0 {
        cs.remove(j)
    } else {
        cs.push(sh)
    }
}

/// The refractive index of the current medium: that of the most recently
/// entered still-open shape, or 1 (vacuum) when none is open.
pub open spec fn refr_of(cs: Seq<Shape>) -> int {
    if cs.len() == 0 {
        SCALE as int
    } else {
        cs.last().material.refractive_index as int
    }
}

/// The containment walk over a sorted intersection list: at the target hit,
/// `n1` is the index of the medium being exited and `n2` that of the medium
/// being entered; both default to 1 when the hit is not in the list.
pub open spec fn walk_refraction(xs: Seq<Intersection>, hit: Intersection, cs: Seq<Shape>) -> (
    int,
    int,
)
    decreases xs.len(),
{
    if xs.len() == 0 {
        (SCALE as int, SCALE as int)
    } else {
        let i = xs[0];
        let n1 = refr_of(cs);
        let cs2 = toggle_containers(cs, i.object);
        if inter_eq(i, hit) {
            (n1, refr_of(cs2))
        } else {
            walk_refraction(xs.drop_first(), hit, cs2)
        }
    }
}

proof fn lemma_find_shape_is_first(cs: Seq<Shape>, sh: Shape, p: int)
    requires
        0 <= p < cs.len(),
        shape_eq(cs[p], sh),
        forall|q: int| 0 <= q < p ==> !shape_eq(cs[q], sh),
    ensures
        find_shape(cs, sh) == p,
    decreases cs.len(),
{
    if p == 0 {
    } else {
        assert(!shape_eq(cs[0], sh));
        assert(cs.drop_first()[p - 1] == cs[p]);
        assert(forall|q: int| 0 <= q < p - 1 ==> cs.drop_first()[q] == cs[q + 1]);
        lemma_find_shape_is_first(cs.drop_first(), sh, p - 1);
    }
}

proof fn lemma_find_shape_none(cs: Seq<Shape>, sh: Shape)
    requires
        forall|q: int| 0 <= q < cs.len() ==> !shape_eq(cs[q], sh),
    ensures
        find_shape(cs, sh) == -1,
    decreases cs.len(),
{
    if cs.len() > 0 {
        assert(forall|q: int| 0 <= q < cs.drop_first().len() ==> cs.drop_first()[q] == cs[q + 1]);
        lemma_find_shape_none(cs.drop_first(), sh);
    }
}

/// Over a list of intersections whose materials all have positive refractive
/// indices, the containment walk only ever reports positive indices.
pub proof fn lemma_walk_refraction_positive(
    xs: Seq<Intersection>,
    hit: Intersection,
    cs: Seq<Shape>,
)
    requires
        forall|j: int| 0 <= j < xs.len() ==> xs[j].object.material.refractive_index > 0,
        forall|j: int| 0 <= j < cs.len() ==> cs[j].material.refractive_index > 0,
    ensures
        0 < walk_refraction(xs, hit, cs).0 <= i64::MAX as int,
        0 < walk_refraction(xs, hit, cs).1 <= i64::MAX as int,
    decreases xs.len(),
{
    if xs.len() > 0 {
        let i = xs[0];
        let cs2 = toggle_containers(cs, i.object);
        assert forall|j: int| 0 <= j < cs2.len() implies cs2[j].material.refractive_index > 0 by {
            let p = find_shape(cs, i.object);
            if p >= 0 {
                lemma_find_shape_in_range(cs, i.object);
                assert(cs2 == cs.remove(p));
                if j < p {
                    assert(cs2[j] == cs[j]);
                } else {
                    assert(cs2[j] == cs[j + 1]);
                }
            } else {
                if j < cs.len() {
                    assert(cs2[j] == cs[j]);
                } else {
                    assert(cs2[j] == i.object);
                }
            }
        }
        if inter_eq(i, hit) {
            if cs2.len() > 0 {
                assert(cs2.last() == cs2[cs2.len() - 1]);
            }
        } else {
            assert(forall|j: int|
                0 <= j < xs.drop_first().len() ==> xs.drop_first()[j] == xs[j + 1]);
            lemma_walk_refraction_positive(xs.drop_first(), hit, cs2);
        }
        if cs.len() > 0 {
            assert(cs.last() == cs[cs.len() - 1]);
        }
    }
}

proof fn lemma_find_shape_in_range(cs: Seq<Shape>, sh: Shape)
    ensures
        -1 <= find_shape(cs, sh) < cs.len(),
        find_shape(cs, sh) >= 0 ==> shape_eq(cs[find_shape(cs, sh)], sh),
    decreases cs.len(),
{
    if cs.len() > 0 && !shape_eq(cs[0], sh) {
        lemma_find_shape_in_range(cs.drop_first(), sh);
    }
}

/// The per-hit state: hit point, biased points, eye and (possibly flipped)
/// normal vectors, reflection vector, and the two refractive indices from
/// the containment walk over the full sorted intersection list.
pub open spec fn prepare_spec(hit: Intersection, r: Ray, xs: Seq<Intersection>) -> Computations {
    let p = rposition(r, hit.t as int);
    let eyev = tneg(r.direction);
    let n0 = normal_at_spec(hit.object, p);
    let inside = tdot(n0, eyev) < 0;
    let normalv = if inside {
        tneg(n0)
    } else {
        n0
    };
    let over_point = tadd(p, tscale(normalv, EPSILON as int));
    let under_point = tsub(p, tscale(normalv, EPSILON as int));
    let reflectv = treflect(r.direction, normalv);
    let ns = walk_refraction(xs, hit, Seq::empty());
    Computations {
        t: hit.t,
        object: hit.object,
        point: p,
        over_point,
        eyev,
        normalv,
        inside,
        reflectv,
        n1: ns.0 as i64,
        n2: ns.1 as i64,
        under_point,
    }
}

/// The Schlick approximation of the Fresnel reflectance for a hit, from the
/// refractive indices and the relevant cosine; under total internal
/// reflection everything is reflected.
pub open spec fn schlick_spec(c: Computations) -> int {
    let cos0 = tdot(c.eyev, c.normalv);
    if c.n1 > c.n2 {
        let n = fdiv(c.n1 as int, c.n2 as int);
        let sin2_t = fmul(fmul(n, n), fsub(SCALE as int, fmul(cos0, cos0)));
        if sin2_t > SCALE as int {
            SCALE as int
        } else {
            schlick_blend(c.n1 as int, c.n2 as int, fsqrt(fsub(SCALE as int, sin2_t)))
        }
    } else {
        schlick_blend(c.n1 as int, c.n2 as int, cos0)
    }
}

/// The reflectance blend `r0 + (1 - r0) * (1 - cos)^5` with
/// `r0 = ((n1 - n2) / (n1 + n2))^2`.
pub open spec fn schlick_blend(n1: int, n2: int, cosv: int) -> int {
    let q = fdiv(fsub(n1, n2), fadd(n1, n2));
    let r0 = fmul(q, q);
    fadd(r0, fmul(fsub(SCALE as int, r0), fpow(fsub(SCALE as int, cosv), 5)))
}

/// The refractive index of the current containment list.
fn current_refr(containers: &Vec<Shape>) -> (r: i64)
    ensures
        r as int == refr_of(containers@),
{
    if containers.len() == 0 {
        SCALE
    } else {
        let r = containers[containers.len() - 1].material.refractive_index;
        proof {
            assert(containers@.last() == containers@[containers@.len() - 1]);
        }
        r
    }
}

/// Toggles containment of a shape in the running containment list.
fn toggle_exec(containers: &mut Vec<Shape>, sh: Shape)
    ensures
        final(containers)@ == toggle_containers(old(containers)@, sh),
{
    let ghost cs_old = containers@;
    let mut j: usize = 0;
    let mut pos: usize = 0;
    let mut found_pos = false;
    while j < containers.len()
        invariant
            0 <= j <= cs_old.len(),
            containers@ == cs_old,
            !found_pos ==> forall|q: int| 0 <= q < j ==> !shape_eq(cs_old[q], sh),
            found_pos ==> (pos as int) < cs_old.len() && shape_eq(cs_old[pos as int], sh)
                && forall|q: int| 0 <= q < pos ==> !shape_eq(cs_old[q], sh),
        decreases cs_old.len() - j,
    {
        if !found_pos && containers[j] == sh {
            pos = j;
            found_pos = true;
        }
        j = j + 1;
    }
    if found_pos {
        proof {
            lemma_find_shape_is_first(cs_old, sh, pos as int);
        }
        let _removed = containers.remove(pos);
    } else {
        proof {
            lemma_find_shape_none(cs_old, sh);
        }
        containers.push(sh);
    }
}

impl Intersection {
    /// Builds an intersection from a parameter and a shape snapshot.
    pub fn new(t: i64, object: Shape) -> (r: Intersection)
        ensures
            r == (Intersection { t, object }),
    {
        Self { t, object }
    }

    /// Runs the containment walk over the full intersection list and returns
    /// the refractive indices on both sides of the hit.
    fn walk_exec(hit: Intersection, xs: &Vec<Intersection>) -> (ns: (i64, i64))
        ensures
            ns.0 as int == walk_refraction(xs@, hit, Seq::empty()).0,
            ns.1 as int == walk_refraction(xs@, hit, Seq::empty()).1,
    {
        let ghost total = walk_refraction(xs@, hit, Seq::empty());
        let mut containers: Vec<Shape> = Vec::new();
        let mut n1: i64 = SCALE;
        let mut n2: i64 = SCALE;
        let mut k: usize = 0;
        let mut found = false;
        proof {
            assert(xs@.skip(0) =~= xs@);
        }
        while k < xs.len() && !found
            invariant
                0 <= k <= xs@.len(),
                !found ==> walk_refraction(xs@.skip(k as int), hit, containers@) == total,
                !found ==> n1 == SCALE && n2 == SCALE,
                found ==> n1 as int == total.0 && n2 as int == total.1,
            decreases xs@.len() - k,
        {
            let i = xs[k];
            proof {
                assert(xs@.skip(k as int)[0] == xs@[k as int]);
                assert(xs@.skip(k as int).drop_first() =~= xs@.skip(k as int + 1));
            }
            let ghost cs_before = containers@;
            let this_n1: i64 = current_refr(&containers);
            let is_hit = i == hit;
            toggle_exec(&mut containers, i.object);
            proof {
                assert(containers@ == toggle_containers(cs_before, i.object));
                assert(walk_refraction(xs@.skip(k as int), hit, cs_before) == total);
                if inter_eq(i, hit) {
                    assert(walk_refraction(xs@.skip(k as int), hit, cs_before) == (
                        refr_of(cs_before),
                        refr_of(toggle_containers(cs_before, i.object)),
                    ));
                }
            }
            if is_hit {
                n1 = this_n1;
                n2 = current_refr(&containers);
                found = true;
                proof {
                    assert(n1 as int == total.0);
                    assert(n2 as int == total.1);
                }
            }
            k = k + 1;
        }
        proof {
            if !found {
                assert(k == xs@.len());
                assert(xs@.skip(k as int) =~= Seq::<Intersection>::empty());
                assert(walk_refraction(xs@.skip(k as int), hit, containers@) == total);
                assert(walk_refraction(Seq::<Intersection>::empty(), hit, containers@) == (
                    SCALE as int,
                    SCALE as int,
                ));
            }
        }
        (n1, n2)
    }

    /// The per-hit state for this intersection on the given ray; `xs` is the
    /// full sorted intersection list, used for the refractive containment
    /// walk. The struck shape's transform must be invertible.
    #[verifier::rlimit(100)]
    pub fn prepare_computations(self, r: Ray, xs: Vec<Intersection>) -> (c: Computations)
        requires
            mdet(self.object.transform) != 0,
        ensures
            c == prepare_spec(self, r, xs@),
    {
        let p = r.position(self.t);
        let eyev = r.direction.neg();
        let mut normalv = self.object.normal_at(p);
        let mut inside = false;
        if normalv.dot(eyev) < 0 {
            inside = true;
            normalv = normalv.neg();
        }
        let over_point = p.add(normalv.scale(EPSILON));
        let under_point = p.sub(normalv.scale(EPSILON));
        let reflectv = r.direction.reflect(normalv);

        let ns = Self::walk_exec(self, &xs);
        let n1 = ns.0;
        let n2 = ns.1;
        Computations::new(
            self.t,
            self.object,
            p,
            over_point,
            eyev,
            normalv,
            inside,
            reflectv,
            n1,
            n2,
            under_point,
        )
    }

    /// The Schlick approximation of the Fresnel reflectance for a prepared
    /// hit; the refractive indices must be positive.
    pub fn schlick(comps: Computations) -> (r: i64)
        requires
            comps.n1 > 0,
            comps.n2 > 0,
        ensures
            r as int == schlick_spec(comps),
    {
        let cos0 = comps.eyev.dot(comps.normalv);
        if comps.n1 > comps.n2 {
            let n = div_f(comps.n1, comps.n2);
            let sin2_t = mul_f(mul_f(n, n), sub_f(SCALE, mul_f(cos0, cos0)));
            if sin2_t > SCALE {
                return SCALE;
            }
            let diff = sub_f(SCALE, sin2_t);
            let cos_t = sqrt_f(diff);
            Self::schlick_blend_f(comps.n1, comps.n2, cos_t)
        } else {
            Self::schlick_blend_f(comps.n1, comps.n2, cos0)
        }
    }

    /// The reflectance blend of the Schlick approximation.
    fn schlick_blend_f(n1: i64, n2: i64, cosv: i64) -> (r: i64)
        requires
            n1 > 0,
            n2 > 0,
        ensures
            r as int == schlick_blend(n1 as int, n2 as int, cosv as int),
    {
        let denom = add_f(n1, n2);
        let q = div_f(sub_f(n1, n2), denom);
        let r0 = mul_f(q, q);
        add_f(r0, mul_f(sub_f(SCALE, r0), pow_f(sub_f(SCALE, cosv), 5)))
    }

    /// The hit among a list of intersections: the first one with the
    /// smallest non-negative `t`, or `None` when every `t` is negative.
    pub fn hit(intersections: Vec<Intersection>) -> (r: Option<Intersection>)
        ensures
            r == hit_spec(intersections@),
            r matches Some(h) ==> h.t >= 0 && intersections@.contains(h),
            r matches Some(h) ==> forall|j: int|
                0 <= j < intersections@.len() && intersections@[j].t >= 0 ==> h.t
                    <= intersections@[j].t,
            r is None <==> (forall|j: int| 0 <= j < intersections@.len() ==> intersections@[j].t
                < 0),
    {
        proof {
            lemma_hit_properties(intersections@);
        }
        let ghost s = intersections@;
        proof {
            assert(s.skip(0) =~= s);
        }
        let mut lowest: Option<Intersection> = None;
        let mut k: usize = 0;
        while k < intersections.len()
            invariant
                0 <= k <= s.len(),
                intersections@ == s,
                hit_fold(s.skip(k as int), lowest) == hit_fold(s, None),
            decreases s.len() - k,
        {
            let i = intersections[k];
            proof {
                assert(s.skip(k as int)[0] == s[k as int]);
                assert(s.skip(k as int).drop_first() =~= s.skip(k as int + 1));
            }
            if i.t >= 0 && lowest.is_none() {
                lowest = Some(i);
            }
            match lowest {
                Some(intersection) => {
                    if i.t >= 0 && intersection.t > i.t {
                        lowest = Some(i);
                    }
                },
                None => {
                    k = k + 1;
                    continue;
                },
            }
            k = k + 1;
        }
        proof {
            assert(s.skip(s.len() as int) =~= Seq::<Intersection>::empty());
        }
        lowest
    }
}

} // verus!
