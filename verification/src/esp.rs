use vstd::prelude::*;

use crate::config::CheatSwitches;
use crate::offsets::Offsets;

verus! {

/// The size of the screen that the overlay draws on, in pixels. The
/// drawing code records it on every frame and the aiming code reads it.
pub struct ScreenResolution {
    width: u32,
    height: u32,
}

impl View for ScreenResolution {
    type V = (u32, u32);

    closed spec fn view(&self) -> (u32, u32) {
        (self.width, self.height)
    }
}

impl Default for ScreenResolution {
    /// Until the first frame records the real size, the screen is taken to
    /// be 1920 by 1080.
    fn default() -> (screen: Self)
        ensures
            screen@ == (1920u32, 1080u32),
    {
        ScreenResolution { width: 1920, height: 1080 }
    }
}

/// Records the size of the screen.
pub fn set_screen_resolution(screen: &mut ScreenResolution, width: u32, height: u32)
    ensures
        final(screen)@ == (width, height),
{
    screen.width = width;
    screen.height = height;
}

/// The recorded size of the screen, width first.
pub fn get_screen_resolution(screen: &ScreenResolution) -> (size: (u32, u32))
    ensures
        size == screen@,
{
    (screen.width, screen.height)
}

/// Which of the two colour sets of the settings a player is drawn in.
#[derive(Clone, Copy, Debug, PartialEq, Eq)]
pub enum ColorSet {
    /// The `_ct` colours: players of team 2.
    Ct,
    /// The `_t` colours: everybody else.
    T,
}

/// The colour of a player's health bar: high above 60 health, medium above
/// 30, low otherwise.
#[derive(Clone, Copy, Debug, PartialEq, Eq)]
pub enum HealthTier {
    High,
    Medium,
    Low,
}

/// Draws boxes, health bars, names, distances and skeletons over the game.
pub struct EspRenderer;

impl EspRenderer {
    /// Whether anything is drawn this frame: the overlay is on and there is
    /// at least one enemy.
    pub fn should_render(switches: &CheatSwitches, enemy_count: usize) -> (draw: bool)
        ensures
            draw == (switches.esp_enabled && enemy_count > 0),
    {
        switches.esp_enabled && enemy_count != 0
    }

    /// The colour set of a player of team `team`.
    pub fn color_set(team: i32) -> (set: ColorSet)
        ensures
            set == if team == 2 {
                ColorSet::Ct
            } else {
                ColorSet::T
            },
    {
        if team == 2 {
            ColorSet::Ct
        } else {
            ColorSet::T
        }
    }

    /// The colour of the health bar of a player with `health` points: the
    /// bar fills `health / 100` of its height, clamped to 0..1, and takes the
    /// high colour above 0.6, the medium colour above 0.3, and the low
    /// colour otherwise.
    pub fn health_tier(health: i32) -> (tier: HealthTier)
        ensures
            tier == if health > 60 {
                HealthTier::High
            } else if health > 30 {
                HealthTier::Medium
            } else {
                HealthTier::Low
            },
    {
        if health > 60 {
            HealthTier::High
        } else if health > 30 {
            HealthTier::Medium
        } else {
            HealthTier::Low
        }
    }

    /// The bones that the skeleton joins with lines, pair by pair.
    pub fn skeleton_connections() -> (pairs: Vec<(usize, usize)>)
        ensures
            pairs@ == seq![
                (Offsets::BONE_HEAD, Offsets::BONE_NECK_END),
                (Offsets::BONE_NECK_END, Offsets::BONE_PELVIS),
                (Offsets::BONE_NECK_END, Offsets::BONE_LEFT_SHOULDER),
                (Offsets::BONE_NECK_END, Offsets::BONE_RIGHT_SHOULDER),
                (Offsets::BONE_RIGHT_SHOULDER, Offsets::BONE_RIGHT_ELBOW),
                (Offsets::BONE_LEFT_SHOULDER, Offsets::BONE_LEFT_ELBOW),
                (Offsets::BONE_LEFT_ELBOW, Offsets::HAND_L_BONE),
                (Offsets::BONE_RIGHT_ELBOW, Offsets::HAND_R_BONE),
                (Offsets::BONE_PELVIS, Offsets::BONE_LEFT_HIP),
                (Offsets::BONE_LEFT_HIP, Offsets::BONE_LEFT_KNEE),
                (Offsets::BONE_LEFT_KNEE, Offsets::BONE_LEFT_FOOT),
                (Offsets::BONE_PELVIS, Offsets::BONE_RIGHT_HIP),
                (Offsets::BONE_RIGHT_HIP, Offsets::BONE_RIGHT_KNEE),
                (Offsets::BONE_RIGHT_KNEE, Offsets::BONE_RIGHT_FOOT),
            ],
    {
        vec![
            (Offsets::BONE_HEAD, Offsets::BONE_NECK_END),
            (Offsets::BONE_NECK_END, Offsets::BONE_PELVIS),
            (Offsets::BONE_NECK_END, Offsets::BONE_LEFT_SHOULDER),
            (Offsets::BONE_NECK_END, Offsets::BONE_RIGHT_SHOULDER),
            (Offsets::BONE_RIGHT_SHOULDER, Offsets::BONE_RIGHT_ELBOW),
            (Offsets::BONE_LEFT_SHOULDER, Offsets::BONE_LEFT_ELBOW),
            (Offsets::BONE_LEFT_ELBOW, Offsets::HAND_L_BONE),
            (Offsets::BONE_RIGHT_ELBOW, Offsets::HAND_R_BONE),
            (Offsets::BONE_PELVIS, Offsets::BONE_LEFT_HIP),
            (Offsets::BONE_LEFT_HIP, Offsets::BONE_LEFT_KNEE),
            (Offsets::BONE_LEFT_KNEE, Offsets::BONE_LEFT_FOOT),
            (Offsets::BONE_PELVIS, Offsets::BONE_RIGHT_HIP),
            (Offsets::BONE_RIGHT_HIP, Offsets::BONE_RIGHT_KNEE),
            (Offsets::BONE_RIGHT_KNEE, Offsets::BONE_RIGHT_FOOT),
        ]
    }
}


/// The offsets `(ox, y)` for `y` from `-radius` up to `oy` (excluded), the
/// centre `(0, 0)` left out.
pub open spec fn ring_row(radius: int, ox: int, oy: int) -> Seq<(i32, i32)>
    decreases oy + radius,
{
    if oy <= -radius {
        Seq::empty()
    } else if ox == 0 && oy - 1 == 0 {
        ring_row(radius, ox, oy - 1)
    } else {
        ring_row(radius, ox, oy - 1).push((ox as i32, (oy - 1) as i32))
    }
}

/// The full rows of offsets for `x` from `-radius` up to `ox` (excluded),
/// one after the other.
pub open spec fn ring_rows(radius: int, ox: int) -> Seq<(i32, i32)>
    decreases ox + radius,
{
    if ox <= -radius {
        Seq::empty()
    } else {
        ring_rows(radius, ox - 1) + ring_row(radius, ox - 1, radius + 1)
    }
}

/// Every offset of the square from `-radius` to `radius` in both directions
/// but the centre, row by row with the horizontal offset first.
pub open spec fn ring(radius: int) -> Seq<(i32, i32)> {
    ring_rows(radius, radius + 1)
}

/// `p` comes before `q` when the square is read row by row: a smaller
/// horizontal offset first, and within a row a smaller vertical offset.
pub open spec fn ring_before(p: (i32, i32), q: (i32, i32)) -> bool {
    p.0 < q.0 || (p.0 == q.0 && p.1 < q.1)
}

proof fn lemma_ring_row_shape(radius: int, ox: int, oy: int)
    requires
        0 <= radius < i32::MAX,
        -radius <= ox <= radius,
        -radius <= oy <= radius + 1,
    ensures
        forall|i: int|
            0 <= i < ring_row(radius, ox, oy).len() ==> {
                let p = #[trigger] ring_row(radius, ox, oy)[i];
                &&& p.0 == ox
                &&& -radius <= p.1 < oy
                &&& !(p.0 == 0 && p.1 == 0)
            },
        forall|i: int, j: int|
            0 <= i < j < ring_row(radius, ox, oy).len() ==> #[trigger] ring_row(radius, ox, oy)[i].1
                < #[trigger] ring_row(radius, ox, oy)[j].1,
        forall|y: int|
            -radius <= y < oy && !(ox == 0 && y == 0) ==> #[trigger] ring_row(radius, ox, oy).contains(
                (ox as i32, y as i32),
            ),
    decreases oy + radius,
{
    if oy > -radius {
        lemma_ring_row_shape(radius, ox, oy - 1);
        let prev = ring_row(radius, ox, oy - 1);
        if !(ox == 0 && oy - 1 == 0) {
            let cur = ring_row(radius, ox, oy);
            assert(cur == prev.push((ox as i32, (oy - 1) as i32)));
            assert forall|y: int| -radius <= y < oy && !(ox == 0 && y == 0) implies #[trigger] cur.contains(
                (ox as i32, y as i32),
            ) by {
                if y == oy - 1 {
                    assert(cur[prev.len() as int] == (ox as i32, y as i32));
                } else {
                    assert(prev.contains((ox as i32, y as i32)));
                    let k = choose|k: int| 0 <= k < prev.len() && prev[k] == (ox as i32, y as i32);
                    assert(cur[k] == prev[k]);
                }
            }
        }
    }
}

proof fn lemma_ring_rows_shape(radius: int, ox: int)
    requires
        0 <= radius < i32::MAX,
        -radius <= ox <= radius + 1,
    ensures
        forall|i: int|
            0 <= i < ring_rows(radius, ox).len() ==> {
                let p = #[trigger] ring_rows(radius, ox)[i];
                &&& -radius <= p.0 < ox
                &&& -radius <= p.1 <= radius
                &&& !(p.0 == 0 && p.1 == 0)
            },
        forall|i: int, j: int|
            0 <= i < j < ring_rows(radius, ox).len() ==> ring_before(
                #[trigger] ring_rows(radius, ox)[i],
                #[trigger] ring_rows(radius, ox)[j],
            ),
        forall|x: int, y: int|
            -radius <= x < ox && -radius <= y <= radius && !(x == 0 && y == 0)
                ==> #[trigger] ring_rows(radius, ox).contains((x as i32, y as i32)),
    decreases ox + radius,
{
    if ox > -radius {
        lemma_ring_rows_shape(radius, ox - 1);
        lemma_ring_row_shape(radius, ox - 1, radius + 1);
        let a = ring_rows(radius, ox - 1);
        let b = ring_row(radius, ox - 1, radius + 1);
        let c = ring_rows(radius, ox);
        assert(c == a + b);
        assert forall|i: int| 0 <= i < c.len() implies {
            let p = #[trigger] c[i];
            &&& -radius <= p.0 < ox
            &&& -radius <= p.1 <= radius
            &&& !(p.0 == 0 && p.1 == 0)
        } by {
            if i >= a.len() {
                assert(c[i] == b[i - a.len()]);
            } else {
                assert(c[i] == a[i]);
            }
        }
        assert forall|i: int, j: int| 0 <= i < j < c.len() implies ring_before(
            #[trigger] c[i],
            #[trigger] c[j],
        ) by {
            if j < a.len() {
                assert(c[i] == a[i] && c[j] == a[j]);
            } else if i >= a.len() {
                assert(c[i] == b[i - a.len()] && c[j] == b[j - a.len()]);
            } else {
                assert(c[i] == a[i] && c[j] == b[j - a.len()]);
            }
        }
        assert forall|x: int, y: int|
            -radius <= x < ox && -radius <= y <= radius && !(x == 0 && y == 0) implies #[trigger] c.contains(
            (x as i32, y as i32),
        ) by {
            if x == ox - 1 {
                assert(b.contains((x as i32, y as i32)));
                let k = choose|k: int| 0 <= k < b.len() && b[k] == (x as i32, y as i32);
                assert(c[a.len() + k] == b[k]);
            } else {
                assert(a.contains((x as i32, y as i32)));
                let k = choose|k: int| 0 <= k < a.len() && a[k] == (x as i32, y as i32);
                assert(c[k] == a[k]);
            }
        }
    }
}

/// The outline offsets of a radius are every offset of the square from
/// `-radius` to `radius` in both directions but the centre, each once, in
/// row order: every such offset occurs, every element is such an offset,
/// and the elements strictly increase, the horizontal offset first.
pub proof fn lemma_outline_offsets_ring_the_centre(radius: int, x: int, y: int)
    requires
        0 <= radius < i32::MAX,
    ensures
        -radius <= x <= radius && -radius <= y <= radius && !(x == 0 && y == 0) ==> ring(
            radius,
        ).contains((x as i32, y as i32)),
        forall|i: int|
            0 <= i < ring(radius).len() ==> {
                let p = #[trigger] ring(radius)[i];
                &&& -radius <= p.0 <= radius
                &&& -radius <= p.1 <= radius
                &&& !(p.0 == 0 && p.1 == 0)
            },
        forall|i: int, j: int|
            0 <= i < j < ring(radius).len() ==> ring_before(
                #[trigger] ring(radius)[i],
                #[trigger] ring(radius)[j],
            ),
{
    lemma_ring_rows_shape(radius, radius + 1);
}

impl EspRenderer {
    /// The offsets at which a text is drawn again, in a darker or fainter
    /// colour, to give it an outline or a glow of `radius` pixels.
    pub fn outline_offsets(radius: i32) -> (offsets: Vec<(i32, i32)>)
        requires
            radius < i32::MAX,
        ensures
            offsets@ == ring(radius as int),
    {
        let mut offsets: Vec<(i32, i32)> = Vec::new();
        if radius < 0 {
            assert(ring(radius as int) == Seq::<(i32, i32)>::empty());
            return offsets;
        }
        let ghost r = radius as int;
        let mut ox: i32 = -radius;
        while ox <= radius
            invariant
                0 <= r < i32::MAX,
                r == radius,
                -r <= ox <= r + 1,
                offsets@ == ring_rows(r, ox as int),
            decreases r + 1 - ox,
        {
            let ghost done = offsets@;
            let mut oy: i32 = -radius;
            while oy <= radius
                invariant
                    0 <= r < i32::MAX,
                    r == radius,
                    -r <= ox <= r,
                    -r <= oy <= r + 1,
                    offsets@ == done + ring_row(r, ox as int, oy as int),
                decreases r + 1 - oy,
            {
                if !(ox == 0 && oy == 0) {
                    offsets.push((ox, oy));
                    assert(offsets@ == done + ring_row(r, ox as int, oy + 1));
                }
                oy = oy + 1;
            }
            ox = ox + 1;
            assert(offsets@ == ring_rows(r, ox as int));
        }
        offsets
    }
}

}
