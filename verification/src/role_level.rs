//! The level of role a resume suggests: every sign found in it adds points
//! to one or more levels, and the level with the most points is chosen.
//! Points are counted in thousandths.
use vstd::prelude::*;
use crate::text::{chars_of, contains, contains_chars};
use crate::industry::LeadershipIndicator;
use crate::signals::{ExperienceIndicator, SenioritySignal};

verus! {

/// The levels of role, from the most junior.
#[derive(Debug, Clone, Copy, PartialEq, Eq, Structural)]
pub enum RoleLevel {
    Entry,
    Mid,
    Senior,
    Lead,
    Executive,
}

/// The position of a level, from the most junior.
pub open spec fn level_rank(l: RoleLevel) -> int {
    match l {
        RoleLevel::Entry => 0,
        RoleLevel::Mid => 1,
        RoleLevel::Senior => 2,
        RoleLevel::Lead => 3,
        RoleLevel::Executive => 4,
    }
}

/// The name of a level.
pub open spec fn level_name(l: RoleLevel) -> Seq<char> {
    match l {
        RoleLevel::Entry => "entry"@,
        RoleLevel::Mid => "mid"@,
        RoleLevel::Senior => "senior"@,
        RoleLevel::Lead => "lead"@,
        RoleLevel::Executive => "executive"@,
    }
}

impl RoleLevel {
    /// The name of the level.
    pub fn name(&self) -> (res: String)
        ensures
            res@ == level_name(*self),
    {
        match self {
            RoleLevel::Entry => "entry".to_string(),
            RoleLevel::Mid => "mid".to_string(),
            RoleLevel::Senior => "senior".to_string(),
            RoleLevel::Lead => "lead".to_string(),
            RoleLevel::Executive => "executive".to_string(),
        }
    }
}

/// The points of each level, in thousandths.
#[derive(Debug, Clone, Copy, PartialEq, Eq, Structural)]
pub struct RoleLevelPoints {
    pub entry: u128,
    pub mid: u128,
    pub senior: u128,
    pub lead: u128,
    pub executive: u128,
}

/// The points of one level.
pub open spec fn points_of(p: RoleLevelPoints, l: RoleLevel) -> int {
    match l {
        RoleLevel::Entry => p.entry as int,
        RoleLevel::Mid => p.mid as int,
        RoleLevel::Senior => p.senior as int,
        RoleLevel::Lead => p.lead as int,
        RoleLevel::Executive => p.executive as int,
    }
}

/// Points from the estimated years of experience: two whole points to the
/// level whose range holds them.
pub open spec fn years_points(years: Option<i32>, l: RoleLevel) -> int {
    match years {
        Some(y) => {
            let hit = if 0 <= y <= 2 {
                l == RoleLevel::Entry
            } else if 3 <= y <= 5 {
                l == RoleLevel::Mid
            } else if 6 <= y <= 8 {
                l == RoleLevel::Senior
            } else if 9 <= y <= 12 {
                l == RoleLevel::Lead
            } else {
                y >= 13 && l == RoleLevel::Executive
            };
            if hit { 2000 } else { 0 }
        },
        None => 0,
    }
}

/// The level an experience indicator speaks for, by its description, and
/// the share of its weight it adds there, in hundredths.
pub open spec fn indicator_target(desc: Seq<char>) -> (RoleLevel, int) {
    if contains(desc, "senior"@) {
        (RoleLevel::Senior, 100)
    } else if contains(desc, "lead"@) || contains(desc, "principal"@) {
        (RoleLevel::Lead, 100)
    } else if contains(desc, "director"@) || contains(desc, "vp"@) {
        (RoleLevel::Executive, 100)
    } else if contains(desc, "manager"@) {
        (RoleLevel::Lead, 80)
    } else {
        (RoleLevel::Mid, 50)
    }
}

/// Points one experience indicator adds to a level; its weight is in
/// tenths.
pub open spec fn indicator_points(i: ExperienceIndicator, l: RoleLevel) -> int {
    let (target, share) = indicator_target(i.description@);
    if target == l { share * i.weight_tenths } else { 0 }
}

/// Points the first `n` experience indicators add to a level.
pub open spec fn indicators_points(s: Seq<ExperienceIndicator>, l: RoleLevel, n: int) -> int
    decreases n,
{
    if n <= 0 { 0 } else { indicators_points(s, l, n - 1) + indicator_points(s[n - 1], l) }
}

/// Points one leadership indicator adds to a level, by the size of the team.
pub open spec fn team_points(team: Option<i32>, l: RoleLevel) -> int {
    match team {
        Some(t) => if 1 <= t <= 3 {
            if l == RoleLevel::Senior { 1000 } else { 0 }
        } else if 4 <= t <= 10 {
            if l == RoleLevel::Lead { 1500 } else { 0 }
        } else if t >= 11 {
            if l == RoleLevel::Executive { 2000 } else { 0 }
        } else {
            0
        },
        None => if l == RoleLevel::Senior { 500 } else { 0 },
    }
}

/// Points the first `n` leadership indicators add to a level.
pub open spec fn leaders_points(s: Seq<LeadershipIndicator>, l: RoleLevel, n: int) -> int
    decreases n,
{
    if n <= 0 { 0 } else { leaders_points(s, l, n - 1) + team_points(s[n - 1].team_size, l) }
}

/// Points a seniority signal adds to a level: a tenth of its strength
/// (given in tenths) to senior, eight tenths of that to lead and six
/// tenths to executive.
pub open spec fn signal_points(strength_tenths: int, l: RoleLevel) -> int {
    match l {
        RoleLevel::Senior => 10 * strength_tenths,
        RoleLevel::Lead => 8 * strength_tenths,
        RoleLevel::Executive => 6 * strength_tenths,
        _ => 0,
    }
}

/// Points the first `n` seniority signals add to a level.
pub open spec fn signals_points(s: Seq<SenioritySignal>, l: RoleLevel, n: int) -> int
    decreases n,
{
    if n <= 0 { 0 } else { signals_points(s, l, n - 1) + signal_points(s[n - 1].strength_tenths as int, l) }
}

/// Points the words of the job description add to a level.
pub open spec fn job_points(job: Seq<char>, l: RoleLevel) -> int {
    match l {
        RoleLevel::Senior => if contains(job, "senior"@) { 1000 } else { 0 },
        RoleLevel::Lead => if contains(job, "lead"@) || contains(job, "principal"@) { 1000 } else { 0 },
        RoleLevel::Executive => if contains(job, "director"@) || contains(job, "manager"@) { 1000 } else { 0 },
        _ => 0,
    }
}

/// All the points of a level.
pub open spec fn level_score(
    experience: Seq<ExperienceIndicator>,
    leadership: Seq<LeadershipIndicator>,
    years: Option<i32>,
    signals: Seq<SenioritySignal>,
    job: Seq<char>,
    l: RoleLevel,
) -> int {
    years_points(years, l) + indicators_points(experience, l, experience.len() as int)
        + leaders_points(leadership, l, leadership.len() as int)
        + signals_points(signals, l, signals.len() as int) + job_points(job, l)
}

fn add_points(p: &mut RoleLevelPoints, l: RoleLevel, amount: u128)
    requires
        points_of(*old(p), l) + amount <= u128::MAX,
    ensures
        forall|m: RoleLevel| #[trigger] points_of(*final(p), m) == points_of(*old(p), m) + if m == l { amount as int } else { 0 },
{
    match l {
        RoleLevel::Entry => p.entry = p.entry + amount,
        RoleLevel::Mid => p.mid = p.mid + amount,
        RoleLevel::Senior => p.senior = p.senior + amount,
        RoleLevel::Lead => p.lead = p.lead + amount,
        RoleLevel::Executive => p.executive = p.executive + amount,
    }
}

fn mentions(v: &Vec<char>, k: &str) -> (res: bool)
    ensures
        res == contains(v@, k@),
{
    contains_chars(v, &chars_of(k))
}

fn indicator_target_of(desc: &str) -> (res: (RoleLevel, u128))
    ensures
        (res.0, res.1 as int) == indicator_target(desc@),
{
    let d = chars_of(desc);
    if mentions(&d, "senior") {
        (RoleLevel::Senior, 100)
    } else if mentions(&d, "lead") || mentions(&d, "principal") {
        (RoleLevel::Lead, 100)
    } else if mentions(&d, "director") || mentions(&d, "vp") {
        (RoleLevel::Executive, 100)
    } else if mentions(&d, "manager") {
        (RoleLevel::Lead, 80)
    } else {
        (RoleLevel::Mid, 50)
    }
}

/// The points every level gets from the signs found in a resume and the
/// words of the job description, in thousandths.
pub fn role_level_points(
    experience_indicators: &[ExperienceIndicator],
    leadership_indicators: &[LeadershipIndicator],
    years_experience: Option<i32>,
    seniority_signals: &[SenioritySignal],
    job_description: &str,
) -> (res: RoleLevelPoints)
    ensures
        forall|l: RoleLevel| #[trigger] points_of(res, l) == level_score(
            experience_indicators@,
            leadership_indicators@,
            years_experience,
            seniority_signals@,
            job_description@,
            l,
        ),
{
    let mut p = RoleLevelPoints { entry: 0, mid: 0, senior: 0, lead: 0, executive: 0 };
    match years_experience {
        Some(y) => {
            if 0 <= y && y <= 2 {
                add_points(&mut p, RoleLevel::Entry, 2000);
            } else if 3 <= y && y <= 5 {
                add_points(&mut p, RoleLevel::Mid, 2000);
            } else if 6 <= y && y <= 8 {
                add_points(&mut p, RoleLevel::Senior, 2000);
            } else if 9 <= y && y <= 12 {
                add_points(&mut p, RoleLevel::Lead, 2000);
            } else if y >= 13 {
                add_points(&mut p, RoleLevel::Executive, 2000);
            }
        },
        None => {},
    }
    assert(forall|m: RoleLevel| #[trigger] points_of(p, m) == years_points(years_experience, m));

    let ghost base: int = 2000;
    let n1 = experience_indicators.len();
    let mut i: usize = 0;
    while i < n1
        invariant
            i <= n1,
            base == 2000,
            n1 == experience_indicators@.len(),
            forall|m: RoleLevel| #[trigger] points_of(p, m) == years_points(years_experience, m)
                + indicators_points(experience_indicators@, m, i as int),
            forall|m: RoleLevel| #[trigger] points_of(p, m) <= base + i * 0x100_0000_0000,
        decreases n1 - i,
    {
        let ind = &experience_indicators[i];
        let (target, share) = indicator_target_of(ind.description.as_str());
        assert(share * (ind.weight_tenths as u128) <= 100 * 0xffff_ffffu128) by (nonlinear_arith)
            requires
                share <= 100,
                ind.weight_tenths <= 0xffff_ffffu32,
        ;
        let amount: u128 = share * (ind.weight_tenths as u128);
        assert(points_of(p, target) <= base + i * 0x100_0000_0000);
        assert(i < 0x1_0000_0000_0000_0000);
        add_points(&mut p, target, amount);
        assert forall|m: RoleLevel| #[trigger] points_of(p, m) == years_points(years_experience, m)
            + indicators_points(experience_indicators@, m, (i + 1) as int) by {
            assert(indicator_points(experience_indicators@[i as int], m) == if m == target { amount as int } else { 0 });
        }
        i = i + 1;
    }

    let ghost base2: int = base + n1 * 0x100_0000_0000;
    let n2 = leadership_indicators.len();
    let mut j: usize = 0;
    while j < n2
        invariant
            j <= n2,
            n1 == experience_indicators@.len(),
            n2 == leadership_indicators@.len(),
            base2 == 2000 + n1 * 0x100_0000_0000,
            forall|m: RoleLevel| #[trigger] points_of(p, m) == years_points(years_experience, m)
                + indicators_points(experience_indicators@, m, n1 as int)
                + leaders_points(leadership_indicators@, m, j as int),
            forall|m: RoleLevel| #[trigger] points_of(p, m) <= base2 + j * 0x100_0000_0000,
        decreases n2 - j,
    {
        match leadership_indicators[j].team_size {
            Some(t) => {
                if 1 <= t && t <= 3 {
                    add_points(&mut p, RoleLevel::Senior, 1000);
                } else if 4 <= t && t <= 10 {
                    add_points(&mut p, RoleLevel::Lead, 1500);
                } else if t >= 11 {
                    add_points(&mut p, RoleLevel::Executive, 2000);
                }
            },
            None => {
                add_points(&mut p, RoleLevel::Senior, 500);
            },
        }
        assert forall|m: RoleLevel| #[trigger] points_of(p, m) == years_points(years_experience, m)
            + indicators_points(experience_indicators@, m, n1 as int)
            + leaders_points(leadership_indicators@, m, (j + 1) as int) by {}
        j = j + 1;
    }

    let ghost base3: int = base2 + n2 * 0x100_0000_0000;
    let n3 = seniority_signals.len();
    let mut k: usize = 0;
    while k < n3
        invariant
            k <= n3,
            n1 == experience_indicators@.len(),
            n2 == leadership_indicators@.len(),
            n3 == seniority_signals@.len(),
            base3 == 2000 + n1 * 0x100_0000_0000 + n2 * 0x100_0000_0000,
            forall|m: RoleLevel| #[trigger] points_of(p, m) == years_points(years_experience, m)
                + indicators_points(experience_indicators@, m, n1 as int)
                + leaders_points(leadership_indicators@, m, n2 as int)
                + signals_points(seniority_signals@, m, k as int),
            forall|m: RoleLevel| #[trigger] points_of(p, m) <= base3 + k * 0x100_0000_0000,
        decreases n3 - k,
    {
        let st: u128 = seniority_signals[k].strength_tenths as u128;
        add_points(&mut p, RoleLevel::Senior, 10 * st);
        add_points(&mut p, RoleLevel::Lead, 8 * st);
        add_points(&mut p, RoleLevel::Executive, 6 * st);
        k = k + 1;
    }

    let job = chars_of(job_description);
    if mentions(&job, "senior") {
        add_points(&mut p, RoleLevel::Senior, 1000);
    }
    if mentions(&job, "lead") || mentions(&job, "principal") {
        add_points(&mut p, RoleLevel::Lead, 1000);
    }
    if mentions(&job, "director") || mentions(&job, "manager") {
        add_points(&mut p, RoleLevel::Executive, 1000);
    }
    p
}

/// A level with the most points; among levels with equal points, the most
/// junior.
pub fn best_role_level(points: &RoleLevelPoints) -> (res: RoleLevel)
    ensures
        forall|m: RoleLevel| #[trigger] points_of(*points, m) <= points_of(*points, res),
        forall|m: RoleLevel| level_rank(m) < level_rank(res) ==> #[trigger] points_of(*points, m) < points_of(*points, res),
{
    let mut best = RoleLevel::Entry;
    let mut top = points.entry;
    if points.mid > top {
        best = RoleLevel::Mid;
        top = points.mid;
    }
    if points.senior > top {
        best = RoleLevel::Senior;
        top = points.senior;
    }
    if points.lead > top {
        best = RoleLevel::Lead;
        top = points.lead;
    }
    if points.executive > top {
        best = RoleLevel::Executive;
    }
    best
}


/// An empty job description mentions no level.
proof fn lemma_empty_mentions_nothing(l: RoleLevel)
    ensures
        job_points(Seq::empty(), l) == 0,
{
    reveal_strlit("senior");
    reveal_strlit("lead");
    reveal_strlit("principal");
    reveal_strlit("director");
    reveal_strlit("manager");
    assert(!contains(Seq::<char>::empty(), "senior"@));
    assert(!contains(Seq::<char>::empty(), "lead"@));
    assert(!contains(Seq::<char>::empty(), "principal"@));
    assert(!contains(Seq::<char>::empty(), "director"@));
    assert(!contains(Seq::<char>::empty(), "manager"@));
}

/// With an estimate of years and no other sign, exactly one level gets
/// the two points of the estimate: entry for up to 2 years, mid for 3 to
/// 5, senior for 6 to 8, lead for 9 to 12 and executive for 13 or more; a
/// negative estimate gives nothing. So more years never point to a more
/// junior level.
pub proof fn law_years_alone(y: i32, l: RoleLevel)
    ensures
        level_score(Seq::empty(), Seq::empty(), Some(y), Seq::empty(), Seq::empty(), l) == if (0 <= y <= 2 && l
            == RoleLevel::Entry) || (3 <= y <= 5 && l == RoleLevel::Mid) || (6 <= y <= 8 && l == RoleLevel::Senior)
            || (9 <= y <= 12 && l == RoleLevel::Lead) || (y >= 13 && l == RoleLevel::Executive) {
            2000int
        } else {
            0int
        },
{
    lemma_empty_mentions_nothing(l);
}

/// More years never give their points to a more junior level.
pub proof fn law_more_years_never_more_junior(y1: i32, y2: i32, l1: RoleLevel, l2: RoleLevel)
    requires
        0 <= y1 <= y2,
        years_points(Some(y1), l1) > 0,
        years_points(Some(y2), l2) > 0,
    ensures
        level_rank(l1) <= level_rank(l2),
{
}

} // verus!
