use ats_scanner::industry::LeadershipIndicator;
use ats_scanner::role_level::{best_role_level, role_level_points, RoleLevel, RoleLevelPoints};
use ats_scanner::signals::{ExperienceIndicator, SenioritySignal};

fn exp(description: &str, weight_tenths: u32) -> ExperienceIndicator {
    ExperienceIndicator {
        indicator_type: "role_keyword".to_string(),
        description: description.to_string(),
        weight_tenths,
        context: String::new(),
    }
}

fn leader(team_size: Option<i32>) -> LeadershipIndicator {
    LeadershipIndicator {
        indicator_type: "team_leadership".to_string(),
        description: "led".to_string(),
        team_size,
        scope: "team".to_string(),
        context: String::new(),
    }
}

fn signal(strength_tenths: u32) -> SenioritySignal {
    SenioritySignal {
        signal_type: "keyword".to_string(),
        description: "mentoring".to_string(),
        strength_tenths,
        context: String::new(),
    }
}

#[test]
fn points_from_every_kind_of_sign() {
    let e = vec![exp("senior", 20), exp("team lead", 15), exp("engineering manager", 10), exp("5 years", 10)];
    let l = vec![leader(Some(2)), leader(Some(8)), leader(Some(25)), leader(None), leader(Some(0))];
    let s = vec![signal(15)];
    let p = role_level_points(&e, &l, Some(7), &s, "looking for a senior engineer to lead");
    assert_eq!(
        p,
        RoleLevelPoints {
            entry: 0,
            mid: 500,
            // years 2000 + indicator 2000 + teams 1000 + 500 + signal 150 + job 1000
            senior: 6650,
            // indicators 1500 + 800 + team 1500 + signal 120 + job 1000
            lead: 4920,
            // team 2000 + signal 90
            executive: 2090,
        }
    );
    assert_eq!(best_role_level(&p), RoleLevel::Senior);
    assert_eq!(best_role_level(&p).name(), "senior");
}

#[test]
fn years_select_one_level() {
    let none: Vec<ExperienceIndicator> = vec![];
    let p = role_level_points(&none, &[], Some(1), &[], "");
    assert_eq!(p.entry, 2000);
    assert_eq!(best_role_level(&p), RoleLevel::Entry);
    let p = role_level_points(&none, &[], Some(13), &[], "director");
    assert_eq!(p.executive, 3000);
    assert_eq!(best_role_level(&p), RoleLevel::Executive);
    let p = role_level_points(&none, &[], Some(-1), &[], "");
    assert_eq!(p, RoleLevelPoints { entry: 0, mid: 0, senior: 0, lead: 0, executive: 0 });
}

#[test]
fn ties_go_to_the_most_junior_level() {
    let p = RoleLevelPoints { entry: 0, mid: 10, senior: 10, lead: 5, executive: 10 };
    assert_eq!(best_role_level(&p), RoleLevel::Mid);
    let z = RoleLevelPoints { entry: 0, mid: 0, senior: 0, lead: 0, executive: 0 };
    assert_eq!(best_role_level(&z), RoleLevel::Entry);
}
