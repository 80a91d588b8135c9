use rand::rngs::StdRng;
use rand::SeedableRng;

use starbound::simulation::people::{
    culture_names, eligible_titles, first_matching_culture, fallback_title, generate_npc_connections, pick_npc_name, try_pick_npc_name, BiologicalSex,
    HumanNamePools, NamePools, NameSet, NpcLink, NpcRelationType, NpcSeed, Species,
    SyntheticNamePools, TitleOption,
};
use starbound::simulation::galaxy::InfrastructureLevel;

fn set(male: &[&str], female: &[&str], family: &[&str]) -> NameSet {
    NameSet {
        given_male: male.iter().map(|s| s.to_string()).collect(),
        given_female: female.iter().map(|s| s.to_string()).collect(),
        family: family.iter().map(|s| s.to_string()).collect(),
    }
}

fn pools() -> NamePools {
    NamePools {
        human: HumanNamePools {
            by_culture_tag: vec![
                ("hegemony".to_string(), set(&["Aurel"], &["Livia"], &["Castor"])),
                ("free".to_string(), set(&["Jonah"], &["Mara"], &["Reyes"])),
            ],
            default: set(&["Sam"], &["Ada"], &["Smith"]),
        },
        synthetic: SyntheticNamePools {
            chassis_types: vec!["humanoid frame".to_string()],
            adopted_names: vec!["Echo".to_string()],
            designations: vec!["KX-7".to_string()],
        },
    }
}

#[test]
fn culture_follows_the_civilization_name() {
    let p = pools();
    assert_eq!(culture_names(&p.human, Some("The Hegemony")).family, vec!["Castor".to_string()]);
    // The tag contains the name's first word, lower-cased.
    assert_eq!(culture_names(&p.human, Some("Free Worlds")).family, vec!["Reyes".to_string()]);
    assert_eq!(culture_names(&p.human, Some("Outer Reach")).family, vec!["Smith".to_string()]);
    assert_eq!(culture_names(&p.human, None).family, vec!["Smith".to_string()]);
}

#[test]
fn humans_get_a_name_of_their_culture() {
    let p = pools();
    let mut rng = StdRng::seed_from_u64(3);
    let species = Species::Human { sex: BiologicalSex::Female };
    assert_eq!(pick_npc_name(&p, &species, Some("Free Worlds"), &vec![], &mut rng), "Mara Reyes");
    let male = Species::Human { sex: BiologicalSex::Male };
    assert_eq!(pick_npc_name(&p, &male, Some("The Hegemony"), &vec![], &mut rng), "Aurel Castor");
    // With the only name taken, the last draw is kept anyway.
    let used = vec!["Sam Smith".to_string()];
    assert_eq!(pick_npc_name(&p, &male, None, &used, &mut rng), "Sam Smith");
}

#[test]
fn synthetics_and_aliens_are_named_by_their_pools() {
    let p = pools();
    for seed in 0..20u64 {
        let mut rng = StdRng::seed_from_u64(seed);
        let name = pick_npc_name(&p, &Species::Synthetic { chassis: "humanoid frame".to_string() }, None, &vec![], &mut rng);
        assert!(name == "Echo" || name == "KX-7");
    }
    let mut bare = pools();
    bare.synthetic.adopted_names.clear();
    bare.synthetic.designations.clear();
    let mut rng = StdRng::seed_from_u64(1);
    assert_eq!(pick_npc_name(&bare, &Species::Synthetic { chassis: String::new() }, None, &vec![], &mut rng), "Unit");
    assert_eq!(
        pick_npc_name(&p, &Species::Alien { kind: "Vessari".to_string() }, None, &vec![], &mut rng),
        "Vessari envoy"
    );
}

#[test]
fn a_culture_without_names_names_nobody() {
    let mut p = pools();
    p.human.default.family.clear();
    let mut rng = StdRng::seed_from_u64(5);
    let species = Species::Human { sex: BiologicalSex::Male };
    assert_eq!(try_pick_npc_name(&p, &species, Some("Outer Reach"), &vec![], &mut rng), None);
    assert_eq!(
        try_pick_npc_name(&p, &species, Some("The Hegemony"), &vec![], &mut rng),
        Some("Aurel Castor".to_string())
    );
}

fn seed(id: u128, home_system: u128, faction: Option<u128>, warm: bool) -> NpcSeed {
    NpcSeed { id, home_system, faction, warm }
}

#[test]
fn neighbours_know_each_other_by_faction_and_temper() {
    let seeds = vec![
        seed(1, 10, Some(100), true),
        seed(2, 10, Some(100), true),
        seed(3, 10, Some(200), false),
        seed(4, 20, None, false),
    ];
    let mut apart = vec![vec![false; 4]; 4];
    let mut rng = StdRng::seed_from_u64(9);
    let links = generate_npc_connections(&seeds, &apart, &mut rng);
    assert_eq!(
        links[0],
        vec![
            NpcLink { other: 2, relationship: NpcRelationType::OldFriend },
            NpcLink { other: 3, relationship: NpcRelationType::Acquaintance },
        ]
    );
    assert_eq!(links[2][0], NpcLink { other: 1, relationship: NpcRelationType::Acquaintance });
    assert_eq!(links[2][1], NpcLink { other: 2, relationship: NpcRelationType::Acquaintance });
    // Nobody shares a system or a faction with the last person.
    assert!(links[3].is_empty());

    apart[0][1] = true;
    let links = generate_npc_connections(&seeds, &apart, &mut rng);
    assert_eq!(links[0][0], NpcLink { other: 2, relationship: NpcRelationType::Rival });
    assert_eq!(links[1][0], NpcLink { other: 1, relationship: NpcRelationType::Rival });
}

#[test]
fn connections_are_mutual() {
    let seeds: Vec<NpcSeed> = (0..8u128)
        .map(|k| seed(k, k % 3, if k % 2 == 0 { Some(7) } else { None }, k % 4 == 0))
        .collect();
    let apart: Vec<Vec<bool>> = (0..8).map(|i| (0..8).map(|j| (i + j) % 5 == 0).collect()).collect();
    for s in 0..10u64 {
        let mut rng = StdRng::seed_from_u64(s);
        let links = generate_npc_connections(&seeds, &apart, &mut rng);
        for (a, list) in links.iter().enumerate() {
            for link in list {
                let b = link.other as usize;
                assert_ne!(a, b);
                assert!(links[b].contains(&NpcLink { other: a as u128, relationship: link.relationship }));
            }
        }
    }
}

fn title(t: &str, min: &str) -> TitleOption {
    TitleOption { title: t.to_string(), min_infra: min.to_string() }
}

#[test]
fn titles_follow_the_place_development() {
    let titles = vec![title("Governor", "Capital"), title("Clerk", "outpost"), title("Factor", "COLONY")];
    assert_eq!(eligible_titles(&titles, InfrastructureLevel::Colony), vec![1, 2]);
    assert_eq!(eligible_titles(&titles, InfrastructureLevel::Capital), vec![0, 1, 2]);
    assert_eq!(eligible_titles(&titles, InfrastructureLevel::Uninhabited), Vec::<usize>::new());
    // An unknown key asks for no development at all.
    assert_eq!(eligible_titles(&vec![title("Drifter", "anywhere")], InfrastructureLevel::Uninhabited), vec![0]);
    assert_eq!(fallback_title(&titles), "Governor");
    assert_eq!(fallback_title(&vec![]), "Representative");
}

#[test]
fn culture_matching_reads_lowered_text() {
    let p = pools();
    let tags = &p.human.by_culture_tag;
    assert_eq!(first_matching_culture(tags, "the hegemony", "the"), Some(0));
    assert_eq!(first_matching_culture(tags, "free worlds", "free"), Some(1));
    assert_eq!(first_matching_culture(tags, "outer reach", "outer"), None);
    // An empty first word is contained in every tag.
    assert_eq!(first_matching_culture(tags, "", ""), Some(0));
}

#[test]
fn a_free_name_is_kept_when_one_turns_up() {
    let mut p = pools();
    p.human.default = set(&["Sam"], &["Ada"], &["Smith", "Jones"]);
    let male = Species::Human { sex: BiologicalSex::Male };
    let used = vec!["Sam Smith".to_string()];
    for s in 0..20u64 {
        let mut rng = StdRng::seed_from_u64(s);
        assert_eq!(pick_npc_name(&p, &male, None, &used, &mut rng), "Sam Jones");
    }
}
