use populist_scrapers::congress::{
    house_district_count, house_primary_races, primary_election_fields, primary_type_for_state,
    seed_offices_for_state, Chamber, PrimaryType,
};

#[test]
fn district_counts_come_from_the_table() {
    assert_eq!(house_district_count("California"), Some(52));
    assert_eq!(house_district_count("Alaska"), Some(1));
    assert_eq!(house_district_count("Texas"), Some(38));
    assert_eq!(house_district_count("Atlantis"), None);
    assert_eq!(house_district_count("california"), None);
}

#[test]
fn primary_types_by_state_code() {
    assert!(matches!(primary_type_for_state("AL"), Some(PrimaryType::Partisan)));
    assert!(matches!(primary_type_for_state("AK"), Some(PrimaryType::TopFour)));
    assert!(matches!(primary_type_for_state("CA"), Some(PrimaryType::TopTwo)));
    assert!(primary_type_for_state("ZZ").is_none());
}

#[test]
fn a_state_gets_one_house_office_per_district_and_two_senate_offices() {
    let seeds = seed_offices_for_state("CT", "Connecticut");
    assert_eq!(seeds.len(), 5 + 2);
    let first = &seeds[0];
    assert_eq!(first.slug, "us-house-ct-1");
    assert_eq!(first.title, "U.S. Representative");
    assert_eq!(first.name, "U.S. House");
    assert_eq!(first.office_type, "Congressional");
    assert_eq!(first.priority, 6);
    assert_eq!(first.subtitle, "CT - District 1");
    assert_eq!(first.subtitle_short, "CT - 1");
    assert!(matches!(first.chamber, Chamber::House));
    assert_eq!(seeds[4].slug, "us-house-ct-5");
    let senate = &seeds[6];
    assert_eq!(senate.slug, "us-senate-ct-2");
    assert_eq!(senate.title, "U.S. Senator");
    assert_eq!(senate.priority, 2);
    assert_eq!(senate.subtitle, "Connecticut");
    assert_eq!(senate.subtitle_short, "CT");
    assert!(matches!(senate.chamber, Chamber::Senate));
}

#[test]
fn an_unknown_state_gets_only_senate_offices() {
    let seeds = seed_offices_for_state("XX", "Nowhere");
    assert_eq!(seeds.len(), 2);
    assert_eq!(seeds[0].slug, "us-senate-xx-1");
}

#[test]
fn primary_election_text_fields() {
    let (title, slug, description) = primary_election_fields("New Mexico");
    assert_eq!(title, "New Mexico Primaries 2024");
    assert_eq!(slug, "new mexico-primaries-2024");
    assert_eq!(
        description,
        "Primary races in New Mexico for the upcoming general election on November 5, 2024"
    );
}

#[test]
fn partisan_states_get_a_primary_per_party() {
    let races = house_primary_races(PrimaryType::Partisan, "TX", "7", "Republican", "Democratic");
    assert_eq!(races.len(), 2);
    assert_eq!(races[0].title, "U.S. House - TX - 7 - Primary - Republican - 2024");
    assert_eq!(races[0].party.as_deref(), Some("Republican"));
    assert_eq!(races[0].num_elect, None);
    assert_eq!(races[1].title, "U.S. House - TX - 7 - Primary - Democratic - 2024");
}

#[test]
fn top_two_and_top_four_primaries() {
    let races = house_primary_races(PrimaryType::TopTwo, "CA", "12", "R", "D");
    assert_eq!(races.len(), 1);
    assert_eq!(races[0].title, "U.S. House - CA - 12 - Primary - 2024");
    assert_eq!(races[0].party, None);
    assert_eq!(races[0].num_elect, Some(2));
    let races = house_primary_races(PrimaryType::TopFour, "AK", "1", "R", "D");
    assert_eq!(races[0].num_elect, Some(4));
    assert!(house_primary_races(PrimaryType::NoPrimary, "LA", "1", "R", "D").is_empty());
}
