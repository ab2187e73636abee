//! Texas post-primary processing: the SQL that finds the races needing a
//! runoff and creates runoff races and candidates, and creates the general
//! election races and candidates of the primary winners (in production, or
//! in staging tables for a dry run), and the summary of a run.
use vstd::prelude::*;
use crate::text::{chars_of, concat, decimal, i64_to_chars, string_of, strings_view};

verus! {

/// The state processed.
pub const STATE: &'static str = "TX";

/// The primary election whose races are processed.
pub const PRIMARY_ELECTION_ID: &'static str = "0d586931-c119-4fe7-814f-f679e91282a8";

/// The election of the new runoff races.
pub const PRIMARY_RUNOFF_ELECTION_ID: &'static str = "569fe90b-bbb2-445a-91a2-08d6d0215898";

/// The election of the new general races.
pub const GENERAL_ELECTION_ID: &'static str = "6138cc76-f273-43cf-a017-a98d1119b0c3";

/// The ranked-candidates CTE, up to the primary election id.
pub const RUNOFF_BASE_HEAD: &'static str = r##"
ranked AS (
    SELECT
        rc.race_id,
        rc.candidate_id,
        rc.votes,
        r.total_votes,
        ROW_NUMBER() OVER (
            PARTITION BY rc.race_id
            ORDER BY rc.votes DESC
        ) AS rn
    FROM race_candidates rc
    JOIN race r ON rc.race_id = r.id
    WHERE r.election_id = '"##;

/// Between the election id and the state.
pub const RUNOFF_BASE_MID: &'static str = r##"'::uuid
      AND r.state::text = '"##;

/// The rest of the runoff races CTE.
pub const RUNOFF_BASE_TAIL: &'static str = r##"'
      AND r.num_precincts_reporting = r.total_precincts
      AND r.total_precincts IS NOT NULL
      AND r.num_precincts_reporting IS NOT NULL
      AND rc.votes IS NOT NULL
      AND rc.votes > 0
),
runoff_races AS (
    SELECT
        r.id AS race_id,
        r.title,
        r.slug,
        r.office_id,
        r.race_type,
        r.party_id,
        r.state,
        ARRAY_AGG(ranked.candidate_id ORDER BY ranked.votes DESC) AS top_two,
        COUNT(DISTINCT rc_all.candidate_id) AS total_candidates
    FROM ranked
    JOIN race r ON ranked.race_id = r.id
    JOIN race_candidates rc_all ON rc_all.race_id = r.id
    WHERE ranked.rn <= 2
    GROUP BY r.id, r.title, r.slug, r.office_id, r.race_type, r.party_id, r.state
    HAVING MAX(ranked.votes::float / NULLIF(ranked.total_votes, 0)) < 0.50
       AND COUNT(DISTINCT rc_all.candidate_id) > 2
)"##;

/// The start of the dry-run statement.
pub const DRY_RUN_HEAD: &'static str = r##"WITH
"##;

/// The dry-run runoff inserts, between the base CTE and the general stage.
pub const DRY_RUN_MID: &'static str = r##"
,
inserted_runoff_races AS (
    INSERT INTO ingest_staging.tx_primary_runoff_races
        (id, source_race_id, title, slug, office_id, race_type, election_id)
    SELECT
        gen_random_uuid(),
        rr.race_id,
        trim(rr.title) || ' - Runoff',
        rtrim(rtrim(rr.slug), '- ') || '-runoff',
        rr.office_id,
        rr.race_type::TEXT,
        $1::uuid
    FROM runoff_races rr
    RETURNING id, source_race_id
),
update_winners AS (
    UPDATE race r SET winner_ids = r.winner_ids WHERE false
    RETURNING r.id
),
inserted_candidates AS (
    INSERT INTO ingest_staging.tx_primary_runoff_race_candidates (race_id, candidate_id)
    SELECT irr.id, u.candidate_id
    FROM inserted_runoff_races irr
    JOIN runoff_races rr ON rr.race_id = irr.source_race_id
    CROSS JOIN LATERAL unnest(rr.top_two) AS u(candidate_id)
    ON CONFLICT (race_id, candidate_id) DO NOTHING
    RETURNING race_id
)
"##;

/// The final select of the counts.
pub const RUNOFF_TAIL: &'static str = r##"
SELECT
    (SELECT count(*) FROM inserted_runoff_races)::bigint AS n_runoff_races,
    (SELECT count(*) FROM inserted_candidates)::bigint AS n_runoff_candidates,
    (SELECT count(*) FROM inserted_general_races)::bigint AS n_general_races,
    (SELECT count(*) FROM inserted_general_candidates)::bigint AS n_general_candidates
"##;

/// The production runoff inserts, between the base CTE and the general stage.
pub const PRODUCTION_MID: &'static str = r##"
,
runoff_slugs AS (
    SELECT rr.race_id, rtrim(rtrim(rr.slug), '- ') || '-runoff' AS runoff_slug
    FROM runoff_races rr
),
inserted_runoff_races AS (
    INSERT INTO race (id, slug, title, office_id, race_type, vote_type, party_id, state, election_id, is_special_election)
    SELECT
        gen_random_uuid(),
        rs.runoff_slug,
        trim(rr.title) || ' - Runoff',
        rr.office_id,
        rr.race_type,
        'plurality'::vote_type,
        rr.party_id,
        rr.state,
        $1::uuid,
        false
    FROM runoff_slugs rs
    JOIN runoff_races rr ON rr.race_id = rs.race_id
    ON CONFLICT (slug) DO NOTHING
    RETURNING id, slug
),
all_runoff_races AS (
    SELECT id, slug FROM inserted_runoff_races
    UNION ALL
    SELECT r.id, r.slug
    FROM race r
    WHERE r.slug IN (SELECT runoff_slug FROM runoff_slugs)
      AND r.slug NOT IN (SELECT slug FROM inserted_runoff_races)
),
update_winners AS (
    UPDATE race r
    SET winner_ids = rr.top_two
    FROM runoff_races rr
    WHERE r.id = rr.race_id
      AND (r.winner_ids IS NULL OR r.winner_ids = '{}')
    RETURNING r.id
),
inserted_candidates AS (
    INSERT INTO race_candidates (race_id, candidate_id)
    SELECT arr.id, u.candidate_id
    FROM all_runoff_races arr
    JOIN runoff_races rr ON arr.slug = (rtrim(rtrim(rr.slug), '- ') || '-runoff')
    CROSS JOIN LATERAL unnest(rr.top_two) AS u(candidate_id)
    ON CONFLICT (race_id, candidate_id) DO NOTHING
    RETURNING race_id
)
"##;

/// Part 0 of the general stage CTE template.
pub const GENERAL_PART_0: &'static str = r##",
primary_races AS (
    SELECT r.id, r.title, r.slug, r.office_id, r.num_elect, r.winner_ids, r.state, r.num_precincts_reporting, r.total_precincts, r.total_votes
    FROM race r
    WHERE r.election_id = '"##;

/// Part 1 of the general stage CTE template.
pub const GENERAL_PART_1: &'static str = r##"'::uuid AND r.state::text = '"##;

/// Part 2 of the general stage CTE template.
pub const GENERAL_PART_2: &'static str = r##"' AND r.race_type = 'primary'
),
general_slugs AS (
    SELECT pr.id AS primary_race_id, pr.office_id, pr.state, pr.num_elect,
        replace(replace(replace(trim(pr.title), ' Primary', ' General'), ' Democratic -', ''), ' Republican -', '') AS general_title,
        rtrim(regexp_replace(regexp_replace(regexp_replace(pr.slug, '-primary', '-general', 'i'), '-democratic-', '-', 'gi'), '-republican-', '-', 'gi'), '- ') AS general_slug
    FROM primary_races pr
),
inserted_general_races AS (
    "##;

/// Part 3 of the general stage CTE template.
pub const GENERAL_PART_3: &'static str = r##"
)"##;

/// Part 4 of the general stage CTE template.
pub const GENERAL_PART_4: &'static str = r##",
primary_races_no_runoff AS (
    SELECT pr.* FROM primary_races pr
    WHERE pr.id NOT IN (SELECT race_id FROM runoff_races)
      AND pr.num_precincts_reporting = pr.total_precincts
      AND pr.total_precincts IS NOT NULL
      AND (pr.total_votes > 0 OR pr.total_votes IS NOT NULL)
),
advancing_winners AS (
    SELECT pr.id AS primary_race_id,
        COALESCE(
            CASE WHEN pr.winner_ids IS NOT NULL AND array_length(pr.winner_ids, 1) > 0 THEN pr.winner_ids
                 ELSE (SELECT array_agg(sub.candidate_id ORDER BY sub.votes DESC NULLS LAST) FROM (SELECT rc.candidate_id, rc.votes FROM race_candidates rc WHERE rc.race_id = pr.id ORDER BY rc.votes DESC NULLS LAST LIMIT COALESCE(pr.num_elect::int, 1)) sub)
            END,
            '{}'::uuid[]
        ) AS winner_ids
    FROM primary_races_no_runoff pr
),
update_primary_winners AS (
    "##;

/// Part 5 of the general stage CTE template.
pub const GENERAL_PART_5: &'static str = r##"
    RETURNING r.id
),
inserted_general_candidates AS (
    "##;

/// Part 6 of the general stage CTE template.
pub const GENERAL_PART_6: &'static str = r##" "##;

/// Part 7 of the general stage CTE template.
pub const GENERAL_PART_7: &'static str = r##"
    ON CONFLICT (race_id, candidate_id) DO NOTHING
    RETURNING race_id
)
"##;

/// Dry run: general races go to staging.
pub const DRY_GENERAL_RACES_INSERT: &'static str = r##"INSERT INTO ingest_staging.tx_general_races (id, source_race_id, title, slug, office_id, race_type, election_id, num_elect)
    SELECT gen_random_uuid(), gs.primary_race_id, gs.general_title, gs.general_slug, gs.office_id, 'general', $2::uuid, gs.num_elect
    FROM general_slugs gs
    ON CONFLICT (slug) DO NOTHING
    RETURNING id, slug, source_race_id"##;

/// Production: general races go to `race`.
pub const PRODUCTION_GENERAL_RACES_INSERT: &'static str = r##"INSERT INTO race (id, slug, title, office_id, race_type, vote_type, party_id, state, election_id, is_special_election, num_elect)
    SELECT gen_random_uuid(), gs.general_slug, gs.general_title, gs.office_id, 'general'::race_type, 'plurality'::vote_type, NULL, gs.state, $2::uuid, false, gs.num_elect
    FROM general_slugs gs
    ON CONFLICT (slug) DO NOTHING
    RETURNING id, slug"##;

/// The candidates of the general races.
pub const GENERAL_CANDIDATES_SELECT: &'static str = r##"SELECT agr.id, u.candidate_id
    FROM all_general_races agr
    JOIN general_slugs gs ON gs.general_slug = agr.slug
    JOIN advancing_winners aw ON aw.primary_race_id = gs.primary_race_id
    CROSS JOIN LATERAL unnest(aw.winner_ids) AS u(candidate_id)"##;

/// Dry run: general candidates go to staging.
pub const DRY_GENERAL_CANDIDATES_INSERT: &'static str = r##"INSERT INTO ingest_staging.tx_general_race_candidates (race_id, candidate_id)"##;

/// Dry run: the general races, new and staged.
pub const DRY_ALL_GENERAL_RACES: &'static str = r##",
all_general_races AS (
    SELECT id, slug FROM inserted_general_races
    UNION ALL
    SELECT tgr.id, tgr.slug FROM ingest_staging.tx_general_races tgr
    WHERE tgr.slug IN (SELECT general_slug FROM general_slugs)
      AND tgr.slug NOT IN (SELECT slug FROM inserted_general_races)
)"##;

/// Dry run: winners are not updated.
pub const DRY_UPDATE_WINNERS: &'static str = r##"UPDATE race r SET winner_ids = r.winner_ids WHERE false"##;

/// Production: general candidates go to `race_candidates`.
pub const PRODUCTION_GENERAL_CANDIDATES_INSERT: &'static str = r##"INSERT INTO race_candidates (race_id, candidate_id)"##;

/// Production: the general races, new and existing.
pub const PRODUCTION_ALL_GENERAL_RACES: &'static str = r##",
all_general_races AS (
    SELECT id, slug FROM inserted_general_races
    UNION ALL
    SELECT r.id, r.slug FROM race r
    WHERE r.slug IN (SELECT general_slug FROM general_slugs)
      AND r.slug NOT IN (SELECT slug FROM inserted_general_races)
)"##;

/// Production: primary winners are recorded.
pub const PRODUCTION_UPDATE_WINNERS: &'static str = r##"UPDATE race r SET winner_ids = aw.winner_ids
    FROM advancing_winners aw
    WHERE r.id = aw.primary_race_id AND (r.winner_ids IS NULL OR r.winner_ids = '{}')"##;

/// The shared CTE: the ranked candidates of the fully reported primary
/// races of the state, and the races whose leader has under half the votes
/// and that have more than two candidates.
pub open spec fn runoff_base_cte_text() -> Seq<char> {
    RUNOFF_BASE_HEAD@ + PRIMARY_ELECTION_ID@ + RUNOFF_BASE_MID@ + STATE@ + RUNOFF_BASE_TAIL@
}

/// The shared runoff CTE.
pub fn runoff_base_cte() -> (r: String)
    ensures
        r@ == runoff_base_cte_text(),
{
    let mut t = chars_of(RUNOFF_BASE_HEAD);
    t = concat(&t, &chars_of(PRIMARY_ELECTION_ID));
    t = concat(&t, &chars_of(RUNOFF_BASE_MID));
    t = concat(&t, &chars_of(STATE));
    t = concat(&t, &chars_of(RUNOFF_BASE_TAIL));
    string_of(t.as_slice())
}

/// The general stage CTE: the general race (title and slug made from the
/// primary's, party names dropped) of each primary race, the advancing
/// winners of the races without a runoff, and their general candidates.
pub open spec fn general_stage_text(dry_run: bool) -> Seq<char> {
    GENERAL_PART_0@ + PRIMARY_ELECTION_ID@ + GENERAL_PART_1@ + STATE@ + GENERAL_PART_2@
        + (if dry_run { DRY_GENERAL_RACES_INSERT@ } else { PRODUCTION_GENERAL_RACES_INSERT@ }) + GENERAL_PART_3@
        + (if dry_run { DRY_ALL_GENERAL_RACES@ } else { PRODUCTION_ALL_GENERAL_RACES@ }) + GENERAL_PART_4@
        + (if dry_run { DRY_UPDATE_WINNERS@ } else { PRODUCTION_UPDATE_WINNERS@ }) + GENERAL_PART_5@
        + (if dry_run { DRY_GENERAL_CANDIDATES_INSERT@ } else { PRODUCTION_GENERAL_CANDIDATES_INSERT@ })
        + GENERAL_PART_6@ + GENERAL_CANDIDATES_SELECT@ + GENERAL_PART_7@
}

/// The general stage CTE, writing to staging (dry run) or production.
pub fn general_stage_cte_sql(dry_run: bool) -> (r: String)
    ensures
        r@ == general_stage_text(dry_run),
{
    let (ins, all, upd, cand) = if dry_run {
        (DRY_GENERAL_RACES_INSERT, DRY_ALL_GENERAL_RACES, DRY_UPDATE_WINNERS, DRY_GENERAL_CANDIDATES_INSERT)
    } else {
        (
            PRODUCTION_GENERAL_RACES_INSERT,
            PRODUCTION_ALL_GENERAL_RACES,
            PRODUCTION_UPDATE_WINNERS,
            PRODUCTION_GENERAL_CANDIDATES_INSERT,
        )
    };
    let mut t = chars_of(GENERAL_PART_0);
    t = concat(&t, &chars_of(PRIMARY_ELECTION_ID));
    t = concat(&t, &chars_of(GENERAL_PART_1));
    t = concat(&t, &chars_of(STATE));
    t = concat(&t, &chars_of(GENERAL_PART_2));
    t = concat(&t, &chars_of(ins));
    t = concat(&t, &chars_of(GENERAL_PART_3));
    t = concat(&t, &chars_of(all));
    t = concat(&t, &chars_of(GENERAL_PART_4));
    t = concat(&t, &chars_of(upd));
    t = concat(&t, &chars_of(GENERAL_PART_5));
    t = concat(&t, &chars_of(cand));
    t = concat(&t, &chars_of(GENERAL_PART_6));
    t = concat(&t, &chars_of(GENERAL_CANDIDATES_SELECT));
    t = concat(&t, &chars_of(GENERAL_PART_7));
    string_of(t.as_slice())
}

/// The dry-run statement: runoff races and candidates and general races
/// and candidates into the staging tables, then the counts.
pub open spec fn runoff_dry_run_text() -> Seq<char> {
    DRY_RUN_HEAD@ + runoff_base_cte_text() + DRY_RUN_MID@ + general_stage_text(true) + RUNOFF_TAIL@
}

/// The dry-run statement.
pub fn runoff_cte_dry_run_sql() -> (r: String)
    ensures
        r@ == runoff_dry_run_text(),
{
    let base = runoff_base_cte();
    let general = general_stage_cte_sql(true);
    let mut t = chars_of(DRY_RUN_HEAD);
    t = concat(&t, &chars_of(base.as_str()));
    t = concat(&t, &chars_of(DRY_RUN_MID));
    t = concat(&t, &chars_of(general.as_str()));
    t = concat(&t, &chars_of(RUNOFF_TAIL));
    string_of(t.as_slice())
}

/// The production statement: runoff races (keeping existing ones),
/// winners, candidates, and the general stage, then the counts.
pub open spec fn runoff_production_text() -> Seq<char> {
    DRY_RUN_HEAD@ + runoff_base_cte_text() + PRODUCTION_MID@ + general_stage_text(false) + RUNOFF_TAIL@
}

/// The production statement.
pub fn runoff_cte_production_sql() -> (r: String)
    ensures
        r@ == runoff_production_text(),
{
    let base = runoff_base_cte();
    let general = general_stage_cte_sql(false);
    let mut t = chars_of(DRY_RUN_HEAD);
    t = concat(&t, &chars_of(base.as_str()));
    t = concat(&t, &chars_of(PRODUCTION_MID));
    t = concat(&t, &chars_of(general.as_str()));
    t = concat(&t, &chars_of(RUNOFF_TAIL));
    string_of(t.as_slice())
}

/// The statement of a run.
pub fn post_processing_sql(dry_run: bool) -> (r: String)
    ensures
        r@ == if dry_run { runoff_dry_run_text() } else { runoff_production_text() },
{
    if dry_run {
        runoff_cte_dry_run_sql()
    } else {
        runoff_cte_production_sql()
    }
}

/// The counts a run reports.
pub struct ProcessingResult {
    pub n_runoff_races: i64,
    pub n_runoff_candidates: i64,
    pub n_general_races: i64,
    pub n_general_candidates: i64,
}

/// Where a run writes.
pub open spec fn destination_text(dry_run: bool) -> Seq<char> {
    if dry_run { "staging"@ } else { "production (race, race_candidates)"@ }
}

/// The summary lines of a run: the four counts and the destination; a
/// note when nothing was found.
pub open spec fn summary_lines(r: ProcessingResult, dry_run: bool) -> Seq<Seq<char>> {
    let lines = seq![
        "--- Summary ---"@,
        "  Runoff races inserted:        "@ + decimal(r.n_runoff_races as int),
        "  Runoff race_candidates:       "@ + decimal(r.n_runoff_candidates as int),
        "  General races inserted:      "@ + decimal(r.n_general_races as int),
        "  General race_candidates:     "@ + decimal(r.n_general_candidates as int),
        "  Destination:                 "@ + destination_text(dry_run),
    ];
    if r.n_runoff_races == 0 && r.n_runoff_candidates == 0 && r.n_general_races == 0 && r.n_general_candidates == 0 {
        lines.push("  (No races found for state "@ + STATE@ + " and primary election.)"@)
    } else {
        lines
    }
}

fn labeled(label: &str, v: i64) -> (r: String)
    ensures
        r@ == label@ + decimal(v as int),
{
    string_of(concat(&chars_of(label), &i64_to_chars(v)).as_slice())
}

/// The summary lines of a run.
pub fn post_processing_summary(r: &ProcessingResult, dry_run: bool) -> (lines: Vec<String>)
    ensures
        strings_view(lines@) == summary_lines(*r, dry_run),
{
    let dest = if dry_run { "staging" } else { "production (race, race_candidates)" };
    let mut v: Vec<String> = Vec::new();
    v.push(String::from_str("--- Summary ---"));
    v.push(labeled("  Runoff races inserted:        ", r.n_runoff_races));
    v.push(labeled("  Runoff race_candidates:       ", r.n_runoff_candidates));
    v.push(labeled("  General races inserted:      ", r.n_general_races));
    v.push(labeled("  General race_candidates:     ", r.n_general_candidates));
    v.push(string_of(concat(&chars_of("  Destination:                 "), &chars_of(dest)).as_slice()));
    if r.n_runoff_races == 0 && r.n_runoff_candidates == 0 && r.n_general_races == 0 && r.n_general_candidates == 0 {
        let note = concat(&concat(&chars_of("  (No races found for state "), &chars_of(STATE)), &chars_of(" and primary election.)"));
        v.push(string_of(note.as_slice()));
    }
    assert(strings_view(v@) =~= summary_lines(*r, dry_run));
    v
}

} // verus!
